//! A deterministic pseudo-random number generator (SplitMix64) and the
//! unbiased bounded draws that the game is built on.

use vstd::prelude::*;
use vstd::relations::injective_on;
use vstd::set_lib::*;

verus! {

/// The increment that SplitMix64 adds to its state on every draw.
pub const GOLDEN_GAMMA: u64 = 0x9e3779b97f4a7c15;

pub const MIX_MUL_1: u64 = 0xbf58476d1ce4e5b9;

pub const MIX_MUL_2: u64 = 0x94d049bb133111eb;

/// The state after `k` draws from `seed` (addition modulo 2^64).
pub open spec fn state_after(seed: u64, k: u64) -> u64 {
    (seed + (k * GOLDEN_GAMMA) as u64) as u64
}

/// The SplitMix64 output function.
#[verifier::opaque]
pub open spec fn mix(z: u64) -> u64 {
    let z1 = ((z ^ (z >> 30u64)) * MIX_MUL_1) as u64;
    let z2 = ((z1 ^ (z1 >> 27u64)) * MIX_MUL_2) as u64;
    z2 ^ (z2 >> 31u64)
}

/// The `k`-th number drawn from a generator seeded with `seed` (`k >= 1`).
pub open spec fn output_at(seed: u64, k: u64) -> u64 {
    mix(state_after(seed, k))
}

/// How many of the smallest `u64` values a draw modulo `upper_bound` rejects,
/// so that every residue is equally likely: `2^64 mod upper_bound`.
pub open spec fn rejection_zone(upper_bound: u64) -> u64 {
    if upper_bound == 0 {
        0
    } else {
        let tmp = (u64::MAX % upper_bound) + 1;
        if tmp == upper_bound {
            0
        } else {
            tmp as u64
        }
    }
}

/// Draw number `k` is the first one, counted from `seed`, that is not rejected.
pub open spec fn first_accepted(seed: u64, zone: u64, k: u64) -> bool {
    &&& 1 <= k
    &&& zone <= output_at(seed, k)
    &&& forall|j: u64| 1 <= j < k ==> output_at(seed, j) < zone
}

/// A draw below `upper_bound` from the state `before` gave `value` and left
/// the state `after`: the first draw that is not rejected, reduced modulo the
/// bound.
#[verifier::opaque]
pub open spec fn bounded_draw(before: u64, upper_bound: u64, value: u64, after: u64) -> bool {
    exists|k: u64|
        #![trigger state_after(before, k)]
        {
            &&& first_accepted(before, rejection_zone(upper_bound), k)
            &&& value == output_at(before, k) % upper_bound
            &&& after == state_after(before, k)
        }
}

pub struct Rng {
    state: u64,
}

impl View for Rng {
    type V = u64;

    closed spec fn view(&self) -> u64 {
        self.state
    }
}

proof fn lemma_mix_injective(a: u64, b: u64)
    requires
        mix(a) == mix(b),
    ensures
        a == b,
{
    reveal(mix);
    let a1 = ((a ^ (a >> 30u64)) * MIX_MUL_1) as u64;
    let b1 = ((b ^ (b >> 30u64)) * MIX_MUL_1) as u64;
    let a2 = ((a1 ^ (a1 >> 27u64)) * MIX_MUL_2) as u64;
    let b2 = ((b1 ^ (b1 >> 27u64)) * MIX_MUL_2) as u64;
    assert(a2 ^ (a2 >> 31u64) == b2 ^ (b2 >> 31u64) ==> a2 == b2) by (bit_vector);
    assert(((a1 ^ (a1 >> 27u64)) * 0x94d049bb133111ebu64) as u64 == ((b1 ^ (b1 >> 27u64))
        * 0x94d049bb133111ebu64) as u64 ==> a1 ^ (a1 >> 27u64) == b1 ^ (b1 >> 27u64))
        by (bit_vector);
    assert(a1 ^ (a1 >> 27u64) == b1 ^ (b1 >> 27u64) ==> a1 == b1) by (bit_vector);
    assert(((a ^ (a >> 30u64)) * 0xbf58476d1ce4e5b9u64) as u64 == ((b ^ (b >> 30u64))
        * 0xbf58476d1ce4e5b9u64) as u64 ==> a ^ (a >> 30u64) == b ^ (b >> 30u64))
        by (bit_vector);
    assert(a ^ (a >> 30u64) == b ^ (b >> 30u64) ==> a == b) by (bit_vector);
}

proof fn lemma_state_after_injective(seed: u64, i: u64, j: u64)
    requires
        state_after(seed, i) == state_after(seed, j),
    ensures
        i == j,
{
    assert((seed + (i * 0x9e3779b97f4a7c15u64) as u64) as u64 == (seed + (j
        * 0x9e3779b97f4a7c15u64) as u64) as u64 ==> i == j) by (bit_vector);
}

proof fn lemma_state_after_step(seed: u64, k: u64)
    requires
        k < u64::MAX,
    ensures
        state_after(seed, (k + 1) as u64) == (state_after(seed, k) + GOLDEN_GAMMA) as u64,
{
    assert(k < 0xffff_ffff_ffff_ffffu64 ==> (seed + (((k + 1) as u64) * 0x9e3779b97f4a7c15u64) as u64) as u64
        == ((seed + (k * 0x9e3779b97f4a7c15u64) as u64) as u64 + 0x9e3779b97f4a7c15u64) as u64)
        by (bit_vector);
}

/// Pigeonhole: the draws of a generator are pairwise distinct, so no more than
/// `zone` consecutive draws can all fall below `zone`.
proof fn lemma_rejections_bounded(seed: u64, zone: u64, n: u64)
    requires
        forall|j: u64| 1 <= j <= n ==> output_at(seed, j) < zone,
    ensures
        n <= zone,
{
    let dom = set_int_range(1, n + 1);
    let img = set_int_range(0, zone as int);
    let f = |j: int| output_at(seed, j as u64) as int;
    lemma_int_range(1, n + 1);
    lemma_int_range(0, zone as int);
    assert forall|x: int, y: int| dom.contains(x) && dom.contains(y) && f(x) == f(y) implies x
        == y by {
        lemma_mix_injective(state_after(seed, x as u64), state_after(seed, y as u64));
        lemma_state_after_injective(seed, x as u64, y as u64);
    }
    assert(injective_on(f, dom));
    lemma_map_size(dom, dom.map(f), f);
    assert forall|v: int| dom.map(f).contains(v) implies img.contains(v) by {
        let j = choose|j: int| dom.contains(j) && f(j) == v;
        assert(output_at(seed, j as u64) < zone);
    }
    lemma_len_subset(dom.map(f), img);
}

proof fn lemma_state_after_compose(seed: u64, a: u64, b: u64)
    ensures
        state_after(state_after(seed, a), b) == state_after(seed, (a + b) as u64),
{
    assert((((seed + (a * 0x9e3779b97f4a7c15u64) as u64) as u64) + (b * 0x9e3779b97f4a7c15u64) as u64) as u64
        == (seed + (((a + b) as u64) * 0x9e3779b97f4a7c15u64) as u64) as u64) by (bit_vector);
}

/// Over a full period the generator passes through every state, so every
/// 64-bit value is produced by some state of it.
proof fn lemma_every_value_drawn(seed: u64, v: u64) -> (k: u64)
    ensures
        mix(state_after(seed, k)) == v,
{
    let full: int = 0x1_0000_0000_0000_0000;
    let dom = set_int_range(0, full);
    let f = |k: int| mix(state_after(seed, k as u64)) as int;
    lemma_int_range(0, full);
    assert forall|x: int, y: int| dom.contains(x) && dom.contains(y) && f(x) == f(y) implies x
        == y by {
        lemma_mix_injective(state_after(seed, x as u64), state_after(seed, y as u64));
        lemma_state_after_injective(seed, x as u64, y as u64);
    }
    assert(injective_on(f, dom));
    lemma_map_size(dom, dom.map(f), f);
    assert forall|w: int| dom.map(f).contains(w) implies dom.contains(w) by {
        let j = choose|j: int| dom.contains(j) && f(j) == w;
    }
    lemma_subset_equality(dom.map(f), dom);
    assert(dom.contains(v as int));
    assert(dom.map(f).contains(v as int));
    let k = choose|k: int| dom.contains(k) && f(k) == v as int;
    k as u64
}

/// From any state, some later draw below a (not too large) bound is accepted
/// and comes out as `target`.
pub proof fn lemma_future_hit(seed: u64, upper_bound: u64, target: u64) -> (k: u64)
    requires
        0 < upper_bound <= 0x1_0000_0000,
        target < upper_bound,
    ensures
        1 <= k,
        rejection_zone(upper_bound) <= output_at(seed, k),
        output_at(seed, k) % upper_bound == target,
{
    let ub = upper_bound as int;
    let q = (u64::MAX - target) / ub;
    assert(0 <= (u64::MAX - target) - ub * q < ub) by (nonlinear_arith)
        requires
            q == (u64::MAX - target) / ub,
            ub > 0,
            u64::MAX - target >= 0,
    {
        vstd::arithmetic::div_mod::lemma_fundamental_div_mod(u64::MAX - target, ub);
    }
    assert(q >= 2) by (nonlinear_arith)
        requires
            0 <= (u64::MAX - target) - ub * q < ub,
            ub <= 0x1_0000_0000,
            target < ub,
    ;
    let v1 = (target + ub * q) as u64;
    let v2 = (target + ub * (q - 1)) as u64;
    assert(ub * (q - 1) == ub * q - ub) by (nonlinear_arith);
    vstd::arithmetic::div_mod::lemma_mod_multiples_vanish(q, target as int, ub);
    vstd::arithmetic::div_mod::lemma_mod_multiples_vanish(q - 1, target as int, ub);
    vstd::arithmetic::div_mod::lemma_small_mod(target as nat, ub as nat);
    assert(v1 % upper_bound == target);
    assert(v2 % upper_bound == target);
    let k1 = lemma_every_value_drawn(seed, v1);
    let k2 = lemma_every_value_drawn(seed, v2);
    if k1 != 0 {
        k1
    } else {
        assert(k2 != 0);
        k2
    }
}

/// A bounded draw made after `done` draws cannot skip over the draw `hit`,
/// which is accepted and comes out as `target`: it stops at or before it.
pub proof fn lemma_draw_until_hit(
    seed: u64,
    done: u64,
    upper_bound: u64,
    target: u64,
    hit: u64,
    value: u64,
    after: u64,
) -> (steps: u64)
    requires
        done < hit,
        rejection_zone(upper_bound) <= output_at(seed, hit),
        output_at(seed, hit) % upper_bound == target,
        bounded_draw(state_after(seed, done), upper_bound, value, after),
    ensures
        1 <= steps,
        done + steps <= hit,
        after == state_after(seed, (done + steps) as u64),
        done + steps == hit ==> value == target,
{
    reveal(bounded_draw);
    let s = state_after(seed, done);
    let k = choose|k: u64|
        #![trigger state_after(s, k)]
        {
            &&& first_accepted(s, rejection_zone(upper_bound), k)
            &&& value == output_at(s, k) % upper_bound
            &&& after == state_after(s, k)
        };
    if done + k > hit {
        let j = (hit - done) as u64;
        lemma_state_after_compose(seed, done, j);
        assert(output_at(s, j) < rejection_zone(upper_bound));
        assert(false);
    }
    lemma_state_after_compose(seed, done, k);
    k
}

/// A bounded draw is determined by the state it starts from and the bound:
/// the same generator state always gives the same number and leaves the
/// same state.
pub proof fn lemma_bounded_draw_deterministic(
    before: u64,
    upper_bound: u64,
    value1: u64,
    after1: u64,
    value2: u64,
    after2: u64,
)
    requires
        bounded_draw(before, upper_bound, value1, after1),
        bounded_draw(before, upper_bound, value2, after2),
    ensures
        value1 == value2,
        after1 == after2,
{
    reveal(bounded_draw);
    let zone = rejection_zone(upper_bound);
    let k1 = choose|k: u64|
        #![trigger state_after(before, k)]
        {
            &&& first_accepted(before, zone, k)
            &&& value1 == output_at(before, k) % upper_bound
            &&& after1 == state_after(before, k)
        };
    let k2 = choose|k: u64|
        #![trigger state_after(before, k)]
        {
            &&& first_accepted(before, zone, k)
            &&& value2 == output_at(before, k) % upper_bound
            &&& after2 == state_after(before, k)
        };
    if k1 < k2 {
        assert(output_at(before, k1) < zone);
    } else if k2 < k1 {
        assert(output_at(before, k2) < zone);
    }
}

impl Rng {
    pub fn new(seed: u64) -> (rng: Rng)
        ensures
            rng@ == seed,
    {
        Rng { state: seed }
    }

    /// The next raw 64-bit number (SplitMix64).
    pub fn next(&mut self) -> (r: u64)
        ensures
            final(self)@ == (old(self)@ + GOLDEN_GAMMA) as u64,
            r == mix(final(self)@),
    {
        let s0 = self.state;
        let z0 = s0.wrapping_add(GOLDEN_GAMMA);
        assert(z0 == (s0 + 0x9e3779b97f4a7c15u64) as u64) by (bit_vector)
            requires
                z0 == vstd::wrapping::u64_specs::wrapping_add(s0, 0x9e3779b97f4a7c15u64),
        ;
        self.state = z0;
        let z1 = (z0 ^ (z0 >> 30u32)).wrapping_mul(MIX_MUL_1);
        let z2 = (z1 ^ (z1 >> 27u32)).wrapping_mul(MIX_MUL_2);
        let r = z2 ^ (z2 >> 31u32);
        proof {
            reveal(mix);
            let x0 = z0 ^ (z0 >> 30u32);
            let x1 = z1 ^ (z1 >> 27u32);
            assert(z0 ^ (z0 >> 30u32) == z0 ^ (z0 >> 30u64)) by (bit_vector);
            assert(z1 ^ (z1 >> 27u32) == z1 ^ (z1 >> 27u64)) by (bit_vector);
            assert(z2 ^ (z2 >> 31u32) == z2 ^ (z2 >> 31u64)) by (bit_vector);
            assert(z1 == (x0 * 0xbf58476d1ce4e5b9u64) as u64) by (bit_vector)
                requires
                    z1 == vstd::wrapping::u64_specs::wrapping_mul(x0, 0xbf58476d1ce4e5b9u64),
            ;
            assert(z2 == (x1 * 0x94d049bb133111ebu64) as u64) by (bit_vector)
                requires
                    z2 == vstd::wrapping::u64_specs::wrapping_mul(x1, 0x94d049bb133111ebu64),
            ;
        }
        r
    }

    /// A uniformly distributed number in `0..upper_bound`, drawn without bias by
    /// rejecting the lowest `2^64 mod upper_bound` raw values.
    pub fn random_number_with_upper_bound(&mut self, upper_bound: u64) -> (r: u64)
        requires
            upper_bound > 0,
        ensures
            r < upper_bound,
            bounded_draw(old(self)@, upper_bound, r, final(self)@),
    {
        let tmp = (u64::MAX % upper_bound) + 1;
        let range = if tmp == upper_bound {
            0u64
        } else {
            tmp
        };
        let ghost seed = self.state;
        let mut k: u64 = 0;
        assert(state_after(seed, 0) == seed) by (bit_vector);
        loop
            invariant
                seed == old(self)@,
                range == rejection_zone(upper_bound),
                range < upper_bound,
                k <= range,
                self.state == state_after(seed, k),
                forall|j: u64| 1 <= j <= k ==> output_at(seed, j) < range,
            decreases range - k,
        {
            proof {
                lemma_state_after_step(seed, k);
            }
            let random = self.next();
            k = k + 1;
            if random >= range {
                let r = random % upper_bound;
                assert(first_accepted(seed, range, k));
                reveal(bounded_draw);
                assert(bounded_draw(seed, upper_bound, r, self.state));
                return r;
            }
            proof {
                lemma_rejections_bounded(seed, range, k);
            }
        }
    }

    /// A uniformly distributed number in `start..end`.
    pub fn random_number_in_range(&mut self, start: u64, end: u64) -> (r: u64)
        requires
            start < end,
        ensures
            start <= r < end,
            bounded_draw(old(self)@, (end - start) as u64, (r - start) as u64, final(self)@),
    {
        let delta = end - start;
        start + self.random_number_with_upper_bound(delta)
    }

    /// A uniformly distributed number in `start..=end`.
    pub fn random_number_in_range_inclusive(&mut self, start: u64, end: u64) -> (r: u64)
        requires
            start <= end,
        ensures
            start <= r <= end,
            start == 0 && end == u64::MAX ==> final(self)@ == (old(self)@ + GOLDEN_GAMMA) as u64
                && r == mix(final(self)@),
            !(start == 0 && end == u64::MAX) ==> bounded_draw(
                old(self)@,
                (end - start + 1) as u64,
                (r - start) as u64,
                final(self)@,
            ),
    {
        if end == u64::MAX && start == 0 {
            return self.next();
        }
        let delta = end - start + 1;
        start + self.random_number_with_upper_bound(delta)
    }

    /// A random index into a sequence of `len` elements.
    pub fn random_index(&mut self, len: usize) -> (r: usize)
        requires
            len > 0,
        ensures
            r < len,
            bounded_draw(old(self)@, len as u64, r as u64, final(self)@),
    {
        self.random_number_with_upper_bound(len as u64) as usize
    }

    /// A random number in `0..upper_bound`, or `0` (drawing nothing) when the
    /// bound is not positive.
    pub fn random(&mut self, upper_bound: i16) -> (r: i16)
        ensures
            upper_bound <= 0 ==> r == 0 && final(self)@ == old(self)@,
            upper_bound > 0 ==> 0 <= r < upper_bound && bounded_draw(
                old(self)@,
                upper_bound as u64,
                r as u64,
                final(self)@,
            ),
    {
        if upper_bound <= 0 {
            0
        } else {
            self.random_number_with_upper_bound(upper_bound as u64) as i16
        }
    }

    /// A random number in `start..end`.
    pub fn random_in_range(&mut self, start: i16, end: i16) -> (r: i16)
        requires
            0 <= start < end,
        ensures
            start <= r < end,
            bounded_draw(old(self)@, (end - start) as u64, (r - start) as u64, final(self)@),
    {
        self.random_number_in_range(start as u64, end as u64) as i16
    }

    /// `true` with probability `1 / n`: the draw below `n` came out zero.
    pub fn roll_dice(&mut self, n: i16) -> (r: bool)
        requires
            n > 0,
        ensures
            exists|v: u64| #[trigger] bounded_draw(old(self)@, n as u64, v, final(self)@) && v < n && (r
                <==> v == 0),
    {
        let v = self.random(n);
        assert(bounded_draw(old(self)@, n as u64, v as u64, self@));
        v == 0
    }
}

} // verus!
