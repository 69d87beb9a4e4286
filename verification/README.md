# mmheroes_core

The engine of «Герои Мата и Меха», a text quest about a student's exam week,
with its rules proved correct by Verus.

- `src/` — the verified library: the pseudo-random generator (`random`), the
  game state and its parts (`logic::game_state`, `player`, `timetable`,
  `npc`, …), and every rule of the game as a function with a contract: the
  passing of an hour, sleep and dreams, exams, the train, TERKOM, the cafes,
  the mausoleum, the dorm and every classmate. Each rule takes the state and
  the random generator, changes the state and returns the screens to show;
  where the player has to choose, the rule stops and a second function takes
  the answer.
- `app/` — the game loop: it asks a front end for the player's choices and
  calls the rules in the order in which the game goes.
- `tests/` — tests of the library.
