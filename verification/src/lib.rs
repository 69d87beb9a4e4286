pub mod random;
pub mod logic;
pub mod ui;
