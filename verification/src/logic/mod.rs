pub mod actions;
pub mod cause_of_death;
pub mod characteristics;
pub mod entry_point;
pub mod game_screen;
pub mod game_state;
pub mod misc;
pub mod npc;
pub mod player;
pub mod scene_router;
pub mod sleep;
pub mod subject_status;
pub mod subjects;
pub mod timetable;
