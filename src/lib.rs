//! A memory-recall game: a short sequence of digits and letters is shown,
//! then the player enters it again, forward or in reverse.
pub mod char_type;
pub mod game;
pub mod input_direction;
pub mod model;
pub mod laws;
