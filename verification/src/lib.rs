//! Core of a grid-based snake game: wraparound coordinate arithmetic,
//! direction handling with reversal prevention, the snake's movement and
//! self-collision rule, food placement, and the fixed-timestep world update.
//!
//! Presentation (windowing, drawing, reading the keyboard and the clock) is
//! left to an outer layer, which feeds directions and timestamps in and reads
//! the state back out.

pub mod direction;
pub mod food;
pub mod grid;
pub mod snake;
pub mod world;
