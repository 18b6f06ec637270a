//! The rules of a small chomping game: eight-way movement, a mouth that opens
//! and closes, chasers that steer toward their prey, arrow-key controls, the
//! vertical runs a disc is drawn with, and the random spawning of enemies.

pub mod direction;
pub mod pacman;
pub mod random;
pub mod runs;
pub mod controls;
