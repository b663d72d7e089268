//! A small terminal game core: an entity store holding a player and a
//! Ringwraith on a 2D grid, a movement stage that clamps at the left
//! and top edges, a render stage that turns the state into terminal
//! drawing instructions and a 20 x 20 frame log, and a frame driver
//! that runs render-then-input every tick until escape sets the quit
//! flag. The terminal and the log file themselves live outside the
//! library; everything here is plain data in, plain data out.

pub mod components;
pub mod driver;
pub mod input_system;
pub mod numfmt;
pub mod render_system;
mod text;
pub mod world;
