//! A self-sustaining generative walk: two tokens random-walk on a square
//! grid, leaving permanent low-opacity trails. Whenever their paths cross or
//! they land on the same cell, the grid grows by one, resets, and both tokens
//! are recreated with fresh colors and positions. An eased interpolator gives
//! smooth sub-tick motion for presentation.

pub mod collision;
pub mod color;
pub mod geom;
pub mod grid;
pub mod interp;
pub mod motion;
mod rng;
pub mod sim;

pub use geom::Coord;
pub use geom::Dir;
