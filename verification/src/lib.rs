//! Core simulation of a pointer-chase arcade game, in fixed-point
//! arithmetic: distances in thousandths of a virtual-playfield unit,
//! time in milliseconds, resource meters in millionths.
pub mod effects;
pub mod game;
pub mod geom;
pub mod popup;
pub mod scaler;
pub mod wav;
mod rng;
