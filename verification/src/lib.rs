//! A verified core for a procedurally evolving pattern generator.
//!
//! The library interprets a randomly grown, randomly mutated expression tree
//! once per pixel per frame.  Continuous quantities (unit-range scalars,
//! signed-normalised scalars, angles) are represented in fixed point so that
//! every range invariant and every conversion is provable; wrapping integer
//! arithmetic, the coordinate context, the frame history ring, the stochastic
//! generation and mutation engine and the slice-parallel update driver are all
//! verified executable code.

pub mod engine;
pub mod rng;
pub mod discrete;
pub mod continuous;
pub mod trig;
pub mod grid;
pub mod points;
pub mod colors;
pub mod history;
pub mod coords;
pub mod image;
pub mod preloader;
pub mod nodes;
pub mod driver;

pub use engine::State;
