//! The node grammar: one family of tree nodes per output value type,
//! each with a verified interpreter and a verified stochastic
//! generation and mutation engine.

pub mod blend;
pub mod color;
pub mod continuous;
pub mod coord_map;
pub mod discrete;
pub mod point;
