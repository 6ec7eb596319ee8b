//! Building blocks for grid-based generative sketches: a rectangle partitioned
//! into a lattice of cells, a family of colorers that pick a colour for each
//! cell, and a small point-mass integrator driven by a lattice of forces.
//!
//! Every quantity is a fixed-point integer: `units::UNIT` stands for one
//! pixel, one full hue turn, or full saturation, depending on where it is used.

pub mod units;
pub mod geom;
pub mod grid;
mod random;
pub mod colors;
pub mod colorer;
pub mod mover;
pub mod force_field;
pub mod examples;
