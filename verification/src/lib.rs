//! Quarter-turn rotation and vertical mirroring of a rectangular grid of text
//! cells, carried out in place on `papergrid`'s `VecRecords`.
//!
//! The grid is modelled mathematically by [`grid::Grid`]; [`rotate::Rotate::change`]
//! is proved to produce exactly the rotated model.

pub mod grid;
pub mod laws;
pub mod records;
pub mod rotate;

pub use rotate::Rotate;
