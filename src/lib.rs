//! Pixel measurements, 2D positions and sizes, and the axis and dimension
//! selectors that index them.
pub mod units;
pub mod vectors;
