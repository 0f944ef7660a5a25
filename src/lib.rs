//! Geometric and raster groundwork for a software renderer: integer channel
//! clamping and plain-text PPM rendering, a row-major pixel canvas and a
//! fixed-capacity square matrix with row-major indexing.
pub mod ppm;
pub mod canvas;
pub mod matrix;
