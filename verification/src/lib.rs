//! Interactive Mandelbrot render loop, modelled over exact integers.
//!
//! The view parameters a frame feeds to the fragment shader (zoom, pan
//! offset, iteration limit) are kept here as plain integers: the zoom as an
//! exponent of 1.01, offsets and per-pixel coordinates as fixed-point values.
//! The windowing and graphics calls live outside this crate; they hand in key
//! states and events and take back uniform values.

pub mod fixed;
pub mod fractal;
pub mod input;
pub mod mesh;
pub mod render;
pub mod view;
