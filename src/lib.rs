//! The integer side of a recursive ray tracer: the size and pixel order of
//! the rendered image and its encoding as plain-text PPM, the bounce budget
//! of the colour estimator, and diffuse materials.
pub mod image;
pub mod material;
pub mod ppm;
pub mod trace;
