//! Rendering of QR codes as PNG images, with optional brand logos.
//!
//! The pipeline turns a text payload and a set of visual parameters into
//! PNG bytes: the text becomes a square module matrix, the matrix is
//! expanded into an RGBA pixel buffer, an optional vector or raster logo
//! is rasterized and composited over the center, and the result is
//! serialized losslessly.

pub mod b64;
pub mod compose;
pub mod errors;
pub mod imaging;
pub mod laws;
pub mod models;
pub mod qr_matrix;
pub mod raster;
pub mod render;
pub mod simple;
pub mod sniff;
pub mod strutil;
pub mod substitute;
pub mod svg;
pub mod unpremul;
