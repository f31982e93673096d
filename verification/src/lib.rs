//! Traces the outlines of the bright regions of a raster image and reports
//! them as a GeoJSON feature collection of line strings.

pub mod codec;
pub mod contour;
pub mod convert;
pub mod error;
pub mod geometry;
pub mod raster;

pub use crate::convert::vetorizar_imagem;
