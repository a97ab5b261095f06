//! Maps drawn from geographic data: a web-Mercator tile compositor that
//! produces SVG documents, and builders for Google Maps JavaScript snippets.

pub mod geo;
pub mod google;
pub mod image;
pub mod loaders;
pub mod markup;
pub mod style;
mod svg_out;
pub mod text;
