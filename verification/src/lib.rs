//! Renders a raster image as colored text for a terminal: pixels are mapped
//! to glyphs from a shading ramp or packed two-per-cell with the half-block
//! technique, and each output row is emitted as a stream of ANSI truecolor
//! escape sequences with runs of identical styling coalesced.

pub mod color;
pub mod raster;
pub mod emitter;
pub mod render;
pub mod shade;

pub use color::Pixel;
pub use color::Rgb;
pub use raster::Image;
pub use shade::ShadeMethod;
