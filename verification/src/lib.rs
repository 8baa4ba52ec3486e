//! Verified core of a small sphere ray tracer: the PPM pixel stream.
//!
//! The geometry and shading work on `f64` values and live outside the
//! verified library; this crate holds the part whose behaviour can be
//! pinned down exactly: decimal formatting of channel values and image
//! dimensions, the three-line stream header, and the assembly of the
//! pixel stream, one text line per pixel.

pub mod color;
pub mod decimal;
pub mod writer;

pub use color::Rgb;
pub use decimal::decimal_string;
pub use writer::Writer;
