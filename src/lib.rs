//! Face-detection pipeline core: turning decoded rasters into the flat buffer
//! an inference engine reads, turning its flat outputs back into boxes, and
//! drawing those boxes onto a copy of the image.

pub mod bbox;
pub mod codec;
pub mod error;
pub mod overlay;
pub mod pipeline;
pub mod raster;
