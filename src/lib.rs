//! Conversion of image files between PNG, JPEG, WebP, TIFF, BMP, ICO, AVIF
//! and SVG: planning a batch, routing each job through its codecs, picking
//! and building icon frames, and the pixel rules between decode and encode.

pub mod backend;
pub mod codec;
pub mod dispatch;
pub mod error;
pub mod format;
pub mod icon;
pub mod pixels;
pub mod vector;

pub use format::ImageFormatExt;
