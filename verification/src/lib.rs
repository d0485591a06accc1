//! Batch conversion of images to WebP: the decisions and the data handling of
//! the converter, with the file system and the command line left to the
//! program that drives it.

pub mod text;
pub mod convert;
pub mod picture;
pub mod codec;
pub mod conversion;
pub mod scan;
pub mod summary;
pub mod events;
