//! Strip compression for bi-level raster images: packed one-bit-per-sample
//! rows are turned into fax-coded byte streams by interchangeable algorithms.

pub mod ccittg4;
pub mod compression;
pub mod fax4;
pub mod pels;
pub mod rows;
pub mod tags;
pub mod util;
