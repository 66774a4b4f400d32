//! Decoding of the vertex-data section of a FLVER model: packed record views,
//! attribute format and semantic classification, and strided iteration over
//! one attribute of an interleaved vertex buffer.
pub mod accessor;
pub mod bytes;
pub mod error;
pub mod format;
pub mod iter;
pub mod records;
pub mod semantic;
