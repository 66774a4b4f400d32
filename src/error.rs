use vstd::prelude::*;

use crate::format::VertexAttributeFormat;

verus! {

/// Why a decode step failed.
#[derive(Debug, Clone, Copy, PartialEq, Eq, Structural)]
pub enum DecodeError {
    /// A slice was shorter than a fixed record, or an element window does not
    /// fit in one vertex record.
    OutOfBounds,
    /// A format tag outside the known set; carries the raw tag.
    UnknownFormat(u32),
    /// A semantic tag outside the known set; carries the raw tag.
    UnknownSemantic(u32),
    /// A recognised format whose element geometry is not defined.
    Unsupported(VertexAttributeFormat),
}

} // verus!
