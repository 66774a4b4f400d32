use vstd::prelude::*;

use crate::error::DecodeError;

verus! {

/// On-disk encoding of one vertex attribute.
#[derive(Debug, Clone, Copy, PartialEq, Eq, Structural)]
pub enum VertexAttributeFormat {
    Float2,
    Float3,
    Float4,
    Byte4A,
    Byte4B,
    Short2ToFloat2,
    /// Integer to float, scaled by 127.
    Byte4C,
    UV,
    /// Integer to float; only the first two components are decoded.
    UVPair,
    ShortBoneIndices,
    Short4ToFloat4A,
    Short4ToFloat4B,
    Byte4E,
    EdgeCompressed,
}

/// The raw tag that stands for each format in an attribute record.
pub open spec fn format_tag(f: VertexAttributeFormat) -> u32 {
    match f {
        VertexAttributeFormat::Float2 => 0x1,
        VertexAttributeFormat::Float3 => 0x2,
        VertexAttributeFormat::Float4 => 0x3,
        VertexAttributeFormat::Byte4A => 0x10,
        VertexAttributeFormat::Byte4B => 0x11,
        VertexAttributeFormat::Short2ToFloat2 => 0x12,
        VertexAttributeFormat::Byte4C => 0x13,
        VertexAttributeFormat::UV => 0x15,
        VertexAttributeFormat::UVPair => 0x16,
        VertexAttributeFormat::ShortBoneIndices => 0x18,
        VertexAttributeFormat::Short4ToFloat4A => 0x1A,
        VertexAttributeFormat::Short4ToFloat4B => 0x2E,
        VertexAttributeFormat::Byte4E => 0x2F,
        VertexAttributeFormat::EdgeCompressed => 0xF0,
    }
}

/// The format that a raw tag names, if any.
pub open spec fn format_of_tag(tag: u32) -> Option<VertexAttributeFormat> {
    if tag == 0x1 {
        Some(VertexAttributeFormat::Float2)
    } else if tag == 0x2 {
        Some(VertexAttributeFormat::Float3)
    } else if tag == 0x3 {
        Some(VertexAttributeFormat::Float4)
    } else if tag == 0x10 {
        Some(VertexAttributeFormat::Byte4A)
    } else if tag == 0x11 {
        Some(VertexAttributeFormat::Byte4B)
    } else if tag == 0x12 {
        Some(VertexAttributeFormat::Short2ToFloat2)
    } else if tag == 0x13 {
        Some(VertexAttributeFormat::Byte4C)
    } else if tag == 0x15 {
        Some(VertexAttributeFormat::UV)
    } else if tag == 0x16 {
        Some(VertexAttributeFormat::UVPair)
    } else if tag == 0x18 {
        Some(VertexAttributeFormat::ShortBoneIndices)
    } else if tag == 0x1A {
        Some(VertexAttributeFormat::Short4ToFloat4A)
    } else if tag == 0x2E {
        Some(VertexAttributeFormat::Short4ToFloat4B)
    } else if tag == 0x2F {
        Some(VertexAttributeFormat::Byte4E)
    } else if tag == 0xF0 {
        Some(VertexAttributeFormat::EdgeCompressed)
    } else {
        None
    }
}

/// Classifying a raw tag undoes `format_tag`: a tag names exactly the format
/// whose tag it is, and a tag that is no format's tag names none.
pub proof fn lemma_format_of_tag_inverts_tag(tag: u32, f: VertexAttributeFormat)
    ensures
        format_of_tag(tag) == Some(f) <==> format_tag(f) == tag,
{
}

/// Bytes per scalar component; `None` where the geometry is undefined.
pub open spec fn spec_datum_size(f: VertexAttributeFormat) -> Option<nat> {
    match f {
        VertexAttributeFormat::Float2
        | VertexAttributeFormat::Float3
        | VertexAttributeFormat::Float4
        | VertexAttributeFormat::UV
        | VertexAttributeFormat::UVPair => Some(4),
        VertexAttributeFormat::Byte4A
        | VertexAttributeFormat::Byte4B
        | VertexAttributeFormat::Byte4C
        | VertexAttributeFormat::Byte4E => Some(1),
        VertexAttributeFormat::Short2ToFloat2
        | VertexAttributeFormat::ShortBoneIndices
        | VertexAttributeFormat::Short4ToFloat4A
        | VertexAttributeFormat::Short4ToFloat4B => Some(2),
        VertexAttributeFormat::EdgeCompressed => None,
    }
}

/// Components per element; `None` where the geometry is undefined.
pub open spec fn spec_dimensions(f: VertexAttributeFormat) -> Option<nat> {
    match f {
        VertexAttributeFormat::Float2
        | VertexAttributeFormat::Short2ToFloat2
        | VertexAttributeFormat::UV => Some(2),
        VertexAttributeFormat::Float3 => Some(3),
        VertexAttributeFormat::Float4
        | VertexAttributeFormat::Byte4A
        | VertexAttributeFormat::Byte4B
        | VertexAttributeFormat::Byte4C
        | VertexAttributeFormat::UVPair
        | VertexAttributeFormat::ShortBoneIndices
        | VertexAttributeFormat::Short4ToFloat4A
        | VertexAttributeFormat::Short4ToFloat4B
        | VertexAttributeFormat::Byte4E => Some(4),
        VertexAttributeFormat::EdgeCompressed => None,
    }
}

impl VertexAttributeFormat {
    /// Classifies a raw format tag.
    pub fn from_tag(tag: u32) -> (r: Result<VertexAttributeFormat, DecodeError>)
        ensures
            r == match format_of_tag(tag) {
                Some(f) => Ok(f),
                None => Err(DecodeError::UnknownFormat(tag)),
            },
    {
        match tag {
            0x1 => Ok(VertexAttributeFormat::Float2),
            0x2 => Ok(VertexAttributeFormat::Float3),
            0x3 => Ok(VertexAttributeFormat::Float4),
            0x10 => Ok(VertexAttributeFormat::Byte4A),
            0x11 => Ok(VertexAttributeFormat::Byte4B),
            0x12 => Ok(VertexAttributeFormat::Short2ToFloat2),
            0x13 => Ok(VertexAttributeFormat::Byte4C),
            0x15 => Ok(VertexAttributeFormat::UV),
            0x16 => Ok(VertexAttributeFormat::UVPair),
            0x18 => Ok(VertexAttributeFormat::ShortBoneIndices),
            0x1A => Ok(VertexAttributeFormat::Short4ToFloat4A),
            0x2E => Ok(VertexAttributeFormat::Short4ToFloat4B),
            0x2F => Ok(VertexAttributeFormat::Byte4E),
            0xF0 => Ok(VertexAttributeFormat::EdgeCompressed),
            _ => Err(DecodeError::UnknownFormat(tag)),
        }
    }

    /// The raw tag of this format.
    pub fn tag(&self) -> (r: u32)
        ensures
            r == format_tag(*self),
    {
        match self {
            VertexAttributeFormat::Float2 => 0x1,
            VertexAttributeFormat::Float3 => 0x2,
            VertexAttributeFormat::Float4 => 0x3,
            VertexAttributeFormat::Byte4A => 0x10,
            VertexAttributeFormat::Byte4B => 0x11,
            VertexAttributeFormat::Short2ToFloat2 => 0x12,
            VertexAttributeFormat::Byte4C => 0x13,
            VertexAttributeFormat::UV => 0x15,
            VertexAttributeFormat::UVPair => 0x16,
            VertexAttributeFormat::ShortBoneIndices => 0x18,
            VertexAttributeFormat::Short4ToFloat4A => 0x1A,
            VertexAttributeFormat::Short4ToFloat4B => 0x2E,
            VertexAttributeFormat::Byte4E => 0x2F,
            VertexAttributeFormat::EdgeCompressed => 0xF0,
        }
    }

    /// Bytes per scalar component; fails with `Unsupported` where the format
    /// has no defined geometry.
    pub fn datum_size(&self) -> (r: Result<usize, DecodeError>)
        ensures
            match spec_datum_size(*self) {
                Some(n) => r == Ok::<usize, DecodeError>(n as usize),
                None => r == Err::<usize, DecodeError>(DecodeError::Unsupported(*self)),
            },
    {
        match self {
            VertexAttributeFormat::Float2
            | VertexAttributeFormat::Float3
            | VertexAttributeFormat::Float4
            | VertexAttributeFormat::UV
            | VertexAttributeFormat::UVPair => Ok(4),
            VertexAttributeFormat::Byte4A
            | VertexAttributeFormat::Byte4B
            | VertexAttributeFormat::Byte4C
            | VertexAttributeFormat::Byte4E => Ok(1),
            VertexAttributeFormat::Short2ToFloat2
            | VertexAttributeFormat::ShortBoneIndices
            | VertexAttributeFormat::Short4ToFloat4A
            | VertexAttributeFormat::Short4ToFloat4B => Ok(2),
            VertexAttributeFormat::EdgeCompressed => Err(DecodeError::Unsupported(*self)),
        }
    }

    /// Components per element; fails with `Unsupported` where the format has
    /// no defined geometry.
    pub fn dimensions(&self) -> (r: Result<usize, DecodeError>)
        ensures
            match spec_dimensions(*self) {
                Some(n) => r == Ok::<usize, DecodeError>(n as usize),
                None => r == Err::<usize, DecodeError>(DecodeError::Unsupported(*self)),
            },
    {
        match self {
            VertexAttributeFormat::Float2
            | VertexAttributeFormat::Short2ToFloat2
            | VertexAttributeFormat::UV => Ok(2),
            VertexAttributeFormat::Float3 => Ok(3),
            VertexAttributeFormat::Float4
            | VertexAttributeFormat::Byte4A
            | VertexAttributeFormat::Byte4B
            | VertexAttributeFormat::Byte4C
            | VertexAttributeFormat::UVPair
            | VertexAttributeFormat::ShortBoneIndices
            | VertexAttributeFormat::Short4ToFloat4A
            | VertexAttributeFormat::Short4ToFloat4B
            | VertexAttributeFormat::Byte4E => Ok(4),
            VertexAttributeFormat::EdgeCompressed => Err(DecodeError::Unsupported(*self)),
        }
    }
}

} // verus!
