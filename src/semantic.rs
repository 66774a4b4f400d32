use vstd::prelude::*;

use crate::error::DecodeError;

verus! {

/// Logical role of a vertex attribute.
#[derive(Debug, Clone, Copy, PartialEq, Eq, Structural)]
pub enum VertexAttributeSemantic {
    Position,
    BoneWeights,
    BoneIndices,
    Normal,
    UV,
    Tangent,
    Bitangent,
    VertexColor,
}

/// The raw tag that stands for each role in an attribute record.
pub open spec fn semantic_tag(s: VertexAttributeSemantic) -> u32 {
    match s {
        VertexAttributeSemantic::Position => 0x0,
        VertexAttributeSemantic::BoneWeights => 0x1,
        VertexAttributeSemantic::BoneIndices => 0x2,
        VertexAttributeSemantic::Normal => 0x3,
        VertexAttributeSemantic::UV => 0x5,
        VertexAttributeSemantic::Tangent => 0x6,
        VertexAttributeSemantic::Bitangent => 0x7,
        VertexAttributeSemantic::VertexColor => 0xA,
    }
}

/// The role that a raw tag names, if any.
pub open spec fn semantic_of_tag(tag: u32) -> Option<VertexAttributeSemantic> {
    if tag == 0x0 {
        Some(VertexAttributeSemantic::Position)
    } else if tag == 0x1 {
        Some(VertexAttributeSemantic::BoneWeights)
    } else if tag == 0x2 {
        Some(VertexAttributeSemantic::BoneIndices)
    } else if tag == 0x3 {
        Some(VertexAttributeSemantic::Normal)
    } else if tag == 0x5 {
        Some(VertexAttributeSemantic::UV)
    } else if tag == 0x6 {
        Some(VertexAttributeSemantic::Tangent)
    } else if tag == 0x7 {
        Some(VertexAttributeSemantic::Bitangent)
    } else if tag == 0xA {
        Some(VertexAttributeSemantic::VertexColor)
    } else {
        None
    }
}

/// Classifying a raw tag undoes `semantic_tag`: a tag names exactly the role
/// whose tag it is, and a tag that is no role's tag names none.
pub proof fn lemma_semantic_of_tag_inverts_tag(tag: u32, s: VertexAttributeSemantic)
    ensures
        semantic_of_tag(tag) == Some(s) <==> semantic_tag(s) == tag,
{
}

impl VertexAttributeSemantic {
    /// Classifies a raw semantic tag.
    pub fn from_tag(tag: u32) -> (r: Result<VertexAttributeSemantic, DecodeError>)
        ensures
            r == match semantic_of_tag(tag) {
                Some(s) => Ok(s),
                None => Err(DecodeError::UnknownSemantic(tag)),
            },
    {
        match tag {
            0x0 => Ok(VertexAttributeSemantic::Position),
            0x1 => Ok(VertexAttributeSemantic::BoneWeights),
            0x2 => Ok(VertexAttributeSemantic::BoneIndices),
            0x3 => Ok(VertexAttributeSemantic::Normal),
            0x5 => Ok(VertexAttributeSemantic::UV),
            0x6 => Ok(VertexAttributeSemantic::Tangent),
            0x7 => Ok(VertexAttributeSemantic::Bitangent),
            0xA => Ok(VertexAttributeSemantic::VertexColor),
            _ => Err(DecodeError::UnknownSemantic(tag)),
        }
    }

    /// The raw tag of this role.
    pub fn tag(&self) -> (r: u32)
        ensures
            r == semantic_tag(*self),
    {
        match self {
            VertexAttributeSemantic::Position => 0x0,
            VertexAttributeSemantic::BoneWeights => 0x1,
            VertexAttributeSemantic::BoneIndices => 0x2,
            VertexAttributeSemantic::Normal => 0x3,
            VertexAttributeSemantic::UV => 0x5,
            VertexAttributeSemantic::Tangent => 0x6,
            VertexAttributeSemantic::Bitangent => 0x7,
            VertexAttributeSemantic::VertexColor => 0xA,
        }
    }
}

} // verus!
