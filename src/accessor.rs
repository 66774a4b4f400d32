use vstd::prelude::*;

use crate::error::DecodeError;
use crate::format::{spec_datum_size, spec_dimensions, VertexAttributeFormat};
use crate::iter::{valid_attribute_layout, AttributeCursor, VertexAttributeIter};

verus! {

/// Bytes in the element that the accessor of a format decodes; `None` for a
/// format that has no accessor.
pub open spec fn accessor_element_size(f: VertexAttributeFormat) -> Option<nat> {
    match f {
        VertexAttributeFormat::Float2 => Some(8),
        VertexAttributeFormat::Float3 => Some(12),
        VertexAttributeFormat::Float4 => Some(16),
        VertexAttributeFormat::Byte4A => Some(4),
        VertexAttributeFormat::Byte4B => Some(4),
        VertexAttributeFormat::Short2ToFloat2 => Some(4),
        VertexAttributeFormat::Byte4C => Some(4),
        VertexAttributeFormat::UV => Some(8),
        VertexAttributeFormat::UVPair => Some(8),
        VertexAttributeFormat::Short4ToFloat4A => Some(8),
        VertexAttributeFormat::Short4ToFloat4B => Some(8),
        VertexAttributeFormat::ShortBoneIndices
        | VertexAttributeFormat::Byte4E
        | VertexAttributeFormat::EdgeCompressed => None,
    }
}

/// One attribute's iterator, tagged with the element shape that its format
/// decodes to: two or more 32-bit floats, four bytes, or two or four 16-bit
/// integers. The byte-level shapes of `Byte4A` and `Byte4B` are the same; the
/// variants keep their different readings apart.
pub enum VertexAttributeAccessor<'a> {
    Float2(VertexAttributeIter<'a>),
    Float3(VertexAttributeIter<'a>),
    Float4(VertexAttributeIter<'a>),
    Byte4A(VertexAttributeIter<'a>),
    Byte4B(VertexAttributeIter<'a>),
    Short2ToFloat2(VertexAttributeIter<'a>),
    Byte4C(VertexAttributeIter<'a>),
    UV(VertexAttributeIter<'a>),
    /// Only the first two of the four components are decoded.
    UVPair(VertexAttributeIter<'a>),
    Short4ToFloat4A(VertexAttributeIter<'a>),
    Short4ToFloat4B(VertexAttributeIter<'a>),
}

impl<'a> VertexAttributeAccessor<'a> {
    /// The format that selected this variant.
    pub open spec fn spec_format(&self) -> VertexAttributeFormat {
        match self {
            VertexAttributeAccessor::Float2(_) => VertexAttributeFormat::Float2,
            VertexAttributeAccessor::Float3(_) => VertexAttributeFormat::Float3,
            VertexAttributeAccessor::Float4(_) => VertexAttributeFormat::Float4,
            VertexAttributeAccessor::Byte4A(_) => VertexAttributeFormat::Byte4A,
            VertexAttributeAccessor::Byte4B(_) => VertexAttributeFormat::Byte4B,
            VertexAttributeAccessor::Short2ToFloat2(_) => VertexAttributeFormat::Short2ToFloat2,
            VertexAttributeAccessor::Byte4C(_) => VertexAttributeFormat::Byte4C,
            VertexAttributeAccessor::UV(_) => VertexAttributeFormat::UV,
            VertexAttributeAccessor::UVPair(_) => VertexAttributeFormat::UVPair,
            VertexAttributeAccessor::Short4ToFloat4A(_) => VertexAttributeFormat::Short4ToFloat4A,
            VertexAttributeAccessor::Short4ToFloat4B(_) => VertexAttributeFormat::Short4ToFloat4B,
        }
    }

    /// The iterator that this variant carries.
    pub open spec fn spec_iter(&self) -> VertexAttributeIter<'a> {
        match self {
            VertexAttributeAccessor::Float2(it) => *it,
            VertexAttributeAccessor::Float3(it) => *it,
            VertexAttributeAccessor::Float4(it) => *it,
            VertexAttributeAccessor::Byte4A(it) => *it,
            VertexAttributeAccessor::Byte4B(it) => *it,
            VertexAttributeAccessor::Short2ToFloat2(it) => *it,
            VertexAttributeAccessor::Byte4C(it) => *it,
            VertexAttributeAccessor::UV(it) => *it,
            VertexAttributeAccessor::UVPair(it) => *it,
            VertexAttributeAccessor::Short4ToFloat4A(it) => *it,
            VertexAttributeAccessor::Short4ToFloat4B(it) => *it,
        }
    }

    /// Binds `format` to its element shape and builds the iterator over the
    /// attribute at `vertex_offset` of every `vertex_size`-byte record of
    /// `buffer`. Fails with `Unsupported` for a format without an accessor,
    /// and with `OutOfBounds` where the iterator refuses the layout.
    pub fn new(
        format: VertexAttributeFormat,
        buffer: &'a [u8],
        vertex_size: usize,
        vertex_offset: usize,
    ) -> (r: Result<VertexAttributeAccessor<'a>, DecodeError>)
        ensures
            accessor_element_size(format) is None ==> r == Err::<
                VertexAttributeAccessor<'a>,
                DecodeError,
            >(DecodeError::Unsupported(format)),
            accessor_element_size(format) matches Some(n) ==> {
                &&& valid_attribute_layout(
                    buffer@.len(),
                    vertex_size as nat,
                    vertex_offset as nat,
                    n,
                ) <==> r is Ok
                &&& r is Err ==> r == Err::<VertexAttributeAccessor<'a>, DecodeError>(
                    DecodeError::OutOfBounds,
                )
            },
            r matches Ok(a) ==> {
                &&& a.spec_format() == format
                &&& a.spec_iter()@.wf()
                &&& a.spec_iter()@ == (AttributeCursor {
                    remaining: buffer@,
                    stride: vertex_size as nat,
                    start: vertex_offset as nat,
                    end: (vertex_offset + accessor_element_size(format)->Some_0) as nat,
                })
            },
    {
        let element_size: usize = match format {
            VertexAttributeFormat::Float2 => 8,
            VertexAttributeFormat::Float3 => 12,
            VertexAttributeFormat::Float4 => 16,
            VertexAttributeFormat::Byte4A => 4,
            VertexAttributeFormat::Byte4B => 4,
            VertexAttributeFormat::Short2ToFloat2 => 4,
            VertexAttributeFormat::Byte4C => 4,
            VertexAttributeFormat::UV => 8,
            VertexAttributeFormat::UVPair => 8,
            VertexAttributeFormat::Short4ToFloat4A => 8,
            VertexAttributeFormat::Short4ToFloat4B => 8,
            VertexAttributeFormat::ShortBoneIndices
            | VertexAttributeFormat::Byte4E
            | VertexAttributeFormat::EdgeCompressed => {
                return Err(DecodeError::Unsupported(format));
            },
        };
        let it = match VertexAttributeIter::new(buffer, vertex_size, vertex_offset, element_size) {
            Ok(it) => it,
            Err(e) => {
                return Err(e);
            },
        };
        let a = match format {
            VertexAttributeFormat::Float2 => VertexAttributeAccessor::Float2(it),
            VertexAttributeFormat::Float3 => VertexAttributeAccessor::Float3(it),
            VertexAttributeFormat::Float4 => VertexAttributeAccessor::Float4(it),
            VertexAttributeFormat::Byte4A => VertexAttributeAccessor::Byte4A(it),
            VertexAttributeFormat::Byte4B => VertexAttributeAccessor::Byte4B(it),
            VertexAttributeFormat::Short2ToFloat2 => VertexAttributeAccessor::Short2ToFloat2(it),
            VertexAttributeFormat::Byte4C => VertexAttributeAccessor::Byte4C(it),
            VertexAttributeFormat::UV => VertexAttributeAccessor::UV(it),
            VertexAttributeFormat::UVPair => VertexAttributeAccessor::UVPair(it),
            VertexAttributeFormat::Short4ToFloat4A => VertexAttributeAccessor::Short4ToFloat4A(it),
            _ => VertexAttributeAccessor::Short4ToFloat4B(it),
        };
        Ok(a)
    }

    /// The format that selected this variant.
    pub fn format(&self) -> (r: VertexAttributeFormat)
        ensures
            r == self.spec_format(),
    {
        match self {
            VertexAttributeAccessor::Float2(_) => VertexAttributeFormat::Float2,
            VertexAttributeAccessor::Float3(_) => VertexAttributeFormat::Float3,
            VertexAttributeAccessor::Float4(_) => VertexAttributeFormat::Float4,
            VertexAttributeAccessor::Byte4A(_) => VertexAttributeFormat::Byte4A,
            VertexAttributeAccessor::Byte4B(_) => VertexAttributeFormat::Byte4B,
            VertexAttributeAccessor::Short2ToFloat2(_) => VertexAttributeFormat::Short2ToFloat2,
            VertexAttributeAccessor::Byte4C(_) => VertexAttributeFormat::Byte4C,
            VertexAttributeAccessor::UV(_) => VertexAttributeFormat::UV,
            VertexAttributeAccessor::UVPair(_) => VertexAttributeFormat::UVPair,
            VertexAttributeAccessor::Short4ToFloat4A(_) => VertexAttributeFormat::Short4ToFloat4A,
            VertexAttributeAccessor::Short4ToFloat4B(_) => VertexAttributeFormat::Short4ToFloat4B,
        }
    }

    /// The iterator that this variant carries.
    pub fn into_iter(self) -> (r: VertexAttributeIter<'a>)
        ensures
            r == self.spec_iter(),
    {
        match self {
            VertexAttributeAccessor::Float2(it) => it,
            VertexAttributeAccessor::Float3(it) => it,
            VertexAttributeAccessor::Float4(it) => it,
            VertexAttributeAccessor::Byte4A(it) => it,
            VertexAttributeAccessor::Byte4B(it) => it,
            VertexAttributeAccessor::Short2ToFloat2(it) => it,
            VertexAttributeAccessor::Byte4C(it) => it,
            VertexAttributeAccessor::UV(it) => it,
            VertexAttributeAccessor::UVPair(it) => it,
            VertexAttributeAccessor::Short4ToFloat4A(it) => it,
            VertexAttributeAccessor::Short4ToFloat4B(it) => it,
        }
    }
}

/// For every format with an accessor, the bytes per component times the
/// component count is the width of the element the accessor reads; `UVPair`,
/// whose accessor reads only the first two of its four components, is the
/// exception, and its accessor reads exactly those two.
pub proof fn lemma_element_width(f: VertexAttributeFormat)
    requires
        accessor_element_size(f) is Some,
    ensures
        spec_datum_size(f) is Some,
        spec_dimensions(f) is Some,
        f != VertexAttributeFormat::UVPair ==> spec_datum_size(f)->Some_0 * spec_dimensions(
            f,
        )->Some_0 == accessor_element_size(f)->Some_0,
        f == VertexAttributeFormat::UVPair ==> 2 * spec_datum_size(f)->Some_0
            == accessor_element_size(f)->Some_0,
{
}

} // verus!
