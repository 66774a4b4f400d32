use vstd::prelude::*;

use crate::bytes::{decode_u32, encode_u32, lemma_u32_round_trip, push_u32, read_u32, Endian};
use crate::error::DecodeError;
use crate::format::{format_of_tag, VertexAttributeFormat};
use crate::semantic::{semantic_of_tag, VertexAttributeSemantic};

verus! {

/// Bytes in one vertex buffer record.
pub const VERTEX_BUFFER_SIZE: usize = 32;

/// Bytes in one vertex buffer layout record.
pub const VERTEX_BUFFER_LAYOUT_SIZE: usize = 16;

/// Bytes in one vertex buffer attribute record.
pub const VERTEX_BUFFER_ATTRIBUTE_SIZE: usize = 20;

/// The 32-bit field that starts at byte `at` of a record.
pub open spec fn field(order: Endian, b: Seq<u8>, at: int) -> u32 {
    decode_u32(order, b.subrange(at, at + 4))
}

/// One contiguous run of per-vertex records.
#[derive(Debug, Clone, Copy, PartialEq, Eq, Structural)]
pub struct VertexBuffer {
    pub buffer_index: u32,
    pub layout_index: u32,
    pub vertex_size: u32,
    pub vertex_count: u32,
    pub buffer_length: u32,
    pub buffer_offset: u32,
}

/// The vertex buffer record at the start of `b`; eight bytes of padding sit
/// between `vertex_count` and `buffer_length`.
pub open spec fn spec_vertex_buffer(order: Endian, b: Seq<u8>) -> VertexBuffer {
    VertexBuffer {
        buffer_index: field(order, b, 0),
        layout_index: field(order, b, 4),
        vertex_size: field(order, b, 8),
        vertex_count: field(order, b, 12),
        buffer_length: field(order, b, 24),
        buffer_offset: field(order, b, 28),
    }
}

/// Eight bytes of zero padding.
pub open spec fn zero_padding() -> Seq<u8> {
    Seq::new(8, |i: int| 0u8)
}

/// Appends eight zero bytes to `out`.
fn push_padding(out: &mut Vec<u8>)
    ensures
        final(out)@ == old(out)@ + zero_padding(),
{
    let mut i: usize = 0;
    while i < 8
        invariant
            i <= 8,
            out@ == old(out)@ + Seq::new(i as nat, |k: int| 0u8),
        decreases 8 - i,
    {
        out.push(0u8);
        i = i + 1;
        assert(out@ =~= old(out)@ + Seq::new(i as nat, |k: int| 0u8));
    }
    assert(Seq::new(8, |k: int| 0u8) =~= zero_padding());
}

impl VertexBuffer {
    /// The bytes of this record in byte order `order`, padding zeroed.
    pub open spec fn spec_encode(self, order: Endian) -> Seq<u8> {
        encode_u32(order, self.buffer_index) + encode_u32(order, self.layout_index)
            + encode_u32(order, self.vertex_size) + encode_u32(order, self.vertex_count)
            + zero_padding() + encode_u32(order, self.buffer_length)
            + encode_u32(order, self.buffer_offset)
    }

    /// Reads the record at the start of `bytes`; fails if `bytes` is shorter
    /// than the record.
    pub fn parse(bytes: &[u8], order: Endian) -> (r: Result<VertexBuffer, DecodeError>)
        ensures
            bytes@.len() >= VERTEX_BUFFER_SIZE <==> r is Ok,
            r matches Ok(v) ==> v == spec_vertex_buffer(order, bytes@),
            r is Err ==> r == Err::<VertexBuffer, DecodeError>(DecodeError::OutOfBounds),
    {
        if bytes.len() < VERTEX_BUFFER_SIZE {
            return Err(DecodeError::OutOfBounds);
        }
        Ok(VertexBuffer {
            buffer_index: read_u32(order, bytes, 0),
            layout_index: read_u32(order, bytes, 4),
            vertex_size: read_u32(order, bytes, 8),
            vertex_count: read_u32(order, bytes, 12),
            buffer_length: read_u32(order, bytes, 24),
            buffer_offset: read_u32(order, bytes, 28),
        })
    }

    /// The bytes of this record in byte order `order`, padding zeroed.
    pub fn to_bytes(&self, order: Endian) -> (r: Vec<u8>)
        ensures
            r@ == self.spec_encode(order),
    {
        let mut out: Vec<u8> = Vec::new();
        push_u32(order, self.buffer_index, &mut out);
        push_u32(order, self.layout_index, &mut out);
        push_u32(order, self.vertex_size, &mut out);
        push_u32(order, self.vertex_count, &mut out);
        push_padding(&mut out);
        push_u32(order, self.buffer_length, &mut out);
        push_u32(order, self.buffer_offset, &mut out);
        assert(out@ =~= self.spec_encode(order));
        out
    }
}

/// Decoding a vertex buffer record and encoding its fields again in the same
/// byte order gives back the original bytes of every field; only the padding
/// may differ.
pub proof fn lemma_vertex_buffer_round_trip(order: Endian, bytes: Seq<u8>)
    requires
        bytes.len() >= VERTEX_BUFFER_SIZE,
    ensures
        spec_vertex_buffer(order, bytes).spec_encode(order).len() == VERTEX_BUFFER_SIZE,
        spec_vertex_buffer(order, bytes).spec_encode(order).subrange(0, 16)
            == bytes.subrange(0, 16),
        spec_vertex_buffer(order, bytes).spec_encode(order).subrange(24, 32)
            == bytes.subrange(24, 32),
{
    let e = spec_vertex_buffer(order, bytes).spec_encode(order);
    lemma_u32_round_trip(order, bytes.subrange(0, 4));
    lemma_u32_round_trip(order, bytes.subrange(4, 8));
    lemma_u32_round_trip(order, bytes.subrange(8, 12));
    lemma_u32_round_trip(order, bytes.subrange(12, 16));
    lemma_u32_round_trip(order, bytes.subrange(24, 28));
    lemma_u32_round_trip(order, bytes.subrange(28, 32));
    assert(e.subrange(0, 16) =~= bytes.subrange(0, 16));
    assert(e.subrange(24, 32) =~= bytes.subrange(24, 32));
}

/// The ordered attributes that make up one vertex record.
#[derive(Debug, Clone, Copy, PartialEq, Eq, Structural)]
pub struct VertexBufferLayout {
    pub member_count: u32,
    pub member_offset: u32,
}

/// The layout record at the start of `b`; eight bytes of padding sit between
/// its two fields.
pub open spec fn spec_vertex_buffer_layout(order: Endian, b: Seq<u8>) -> VertexBufferLayout {
    VertexBufferLayout { member_count: field(order, b, 0), member_offset: field(order, b, 12) }
}

impl VertexBufferLayout {
    /// Reads the record at the start of `bytes`; fails if `bytes` is shorter
    /// than the record.
    pub fn parse(bytes: &[u8], order: Endian) -> (r: Result<VertexBufferLayout, DecodeError>)
        ensures
            bytes@.len() >= VERTEX_BUFFER_LAYOUT_SIZE <==> r is Ok,
            r matches Ok(l) ==> l == spec_vertex_buffer_layout(order, bytes@),
            r is Err ==> r == Err::<VertexBufferLayout, DecodeError>(DecodeError::OutOfBounds),
    {
        if bytes.len() < VERTEX_BUFFER_LAYOUT_SIZE {
            return Err(DecodeError::OutOfBounds);
        }
        Ok(
            VertexBufferLayout {
                member_count: read_u32(order, bytes, 0),
                member_offset: read_u32(order, bytes, 12),
            },
        )
    }
}

/// One field descriptor of a vertex record.
#[derive(Debug, Clone, Copy, PartialEq, Eq, Structural)]
pub struct VertexBufferAttribute {
    pub unk0: u32,
    pub struct_offset: u32,
    pub format_id: u32,
    pub semantic_id: u32,
    pub index: u32,
}

/// The attribute record at the start of `b`.
pub open spec fn spec_vertex_buffer_attribute(order: Endian, b: Seq<u8>) -> VertexBufferAttribute {
    VertexBufferAttribute {
        unk0: field(order, b, 0),
        struct_offset: field(order, b, 4),
        format_id: field(order, b, 8),
        semantic_id: field(order, b, 12),
        index: field(order, b, 16),
    }
}

impl VertexBufferAttribute {
    /// Reads the record at the start of `bytes`; fails if `bytes` is shorter
    /// than the record.
    pub fn parse(bytes: &[u8], order: Endian) -> (r: Result<VertexBufferAttribute, DecodeError>)
        ensures
            bytes@.len() >= VERTEX_BUFFER_ATTRIBUTE_SIZE <==> r is Ok,
            r matches Ok(a) ==> a == spec_vertex_buffer_attribute(order, bytes@),
            r is Err ==> r == Err::<VertexBufferAttribute, DecodeError>(DecodeError::OutOfBounds),
    {
        if bytes.len() < VERTEX_BUFFER_ATTRIBUTE_SIZE {
            return Err(DecodeError::OutOfBounds);
        }
        Ok(
            VertexBufferAttribute {
                unk0: read_u32(order, bytes, 0),
                struct_offset: read_u32(order, bytes, 4),
                format_id: read_u32(order, bytes, 8),
                semantic_id: read_u32(order, bytes, 12),
                index: read_u32(order, bytes, 16),
            },
        )
    }

    /// The encoding named by `format_id`.
    pub fn format(&self) -> (r: Result<VertexAttributeFormat, DecodeError>)
        ensures
            r == match format_of_tag(self.format_id) {
                Some(f) => Ok(f),
                None => Err(DecodeError::UnknownFormat(self.format_id)),
            },
    {
        VertexAttributeFormat::from_tag(self.format_id)
    }

    /// The role named by `semantic_id`.
    pub fn semantic(&self) -> (r: Result<VertexAttributeSemantic, DecodeError>)
        ensures
            r == match semantic_of_tag(self.semantic_id) {
                Some(s) => Ok(s),
                None => Err(DecodeError::UnknownSemantic(self.semantic_id)),
            },
    {
        VertexAttributeSemantic::from_tag(self.semantic_id)
    }
}

} // verus!
