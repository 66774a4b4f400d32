use flver_vertex::accessor::VertexAttributeAccessor;
use flver_vertex::bytes::{push_u32, read_u32, Endian};
use flver_vertex::error::DecodeError;
use flver_vertex::format::VertexAttributeFormat;
use flver_vertex::iter::VertexAttributeIter;
use flver_vertex::records::{VertexBuffer, VertexBufferAttribute, VertexBufferLayout};
use flver_vertex::semantic::VertexAttributeSemantic;

const FORMATS: [(u32, VertexAttributeFormat); 14] = [
    (0x1, VertexAttributeFormat::Float2),
    (0x2, VertexAttributeFormat::Float3),
    (0x3, VertexAttributeFormat::Float4),
    (0x10, VertexAttributeFormat::Byte4A),
    (0x11, VertexAttributeFormat::Byte4B),
    (0x12, VertexAttributeFormat::Short2ToFloat2),
    (0x13, VertexAttributeFormat::Byte4C),
    (0x15, VertexAttributeFormat::UV),
    (0x16, VertexAttributeFormat::UVPair),
    (0x18, VertexAttributeFormat::ShortBoneIndices),
    (0x1A, VertexAttributeFormat::Short4ToFloat4A),
    (0x2E, VertexAttributeFormat::Short4ToFloat4B),
    (0x2F, VertexAttributeFormat::Byte4E),
    (0xF0, VertexAttributeFormat::EdgeCompressed),
];

fn counting_bytes(n: usize) -> Vec<u8> {
    (0..n).map(|i| i as u8).collect()
}

#[test]
fn format_tags_classify_to_their_variant() {
    for (tag, f) in FORMATS {
        assert_eq!(VertexAttributeFormat::from_tag(tag), Ok(f));
        assert_eq!(f.tag(), tag);
    }
}

#[test]
fn unknown_format_tags_fail() {
    for tag in [0u32, 0x4, 0x14, 0x17, 0x19, 0x2D, 0x30, 0xEF, 0xF1, u32::MAX] {
        assert_eq!(VertexAttributeFormat::from_tag(tag), Err(DecodeError::UnknownFormat(tag)));
    }
}

#[test]
fn datum_sizes_and_dimensions() {
    let expected = [
        (VertexAttributeFormat::Float2, 4, 2),
        (VertexAttributeFormat::Float3, 4, 3),
        (VertexAttributeFormat::Float4, 4, 4),
        (VertexAttributeFormat::Byte4A, 1, 4),
        (VertexAttributeFormat::Byte4B, 1, 4),
        (VertexAttributeFormat::Byte4C, 1, 4),
        (VertexAttributeFormat::Byte4E, 1, 4),
        (VertexAttributeFormat::Short2ToFloat2, 2, 2),
        (VertexAttributeFormat::ShortBoneIndices, 2, 4),
        (VertexAttributeFormat::Short4ToFloat4A, 2, 4),
        (VertexAttributeFormat::Short4ToFloat4B, 2, 4),
        (VertexAttributeFormat::UV, 4, 2),
        (VertexAttributeFormat::UVPair, 4, 4),
    ];
    for (f, size, dims) in expected {
        assert_eq!(f.datum_size(), Ok(size));
        assert_eq!(f.dimensions(), Ok(dims));
    }
}

#[test]
fn edge_compressed_has_no_geometry() {
    let f = VertexAttributeFormat::from_tag(0xF0).unwrap();
    assert_eq!(f, VertexAttributeFormat::EdgeCompressed);
    assert_eq!(f.datum_size(), Err(DecodeError::Unsupported(f)));
    assert_eq!(f.dimensions(), Err(DecodeError::Unsupported(f)));
}

#[test]
fn element_width_matches_accessor_width() {
    let buffer = vec![0u8; 64];
    for (_, f) in FORMATS {
        match VertexAttributeAccessor::new(f, &buffer, 32, 0) {
            Ok(a) => {
                let width = a.into_iter().element_size();
                let product = f.datum_size().unwrap() * f.dimensions().unwrap();
                if f == VertexAttributeFormat::UVPair {
                    assert_eq!(width, 8);
                    assert_eq!(product, 16);
                } else {
                    assert_eq!(width, product);
                }
            }
            Err(e) => assert_eq!(e, DecodeError::Unsupported(f)),
        }
    }
}

#[test]
fn semantic_tags_classify() {
    let expected = [
        (0x0, VertexAttributeSemantic::Position),
        (0x1, VertexAttributeSemantic::BoneWeights),
        (0x2, VertexAttributeSemantic::BoneIndices),
        (0x3, VertexAttributeSemantic::Normal),
        (0x5, VertexAttributeSemantic::UV),
        (0x6, VertexAttributeSemantic::Tangent),
        (0x7, VertexAttributeSemantic::Bitangent),
        (0xA, VertexAttributeSemantic::VertexColor),
    ];
    for (tag, s) in expected {
        assert_eq!(VertexAttributeSemantic::from_tag(tag), Ok(s));
        assert_eq!(s.tag(), tag);
    }
}

#[test]
fn unused_semantic_tag_fails() {
    assert_eq!(VertexAttributeSemantic::from_tag(4), Err(DecodeError::UnknownSemantic(4)));
    assert_eq!(VertexAttributeSemantic::from_tag(8), Err(DecodeError::UnknownSemantic(8)));
    assert_eq!(VertexAttributeSemantic::from_tag(9), Err(DecodeError::UnknownSemantic(9)));
    assert_eq!(VertexAttributeSemantic::from_tag(0xB), Err(DecodeError::UnknownSemantic(0xB)));
}

#[test]
fn read_u32_in_both_byte_orders() {
    let bytes = [0xAAu8, 1, 2, 3, 4];
    assert_eq!(read_u32(Endian::Little, &bytes, 1), 0x0403_0201);
    assert_eq!(read_u32(Endian::Big, &bytes, 1), 0x0102_0304);
}

#[test]
fn push_u32_in_both_byte_orders() {
    let mut out = vec![9u8];
    push_u32(Endian::Little, 0x0403_0201, &mut out);
    push_u32(Endian::Big, 0x0102_0304, &mut out);
    assert_eq!(out, vec![9, 1, 2, 3, 4, 1, 2, 3, 4]);
}

#[test]
fn vertex_buffer_fields_little_endian() {
    let mut bytes = Vec::new();
    for n in [7u32, 2, 12, 3, 0xDEAD, 0xBEEF, 36, 0x1000] {
        bytes.extend_from_slice(&n.to_le_bytes());
    }
    let vb = VertexBuffer::parse(&bytes, Endian::Little).unwrap();
    assert_eq!(vb.buffer_index, 7);
    assert_eq!(vb.layout_index, 2);
    assert_eq!(vb.vertex_size, 12);
    assert_eq!(vb.vertex_count, 3);
    assert_eq!(vb.buffer_length, 36);
    assert_eq!(vb.buffer_offset, 0x1000);
}

#[test]
fn vertex_buffer_fields_big_endian() {
    let mut bytes = Vec::new();
    for n in [1u32, 0, 28, 1000, 0, 0, 28000, 0x0102_0304] {
        bytes.extend_from_slice(&n.to_be_bytes());
    }
    let vb = VertexBuffer::parse(&bytes, Endian::Big).unwrap();
    assert_eq!(vb.vertex_size, 28);
    assert_eq!(vb.vertex_count, 1000);
    assert_eq!(vb.buffer_length, 28000);
    assert_eq!(vb.buffer_offset, 0x0102_0304);
}

#[test]
fn short_records_are_refused() {
    let bytes = vec![0u8; 31];
    assert_eq!(VertexBuffer::parse(&bytes, Endian::Little), Err(DecodeError::OutOfBounds));
    assert_eq!(VertexBufferLayout::parse(&bytes[..15], Endian::Big), Err(DecodeError::OutOfBounds));
    assert_eq!(
        VertexBufferAttribute::parse(&bytes[..19], Endian::Little),
        Err(DecodeError::OutOfBounds)
    );
    assert!(VertexBufferLayout::parse(&bytes[..16], Endian::Big).is_ok());
    assert!(VertexBufferAttribute::parse(&bytes[..20], Endian::Big).is_ok());
}

#[test]
fn vertex_buffer_round_trip_keeps_fields() {
    let bytes: Vec<u8> = (0..32).map(|i| (i * 37 + 5) as u8).collect();
    for order in [Endian::Little, Endian::Big] {
        let vb = VertexBuffer::parse(&bytes, order).unwrap();
        let out = vb.to_bytes(order);
        assert_eq!(out.len(), 32);
        assert_eq!(out[..16], bytes[..16]);
        assert_eq!(out[24..], bytes[24..]);
        assert_eq!(out[16..24], [0u8; 8]);
    }
}

#[test]
fn layout_fields() {
    let mut bytes = Vec::new();
    for n in [5u32, 0xFFFF_FFFF, 0xFFFF_FFFF, 0x400] {
        bytes.extend_from_slice(&n.to_le_bytes());
    }
    let layout = VertexBufferLayout::parse(&bytes, Endian::Little).unwrap();
    assert_eq!(layout.member_count, 5);
    assert_eq!(layout.member_offset, 0x400);
}

#[test]
fn attribute_fields_and_classification() {
    let mut bytes = Vec::new();
    for n in [0u32, 12, 0x2, 0x3, 1] {
        bytes.extend_from_slice(&n.to_be_bytes());
    }
    let attr = VertexBufferAttribute::parse(&bytes, Endian::Big).unwrap();
    assert_eq!(attr.struct_offset, 12);
    assert_eq!(attr.index, 1);
    assert_eq!(attr.format(), Ok(VertexAttributeFormat::Float3));
    assert_eq!(attr.semantic(), Ok(VertexAttributeSemantic::Normal));
}

#[test]
fn attribute_with_unused_semantic_fails() {
    let attr = VertexBufferAttribute {
        unk0: 0,
        struct_offset: 0,
        format_id: 0xF0,
        semantic_id: 4,
        index: 0,
    };
    assert_eq!(attr.semantic(), Err(DecodeError::UnknownSemantic(4)));
    assert_eq!(attr.format(), Ok(VertexAttributeFormat::EdgeCompressed));
    let unknown = VertexBufferAttribute { format_id: 0x99, ..attr };
    assert_eq!(unknown.format(), Err(DecodeError::UnknownFormat(0x99)));
}

#[test]
fn float3_attribute_reads_whole_records() {
    let mut buffer = Vec::new();
    for v in 0..9 {
        buffer.extend_from_slice(&(v as f32 * 0.5).to_le_bytes());
    }
    let mut it = VertexAttributeIter::new(&buffer, 12, 0, 12).unwrap();
    assert_eq!(it.size_hint(), (3, Some(3)));
    let mut seen = Vec::new();
    while let Some(w) = it.next() {
        assert_eq!(w.len(), 12);
        let floats: Vec<f32> =
            w.chunks(4).map(|c| f32::from_le_bytes([c[0], c[1], c[2], c[3]])).collect();
        seen.push(floats);
    }
    assert_eq!(
        seen,
        vec![vec![0.0, 0.5, 1.0], vec![1.5, 2.0, 2.5], vec![3.0, 3.5, 4.0]]
    );
    assert_eq!(it.size_hint(), (0, Some(0)));
    assert!(it.next().is_none());
}

#[test]
fn float3_attribute_windows() {
    let buffer = counting_bytes(36);
    let mut it = VertexAttributeIter::new(&buffer, 12, 0, 12).unwrap();
    assert_eq!(it.next(), Some(&buffer[0..12]));
    assert_eq!(it.next(), Some(&buffer[12..24]));
    assert_eq!(it.next(), Some(&buffer[24..36]));
    assert_eq!(it.next(), None);
}

#[test]
fn trailing_scalar_attribute_windows() {
    let buffer = counting_bytes(36);
    let mut it = VertexAttributeIter::new(&buffer, 12, 8, 4).unwrap();
    assert_eq!(it.size_hint(), (3, Some(3)));
    let items = it.collect_elements();
    assert_eq!(items, vec![&buffer[8..12], &buffer[20..24], &buffer[32..36]]);
    assert_eq!(items[0], &[8, 9, 10, 11]);
    assert_eq!(it.size_hint(), (0, Some(0)));
}

#[test]
fn empty_buffer_yields_nothing() {
    let buffer: Vec<u8> = Vec::new();
    let mut it = VertexAttributeIter::new(&buffer, 12, 0, 12).unwrap();
    assert_eq!(it.size_hint(), (0, Some(0)));
    assert_eq!(it.next(), None);
    assert_eq!(it.size_hint(), (0, Some(0)));
}

#[test]
fn yields_vertex_count_items() {
    for (vertex_size, vertex_count, offset, size) in
        [(1usize, 7usize, 0usize, 1usize), (28, 5, 24, 4), (16, 1, 0, 16), (8, 0, 4, 4), (20, 64, 3, 0)]
    {
        let buffer = vec![1u8; vertex_size * vertex_count];
        let mut it = VertexAttributeIter::new(&buffer, vertex_size, offset, size).unwrap();
        assert_eq!(it.size_hint(), (vertex_count, Some(vertex_count)));
        let mut n = 0;
        while it.next().is_some() {
            n += 1;
        }
        assert_eq!(n, vertex_count);
    }
}

#[test]
fn iterator_refuses_bad_layouts() {
    let buffer = counting_bytes(36);
    assert!(matches!(VertexAttributeIter::new(&buffer, 0, 0, 0), Err(DecodeError::OutOfBounds)));
    assert!(matches!(VertexAttributeIter::new(&buffer, 12, 9, 4), Err(DecodeError::OutOfBounds)));
    assert!(matches!(VertexAttributeIter::new(&buffer, 12, 0, 13), Err(DecodeError::OutOfBounds)));
    assert!(matches!(VertexAttributeIter::new(&buffer, 10, 0, 4), Err(DecodeError::OutOfBounds)));
    assert!(matches!(
        VertexAttributeIter::new(&buffer, 12, usize::MAX, 4),
        Err(DecodeError::OutOfBounds)
    ));
}

#[test]
fn byte4_elements() {
    let buffer = counting_bytes(24);
    let mut it = VertexAttributeIter::new(&buffer, 8, 4, 4).unwrap();
    assert_eq!(it.element_size(), 4);
    assert_eq!(it.next_byte4(), Some([4, 5, 6, 7]));
    assert_eq!(it.next_byte4(), Some([12, 13, 14, 15]));
    assert_eq!(it.next_byte4(), Some([20, 21, 22, 23]));
    assert_eq!(it.next_byte4(), None);
}

#[test]
fn accessor_binds_format_to_shape() {
    let buffer = counting_bytes(48);
    let a = VertexAttributeAccessor::new(VertexAttributeFormat::Float3, &buffer, 16, 4).unwrap();
    assert!(matches!(a, VertexAttributeAccessor::Float3(_)));
    assert_eq!(a.format(), VertexAttributeFormat::Float3);
    let mut it = a.into_iter();
    assert_eq!(it.next(), Some(&buffer[4..16]));

    let b = VertexAttributeAccessor::new(VertexAttributeFormat::Byte4B, &buffer, 16, 0).unwrap();
    assert!(matches!(b, VertexAttributeAccessor::Byte4B(_)));
    let uv = VertexAttributeAccessor::new(VertexAttributeFormat::UVPair, &buffer, 16, 8).unwrap();
    assert_eq!(uv.into_iter().element_size(), 8);
}

#[test]
fn accessor_errors() {
    let buffer = counting_bytes(48);
    for f in [
        VertexAttributeFormat::ShortBoneIndices,
        VertexAttributeFormat::Byte4E,
        VertexAttributeFormat::EdgeCompressed,
    ] {
        assert!(matches!(
            VertexAttributeAccessor::new(f, &buffer, 16, 0),
            Err(DecodeError::Unsupported(g)) if g == f
        ));
    }
    assert!(matches!(
        VertexAttributeAccessor::new(VertexAttributeFormat::Float4, &buffer, 16, 4),
        Err(DecodeError::OutOfBounds)
    ));
}
