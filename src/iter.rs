use vstd::prelude::*;
use vstd::arithmetic::div_mod::{
    lemma_fundamental_div_mod, lemma_fundamental_div_mod_converse, lemma_mod_multiples_basic,
};
use vstd::arithmetic::mul::lemma_mul_inequality;
use vstd::slice::slice_subrange;

use crate::error::DecodeError;

verus! {

/// The element window of one attribute in each vertex record of `buffer`:
/// bytes `[start, end)` of every `stride`-byte record, one per whole record.
pub open spec fn attribute_windows(buffer: Seq<u8>, stride: nat, start: nat, end: nat) -> Seq<
    Seq<u8>,
> {
    Seq::new(
        buffer.len() / stride,
        |i: int| buffer.subrange(i * stride + start, i * stride + end),
    )
}

/// Whether a buffer of `len` bytes splits into whole records of `stride`
/// bytes, each holding an element of `element_size` bytes at `offset`.
pub open spec fn valid_attribute_layout(len: nat, stride: nat, offset: nat, element_size: nat) -> bool {
    &&& stride > 0
    &&& offset + element_size <= stride
    &&& len % stride == 0
}

/// What an attribute iterator stands for: the bytes still to visit, the
/// vertex stride, and the element window within each vertex record.
pub ghost struct AttributeCursor {
    pub remaining: Seq<u8>,
    pub stride: nat,
    pub start: nat,
    pub end: nat,
}

impl AttributeCursor {
    /// The elements still to be produced, in order.
    pub open spec fn items(self) -> Seq<Seq<u8>> {
        attribute_windows(self.remaining, self.stride, self.start, self.end)
    }

    /// The buffer is made of whole records and the window lies in one record.
    pub open spec fn wf(self) -> bool {
        &&& self.start <= self.end
        &&& valid_attribute_layout(
            self.remaining.len(),
            self.stride,
            self.start,
            (self.end - self.start) as nat,
        )
    }
}

/// Steps one vertex record forward: the first window is the first element,
/// and the windows of the rest are the remaining elements.
proof fn lemma_windows_step(buffer: Seq<u8>, stride: nat, start: nat, end: nat)
    requires
        start <= end <= stride,
        stride > 0,
        buffer.len() % stride == 0,
        buffer.len() > 0,
    ensures
        buffer.len() >= stride,
        (buffer.len() - stride) as nat % stride == 0,
        attribute_windows(buffer, stride, start, end).len() > 0,
        attribute_windows(buffer, stride, start, end)[0] == buffer.subrange(start as int, end as int),
        attribute_windows(buffer.subrange(stride as int, buffer.len() as int), stride, start, end)
            == attribute_windows(buffer, stride, start, end).drop_first(),
{
    let len = buffer.len();
    let q = len / stride;
    lemma_fundamental_div_mod(len as int, stride as int);
    assert(len == q * stride) by (nonlinear_arith)
        requires
            len == stride * q + 0,
    ;
    assert(q >= 1) by (nonlinear_arith)
        requires
            len == q * stride,
            len > 0,
            stride > 0,
    ;
    assert(len >= stride) by (nonlinear_arith)
        requires
            len == q * stride,
            q >= 1,
    ;
    let rest = buffer.subrange(stride as int, len as int);
    assert(rest.len() == (q - 1) * stride) by (nonlinear_arith)
        requires
            rest.len() == len - stride,
            len == q * stride,
    ;
    lemma_fundamental_div_mod_converse(rest.len() as int, stride as int, q - 1, 0);
    lemma_mod_multiples_basic(q - 1, stride as int);
    let w = attribute_windows(buffer, stride, start, end);
    let v = attribute_windows(rest, stride, start, end);
    assert(w[0] == buffer.subrange(0 * stride + start as int, 0 * stride + end as int));
    assert(0 * stride == 0);
    assert forall|i: int| 0 <= i < v.len() implies v[i] == w.drop_first()[i] by {
        assert((i + 1) * stride == i * stride + stride) by (nonlinear_arith);
        assert(i * stride + stride <= (q - 1) * stride) by {
            lemma_mul_inequality(i + 1, q - 1, stride as int);
        }
        assert(v[i] =~= w[i + 1]);
    }
    assert(v =~= w.drop_first());
}

/// A buffer of `vertex_count` records of `vertex_size` bytes, with an element
/// that lies within one record, is accepted by the iterator, which then yields
/// exactly `vertex_count` elements.
pub proof fn lemma_yields_vertex_count(
    buffer: Seq<u8>,
    vertex_size: nat,
    vertex_count: nat,
    vertex_offset: nat,
    element_size: nat,
)
    requires
        buffer.len() == vertex_size * vertex_count,
        vertex_size > 0,
        vertex_offset + element_size <= vertex_size,
    ensures
        valid_attribute_layout(buffer.len(), vertex_size, vertex_offset, element_size),
        attribute_windows(buffer, vertex_size, vertex_offset, vertex_offset + element_size).len()
            == vertex_count,
{
    lemma_mod_multiples_basic(vertex_count as int, vertex_size as int);
    lemma_fundamental_div_mod_converse(
        buffer.len() as int,
        vertex_size as int,
        vertex_count as int,
        0,
    );
}

/// Relies on bytemuck's `from_bytes`: it views a slice of exactly four bytes
/// as `[u8; 4]` with the same bytes. It panics only on another length or on a
/// start misaligned for the target, and `[u8; 4]` has alignment one.
#[verifier::external_body]
fn byte4_of(window: &[u8]) -> (r: [u8; 4])
    requires
        window@.len() == 4,
    ensures
        r@ == window@,
{
    *bytemuck::from_bytes::<[u8; 4]>(window)
}

/// A cursor over one attribute across all vertex records of a buffer. Each
/// step yields the element window of the current record, without copying,
/// and moves one vertex stride forward.
pub struct VertexAttributeIter<'a> {
    buffer: &'a [u8],
    attribute_data_offset: usize,
    attribute_data_end: usize,
    vertex_size: usize,
}

impl<'a> View for VertexAttributeIter<'a> {
    type V = AttributeCursor;

    closed spec fn view(&self) -> AttributeCursor {
        AttributeCursor {
            remaining: self.buffer@,
            stride: self.vertex_size as nat,
            start: self.attribute_data_offset as nat,
            end: self.attribute_data_end as nat,
        }
    }
}

impl<'a> VertexAttributeIter<'a> {
    /// A cursor over the `element_size`-byte element at `vertex_offset` of
    /// every `vertex_size`-byte record of `buffer`. Fails with `OutOfBounds`
    /// unless the buffer is made of whole records and the element lies
    /// within one record.
    pub fn new(buffer: &'a [u8], vertex_size: usize, vertex_offset: usize, element_size: usize) -> (r:
        Result<VertexAttributeIter<'a>, DecodeError>)
        ensures
            valid_attribute_layout(
                buffer@.len(),
                vertex_size as nat,
                vertex_offset as nat,
                element_size as nat,
            ) <==> r is Ok,
            r is Err ==> r == Err::<VertexAttributeIter<'a>, DecodeError>(DecodeError::OutOfBounds),
            r matches Ok(it) ==> it@.wf() && it@ == (AttributeCursor {
                remaining: buffer@,
                stride: vertex_size as nat,
                start: vertex_offset as nat,
                end: (vertex_offset + element_size) as nat,
            }),
    {
        if vertex_size == 0 || element_size > vertex_size || vertex_offset > vertex_size
            - element_size || buffer.len() % vertex_size != 0 {
            return Err(DecodeError::OutOfBounds);
        }
        Ok(
            VertexAttributeIter {
                buffer,
                attribute_data_offset: vertex_offset,
                attribute_data_end: vertex_offset + element_size,
                vertex_size,
            },
        )
    }

    /// Bytes in one element.
    pub fn element_size(&self) -> (r: usize)
        requires
            self@.wf(),
        ensures
            r == self@.end - self@.start,
    {
        self.attribute_data_end - self.attribute_data_offset
    }

    /// The number of elements still to come, as a lower and an exact upper bound.
    pub fn size_hint(&self) -> (r: (usize, Option<usize>))
        requires
            self@.wf(),
        ensures
            r.0 == self@.items().len(),
            r.1 == Some(r.0),
    {
        let remaining = self.buffer.len() / self.vertex_size;
        (remaining, Some(remaining))
    }

    /// The element of the current vertex record, then one stride forward;
    /// `None` once the buffer is used up.
    pub fn next(&mut self) -> (r: Option<&'a [u8]>)
        requires
            old(self)@.wf(),
        ensures
            final(self)@.wf(),
            final(self)@.stride == old(self)@.stride,
            final(self)@.start == old(self)@.start,
            final(self)@.end == old(self)@.end,
            old(self)@.items().len() == 0 <==> r is None,
            r is None ==> final(self)@ == old(self)@,
            r matches Some(w) ==> w@ == old(self)@.items()[0] && final(self)@.items()
                == old(self)@.items().drop_first() && final(self)@.remaining == old(self)@.remaining.subrange(
                old(self)@.stride as int,
                old(self)@.remaining.len() as int,
            ),
    {
        let len = self.buffer.len();
        if len == 0 {
            return None;
        }
        proof {
            lemma_windows_step(
                self.buffer@,
                self.vertex_size as nat,
                self.attribute_data_offset as nat,
                self.attribute_data_end as nat,
            );
        }
        let data = slice_subrange(self.buffer, self.attribute_data_offset, self.attribute_data_end);
        self.buffer = slice_subrange(self.buffer, self.vertex_size, len);
        Some(data)
    }

    /// Every element still to come, in order; the cursor is used up.
    pub fn collect_elements(&mut self) -> (r: Vec<&'a [u8]>)
        requires
            old(self)@.wf(),
        ensures
            final(self)@.wf(),
            final(self)@.items().len() == 0,
            r@.len() == old(self)@.items().len(),
            forall|i: int| 0 <= i < r@.len() ==> r@[i]@ == old(self)@.items()[i],
    {
        let mut out: Vec<&'a [u8]> = Vec::new();
        loop
            invariant
                self@.wf(),
                self@.stride == old(self)@.stride,
                self@.items().len() + out@.len() == old(self)@.items().len(),
                forall|i: int| 0 <= i < out@.len() ==> out@[i]@ == old(self)@.items()[i],
                forall|i: int|
                    0 <= i < self@.items().len() ==> self@.items()[i] == old(self)@.items()[i
                        + out@.len()],
            decreases self@.remaining.len(),
        {
            let ghost before = self@;
            match self.next() {
                None => {
                    return out;
                },
                Some(w) => {
                    proof {
                        lemma_windows_step(before.remaining, before.stride, before.start, before.end);
                    }
                    out.push(w);
                },
            }
        }
    }

    /// Like `next`, for a four-byte element, read as `[u8; 4]`.
    pub fn next_byte4(&mut self) -> (r: Option<[u8; 4]>)
        requires
            old(self)@.wf(),
            old(self)@.end - old(self)@.start == 4,
        ensures
            final(self)@.wf(),
            final(self)@.stride == old(self)@.stride,
            final(self)@.start == old(self)@.start,
            final(self)@.end == old(self)@.end,
            old(self)@.items().len() == 0 <==> r is None,
            r is None ==> final(self)@ == old(self)@,
            r matches Some(b) ==> b@ == old(self)@.items()[0] && final(self)@.items()
                == old(self)@.items().drop_first(),
    {
        let ghost before = self@;
        match self.next() {
            None => None,
            Some(w) => {
                proof {
                    lemma_windows_step(before.remaining, before.stride, before.start, before.end);
                }
                Some(byte4_of(w))
            },
        }
    }
}

} // verus!
