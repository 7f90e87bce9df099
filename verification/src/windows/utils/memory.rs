//! Owned buffers for variable-length answers of the spooler.

use vstd::prelude::*;
use vstd::slice::slice_subrange;

verus! {

/// A byte region handed to the spooler to be filled, tagged with the size of
/// one element and the number of elements it holds.
///
/// The buffer is owned by whoever holds the value: it is released when the
/// value is dropped or passed to [`dealloc_s`], and cannot be touched
/// afterwards.
pub struct RawBuffer {
    pub bytes: Vec<u8>,
    pub stride: usize,
    pub count: usize,
}

/// `len` zero bytes.
pub open spec fn zeroed(len: nat) -> Seq<u8> {
    Seq::new(len, |i: int| 0u8)
}

impl RawBuffer {
    /// The elements that the buffer claims to hold lie inside its bytes.
    pub open spec fn wf(&self) -> bool {
        self.count * self.stride <= self.bytes@.len()
    }

    /// A buffer as [`alloc_s`] makes it: `size` zero bytes and no element yet.
    pub open spec fn is_blank(&self, size: nat, stride: usize) -> bool {
        &&& self.bytes@ == zeroed(size)
        &&& self.stride == stride
        &&& self.count == 0
    }

    /// The bytes of element `index`.
    pub open spec fn element(&self, index: int) -> Seq<u8> {
        self.bytes@.subrange(index * self.stride, (index + 1) * self.stride)
    }

    /// A buffer of no bytes, which needs no allocation.
    pub fn empty(stride: usize) -> (buffer: RawBuffer)
        ensures
            buffer.is_blank(0, stride),
            buffer.wf(),
    {
        let buffer = RawBuffer { bytes: Vec::new(), stride, count: 0 };
        assert(buffer.bytes@ =~= zeroed(0));
        buffer
    }

    /// Number of bytes in the region.
    pub fn len(&self) -> (len: usize)
        ensures
            len == self.bytes@.len(),
    {
        self.bytes.len()
    }

    /// Borrows element `index` for as long as the buffer is borrowed.
    pub fn record(&self, index: usize) -> (bytes: &[u8])
        requires
            self.wf(),
            index < self.count,
        ensures
            bytes@ == self.element(index as int),
            bytes@.len() == self.stride,
    {
        proof {
            lemma_element_in_bounds(index as int, self.count as int, self.stride as int);
            assert(self.bytes@.len() == self.bytes.len());
        }
        let start: usize = index * self.stride;
        let end: usize = start + self.stride;
        slice_subrange(self.bytes.as_slice(), start, end)
    }
}

/// Element `index` of `count` elements of `stride` bytes ends no later than
/// the last of them.
pub proof fn lemma_element_in_bounds(index: int, count: int, stride: int)
    requires
        0 <= index < count,
        0 <= stride,
    ensures
        0 <= index * stride,
        (index + 1) * stride == index * stride + stride,
        (index + 1) * stride <= count * stride,
{
    assert(0 <= index * stride) by (nonlinear_arith)
        requires
            0 <= index,
            0 <= stride,
    ;
    assert((index + 1) * stride == index * stride + stride) by (nonlinear_arith);
    assert((index + 1) * stride <= count * stride) by (nonlinear_arith)
        requires
            index + 1 <= count,
            0 <= stride,
    ;
}

/// Allocates a buffer of exactly `size` zero bytes for elements of `stride`
/// bytes. `None` means that the allocator could not provide the memory; a
/// buffer of no bytes is always provided.
pub fn alloc_s(size: usize, stride: usize) -> (allocated: Option<RawBuffer>)
    ensures
        allocated matches Some(buffer) ==> buffer.is_blank(size as nat, stride) && buffer.wf(),
        size == 0 ==> allocated is Some,
{
    if size == 0 {
        return Some(RawBuffer::empty(stride));
    }
    let mut bytes: Vec<u8> = Vec::new();
    if bytes.try_reserve(size).is_err() {
        return None;
    }
    let mut filled: usize = 0;
    while filled < size
        invariant
            filled <= size,
            bytes@ == zeroed(filled as nat),
        decreases size - filled,
    {
        bytes.push(0u8);
        filled = filled + 1;
    }
    Some(RawBuffer { bytes, stride, count: 0 })
}

/// Releases a buffer. Taking the buffer by value is what makes a second
/// release, or a use after the release, impossible.
pub fn dealloc_s(buffer: RawBuffer) {
}

} // verus!
