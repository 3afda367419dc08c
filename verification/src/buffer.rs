//! Shared, immutable buffers.
//!
//! A buffer is handed across the boundary by sharing its allocation: the
//! native array, the descriptor and the array built from the descriptor all
//! point to the same memory, which lives until the last of them lets go.

use vstd::prelude::*;
use std::sync::Arc;

verus! {

/// One buffer of an array.
#[derive(Debug)]
pub enum Buffer {
    /// One flag per slot: validity, or boolean values.
    Bits(Arc<Vec<bool>>),
    /// Raw bytes: fixed-width values, or the text of all strings.
    Bytes(Arc<Vec<u8>>),
    /// Slot boundaries into a run of bytes.
    Offsets(Arc<Vec<i64>>),
}

/// What a buffer holds.
pub enum BufferView {
    Bits(Seq<bool>),
    Bytes(Seq<u8>),
    Offsets(Seq<i64>),
}

impl View for Buffer {
    type V = BufferView;

    open spec fn view(&self) -> BufferView {
        match self {
            Buffer::Bits(flags) => BufferView::Bits(flags@),
            Buffer::Bytes(bytes) => BufferView::Bytes(bytes@),
            Buffer::Offsets(offsets) => BufferView::Offsets(offsets@),
        }
    }
}

/// What a buffer slot holds, where it holds a buffer.
pub open spec fn slot_view(slot: Option<Buffer>) -> Option<BufferView> {
    match slot {
        Some(buffer) => Some(buffer@),
        None => None,
    }
}

/// What each slot of a list of buffer slots holds.
pub open spec fn slot_views(slots: Seq<Option<Buffer>>) -> Seq<Option<BufferView>> {
    Seq::new(slots.len(), |i: int| slot_view(slots[i]))
}

/// A second pointer to the allocation behind `pointer`.
///
/// `Arc::clone` copies the pointer and not the value, so both point to one and
/// the same value.
#[verifier::external_body]
pub(crate) fn share_arc<T>(pointer: &Arc<T>) -> (shared: Arc<T>)
    ensures
        shared == *pointer,
{
    Arc::clone(pointer)
}

impl Buffer {
    /// A buffer of flags.
    pub fn from_bits(flags: Vec<bool>) -> (buffer: Buffer)
        ensures
            buffer@ == BufferView::Bits(flags@),
    {
        Buffer::Bits(Arc::new(flags))
    }

    /// A buffer of bytes.
    pub fn from_bytes(bytes: Vec<u8>) -> (buffer: Buffer)
        ensures
            buffer@ == BufferView::Bytes(bytes@),
    {
        Buffer::Bytes(Arc::new(bytes))
    }

    /// A buffer of slot boundaries.
    pub fn from_offsets(offsets: Vec<i64>) -> (buffer: Buffer)
        ensures
            buffer@ == BufferView::Offsets(offsets@),
    {
        Buffer::Offsets(Arc::new(offsets))
    }

    /// Another handle to the same allocation; no element is copied.
    pub fn share(&self) -> (shared: Buffer)
        ensures
            shared@ == self@,
    {
        match self {
            Buffer::Bits(flags) => Buffer::Bits(share_arc(flags)),
            Buffer::Bytes(bytes) => Buffer::Bytes(share_arc(bytes)),
            Buffer::Offsets(offsets) => Buffer::Offsets(share_arc(offsets)),
        }
    }
}

} // verus!
