//! The importer: from a pair of descriptors back to a native array.
//!
//! Descriptors may come from anywhere, so everything about them is checked
//! before an array is built, first on the header of the pair and then on the
//! buffers; a pair that fails a check yields an error and no array.

use vstd::prelude::*;
use crate::array::{nulls_in, parts_fit, validity_flags, ArrayView, NativeArray};
use crate::buffer::{slot_view, slot_views, Buffer, BufferView};
use crate::descriptor::{
    flags_nullable, held_view, is_nullable, ArrayDescriptor, Keepalive, SchemaDescriptor,
};
use crate::error::BridgeError;
use crate::header::{check_header, header_outcome, DescriptorHeader, HeaderView};
use crate::release::ReleaseSlot;

verus! {

/// The header of a pair of descriptors: what the two structures say of
/// themselves, and which of the buffer pointers are null.
pub open spec fn header_of(schema: SchemaDescriptor, desc: ArrayDescriptor) -> HeaderView {
    HeaderView {
        format: schema.format@,
        flags: schema.flags,
        schema_children: schema.n_children,
        length: desc.length,
        null_count: desc.null_count,
        offset: desc.offset,
        n_buffers: desc.n_buffers,
        buffers_present: Seq::new(desc.buffers@.len(), |i: int| desc.buffers@[i] is Some),
        n_children: desc.n_children,
    }
}

/// The buffers of the values among the slots of a descriptor, all of them
/// present.
pub open spec fn value_buffers(slots: Seq<Option<BufferView>>) -> Seq<BufferView> {
    Seq::new((slots.len() - 1) as nat, |i: int| slots[i + 1]->Some_0)
}

/// What importing a pair of descriptors yields: the array they describe, or
/// the reason why they describe none.
///
/// The header decides first (`header_outcome`): the format string must name a
/// type (`UnsupportedType`), the pair must have the shape of that type
/// (`MalformedDescriptor`), and no mandated buffer may be missing
/// (`NullBufferPointer`). Then the buffers are looked at: no child may hang on
/// either descriptor, the buffers must be of the right kind and cover the
/// window, only a nullable field may have nulls, and a null count that is
/// given must be the number of unset validity flags (`MalformedDescriptor`).
pub open spec fn import_outcome(schema: SchemaDescriptor, desc: ArrayDescriptor) -> Result<
    ArrayView,
    BridgeError,
> {
    match header_outcome(header_of(schema, desc)) {
        Err(e) => Err(e),
        Ok(dtype) => {
            let slots = slot_views(desc.buffers@);
            let nullable = flags_nullable(schema.flags);
            let offset = desc.offset as nat;
            let len = desc.length as nat;
            let validity = validity_flags(slots[0]);
            let nulls = nulls_in(validity, offset, len);
            if schema.children@.len() != 0 || desc.children@.len() != 0 {
                Err(BridgeError::MalformedDescriptor)
            } else if !parts_fit(dtype, nullable, offset, len, slots[0], value_buffers(slots)) {
                Err(BridgeError::MalformedDescriptor)
            } else if desc.null_count != -1 && desc.null_count != nulls {
                Err(BridgeError::MalformedDescriptor)
            } else {
                Ok(
                    ArrayView {
                        dtype,
                        nullable,
                        offset,
                        len,
                        null_count: nulls,
                        validity,
                        buffers: value_buffers(slots),
                    },
                )
            }
        },
    }
}

/// The header of a pair of descriptors.
pub fn read_header(schema: &SchemaDescriptor, desc: &ArrayDescriptor) -> (header: DescriptorHeader)
    ensures
        header@ == header_of(*schema, *desc),
{
    let mut present: Vec<bool> = Vec::new();
    let mut i: usize = 0;
    while i < desc.buffers.len()
        invariant
            i <= desc.buffers.len(),
            present@.len() == i,
            forall|j: int| 0 <= j < i ==> present@[j] == (desc.buffers@[j] is Some),
        decreases desc.buffers.len() - i,
    {
        present.push(desc.buffers[i].is_some());
        i = i + 1;
    }
    let header = DescriptorHeader {
        format: schema.format.clone(),
        flags: schema.flags,
        schema_children: schema.n_children,
        length: desc.length,
        null_count: desc.null_count,
        offset: desc.offset,
        n_buffers: desc.n_buffers,
        buffers_present: present,
        n_children: desc.n_children,
    };
    assert(header@.buffers_present =~= header_of(*schema, *desc).buffers_present);
    header
}

/// The array that a pair of descriptors describes, over the very buffers of
/// the descriptor, or the reason why there is none.
pub fn read_descriptors(schema: &SchemaDescriptor, desc: &ArrayDescriptor) -> (res: Result<
    NativeArray,
    BridgeError,
>)
    ensures
        match import_outcome(*schema, *desc) {
            Ok(view) => res matches Ok(array) && array@ == view && view.wf(),
            Err(e) => res matches Err(err) && err == e,
        },
{
    let header = read_header(schema, desc);
    let dtype = match check_header(&header) {
        Ok(dtype) => dtype,
        Err(e) => {
            return Err(e);
        },
    };
    if schema.children.len() != 0 || desc.children.len() != 0 {
        return Err(BridgeError::MalformedDescriptor);
    }
    let ghost slots = slot_views(desc.buffers@);
    let ghost shown = header_of(*schema, *desc);
    let count = desc.buffers.len();
    assert forall|j: int| 0 < j < count implies (#[trigger] desc.buffers@[j]) is Some by {
        assert(shown.buffers_present[j]);
    }
    let mut values: Vec<Buffer> = Vec::new();
    let mut i: usize = 1;
    while i < count
        invariant
            1 <= i <= count,
            count == desc.buffers@.len(),
            values@.len() == i - 1,
            forall|j: int| 0 < j < count ==> (#[trigger] desc.buffers@[j]) is Some,
            forall|j: int|
                0 <= j < i - 1 ==> (#[trigger] values@[j])@ == desc.buffers@[j + 1]->Some_0@,
        decreases count - i,
    {
        if let Some(buffer) = &desc.buffers[i] {
            values.push(buffer.share());
        }
        i = i + 1;
    }
    let validity = match &desc.buffers[0] {
        Some(buffer) => Some(buffer.share()),
        None => None,
    };
    assert(crate::array::buffer_views(values@) =~= value_buffers(slots));
    let array = match NativeArray::try_new(
        dtype,
        is_nullable(schema.flags),
        desc.offset as usize,
        desc.length as usize,
        validity,
        values,
    ) {
        Ok(array) => array,
        Err(e) => {
            return Err(e);
        },
    };
    if desc.null_count != -1 && desc.null_count as u64 != array.null_count() as u64 {
        return Err(BridgeError::MalformedDescriptor);
    }
    Ok(array)
}

/// A native array that came in through a pair of descriptors, together with
/// the duty to release them.
///
/// The array stands on the buffers of the descriptor, and can be read only
/// through this value. Where the descriptor had a release callback, the holder
/// of this value is its one owner: the callback has not run while the value
/// exists, and it runs once, in `finish`, which ends the value. Where the
/// descriptor had no callback, the array is a borrow and nothing is ever
/// released through it.
#[derive(Debug)]
pub struct ImportedArray {
    array: NativeArray,
    /// What the producer hung on the descriptor; it is let go in `finish`.
    keepalive: Option<Keepalive>,
    release: ReleaseSlot,
}

impl ImportedArray {
    /// The array that was imported.
    pub closed spec fn array_view(self) -> ArrayView {
        self.array@
    }

    /// The release slot that came with the array descriptor.
    pub closed spec fn slot(self) -> ReleaseSlot {
        self.release
    }

    /// The array that the private data of the descriptor kept alive, where it
    /// kept one.
    pub closed spec fn kept(self) -> Option<ArrayView> {
        held_view(self.keepalive)
    }

    /// The imported array.
    pub fn array(&self) -> (array: &NativeArray)
        ensures
            array@ == self.array_view(),
    {
        &self.array
    }

    /// Whether the array is a borrow: the descriptor had no release callback,
    /// and its buffers stay valid only as long as the producer keeps them.
    pub fn is_borrowed(&self) -> (borrowed: bool)
        ensures
            borrowed == !self.slot().has_callback(),
    {
        !self.release.is_owned()
    }

    /// Ends the use of the imported array, and the array with it.
    ///
    /// An owned array is released: its callback runs, for the first and only
    /// time, and what the producer kept alive is let go. A borrowed array is
    /// let go and nothing is released. The slot is handed back for the caller
    /// to inspect. Nothing else settles the slot of an imported array.
    pub fn finish(self) -> (slot: ReleaseSlot)
        ensures
            self.slot().settled(slot),
            slot.wf(),
            !slot.has_callback(),
    {
        let mut slot = self.release;
        slot.settle();
        slot
    }

    /// The imported array, what was kept alive for it and its release slot,
    /// for a guard of another shape; nothing is released.
    pub(crate) fn into_parts(self) -> (parts: (NativeArray, Option<Keepalive>, ReleaseSlot))
        ensures
            parts.0@ == self.array_view(),
            held_view(parts.1) == self.kept(),
            parts.2 == self.slot(),
    {
        (self.array, self.keepalive, self.release)
    }
}

/// Builds the native array that a pair of descriptors describes.
///
/// No buffer is copied: the array stands on the buffers that the descriptor
/// points to. On success everything that the array descriptor held, its
/// private data and its release slot included, moves into the returned value,
/// and the descriptor is left cleared and without callback; nothing has been
/// released, and nothing will be before the returned value is finished. On
/// failure no array is made, the descriptor is cleared, and a descriptor that
/// had a release callback has been released. Which of the two happens, and
/// with which error, is `import_outcome`. The schema descriptor is only read.
pub fn import(schema: &SchemaDescriptor, array: &mut ArrayDescriptor) -> (res: Result<
    ImportedArray,
    BridgeError,
>)
    ensures
        final(array).is_cleared(),
        match import_outcome(*schema, *old(array)) {
            Ok(view) => {
                &&& res matches Ok(imported)
                &&& imported.array_view() == view
                &&& view.wf()
                &&& imported.slot() == old(array).release
                &&& imported.kept() == held_view(old(array).private_data)
                &&& !final(array).release.has_callback()
                &&& final(array).release.calls() == 0
            },
            Err(e) => {
                &&& res matches Err(err)
                &&& err == e
                &&& old(array).release.settled(final(array).release)
            },
        },
{
    match read_descriptors(schema, array) {
        Ok(native) => {
            let release = array.release.take();
            let keepalive = array.private_data.take();
            clear(array);
            Ok(ImportedArray { array: native, keepalive, release })
        },
        Err(e) => {
            if array.release.is_owned() {
                array.release();
            } else {
                clear(array);
            }
            Err(e)
        },
    }
}

/// Clears every field of the descriptor but its release slot.
fn clear(array: &mut ArrayDescriptor)
    ensures
        final(array).is_cleared(),
        final(array).release == old(array).release,
{
    array.length = 0;
    array.null_count = 0;
    array.offset = 0;
    array.n_buffers = 0;
    array.buffers = Vec::new();
    array.n_children = 0;
    array.children = Vec::new();
    array.private_data = None;
}

} // verus!
