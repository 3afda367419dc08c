//! The exporter: from a native array to a pair of descriptors.

use vstd::prelude::*;
use crate::array::{ArrayView, NativeArray};
use crate::buffer::slot_views;
use crate::descriptor::{nullable_flags, ArrayDescriptor, Keepalive, SchemaDescriptor, FLAG_NULLABLE};
use crate::error::BridgeError;
use crate::release::ReleaseSlot;
use crate::types::{format_of, to_format};

verus! {

/// `schema` is the schema descriptor of an array `array`: the format string
/// of its type, an empty name, no metadata, the nullable flag alone, and no
/// children.
pub open spec fn describes_type(schema: SchemaDescriptor, array: ArrayView) -> bool {
    &&& format_of(array.dtype) == Some(schema.format@)
    &&& schema.name matches Some(name) && name@.len() == 0
    &&& schema.metadata is None
    &&& schema.flags == nullable_flags(array.nullable)
    &&& schema.n_children == 0
    &&& schema.children@.len() == 0
    &&& schema.private_data is None
}

/// `desc` is the array descriptor of an array `array`: its window, its null
/// count, and its very buffers, the validity buffer first; no children.
pub open spec fn describes_array(desc: ArrayDescriptor, array: ArrayView) -> bool {
    &&& desc.length == array.len
    &&& desc.null_count == array.null_count
    &&& desc.offset == array.offset
    &&& desc.n_buffers == array.dtype.buffer_count()
    &&& slot_views(desc.buffers@) == array.buffer_slots()
    &&& desc.n_children == 0
    &&& desc.children@.len() == 0
}

/// The descriptors own what they describe: each has a release callback that
/// has not run, and the array descriptor keeps `array` alive.
pub open spec fn exported_owned(
    schema: SchemaDescriptor,
    desc: ArrayDescriptor,
    array: ArrayView,
) -> bool {
    &&& schema.release.has_callback()
    &&& schema.release.calls() == 0
    &&& desc.release.has_callback()
    &&& desc.release.calls() == 0
    &&& desc.private_data matches Some(held) && held@ == array
}

/// The descriptors borrow what they describe: no release callback, nothing
/// kept alive.
pub open spec fn exported_borrowed(schema: SchemaDescriptor, desc: ArrayDescriptor) -> bool {
    &&& !schema.release.has_callback()
    &&& schema.release.calls() == 0
    &&& !desc.release.has_callback()
    &&& desc.release.calls() == 0
    &&& desc.private_data is None
}

fn describe(array: &NativeArray, owned: bool) -> (res: Result<
    (SchemaDescriptor, ArrayDescriptor),
    BridgeError,
>)
    ensures
        match res {
            Ok((schema, desc)) => {
                &&& array@.dtype.supported()
                &&& array@.wf()
                &&& describes_type(schema, array@)
                &&& describes_array(desc, array@)
                &&& if owned {
                    exported_owned(schema, desc, array@)
                } else {
                    exported_borrowed(schema, desc)
                }
            },
            Err(e) => e == BridgeError::UnsupportedType && !array@.dtype.supported(),
        },
{
    let format = match to_format(array.dtype()) {
        Ok(format) => format,
        Err(e) => {
            return Err(e);
        },
    };
    let buffers = array.buffer_slots();
    let schema = SchemaDescriptor {
        format,
        name: Some(String::new()),
        metadata: None,
        flags: if array.is_nullable() {
            FLAG_NULLABLE
        } else {
            0
        },
        n_children: 0,
        children: Vec::new(),
        private_data: None,
        release: if owned {
            ReleaseSlot::owned()
        } else {
            ReleaseSlot::borrowed()
        },
    };
    let desc = ArrayDescriptor {
        length: array.len() as i64,
        null_count: array.null_count() as i64,
        offset: array.offset() as i64,
        n_buffers: buffers.len() as i64,
        buffers,
        n_children: 0,
        children: Vec::new(),
        private_data: if owned {
            Some(Keepalive::new(array.share()))
        } else {
            None
        },
        release: if owned {
            ReleaseSlot::owned()
        } else {
            ReleaseSlot::borrowed()
        },
    };
    Ok((schema, desc))
}

/// Describes `array` by a pair of descriptors that own it.
///
/// No buffer is copied: the descriptor points to the buffers of `array`, and
/// keeps them alive until its release callback has run. An array of a type
/// without a format string is refused with `UnsupportedType`, and then no
/// descriptor is made at all.
pub fn export(array: &NativeArray) -> (res: Result<(SchemaDescriptor, ArrayDescriptor), BridgeError>)
    ensures
        match res {
            Ok((schema, desc)) => {
                &&& array@.dtype.supported()
                &&& array@.wf()
                &&& describes_type(schema, array@)
                &&& describes_array(desc, array@)
                &&& exported_owned(schema, desc, array@)
            },
            Err(e) => e == BridgeError::UnsupportedType && !array@.dtype.supported(),
        },
{
    describe(array, true)
}

/// Describes `array` by a pair of descriptors that only borrow it.
///
/// The descriptors carry no release callback: whoever reads them releases
/// nothing, and `array` stays as it is. An array of a type without a format
/// string is refused with `UnsupportedType`.
pub fn export_borrowed(array: &NativeArray) -> (res: Result<
    (SchemaDescriptor, ArrayDescriptor),
    BridgeError,
>)
    ensures
        match res {
            Ok((schema, desc)) => {
                &&& array@.dtype.supported()
                &&& array@.wf()
                &&& describes_type(schema, array@)
                &&& describes_array(desc, array@)
                &&& exported_borrowed(schema, desc)
            },
            Err(e) => e == BridgeError::UnsupportedType && !array@.dtype.supported(),
        },
{
    describe(array, false)
}

} // verus!
