//! What holds of export and import together.

use vstd::prelude::*;
use crate::array::{validity_flags, ArrayView};
use crate::buffer::slot_views;
use crate::descriptor::{held_view, lemma_nullable_flags, ArrayDescriptor, SchemaDescriptor};
use crate::error::BridgeError;
use crate::export::{describes_array, describes_type, exported_borrowed, exported_owned};
use crate::header::{buffer_missing, header_outcome, shape_fits};
use crate::import::{header_of, import_outcome, value_buffers};
use crate::release::{ReleaseSlot, ReleaseState};
use crate::series::{normalized, SeriesView};
use crate::types::{lemma_format_round_trip, type_of_format};

verus! {

/// Importing the descriptors of an array gives the array back: the same type
/// and nullability, the same window, the same null count, and the same
/// buffers, hence the same values and the same nulls.
pub proof fn lemma_export_import_round_trip(
    array: ArrayView,
    schema: SchemaDescriptor,
    desc: ArrayDescriptor,
)
    requires
        array.wf(),
        array.dtype.supported(),
        describes_type(schema, array),
        describes_array(desc, array),
    ensures
        import_outcome(schema, desc) == Ok::<ArrayView, BridgeError>(array),
{
    lemma_format_round_trip(array.dtype);
    lemma_nullable_flags(array.nullable);
    let slots = slot_views(desc.buffers@);
    let header = header_of(schema, desc);
    if let Some(flags) = array.validity {
        crate::array::lemma_count_nulls_bound(
            flags.subrange(array.offset as int, (array.offset + array.len) as int),
        );
    }
    assert forall|i: int| 0 < i < header.buffers_present.len() implies header.buffers_present[i] by {
        assert(slots[i] is Some);
    }
    assert(value_buffers(slots) =~= array.buffers);
}

/// A pair that owns what it describes is not released by being imported: it
/// imports as the array it describes, and the slot and the private data that
/// move into the imported value are those of the descriptor, the callback
/// attached and never run, the array kept alive. The release is left to the
/// end of the imported value.
pub proof fn lemma_owned_pair_is_live_when_imported(
    array: ArrayView,
    schema: SchemaDescriptor,
    desc: ArrayDescriptor,
)
    requires
        array.wf(),
        array.dtype.supported(),
        describes_type(schema, array),
        describes_array(desc, array),
        exported_owned(schema, desc, array),
    ensures
        import_outcome(schema, desc) == Ok::<ArrayView, BridgeError>(array),
        desc.release.has_callback(),
        desc.release.calls() == 0,
        desc.release.state() == ReleaseState::Live,
        held_view(desc.private_data) == Some(array),
{
    lemma_export_import_round_trip(array, schema, desc);
}

/// A pair that owns what it describes is released exactly once: when its
/// consumer is done, the release callback of each descriptor has run one time
/// and is detached, so that it can not run again.
pub proof fn lemma_owned_pair_is_released_once(
    array: ArrayView,
    schema: SchemaDescriptor,
    desc: ArrayDescriptor,
    schema_end: ReleaseSlot,
    desc_end: ReleaseSlot,
)
    requires
        exported_owned(schema, desc, array),
        schema.release.settled(schema_end),
        desc.release.settled(desc_end),
    ensures
        schema_end.calls() == 1,
        desc_end.calls() == 1,
        schema_end.state() == ReleaseState::Released,
        desc_end.state() == ReleaseState::Released,
        !schema_end.has_callback(),
        !desc_end.has_callback(),
{
}

/// A pair that borrows what it describes is never released: it imports as
/// the array it describes, and when its consumer is done no release callback
/// has run on either descriptor.
pub proof fn lemma_borrowed_pair_is_never_released(
    array: ArrayView,
    schema: SchemaDescriptor,
    desc: ArrayDescriptor,
    schema_end: ReleaseSlot,
    desc_end: ReleaseSlot,
)
    requires
        array.wf(),
        array.dtype.supported(),
        describes_type(schema, array),
        describes_array(desc, array),
        exported_borrowed(schema, desc),
        schema.release.settled(schema_end),
        desc.release.settled(desc_end),
    ensures
        import_outcome(schema, desc) == Ok::<ArrayView, BridgeError>(array),
        schema_end.calls() == 0,
        desc_end.calls() == 0,
        schema_end.state() == ReleaseState::Live,
        desc_end.state() == ReleaseState::Live,
{
    lemma_export_import_round_trip(array, schema, desc);
}

/// A pair whose array descriptor does not have the number of buffers that the
/// type of its schema descriptor has describes no array: the import fails with
/// `MalformedDescriptor`.
pub proof fn lemma_buffer_count_mismatch_is_malformed(schema: SchemaDescriptor, desc: ArrayDescriptor)
    requires
        type_of_format(schema.format@) matches Some(dtype) && (desc.n_buffers
            != dtype.buffer_count() || desc.buffers@.len() != dtype.buffer_count()),
    ensures
        header_outcome(header_of(schema, desc)) == Err::<crate::types::LogicalType, BridgeError>(
            BridgeError::MalformedDescriptor,
        ),
        import_outcome(schema, desc) == Err::<ArrayView, BridgeError>(
            BridgeError::MalformedDescriptor,
        ),
{
}

/// A pair whose format string names no type describes no array, whatever else
/// it holds: the import fails with `UnsupportedType`.
pub proof fn lemma_unknown_format_is_unsupported(schema: SchemaDescriptor, desc: ArrayDescriptor)
    requires
        type_of_format(schema.format@) is None,
    ensures
        header_outcome(header_of(schema, desc)) == Err::<crate::types::LogicalType, BridgeError>(
            BridgeError::UnsupportedType,
        ),
        import_outcome(schema, desc) == Err::<ArrayView, BridgeError>(BridgeError::UnsupportedType),
{
}

/// Normalising is idempotent: the normal form of a series, taken as a series
/// of one chunk, is again a valid series with the same logical values, and its
/// normal form is that same array, buffers and all.
pub proof fn lemma_normalize_idempotent(series: SeriesView, once: ArrayView, twice: ArrayView)
    requires
        series.wf(),
        normalized(series, once),
        normalized(SeriesView { chunks: seq![once], ..series }, twice),
    ensures
        twice == once,
        (SeriesView { chunks: seq![once], ..series }).wf(),
        (SeriesView { chunks: seq![once], ..series }).slots() == series.slots(),
{
    let single = SeriesView { chunks: seq![once], ..series };
    crate::series::lemma_single_chunk_fits(once);
    assert(crate::series::total_slots(single.chunks.drop_last()) == 0);
    assert(crate::series::total_text(single.chunks.drop_last()) == 0);
}

} // verus!
