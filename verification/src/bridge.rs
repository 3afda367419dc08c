//! The two ways across the boundary: a series of the host runtime becomes a
//! native series, and a native series becomes descriptors for the host
//! runtime.

use vstd::prelude::*;
use crate::array::ArrayView;
use crate::descriptor::{held_view, ArrayDescriptor, Keepalive, SchemaDescriptor};
use crate::error::BridgeError;
use crate::export::{describes_array, describes_type, export, exported_owned};
use crate::import::{import, import_outcome};
use crate::release::ReleaseSlot;
use crate::series::{normalized, Series, SeriesView};

verus! {

/// A native series that came in through a pair of descriptors, together with
/// the duty to release the array descriptor.
///
/// The one chunk of the series stands on the buffers of the descriptor, and
/// the series can be read only through this value. Where the descriptor had a
/// release callback, the callback has not run while the value exists; it runs
/// once, in `finish`, which ends the value and the series with it. Where the
/// descriptor had no callback, the series is a borrow, and nothing is ever
/// released through it.
#[derive(Debug)]
pub struct ImportedSeries {
    series: Series,
    /// What the producer hung on the descriptor; it is let go in `finish`.
    keepalive: Option<Keepalive>,
    release: ReleaseSlot,
}

impl ImportedSeries {
    #[verifier::type_invariant]
    closed spec fn inv(self) -> bool {
        self.series.inv()
    }

    /// The series that was imported.
    pub closed spec fn series_view(self) -> SeriesView {
        self.series@
    }

    /// The release slot that came with the array descriptor.
    pub closed spec fn slot(self) -> ReleaseSlot {
        self.release
    }

    /// The array that the private data of the descriptor kept alive, where it
    /// kept one.
    pub closed spec fn kept(self) -> Option<ArrayView> {
        held_view(self.keepalive)
    }

    /// The imported series.
    pub fn series(&self) -> (series: &Series)
        ensures
            series@ == self.series_view(),
            series.inv(),
            series@.wf(),
    {
        proof {
            use_type_invariant(self);
            self.series.lemma_inv_wf();
        }
        &self.series
    }

    /// Whether the series is a borrow: the descriptor had no release callback,
    /// and its buffers stay valid only as long as the producer keeps them.
    pub fn is_borrowed(&self) -> (borrowed: bool)
        ensures
            borrowed == !self.slot().has_callback(),
    {
        !self.release.is_owned()
    }

    /// Ends the use of the imported series, and the series with it.
    ///
    /// An owned series is released: the callback of its descriptor runs, for
    /// the first and only time, and what the producer kept alive is let go. A
    /// borrowed series is let go and nothing is released. The slot is handed
    /// back for the caller to inspect. Nothing else settles the slot of an
    /// imported series.
    pub fn finish(self) -> (slot: ReleaseSlot)
        ensures
            self.slot().settled(slot),
            slot.wf(),
            !slot.has_callback(),
    {
        let mut slot = self.release;
        slot.settle();
        slot
    }
}

/// Makes a native series named `name` of the array that the host runtime has
/// described in `schema` and `array`.
///
/// The series has one chunk, which stands on the buffers of the descriptor;
/// no buffer is copied. Whether there is a series, and with which error there
/// is none, is `import_outcome`.
///
/// The schema descriptor is only read, so it is done with when the call
/// returns: if it had a release callback, it has been released, once. The
/// array descriptor is left cleared. On success its private data and its
/// release slot have moved into the returned value, unreleased: the callback
/// runs when that value is finished, and not while the series can be read. On
/// failure an array descriptor that had a release callback has been released.
pub fn py_series_to_rust_series(
    name: &str,
    schema: &mut SchemaDescriptor,
    array: &mut ArrayDescriptor,
) -> (res: Result<ImportedSeries, BridgeError>)
    ensures
        final(array).is_cleared(),
        old(schema).release.settled(final(schema).release),
        if old(schema).release.has_callback() {
            final(schema).is_cleared()
        } else {
            *final(schema) == *old(schema)
        },
        match import_outcome(*old(schema), *old(array)) {
            Ok(view) => {
                &&& res matches Ok(imported)
                &&& view.wf()
                &&& imported.series_view() == (SeriesView {
                    name: name@,
                    dtype: view.dtype,
                    nullable: view.nullable,
                    chunks: seq![view],
                })
                &&& imported.slot() == old(array).release
                &&& imported.kept() == held_view(old(array).private_data)
                &&& !final(array).release.has_callback()
                &&& final(array).release.calls() == 0
            },
            Err(e) => {
                &&& res matches Err(err)
                &&& err == e
                &&& old(array).release.settled(final(array).release)
            },
        },
{
    let imported = import(schema, array);
    if schema.release.is_owned() {
        schema.release();
    }
    match imported {
        Ok(imported) => {
            let (native, keepalive, release) = imported.into_parts();
            let series = Series::from_array(name.to_owned(), native);
            Ok(ImportedSeries { series, keepalive, release })
        },
        Err(e) => Err(e),
    }
}

/// Describes a native series for the host runtime.
///
/// The series is first brought into one chunk, which the descriptors then
/// describe and keep alive; a series of one chunk is described as it is, and
/// no buffer of it is copied. A series of a type without a format string is
/// refused with `UnsupportedType` before anything is made.
pub fn rust_series_to_py_series(series: &Series) -> (res: Result<
    (SchemaDescriptor, ArrayDescriptor),
    BridgeError,
>)
    requires
        series.inv(),
    ensures
        match res {
            Ok((schema, desc)) => {
                &&& series@.dtype.supported()
                &&& desc.private_data matches Some(held)
                &&& normalized(series@, held@)
                &&& describes_type(schema, held@)
                &&& describes_array(desc, held@)
                &&& exported_owned(schema, desc, held@)
            },
            Err(e) => e == BridgeError::UnsupportedType && !series@.dtype.supported(),
        },
{
    if !series.dtype().is_supported() {
        return Err(BridgeError::UnsupportedType);
    }
    let chunk = series.normalize();
    export(&chunk)
}

} // verus!
