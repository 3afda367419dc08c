//! The two descriptor structures that cross the boundary.
//!
//! A schema descriptor says what type a field has; an array descriptor says
//! where the buffers of one array are. Their fields stand in the order of the
//! interchange contract. Anyone may fill in a descriptor, so nothing is taken
//! for granted about one until it has been imported.

use vstd::prelude::*;
use crate::array::{ArrayView, NativeArray};
use crate::buffer::Buffer;
use crate::release::{ReleaseSlot, ReleaseState};

verus! {

/// Flag bit: the dictionary of the field is ordered.
pub const FLAG_DICTIONARY_ORDERED: i64 = 1;

/// Flag bit: the field may hold nulls.
pub const FLAG_NULLABLE: i64 = 2;

/// Flag bit: the keys of the map are sorted.
pub const FLAG_MAP_KEYS_SORTED: i64 = 4;

/// Whether the nullable bit is set in `flags`.
pub open spec fn flags_nullable(flags: i64) -> bool {
    flags & FLAG_NULLABLE != 0
}

/// The flags of a field that is nullable or not, and nothing else.
pub open spec fn nullable_flags(nullable: bool) -> i64 {
    if nullable {
        FLAG_NULLABLE
    } else {
        0
    }
}

/// Whether the nullable bit is set in `flags`.
pub fn is_nullable(flags: i64) -> (nullable: bool)
    ensures
        nullable == flags_nullable(flags),
{
    flags & FLAG_NULLABLE != 0
}

/// The flags written for a field read back as they were meant.
pub proof fn lemma_nullable_flags(nullable: bool)
    ensures
        flags_nullable(nullable_flags(nullable)) == nullable,
{
    assert(2i64 & 2i64 != 0) by (bit_vector);
    assert(0i64 & 2i64 == 0) by (bit_vector);
}

/// What a producer hangs on a descriptor to keep the exported array alive
/// until the release callback has run.
#[derive(Debug)]
pub struct Keepalive {
    array: NativeArray,
}

impl View for Keepalive {
    type V = ArrayView;

    closed spec fn view(&self) -> ArrayView {
        self.array@
    }
}

impl Keepalive {
    /// Holds on to `array`.
    pub fn new(array: NativeArray) -> (held: Keepalive)
        ensures
            held@ == array@,
    {
        Keepalive { array }
    }
}

/// The array that the private data of a descriptor keeps alive, where it
/// keeps one.
pub open spec fn held_view(data: Option<Keepalive>) -> Option<ArrayView> {
    match data {
        Some(held) => Some(held@),
        None => None,
    }
}

/// The type of one field.
#[derive(Debug)]
pub struct SchemaDescriptor {
    /// The logical type, as a format string.
    pub format: String,
    pub name: Option<String>,
    pub metadata: Option<Vec<u8>>,
    pub flags: i64,
    pub n_children: i64,
    pub children: Vec<SchemaDescriptor>,
    pub private_data: Option<Keepalive>,
    pub release: ReleaseSlot,
}

/// The buffers of one array.
#[derive(Debug)]
pub struct ArrayDescriptor {
    pub length: i64,
    /// The number of nulls, or -1 where it is not known.
    pub null_count: i64,
    pub offset: i64,
    pub n_buffers: i64,
    /// The validity buffer first, then the buffers of the values; `None` is a
    /// null pointer.
    pub buffers: Vec<Option<Buffer>>,
    pub n_children: i64,
    pub children: Vec<ArrayDescriptor>,
    pub private_data: Option<Keepalive>,
    pub release: ReleaseSlot,
}

impl SchemaDescriptor {
    /// Nothing is described and nothing is held.
    pub open spec fn is_cleared(self) -> bool {
        &&& self.format@.len() == 0
        &&& self.name is None
        &&& self.metadata is None
        &&& self.flags == 0
        &&& self.n_children == 0
        &&& self.children@.len() == 0
        &&& self.private_data is None
    }

    /// A descriptor that describes nothing, for a producer to fill in.
    pub fn empty() -> (schema: SchemaDescriptor)
        ensures
            schema.is_cleared(),
            !schema.release.has_callback(),
            schema.release.calls() == 0,
    {
        SchemaDescriptor {
            format: String::new(),
            name: None,
            metadata: None,
            flags: 0,
            n_children: 0,
            children: Vec::new(),
            private_data: None,
            release: ReleaseSlot::borrowed(),
        }
    }

    /// Runs the release callback: what the descriptor held is let go, its
    /// fields are cleared, and the callback is detached.
    ///
    /// The one owner of the descriptor calls this once it has finished
    /// reading; a descriptor without a callback can not be released.
    pub fn release(&mut self)
        requires
            old(self).release.has_callback(),
        ensures
            final(self).is_cleared(),
            old(self).release.released(final(self).release),
            final(self).release.calls() == 1,
            final(self).release.state() == ReleaseState::Released,
    {
        self.release.invoke();
        self.format = String::new();
        self.name = None;
        self.metadata = None;
        self.flags = 0;
        self.n_children = 0;
        self.children = Vec::new();
        self.private_data = None;
    }
}

impl ArrayDescriptor {
    /// Nothing is described and nothing is held.
    pub open spec fn is_cleared(self) -> bool {
        &&& self.length == 0
        &&& self.null_count == 0
        &&& self.offset == 0
        &&& self.n_buffers == 0
        &&& self.buffers@.len() == 0
        &&& self.n_children == 0
        &&& self.children@.len() == 0
        &&& self.private_data is None
    }

    /// A descriptor that describes nothing, for a producer to fill in.
    pub fn empty() -> (array: ArrayDescriptor)
        ensures
            array.is_cleared(),
            !array.release.has_callback(),
            array.release.calls() == 0,
    {
        ArrayDescriptor {
            length: 0,
            null_count: 0,
            offset: 0,
            n_buffers: 0,
            buffers: Vec::new(),
            n_children: 0,
            children: Vec::new(),
            private_data: None,
            release: ReleaseSlot::borrowed(),
        }
    }

    /// Runs the release callback: the buffers and what kept them alive are let
    /// go, the fields are cleared, and the callback is detached.
    ///
    /// The one owner of the descriptor calls this once it has finished
    /// reading; a descriptor without a callback can not be released.
    pub fn release(&mut self)
        requires
            old(self).release.has_callback(),
        ensures
            final(self).is_cleared(),
            old(self).release.released(final(self).release),
            final(self).release.calls() == 1,
            final(self).release.state() == ReleaseState::Released,
    {
        self.release.invoke();
        self.length = 0;
        self.null_count = 0;
        self.offset = 0;
        self.n_buffers = 0;
        self.buffers = Vec::new();
        self.n_children = 0;
        self.children = Vec::new();
        self.private_data = None;
    }
}

} // verus!
