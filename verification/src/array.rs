//! The native single-chunk array: one contiguous set of buffers and a logical
//! type.

use vstd::prelude::*;
use std::sync::Arc;
use crate::buffer::{share_arc, slot_view, slot_views, Buffer, BufferView};
use crate::error::BridgeError;
use crate::types::{Layout, LogicalType};

verus! {

/// How many of `flags` are unset.
pub open spec fn count_nulls(flags: Seq<bool>) -> nat
    decreases flags.len(),
{
    if flags.len() == 0 {
        0
    } else {
        count_nulls(flags.drop_last()) + if flags.last() {
            0nat
        } else {
            1nat
        }
    }
}

/// The null slots among the `len` slots that start at `offset`; without a
/// validity buffer every slot is valid.
pub open spec fn nulls_in(validity: Option<Seq<bool>>, offset: nat, len: nat) -> nat {
    match validity {
        Some(flags) => count_nulls(flags.subrange(offset as int, (offset + len) as int)),
        None => 0,
    }
}

/// A validity buffer, where there is one, covers `slots` slots.
pub open spec fn validity_fits(validity: Option<Seq<bool>>, slots: nat) -> bool {
    validity matches Some(flags) ==> flags.len() >= slots
}

/// The boundaries of the `len` slots that start at `offset` never fall, start
/// at no less than 0 and stay inside `data_len` bytes; with 32-bit offsets
/// they also fit in 32 bits.
pub open spec fn offsets_fit(
    offsets: Seq<i64>,
    offset: nat,
    len: nat,
    data_len: nat,
    narrow: bool,
) -> bool {
    &&& offsets.len() >= offset + len + 1
    &&& 0 <= offsets[offset as int]
    &&& forall|i: int, j: int|
        offset <= i <= j <= offset + len ==> #[trigger] offsets[i] <= #[trigger] offsets[j]
    &&& offsets[(offset + len) as int] <= data_len
    &&& narrow ==> offsets[(offset + len) as int] <= i32::MAX
}

/// The value buffers are those that the layout of `dtype` prescribes, and
/// cover the `len` slots that start at `offset`.
pub open spec fn values_fit(
    dtype: LogicalType,
    offset: nat,
    len: nat,
    buffers: Seq<BufferView>,
) -> bool {
    match dtype.layout() {
        Layout::Bits => {
            &&& buffers.len() == 1
            &&& buffers[0] matches BufferView::Bits(flags)
            &&& flags.len() >= offset + len
        },
        Layout::Fixed => {
            &&& buffers.len() == 1
            &&& buffers[0] matches BufferView::Bytes(bytes)
            &&& bytes.len() >= (offset + len) * dtype.byte_width()
        },
        Layout::Text => {
            &&& buffers.len() == 2
            &&& buffers[0] matches BufferView::Offsets(offsets)
            &&& buffers[1] matches BufferView::Bytes(bytes)
            &&& offsets_fit(offsets, offset, len, bytes.len(), dtype == LogicalType::Utf8)
        },
    }
}

/// What each buffer of a list holds.
pub open spec fn buffer_views(buffers: Seq<Buffer>) -> Seq<BufferView> {
    Seq::new(buffers.len(), |i: int| buffers[i]@)
}

/// The value of one slot.
pub enum DatumView {
    Flag(bool),
    Bytes(Seq<u8>),
}

/// The value of one slot, taken out of its array.
#[derive(Debug, PartialEq, Eq)]
pub enum Datum {
    /// A boolean.
    Flag(bool),
    /// The bytes of a fixed-width value, or of a string.
    Bytes(Vec<u8>),
}

impl View for Datum {
    type V = DatumView;

    open spec fn view(&self) -> DatumView {
        match self {
            Datum::Flag(flag) => DatumView::Flag(*flag),
            Datum::Bytes(bytes) => DatumView::Bytes(bytes@),
        }
    }
}

/// The value of a slot, where it has one.
pub open spec fn value_view(value: Option<Datum>) -> Option<DatumView> {
    match value {
        Some(datum) => Some(datum@),
        None => None,
    }
}

/// What a native array is: its type, its window into the buffers, and what the
/// buffers hold.
pub struct ArrayView {
    pub dtype: LogicalType,
    pub nullable: bool,
    pub offset: nat,
    pub len: nat,
    pub null_count: nat,
    pub validity: Option<Seq<bool>>,
    pub buffers: Seq<BufferView>,
}

impl ArrayView {
    /// The buffers fit the type and the window, and the null count is the
    /// number of unset validity flags in the window.
    pub open spec fn wf(self) -> bool {
        &&& self.offset + self.len < usize::MAX
        &&& self.offset + self.len <= i64::MAX
        &&& validity_fits(self.validity, self.offset + self.len)
        &&& self.null_count == nulls_in(self.validity, self.offset, self.len)
        &&& !self.nullable ==> self.null_count == 0
        &&& values_fit(self.dtype, self.offset, self.len, self.buffers)
    }

    /// Whether slot `i` holds a value.
    pub open spec fn is_valid(self, i: int) -> bool {
        match self.validity {
            Some(flags) => flags[self.offset + i],
            None => true,
        }
    }

    /// What the buffers hold for slot `i`, valid or not.
    pub open spec fn datum(self, i: int) -> DatumView {
        let at = self.offset + i;
        match self.dtype.layout() {
            Layout::Bits => DatumView::Flag(self.buffers[0]->Bits_0[at]),
            Layout::Fixed => {
                let width = self.dtype.byte_width() as int;
                DatumView::Bytes(self.buffers[0]->Bytes_0.subrange(at * width, (at + 1) * width))
            },
            Layout::Text => {
                let offsets = self.buffers[0]->Offsets_0;
                DatumView::Bytes(
                    self.buffers[1]->Bytes_0.subrange(offsets[at] as int, offsets[at + 1] as int),
                )
            },
        }
    }

    /// The logical value of slot `i`: nothing for a null.
    pub open spec fn slot(self, i: int) -> Option<DatumView> {
        if self.is_valid(i) {
            Some(self.datum(i))
        } else {
            None
        }
    }

    /// The buffer slots of a descriptor of the array: the validity buffer, or
    /// a null pointer where there is none, then the value buffers.
    pub open spec fn buffer_slots(self) -> Seq<Option<BufferView>> {
        seq![
            match self.validity {
                Some(flags) => Some(BufferView::Bits(flags)),
                None => None,
            },
        ] + Seq::new(self.buffers.len(), |i: int| Some(self.buffers[i]))
    }

    /// The bytes of text between the first boundary of slot 0 and the first
    /// boundary of slot `upto` of an array of text; 0 for other arrays.
    pub open spec fn text_before(self, upto: nat) -> nat {
        match self.dtype.layout() {
            Layout::Text => {
                let offsets = self.buffers[0]->Offsets_0;
                (offsets[(self.offset + upto) as int] - offsets[self.offset as int]) as nat
            },
            _ => 0,
        }
    }

    /// The bytes of text that the window of the array spans.
    pub open spec fn text_span(self) -> nat {
        self.text_before(self.len)
    }

    /// The logical values of the array, in order.
    pub open spec fn slots(self) -> Seq<Option<DatumView>> {
        Seq::new(self.len, |i: int| self.slot(i))
    }
}

/// A native single-chunk array.
///
/// Its buffers are shared, never copied; it is valid by construction.
#[derive(Debug)]
pub struct NativeArray {
    dtype: LogicalType,
    nullable: bool,
    offset: usize,
    len: usize,
    null_count: usize,
    validity: Option<Arc<Vec<bool>>>,
    buffers: Vec<Buffer>,
}

impl View for NativeArray {
    type V = ArrayView;

    closed spec fn view(&self) -> ArrayView {
        ArrayView {
            dtype: self.dtype,
            nullable: self.nullable,
            offset: self.offset as nat,
            len: self.len as nat,
            null_count: self.null_count as nat,
            validity: match self.validity {
                Some(flags) => Some(flags@),
                None => None,
            },
            buffers: buffer_views(self.buffers@),
        }
    }
}

/// The parts make a valid array: the validity buffer, where there is one,
/// holds flags; the buffers fit the type and the window; and only a nullable
/// array has nulls.
pub open spec fn parts_fit(
    dtype: LogicalType,
    nullable: bool,
    offset: nat,
    len: nat,
    validity: Option<BufferView>,
    buffers: Seq<BufferView>,
) -> bool {
    &&& offset + len < usize::MAX
    &&& offset + len <= i64::MAX
    &&& validity matches Some(held) ==> held is Bits
    &&& validity_fits(validity_flags(validity), offset + len)
    &&& !nullable ==> nulls_in(validity_flags(validity), offset, len) == 0
    &&& values_fit(dtype, offset, len, buffers)
}

/// The flags of a validity buffer.
pub open spec fn validity_flags(validity: Option<BufferView>) -> Option<Seq<bool>> {
    match validity {
        Some(BufferView::Bits(flags)) => Some(flags),
        _ => None,
    }
}

/// No more slots are null than there are slots.
pub proof fn lemma_count_nulls_bound(flags: Seq<bool>)
    ensures
        count_nulls(flags) <= flags.len(),
    decreases flags.len(),
{
    if flags.len() > 0 {
        lemma_count_nulls_bound(flags.drop_last());
    }
}

/// Counting one slot more adds one where its flag is unset.
pub proof fn lemma_count_nulls_step(flags: Seq<bool>, from: int, to: int)
    requires
        0 <= from <= to < flags.len(),
    ensures
        count_nulls(flags.subrange(from, to + 1)) == count_nulls(flags.subrange(from, to)) + if flags[to] {
            0nat
        } else {
            1nat
        },
{
    assert(flags.subrange(from, to + 1).drop_last() =~= flags.subrange(from, to));
}

/// The number of null slots among the `len` slots of `flags` that start at
/// `offset`.
fn count_window_nulls(flags: &Vec<bool>, offset: usize, len: usize) -> (nulls: usize)
    requires
        offset + len <= flags.len(),
    ensures
        nulls == count_nulls(flags@.subrange(offset as int, offset + len)),
        nulls <= len,
{
    let mut nulls: usize = 0;
    let mut i: usize = 0;
    while i < len
        invariant
            i <= len,
            offset + len <= flags.len(),
            nulls <= i,
            nulls == count_nulls(flags@.subrange(offset as int, offset + i)),
        decreases len - i,
    {
        proof {
            lemma_count_nulls_step(flags@, offset as int, offset + i);
        }
        if !flags[offset + i] {
            nulls = nulls + 1;
        }
        i = i + 1;
    }
    nulls
}

/// Whether the boundaries of the window are sound: see `offsets_fit`.
fn check_offsets(
    offsets: &Vec<i64>,
    offset: usize,
    len: usize,
    data_len: usize,
    narrow: bool,
) -> (ok: bool)
    requires
        offset + len < usize::MAX,
    ensures
        ok == offsets_fit(offsets@, offset as nat, len as nat, data_len as nat, narrow),
{
    if offsets.len() < offset + len + 1 {
        return false;
    }
    if offsets[offset] < 0 {
        return false;
    }
    let mut i: usize = 0;
    while i < len
        invariant
            i <= len,
            offset + len + 1 <= offsets.len(),
            forall|a: int, b: int|
                offset <= a <= b <= offset + i ==> #[trigger] offsets[a] <= #[trigger] offsets[b],
        decreases len - i,
    {
        if offsets[offset + i] > offsets[offset + i + 1] {
            return false;
        }
        i = i + 1;
    }
    let last = offsets[offset + len];
    if last as u64 > data_len as u64 {
        return false;
    }
    if narrow && last > 0x7fff_ffff {
        return false;
    }
    true
}

/// Whether the value buffers fit the type and the window: see `values_fit`.
fn check_values(dtype: LogicalType, offset: usize, len: usize, buffers: &Vec<Buffer>) -> (ok:
    bool)
    requires
        offset + len < usize::MAX,
    ensures
        ok == values_fit(dtype, offset as nat, len as nat, buffer_views(buffers@)),
{
    let total = offset + len;
    let narrow = match dtype {
        LogicalType::Utf8 => true,
        _ => false,
    };
    match dtype.value_layout() {
        Layout::Bits => {
            if buffers.len() != 1 {
                return false;
            }
            match &buffers[0] {
                Buffer::Bits(flags) => {
                    flags.len() >= total
                },
                _ => false,
            }
        },
        Layout::Fixed => {
            if buffers.len() != 1 {
                return false;
            }
            match &buffers[0] {
                Buffer::Bytes(bytes) => {
                    let held = bytes.len();
                    match total.checked_mul(dtype.value_width()) {
                        Some(needed) => held >= needed,
                        None => false,
                    }
                },
                _ => false,
            }
        },
        Layout::Text => {
            if buffers.len() != 2 {
                return false;
            }
            match (&buffers[0], &buffers[1]) {
                (Buffer::Offsets(offsets), Buffer::Bytes(bytes)) => {
                    check_offsets(offsets, offset, len, bytes.len(), narrow)
                },
                _ => false,
            }
        },
    }
}

impl NativeArray {
    #[verifier::type_invariant]
    closed spec fn inv(self) -> bool {
        self@.wf()
    }

    /// An array over the given buffers, which are taken as they are.
    ///
    /// Succeeds exactly where the parts fit together (`parts_fit`); the null
    /// count is counted from the validity flags. Parts that do not fit are
    /// refused with `MalformedDescriptor`.
    pub fn try_new(
        dtype: LogicalType,
        nullable: bool,
        offset: usize,
        len: usize,
        validity: Option<Buffer>,
        buffers: Vec<Buffer>,
    ) -> (res: Result<NativeArray, BridgeError>)
        ensures
            match res {
                Ok(array) => {
                    &&& parts_fit(
                        dtype,
                        nullable,
                        offset as nat,
                        len as nat,
                        slot_view(validity),
                        buffer_views(buffers@),
                    )
                    &&& array@.wf()
                    &&& array@ == (ArrayView {
                        dtype,
                        nullable,
                        offset: offset as nat,
                        len: len as nat,
                        null_count: nulls_in(validity_flags(slot_view(validity)), offset as nat, len as nat),
                        validity: validity_flags(slot_view(validity)),
                        buffers: buffer_views(buffers@),
                    })
                },
                Err(e) => {
                    &&& e == BridgeError::MalformedDescriptor
                    &&& !parts_fit(
                        dtype,
                        nullable,
                        offset as nat,
                        len as nat,
                        slot_view(validity),
                        buffer_views(buffers@),
                    )
                },
            },
    {
        let total = match offset.checked_add(len) {
            Some(total) => total,
            None => {
                return Err(BridgeError::MalformedDescriptor);
            },
        };
        if total == usize::MAX || total as u64 > 0x7fff_ffff_ffff_ffff {
            return Err(BridgeError::MalformedDescriptor);
        }
        let (flags, null_count) = match validity {
            Some(Buffer::Bits(flags)) => {
                if flags.len() < total {
                    return Err(BridgeError::MalformedDescriptor);
                }
                let nulls = count_window_nulls(&flags, offset, len);
                (Some(flags), nulls)
            },
            Some(_) => {
                return Err(BridgeError::MalformedDescriptor);
            },
            None => (None, 0),
        };
        if !nullable && null_count != 0 {
            return Err(BridgeError::MalformedDescriptor);
        }
        if !check_values(dtype, offset, len, &buffers) {
            return Err(BridgeError::MalformedDescriptor);
        }
        Ok(NativeArray { dtype, nullable, offset, len, null_count, validity: flags, buffers })
    }

    /// An array over fresh buffers that start at slot 0, with a validity
    /// flag for every slot.
    pub(crate) fn assemble(
        dtype: LogicalType,
        nullable: bool,
        len: usize,
        null_count: usize,
        flags: Vec<bool>,
        buffers: Vec<Buffer>,
    ) -> (array: NativeArray)
        requires
            (ArrayView {
                dtype,
                nullable,
                offset: 0,
                len: len as nat,
                null_count: null_count as nat,
                validity: Some(flags@),
                buffers: buffer_views(buffers@),
            }).wf(),
        ensures
            array@ == (ArrayView {
                dtype,
                nullable,
                offset: 0,
                len: len as nat,
                null_count: null_count as nat,
                validity: Some(flags@),
                buffers: buffer_views(buffers@),
            }),
    {
        NativeArray {
            dtype,
            nullable,
            offset: 0,
            len,
            null_count,
            validity: Some(Arc::new(flags)),
            buffers,
        }
    }

    /// The logical type.
    pub fn dtype(&self) -> (dtype: LogicalType)
        ensures
            dtype == self@.dtype,
    {
        self.dtype
    }

    /// Whether the array may hold nulls.
    pub fn is_nullable(&self) -> (nullable: bool)
        ensures
            nullable == self@.nullable,
    {
        self.nullable
    }

    /// The first slot of the array in its buffers.
    pub fn offset(&self) -> (offset: usize)
        ensures
            offset == self@.offset,
    {
        self.offset
    }

    /// The number of slots.
    pub fn len(&self) -> (len: usize)
        ensures
            len == self@.len,
    {
        self.len
    }

    /// The number of null slots.
    pub fn null_count(&self) -> (nulls: usize)
        ensures
            nulls == self@.null_count,
            nulls == nulls_in(self@.validity, self@.offset, self@.len),
            nulls <= self@.len,
    {
        proof {
            use_type_invariant(self);
            if let Some(flags) = self@.validity {
                lemma_count_nulls_bound(
                    flags.subrange(self@.offset as int, (self@.offset + self@.len) as int),
                );
            }
        }
        self.null_count
    }

    /// The bytes of text that the window of the array spans; 0 for an array
    /// that is not of text.
    pub fn text_span(&self) -> (span: usize)
        ensures
            span == self@.text_span(),
            self@.wf(),
    {
        proof {
            use_type_invariant(self);
        }
        match self.dtype.value_layout() {
            Layout::Text => match (&self.buffers[0], &self.buffers[1]) {
                (Buffer::Offsets(offsets), Buffer::Bytes(bytes)) => {
                    assert(bytes@.len() == bytes.len());
                    (offsets[self.offset + self.len] - offsets[self.offset]) as usize
                },
                _ => 0,
            },
            _ => 0,
        }
    }

    /// Whether slot `i` holds a value.
    pub fn is_valid(&self, i: usize) -> (valid: bool)
        requires
            i < self@.len,
        ensures
            valid == self@.is_valid(i as int),
    {
        proof {
            use_type_invariant(self);
        }
        match &self.validity {
            Some(flags) => flags[self.offset + i],
            None => true,
        }
    }

    /// What the buffers hold for slot `i`, whether the slot is valid or not.
    pub fn datum(&self, i: usize) -> (datum: Datum)
        requires
            i < self@.len,
        ensures
            datum@ == self@.datum(i as int),
    {
        proof {
            use_type_invariant(self);
        }
        let at = self.offset + i;
        match self.dtype.value_layout() {
            Layout::Bits => match &self.buffers[0] {
                Buffer::Bits(flags) => {
                    Datum::Flag(flags[at])
                },
                _ => Datum::Flag(false),
            },
            Layout::Fixed => match &self.buffers[0] {
                Buffer::Bytes(bytes) => {
                    assert(bytes@.len() == bytes.len());
                    let width = self.dtype.value_width();
                    assert((at + 1) * width <= (self.offset + self.len) * width
                        && at * width <= (at + 1) * width) by (nonlinear_arith)
                        requires
                            at + 1 <= self.offset + self.len,
                            0 <= at,
                            0 <= width,
                    ;
                    Datum::Bytes(copy_range(bytes, at * width, (at + 1) * width))
                },
                _ => Datum::Flag(false),
            },
            Layout::Text => match (&self.buffers[0], &self.buffers[1]) {
                (Buffer::Offsets(offsets), Buffer::Bytes(bytes)) => {
                    assert(bytes@.len() == bytes.len());
                    let from = offsets[at] as usize;
                    let to = offsets[at + 1] as usize;
                    Datum::Bytes(copy_range(bytes, from, to))
                },
                _ => Datum::Flag(false),
            },
        }
    }

    /// The logical value of slot `i`: nothing for a null, and nothing past
    /// the end.
    pub fn value(&self, i: usize) -> (value: Option<Datum>)
        ensures
            value_view(value) == if i < self@.len {
                self@.slot(i as int)
            } else {
                None
            },
    {
        if i < self.len && self.is_valid(i) {
            Some(self.datum(i))
        } else {
            None
        }
    }

    /// Handles to the buffers in the order of a descriptor: the validity
    /// buffer, or nothing where there is none, then the value buffers. No
    /// buffer is copied.
    pub fn buffer_slots(&self) -> (slots: Vec<Option<Buffer>>)
        ensures
            slot_views(slots@) == self@.buffer_slots(),
            slots@.len() == self@.dtype.buffer_count(),
            self@.wf(),
    {
        proof {
            use_type_invariant(self);
        }
        let mut slots: Vec<Option<Buffer>> = Vec::new();
        match &self.validity {
            Some(flags) => slots.push(Some(Buffer::Bits(share_arc(flags)))),
            None => slots.push(None),
        }
        let mut i: usize = 0;
        while i < self.buffers.len()
            invariant
                i <= self.buffers.len(),
                slots@.len() == i + 1,
                slot_view(slots@[0]) == self@.buffer_slots()[0],
                forall|j: int| 0 <= j < i ==> slot_view(#[trigger] slots@[j + 1]) == Some(self.buffers@[j]@),
            decreases self.buffers.len() - i,
        {
            slots.push(Some(self.buffers[i].share()));
            i = i + 1;
        }
        assert(slot_views(slots@) =~= self@.buffer_slots()) by {
            assert forall|k: int| 0 <= k < slots@.len() implies slot_views(slots@)[k]
                == self@.buffer_slots()[k] by {
                if k > 0 {
                    assert(slot_view(slots@[(k - 1) + 1]) == Some(self.buffers@[k - 1]@));
                }
            }
        }
        slots
    }

    /// Another handle to the same buffers; no buffer is copied. The handle
    /// holds the buffers by a count of its own, so it stays readable whatever
    /// becomes of the first.
    pub fn share(&self) -> (shared: NativeArray)
        ensures
            shared@ == self@,
    {
        proof {
            use_type_invariant(self);
        }
        let validity = match &self.validity {
            Some(flags) => Some(share_arc(flags)),
            None => None,
        };
        let buffers = share_buffers(&self.buffers);
        assert(buffer_views(buffers@) =~= buffer_views(self.buffers@));
        NativeArray {
            dtype: self.dtype,
            nullable: self.nullable,
            offset: self.offset,
            len: self.len,
            null_count: self.null_count,
            validity,
            buffers,
        }
    }
}

/// A copy of the bytes of `source` from `from` up to `to`.
fn copy_range(source: &Vec<u8>, from: usize, to: usize) -> (bytes: Vec<u8>)
    requires
        from <= to <= source.len(),
    ensures
        bytes@ == source@.subrange(from as int, to as int),
{
    let mut bytes: Vec<u8> = Vec::new();
    let mut at: usize = from;
    while at < to
        invariant
            from <= at <= to <= source.len(),
            bytes@ == source@.subrange(from as int, at as int),
        decreases to - at,
    {
        bytes.push(source[at]);
        at = at + 1;
    }
    bytes
}

/// Handles to the same buffers, in the same order.
fn share_buffers(buffers: &Vec<Buffer>) -> (shared: Vec<Buffer>)
    ensures
        shared@.len() == buffers@.len(),
        forall|i: int| 0 <= i < buffers@.len() ==> #[trigger] shared@[i]@ == buffers@[i]@,
{
    let mut shared: Vec<Buffer> = Vec::new();
    let mut i: usize = 0;
    while i < buffers.len()
        invariant
            i <= buffers.len(),
            shared@.len() == i,
            forall|j: int| 0 <= j < i ==> #[trigger] shared@[j]@ == buffers@[j]@,
        decreases buffers.len() - i,
    {
        shared.push(buffers[i].share());
        i = i + 1;
    }
    shared
}

} // verus!
