//! Building a native array slot by slot.

use vstd::prelude::*;
use crate::array::{count_nulls, value_view, ArrayView, Datum, DatumView, NativeArray};
use crate::buffer::{Buffer, BufferView};
use crate::types::{Layout, LogicalType};

verus! {

/// The most bytes of text that an array of `dtype` can hold: what its offsets
/// can count.
pub open spec fn text_limit(dtype: LogicalType) -> nat {
    if dtype == LogicalType::Utf8 {
        i32::MAX as nat
    } else {
        i64::MAX as nat
    }
}

/// The bytes of text that an array holds in its buffers; 0 for an array that
/// is not of text.
pub open spec fn text_held(array: ArrayView) -> nat {
    match array.dtype.layout() {
        Layout::Text => array.buffers[1]->Bytes_0.len(),
        _ => 0,
    }
}

/// Whether one more slot with the logical value `value` fits the array
/// `array` under construction: a null only where nulls are allowed, a value of
/// the kind and width of the type, and room left for it.
pub open spec fn accepts(array: ArrayView, value: Option<DatumView>) -> bool {
    &&& array.len + 1 < usize::MAX
    &&& array.len + 1 <= i64::MAX
    &&& match value {
        None => array.nullable,
        Some(DatumView::Flag(_)) => array.dtype.layout() == Layout::Bits,
        Some(DatumView::Bytes(bytes)) => match array.dtype.layout() {
            Layout::Bits => false,
            Layout::Fixed => bytes.len() == array.dtype.byte_width(),
            Layout::Text => text_held(array) + bytes.len() <= text_limit(array.dtype),
        },
    }
}

/// A native array under construction.
#[derive(Debug)]
pub struct ArrayBuilder {
    dtype: LogicalType,
    nullable: bool,
    nulls: usize,
    flags: Vec<bool>,
    bits: Vec<bool>,
    bytes: Vec<u8>,
    offsets: Vec<i64>,
}

impl View for ArrayBuilder {
    type V = ArrayView;

    /// The array that `finish` would give.
    closed spec fn view(&self) -> ArrayView {
        ArrayView {
            dtype: self.dtype,
            nullable: self.nullable,
            offset: 0,
            len: self.flags@.len(),
            null_count: self.nulls as nat,
            validity: Some(self.flags@),
            buffers: match self.dtype.layout() {
                Layout::Bits => seq![BufferView::Bits(self.bits@)],
                Layout::Fixed => seq![BufferView::Bytes(self.bytes@)],
                Layout::Text => seq![
                    BufferView::Offsets(self.offsets@),
                    BufferView::Bytes(self.bytes@),
                ],
            },
        }
    }
}

impl ArrayBuilder {
    /// The buffers under construction are in step with each other: they hold
    /// as many slots as there are validity flags.
    pub closed spec fn inv(self) -> bool {
        let len = self.flags@.len();
        &&& len < usize::MAX
        &&& len <= i64::MAX
        &&& self.nulls == count_nulls(self.flags@)
        &&& !self.nullable ==> self.nulls == 0
        &&& match self.dtype.layout() {
            Layout::Bits => self.bits@.len() == len,
            Layout::Fixed => self.bytes@.len() == len * self.dtype.byte_width(),
            Layout::Text => {
                &&& self.offsets@.len() == len + 1
                &&& self.offsets@[0] == 0
                &&& forall|i: int, j: int|
                    0 <= i <= j <= len ==> #[trigger] self.offsets@[i] <= #[trigger] self.offsets@[j]
                &&& self.offsets@[len as int] == self.bytes@.len()
                &&& self.bytes@.len() <= text_limit(self.dtype)
            },
        }
    }

    /// A builder of an array of `dtype` without slots.
    pub fn new(dtype: LogicalType, nullable: bool) -> (builder: ArrayBuilder)
        ensures
            builder.inv(),
            builder@.wf(),
            builder@.dtype == dtype,
            builder@.nullable == nullable,
            builder@.offset == 0,
            builder@.len == 0,
            builder@.slots() == Seq::<Option<DatumView>>::empty(),
            text_held(builder@) == 0,
    {
        let mut offsets: Vec<i64> = Vec::new();
        offsets.push(0);
        let builder = ArrayBuilder {
            dtype,
            nullable,
            nulls: 0,
            flags: Vec::new(),
            bits: Vec::new(),
            bytes: Vec::new(),
            offsets,
        };
        proof {
            builder.lemma_view_wf();
        }
        builder
    }

    /// A builder in step stands for a valid array that starts at slot 0.
    pub proof fn lemma_view_wf(self)
        requires
            self.inv(),
        ensures
            self@.wf(),
            self@.offset == 0,
    {
        assert(self.flags@.subrange(0, self.flags@.len() as int) =~= self.flags@);
    }

    /// The number of slots so far.
    pub fn len(&self) -> (len: usize)
        ensures
            len == self@.len,
    {
        self.flags.len()
    }

    /// Adds a slot with the logical value `value`, a null for `None`, if it
    /// fits (`accepts`); else the builder stays as it is.
    pub fn try_push(&mut self, value: Option<Datum>) -> (taken: bool)
        requires
            old(self).inv(),
        ensures
            taken == accepts(old(self)@, value_view(value)),
            final(self).inv(),
            final(self)@.wf(),
            final(self)@.dtype == old(self)@.dtype,
            final(self)@.nullable == old(self)@.nullable,
            final(self)@.offset == 0,
            taken ==> final(self)@.len == old(self)@.len + 1,
            taken ==> final(self)@.slots() == old(self)@.slots().push(value_view(value)),
            taken ==> text_held(final(self)@) == text_held(old(self)@) + match value_view(value) {
                Some(DatumView::Bytes(bytes)) if old(self)@.dtype.layout() == Layout::Text => bytes.len(),
                _ => 0,
            },
            !taken ==> final(self)@ == old(self)@,
    {
        proof {
            self.lemma_view_wf();
            crate::array::lemma_count_nulls_bound(self.flags@);
        }
        let len = self.flags.len();
        if len + 1 == usize::MAX || (len as u64) + 1 > 0x7fff_ffff_ffff_ffff {
            return false;
        }
        let layout = self.dtype.value_layout();
        let width = self.dtype.value_width();
        let ghost before = *self;
        match value {
            None => {
                if !self.nullable {
                    return false;
                }
                match layout {
                    Layout::Bits => {
                        self.bits.push(false);
                    },
                    Layout::Fixed => {
                        let mut k: usize = 0;
                        while k < width
                            invariant
                                k <= width,
                                self.bytes@.len() == before.bytes@.len() + k,
                                self.bytes@.subrange(0, before.bytes@.len() as int)
                                    == before.bytes@,
                                self.flags == before.flags,
                                self.bits == before.bits,
                                self.offsets == before.offsets,
                                self.dtype == before.dtype,
                                self.nullable == before.nullable,
                                self.nulls == before.nulls,
                            decreases width - k,
                        {
                            self.bytes.push(0);
                            k = k + 1;
                        }
                    },
                    Layout::Text => {
                        self.offsets.push(self.bytes.len() as i64);
                    },
                }
                self.flags.push(false);
                self.nulls = self.nulls + 1;
            },
            Some(Datum::Flag(flag)) => {
                match layout {
                    Layout::Bits => {
                        self.bits.push(flag);
                    },
                    _ => {
                        return false;
                    },
                }
                self.flags.push(true);
            },
            Some(Datum::Bytes(mut bytes)) => {
                match layout {
                    Layout::Bits => {
                        return false;
                    },
                    Layout::Fixed => {
                        if bytes.len() != width {
                            return false;
                        }
                        self.bytes.append(&mut bytes);
                    },
                    Layout::Text => {
                        let limit: u64 = match self.dtype {
                            LogicalType::Utf8 => 0x7fff_ffff,
                            _ => 0x7fff_ffff_ffff_ffff,
                        };
                        if bytes.len() as u64 > limit - self.bytes.len() as u64 {
                            return false;
                        }
                        self.bytes.append(&mut bytes);
                        self.offsets.push(self.bytes.len() as i64);
                    },
                }
                self.flags.push(true);
            },
        }
        proof {
            assert(self.bits@.subrange(0, before.bits@.len() as int) =~= before.bits@
                || before.dtype.layout() != Layout::Bits);
            assert(self.bytes@.subrange(0, before.bytes@.len() as int) =~= before.bytes@);
            if before.dtype.layout() == Layout::Fixed {
                if let Some(DatumView::Bytes(bytes)) = value_view(value) {
                    assert(self.bytes@.subrange(
                        before.bytes@.len() as int,
                        self.bytes@.len() as int,
                    ) =~= bytes);
                }
            }
            Self::lemma_pushed(before, *self, value_view(value));
        }
        true
    }

    /// One step of construction adds one slot and leaves the others as they
    /// were.
    proof fn lemma_pushed(before: ArrayBuilder, after: ArrayBuilder, value: Option<DatumView>)
        requires
            before.inv(),
            accepts(before@, value),
            after.dtype == before.dtype,
            after.nullable == before.nullable,
            after.flags@ == before.flags@.push(value is Some),
            after.nulls == before.nulls + if value is Some {
                0int
            } else {
                1int
            },
            match before.dtype.layout() {
                Layout::Bits => after.bits@.len() == before.bits@.len() + 1
                    && after.bits@.subrange(0, before.bits@.len() as int) == before.bits@ && (value
                    matches Some(DatumView::Flag(flag)) ==> after.bits@.last() == flag),
                Layout::Fixed => after.bytes@.len() == before.bytes@.len()
                    + before.dtype.byte_width() && after.bytes@.subrange(
                    0,
                    before.bytes@.len() as int,
                ) == before.bytes@ && (value matches Some(DatumView::Bytes(bytes))
                    ==> after.bytes@.subrange(
                    before.bytes@.len() as int,
                    after.bytes@.len() as int,
                ) == bytes),
                Layout::Text => {
                    let added = match value {
                        Some(DatumView::Bytes(bytes)) => bytes,
                        _ => Seq::<u8>::empty(),
                    };
                    &&& after.bytes@ == before.bytes@ + added
                    &&& after.offsets@ == before.offsets@.push(after.bytes@.len() as i64)
                },
            },
        ensures
            after.inv(),
            after@.wf(),
            after@.len == before@.len + 1,
            after@.slots() == before@.slots().push(value),
            text_held(after@) == text_held(before@) + match value {
                Some(DatumView::Bytes(bytes)) if before@.dtype.layout() == Layout::Text => bytes.len(),
                _ => 0,
            },
    {
        let len = before.flags@.len() as int;
        let width = before.dtype.byte_width() as int;
        assert(after.flags@.drop_last() =~= before.flags@);
        match before.dtype.layout() {
            Layout::Bits => {
                assert forall|j: int| 0 <= j < len implies after.bits@[j] == before.bits@[j] by {}
            },
            Layout::Fixed => {
                assert((len + 1) * width == len * width + width) by (nonlinear_arith);
                assert forall|j: int| 0 <= j < len implies after@.datum(j) == before@.datum(j) by {
                    assert(0 <= j * width <= (j + 1) * width <= len * width) by (nonlinear_arith)
                        requires
                            0 <= j < len,
                            0 <= width,
                    ;
                    assert(after.bytes@.subrange(j * width, (j + 1) * width)
                        =~= after.bytes@.subrange(0, len * width).subrange(
                        j * width,
                        (j + 1) * width,
                    ));
                }
            },
            Layout::Text => {
                assert forall|i: int, j: int| 0 <= i <= j <= len + 1 implies #[trigger] after.offsets@[i]
                    <= #[trigger] after.offsets@[j] by {}
                assert forall|j: int| 0 <= j < len implies after@.datum(j) == before@.datum(j) by {
                    assert(after.bytes@.subrange(
                        before.offsets@[j] as int,
                        before.offsets@[j + 1] as int,
                    ) =~= before.bytes@.subrange(
                        before.offsets@[j] as int,
                        before.offsets@[j + 1] as int,
                    ));
                }
                if let Some(DatumView::Bytes(bytes)) = value {
                    assert(after.bytes@.subrange(
                        before.bytes@.len() as int,
                        after.bytes@.len() as int,
                    ) =~= bytes);
                }
            },
        }
        after.lemma_view_wf();
        assert(after@.slots() =~= before@.slots().push(value)) by {
            assert forall|j: int| 0 <= j < len + 1 implies after@.slots()[j] == before@.slots().push(
                value,
            )[j] by {}
        }
    }

    /// The array that was built; the builder's buffers become its buffers.
    pub fn finish(self) -> (array: NativeArray)
        requires
            self.inv(),
        ensures
            array@ == self@,
            array@.wf(),
    {
        proof {
            self.lemma_view_wf();
        }
        let len = self.flags.len();
        let mut buffers: Vec<Buffer> = Vec::new();
        match self.dtype.value_layout() {
            Layout::Bits => {
                buffers.push(Buffer::from_bits(self.bits));
            },
            Layout::Fixed => {
                buffers.push(Buffer::from_bytes(self.bytes));
            },
            Layout::Text => {
                buffers.push(Buffer::from_offsets(self.offsets));
                buffers.push(Buffer::from_bytes(self.bytes));
            },
        }
        assert(crate::array::buffer_views(buffers@) =~= self@.buffers);
        NativeArray::assemble(self.dtype, self.nullable, len, self.nulls, self.flags, buffers)
    }
}

} // verus!
