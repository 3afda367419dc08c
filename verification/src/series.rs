//! A named column of one logical type, held in any number of chunks, and the
//! chunk normaliser that makes one contiguous chunk of it.

use vstd::prelude::*;
use crate::array::{count_nulls, ArrayView, DatumView, NativeArray};
use crate::builder::{accepts, text_held, text_limit, ArrayBuilder};
use crate::types::{Layout, LogicalType};

verus! {

/// The slots of all chunks together.
pub open spec fn total_slots(chunks: Seq<ArrayView>) -> nat
    decreases chunks.len(),
{
    if chunks.len() == 0 {
        0
    } else {
        total_slots(chunks.drop_last()) + chunks.last().len
    }
}

/// The bytes of text that the windows of all chunks span together.
pub open spec fn total_text(chunks: Seq<ArrayView>) -> nat
    decreases chunks.len(),
{
    if chunks.len() == 0 {
        0
    } else {
        total_text(chunks.drop_last()) + chunks.last().text_span()
    }
}

/// The logical values of all chunks, one chunk after the other.
pub open spec fn concat_slots(chunks: Seq<ArrayView>) -> Seq<Option<DatumView>>
    decreases chunks.len(),
{
    if chunks.len() == 0 {
        Seq::empty()
    } else {
        concat_slots(chunks.drop_last()) + chunks.last().slots()
    }
}

/// What a series is: its name, its type and its chunks.
pub struct SeriesView {
    pub name: Seq<char>,
    pub dtype: LogicalType,
    pub nullable: bool,
    pub chunks: Seq<ArrayView>,
}

impl SeriesView {
    /// Every chunk is a valid array of the type of the series, and all of them
    /// together still fit one array.
    pub open spec fn wf(self) -> bool {
        &&& forall|i: int|
            0 <= i < self.chunks.len() ==> {
                &&& (#[trigger] self.chunks[i]).wf()
                &&& self.chunks[i].dtype == self.dtype
                &&& self.chunks[i].nullable == self.nullable
            }
        &&& total_slots(self.chunks) < usize::MAX
        &&& total_slots(self.chunks) <= i64::MAX
        &&& total_text(self.chunks) <= text_limit(self.dtype)
    }

    /// The logical values of the series, in order.
    pub open spec fn slots(self) -> Seq<Option<DatumView>> {
        concat_slots(self.chunks)
    }
}

/// `out` is a normal form of `series`: one valid array of the same type with
/// the same logical values in the same order. A series of one chunk has that
/// very chunk as its normal form; any other has an array that starts at slot
/// 0 of buffers of its own.
pub open spec fn normalized(series: SeriesView, out: ArrayView) -> bool {
    &&& out.wf()
    &&& out.dtype == series.dtype
    &&& out.nullable == series.nullable
    &&& out.slots() == series.slots()
    &&& if series.chunks.len() == 1 {
        out == series.chunks[0]
    } else {
        out.offset == 0
    }
}

/// The first `upto` chunks hold no more slots and span no more text than all
/// of them.
pub proof fn lemma_totals_rise(chunks: Seq<ArrayView>, upto: int)
    requires
        0 <= upto <= chunks.len(),
    ensures
        total_slots(chunks.take(upto)) <= total_slots(chunks),
        total_text(chunks.take(upto)) <= total_text(chunks),
    decreases chunks.len(),
{
    if upto == chunks.len() {
        assert(chunks.take(upto) =~= chunks);
    } else {
        lemma_totals_rise(chunks.drop_last(), upto);
        assert(chunks.drop_last().take(upto) =~= chunks.take(upto));
    }
}

/// One chunk more adds its slots, its text and its logical values.
pub proof fn lemma_totals_step(chunks: Seq<ArrayView>, upto: int)
    requires
        0 <= upto < chunks.len(),
    ensures
        total_slots(chunks.take(upto + 1)) == total_slots(chunks.take(upto)) + chunks[upto].len,
        total_text(chunks.take(upto + 1)) == total_text(chunks.take(upto))
            + chunks[upto].text_span(),
        concat_slots(chunks.take(upto + 1)) == concat_slots(chunks.take(upto))
            + chunks[upto].slots(),
{
    assert(chunks.take(upto + 1).drop_last() =~= chunks.take(upto));
}

/// A series holds as many logical values as its chunks have slots.
pub proof fn lemma_concat_len(chunks: Seq<ArrayView>)
    ensures
        concat_slots(chunks).len() == total_slots(chunks),
    decreases chunks.len(),
{
    if chunks.len() > 0 {
        lemma_concat_len(chunks.drop_last());
    }
}

/// A window without nulls has every flag set.
pub proof fn lemma_no_nulls_all_set(flags: Seq<bool>, at: int)
    requires
        count_nulls(flags) == 0,
        0 <= at < flags.len(),
    ensures
        flags[at],
    decreases flags.len(),
{
    if at < flags.len() - 1 {
        lemma_no_nulls_all_set(flags.drop_last(), at);
    }
}

/// Whether a chunk can join a series: it has the type of the series, and the
/// series with it still fits one array.
pub open spec fn chunk_fits(series: SeriesView, chunk: ArrayView) -> bool {
    &&& chunk.dtype == series.dtype
    &&& chunk.nullable == series.nullable
    &&& total_slots(series.chunks) + chunk.len < usize::MAX
    &&& total_slots(series.chunks) + chunk.len <= i64::MAX
    &&& total_text(series.chunks) + chunk.text_span() <= text_limit(series.dtype)
}

/// The logical value of a slot of a valid chunk fits an array under
/// construction that has the type of the chunk and room for the slot; where it
/// is text, it is as long as the boundaries of the slot are apart.
pub proof fn lemma_slot_accepted(built: ArrayView, chunk: ArrayView, i: int)
    requires
        chunk.wf(),
        0 <= i < chunk.len,
        built.dtype == chunk.dtype,
        built.nullable == chunk.nullable,
        built.len + 1 < usize::MAX,
        built.len + 1 <= i64::MAX,
        text_held(built) + chunk.text_before((i + 1) as nat) - chunk.text_before(i as nat)
            <= text_limit(built.dtype),
    ensures
        accepts(built, chunk.slot(i)),
        chunk.text_before(i as nat) <= chunk.text_before((i + 1) as nat) <= chunk.text_span(),
        chunk.dtype.layout() == Layout::Text ==> {
            &&& chunk.datum(i) matches DatumView::Bytes(bytes)
            &&& bytes.len() == chunk.text_before((i + 1) as nat) - chunk.text_before(i as nat)
        },
{
    let at = chunk.offset + i;
    if !chunk.is_valid(i) {
        let flags = chunk.validity->Some_0;
        let window = flags.subrange(chunk.offset as int, (chunk.offset + chunk.len) as int);
        if !chunk.nullable {
            lemma_no_nulls_all_set(window, i);
        }
    }
    match chunk.dtype.layout() {
        Layout::Bits => {},
        Layout::Fixed => {
            let width = chunk.dtype.byte_width() as int;
            assert(0 <= at * width <= (at + 1) * width <= (chunk.offset + chunk.len) * width
                && (at + 1) * width - at * width == width) by (nonlinear_arith)
                requires
                    0 <= at,
                    at + 1 <= chunk.offset + chunk.len,
                    0 <= width,
            ;
        },
        Layout::Text => {},
    }
}

/// A valid series with a valid chunk that fits is a valid series, with the
/// slots and the text of the chunk added to its own.
pub proof fn lemma_chunk_joined(series: SeriesView, chunk: ArrayView)
    requires
        series.wf(),
        chunk.wf(),
        chunk_fits(series, chunk),
    ensures
        (SeriesView { chunks: series.chunks.push(chunk), ..series }).wf(),
        total_slots(series.chunks.push(chunk)) == total_slots(series.chunks) + chunk.len,
        total_text(series.chunks.push(chunk)) == total_text(series.chunks) + chunk.text_span(),
{
    let joined = series.chunks.push(chunk);
    assert(joined.drop_last() =~= series.chunks);
    assert forall|i: int| 0 <= i < joined.len() implies {
        &&& (#[trigger] joined[i]).wf()
        &&& joined[i].dtype == series.dtype
        &&& joined[i].nullable == series.nullable
    } by {}
}

/// A valid array alone always fits one array: it has fewer slots than can be
/// counted, and no more text than its offsets can count.
pub proof fn lemma_single_chunk_fits(chunk: ArrayView)
    requires
        chunk.wf(),
    ensures
        chunk.len < usize::MAX,
        chunk.len <= i64::MAX,
        chunk.text_span() <= text_limit(chunk.dtype),
{
}

/// A named column of one logical type in any number of chunks.
#[derive(Debug)]
pub struct Series {
    name: String,
    dtype: LogicalType,
    nullable: bool,
    chunks: Vec<NativeArray>,
    slots: usize,
    text: u64,
}

impl View for Series {
    type V = SeriesView;

    closed spec fn view(&self) -> SeriesView {
        SeriesView {
            name: self.name@,
            dtype: self.dtype,
            nullable: self.nullable,
            chunks: Seq::new(self.chunks@.len(), |i: int| self.chunks@[i]@),
        }
    }
}

impl Series {
    /// The series is valid, and knows how many slots and how much text it
    /// holds.
    pub closed spec fn inv(self) -> bool {
        &&& self@.wf()
        &&& self.slots == total_slots(self@.chunks)
        &&& self.text == total_text(self@.chunks)
    }

    /// A series that knows its totals is valid.
    pub proof fn lemma_inv_wf(self)
        requires
            self.inv(),
        ensures
            self@.wf(),
    {
    }

    /// A series without chunks.
    pub fn new(name: String, dtype: LogicalType, nullable: bool) -> (series: Series)
        ensures
            series.inv(),
            series@.wf(),
            series@ == (SeriesView { name: name@, dtype, nullable, chunks: Seq::empty() }),
    {
        let series = Series { name, dtype, nullable, chunks: Vec::new(), slots: 0, text: 0 };
        assert(series@.chunks =~= Seq::empty());
        series
    }

    /// A series of one chunk.
    pub fn from_array(name: String, array: NativeArray) -> (series: Series)
        ensures
            series.inv(),
            series@.wf(),
            series@ == (SeriesView {
                name: name@,
                dtype: array@.dtype,
                nullable: array@.nullable,
                chunks: seq![array@],
            }),
    {
        let dtype = array.dtype();
        let nullable = array.is_nullable();
        let slots = array.len();
        let text = array.text_span() as u64;
        let mut chunks: Vec<NativeArray> = Vec::new();
        chunks.push(array);
        let series = Series { name, dtype, nullable, chunks, slots, text };
        proof {
            assert(series@.chunks =~= seq![array@]);
            assert(total_slots(series@.chunks.drop_last()) == 0);
            assert(total_text(series@.chunks.drop_last()) == 0);
            lemma_single_chunk_fits(array@);
        }
        series
    }

    /// Adds `chunk` as the last chunk of the series, if it fits
    /// (`chunk_fits`); else the series stays as it is.
    pub fn try_push_chunk(&mut self, chunk: NativeArray) -> (taken: bool)
        requires
            old(self).inv(),
        ensures
            final(self).inv(),
            final(self)@.wf(),
            taken == chunk_fits(old(self)@, chunk@),
            taken ==> final(self)@ == (SeriesView {
                chunks: old(self)@.chunks.push(chunk@),
                ..old(self)@
            }),
            !taken ==> final(self)@ == old(self)@,
    {
        if chunk.dtype() != self.dtype || chunk.is_nullable() != self.nullable {
            return false;
        }
        let span = chunk.text_span();
        let slots = match self.slots.checked_add(chunk.len()) {
            Some(slots) => slots,
            None => {
                return false;
            },
        };
        if slots == usize::MAX || slots as u64 > 0x7fff_ffff_ffff_ffff {
            return false;
        }
        let limit: u64 = match self.dtype {
            LogicalType::Utf8 => 0x7fff_ffff,
            _ => 0x7fff_ffff_ffff_ffff,
        };
        if span as u64 > limit - self.text {
            return false;
        }
        let text = self.text + span as u64;
        let ghost before = self@;
        self.chunks.push(chunk);
        self.slots = slots;
        self.text = text;
        proof {
            assert(self@.chunks =~= before.chunks.push(chunk@));
            lemma_chunk_joined(before, chunk@);
        }
        true
    }

    /// The name of the series.
    pub fn name(&self) -> (name: &str)
        ensures
            name@ == self@.name,
    {
        self.name.as_str()
    }

    /// The logical type of the series.
    pub fn dtype(&self) -> (dtype: LogicalType)
        ensures
            dtype == self@.dtype,
    {
        self.dtype
    }

    /// Whether the series may hold nulls.
    pub fn is_nullable(&self) -> (nullable: bool)
        ensures
            nullable == self@.nullable,
    {
        self.nullable
    }

    /// The number of chunks.
    pub fn n_chunks(&self) -> (n: usize)
        ensures
            n == self@.chunks.len(),
    {
        self.chunks.len()
    }

    /// The number of slots of all chunks together.
    pub fn len(&self) -> (len: usize)
        requires
            self.inv(),
        ensures
            len == total_slots(self@.chunks),
            len == self@.slots().len(),
            self@.wf(),
    {
        proof {
            lemma_concat_len(self@.chunks);
        }
        self.slots
    }

    /// The chunk at `index`.
    pub fn chunk(&self, index: usize) -> (chunk: &NativeArray)
        requires
            index < self@.chunks.len(),
        ensures
            chunk@ == self@.chunks[index as int],
    {
        &self.chunks[index]
    }
}

impl Series {
    /// The chunk normaliser: one contiguous chunk with the logical values of
    /// the series in their order.
    ///
    /// A series of one chunk hands out that very chunk, sharing its buffers;
    /// nothing is allocated. Any other series gets an array over new buffers.
    pub fn normalize(&self) -> (out: NativeArray)
        requires
            self.inv(),
        ensures
            normalized(self@, out@),
            self@.wf(),
    {
        if self.chunks.len() == 1 {
            let out = self.chunks[0].share();
            proof {
                let chunks = self@.chunks;
                assert(concat_slots(chunks.drop_last()) =~= Seq::<Option<DatumView>>::empty());
            }
            return out;
        }
        let ghost chunks = self@.chunks;
        let mut builder = ArrayBuilder::new(self.dtype, self.nullable);
        let mut k: usize = 0;
        while k < self.chunks.len()
            invariant
                k <= self.chunks.len(),
                self.inv(),
                chunks == self@.chunks,
                builder.inv(),
                builder@.wf(),
                builder@.dtype == self.dtype,
                builder@.nullable == self.nullable,
                builder@.offset == 0,
                builder@.slots() == concat_slots(chunks.take(k as int)),
                builder@.len == total_slots(chunks.take(k as int)),
                text_held(builder@) <= total_text(chunks.take(k as int)),
            decreases self.chunks.len() - k,
        {
            let chunk = &self.chunks[k];
            let ghost view = chunks[k as int];
            let ghost start = builder@;
            proof {
                lemma_totals_step(chunks, k as int);
                lemma_totals_rise(chunks, k + 1);
            }
            let len = chunk.len();
            let mut i: usize = 0;
            while i < len
                invariant
                    i <= len,
                    len == view.len,
                    chunk@ == view,
                    view.wf(),
                    view.dtype == self.dtype,
                    view.nullable == self.nullable,
                    builder.inv(),
                    builder@.wf(),
                    builder@.dtype == self.dtype,
                    builder@.nullable == self.nullable,
                    builder@.offset == 0,
                    builder@.slots() == start.slots() + view.slots().take(i as int),
                    builder@.len == start.len + i,
                    start.len + view.len < usize::MAX,
                    start.len + view.len <= i64::MAX,
                    text_held(builder@) <= text_held(start) + view.text_before(i as nat),
                    text_held(start) + view.text_span() <= text_limit(self.dtype),
                decreases len - i,
            {
                let ghost before = builder@;
                proof {
                    lemma_slot_window(view, i as int);
                    lemma_slot_accepted(before, view, i as int);
                }
                let value = chunk.value(i);
                let taken = builder.try_push(value);
                assert(taken);
                i = i + 1;
            }
            k = k + 1;
        }
        proof {
            assert(chunks.take(k as int) =~= chunks);
        }
        builder.finish()
    }

    /// The series in one chunk: the same name and type, and the normal form of
    /// the chunks as the one chunk.
    pub fn rechunk(&self) -> (out: Series)
        requires
            self.inv(),
        ensures
            out.inv(),
            out@.wf(),
            out@.name == self@.name,
            out@.dtype == self@.dtype,
            out@.nullable == self@.nullable,
            out@.chunks.len() == 1,
            normalized(self@, out@.chunks[0]),
    {
        Series::from_array(self.name.clone(), self.normalize())
    }
}

/// The text before a slot of a valid chunk is no more than the text before the
/// next slot, which is no more than the text of the chunk.
pub proof fn lemma_slot_window(chunk: ArrayView, i: int)
    requires
        chunk.wf(),
        0 <= i < chunk.len,
    ensures
        chunk.text_before(i as nat) <= chunk.text_before((i + 1) as nat) <= chunk.text_span(),
{
}

} // verus!
