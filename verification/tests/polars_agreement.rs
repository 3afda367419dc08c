use polars::prelude::{NamedFrom, Series as PolarsSeries};
use polars_arrow::export::arrow::array::{Array, PrimitiveArray, Utf8Array};
use tpch_polars::array::{Datum, NativeArray};
use tpch_polars::buffer::Buffer;
use tpch_polars::export::export;
use tpch_polars::import::import;
use tpch_polars::series::Series;
use tpch_polars::types::LogicalType;

fn validity_of(array: &dyn Array) -> Option<Buffer> {
    array
        .validity()
        .map(|bitmap| Buffer::from_bits(bitmap.iter().collect()))
}

fn int64_chunk(array: &dyn Array) -> NativeArray {
    let typed = array.as_any().downcast_ref::<PrimitiveArray<i64>>().unwrap();
    let mut bytes = Vec::new();
    for value in typed.values().as_slice() {
        bytes.extend_from_slice(&value.to_le_bytes());
    }
    NativeArray::try_new(
        LogicalType::Int64,
        true,
        0,
        typed.len(),
        validity_of(array),
        vec![Buffer::from_bytes(bytes)],
    )
    .unwrap()
}

fn text_chunk(array: &dyn Array) -> NativeArray {
    let typed = array.as_any().downcast_ref::<Utf8Array<i64>>().unwrap();
    NativeArray::try_new(
        LogicalType::LargeUtf8,
        true,
        0,
        typed.len(),
        validity_of(array),
        vec![
            Buffer::from_offsets(typed.offsets().as_slice().to_vec()),
            Buffer::from_bytes(typed.values().as_slice().to_vec()),
        ],
    )
    .unwrap()
}

fn int64_values(array: &NativeArray) -> Vec<Option<i64>> {
    (0..array.len())
        .map(|i| match array.value(i) {
            Some(Datum::Bytes(bytes)) => {
                let mut raw = [0u8; 8];
                raw.copy_from_slice(&bytes);
                Some(i64::from_le_bytes(raw))
            }
            Some(Datum::Flag(_)) => panic!("an integer array holds no flags"),
            None => None,
        })
        .collect()
}

fn text_values(array: &NativeArray) -> Vec<Option<String>> {
    (0..array.len())
        .map(|i| match array.value(i) {
            Some(Datum::Bytes(bytes)) => Some(String::from_utf8(bytes).unwrap()),
            Some(Datum::Flag(_)) => panic!("a text array holds no flags"),
            None => None,
        })
        .collect()
}

fn chunked_int64() -> PolarsSeries {
    let mut series = PolarsSeries::new("a", &[Some(10i64), None, Some(30)]);
    series
        .append(&PolarsSeries::new("a", &[Some(40i64)]))
        .unwrap();
    series
        .append(&PolarsSeries::new("a", &[None, Some(60i64)]))
        .unwrap();
    series
}

fn chunked_text() -> PolarsSeries {
    let mut series = PolarsSeries::new("t", &[Some("a"), None, Some("c"), None]);
    series
        .append(&PolarsSeries::new("t", &[Some("de"), Some("")]))
        .unwrap();
    series
}

#[test]
fn normalizing_agrees_with_rechunk_on_integers() {
    let polars = chunked_int64();
    assert_eq!(polars.n_chunks(), 3);
    let mut series = Series::new("a".to_string(), LogicalType::Int64, true);
    for chunk in 0..polars.n_chunks() {
        assert!(series.try_push_chunk(int64_chunk(polars.to_arrow(chunk).as_ref())));
    }
    let ours = series.normalize();
    let rechunked = polars.rechunk();
    assert_eq!(rechunked.n_chunks(), 1);
    let theirs = int64_chunk(rechunked.to_arrow(0).as_ref());
    assert_eq!(ours.len(), rechunked.len());
    assert_eq!(ours.null_count(), rechunked.null_count());
    assert_eq!(int64_values(&ours), int64_values(&theirs));
    let expected: Vec<Option<i64>> = polars.i64().unwrap().into_iter().collect();
    assert_eq!(int64_values(&ours), expected);
}

#[test]
fn normalizing_agrees_with_rechunk_on_text() {
    let polars = chunked_text();
    assert_eq!(polars.n_chunks(), 2);
    let mut series = Series::new("t".to_string(), LogicalType::LargeUtf8, true);
    for chunk in 0..polars.n_chunks() {
        assert!(series.try_push_chunk(text_chunk(polars.to_arrow(chunk).as_ref())));
    }
    let ours = series.normalize();
    let rechunked = polars.rechunk();
    let theirs = text_chunk(rechunked.to_arrow(0).as_ref());
    assert_eq!(ours.len(), rechunked.len());
    assert_eq!(ours.null_count(), rechunked.null_count());
    assert_eq!(text_values(&ours), text_values(&theirs));
    let expected: Vec<Option<String>> = polars
        .utf8()
        .unwrap()
        .into_iter()
        .map(|value| value.map(str::to_string))
        .collect();
    assert_eq!(text_values(&ours), expected);
}

#[test]
fn a_chunk_of_a_polars_series_round_trips() {
    let polars = chunked_text().rechunk();
    let chunk = text_chunk(polars.to_arrow(0).as_ref());
    let (schema, mut desc) = export(&chunk).unwrap();
    assert_eq!(schema.format, "U");
    assert_eq!(desc.length as usize, polars.len());
    assert_eq!(desc.null_count as usize, polars.null_count());
    let imported = import(&schema, &mut desc).unwrap();
    assert_eq!(
        text_values(imported.array()),
        vec![
            Some("a".to_string()),
            None,
            Some("c".to_string()),
            None,
            Some("de".to_string()),
            Some(String::new())
        ]
    );
    assert_eq!(imported.finish().release_count(), 1);
}

fn fixed_chunk<T>(array: &dyn Array, dtype: LogicalType) -> NativeArray
where
    T: polars_arrow::export::arrow::types::NativeType,
{
    let typed = array.as_any().downcast_ref::<PrimitiveArray<T>>().unwrap();
    let mut bytes = Vec::new();
    for value in typed.values().as_slice() {
        bytes.extend_from_slice(value.to_le_bytes().as_ref());
    }
    NativeArray::try_new(
        dtype,
        true,
        0,
        typed.len(),
        validity_of(array),
        vec![Buffer::from_bytes(bytes)],
    )
    .unwrap()
}

fn float64_chunk(array: &dyn Array) -> NativeArray {
    fixed_chunk::<f64>(array, LogicalType::Float64)
}

fn int32_chunk(array: &dyn Array) -> NativeArray {
    fixed_chunk::<i32>(array, LogicalType::Int32)
}

fn uint32_chunk(array: &dyn Array) -> NativeArray {
    fixed_chunk::<u32>(array, LogicalType::UInt32)
}

fn boolean_chunk(array: &dyn Array) -> NativeArray {
    let typed = array
        .as_any()
        .downcast_ref::<polars_arrow::export::arrow::array::BooleanArray>()
        .unwrap();
    NativeArray::try_new(
        LogicalType::Boolean,
        true,
        0,
        typed.len(),
        validity_of(array),
        vec![Buffer::from_bits(typed.values().iter().collect())],
    )
    .unwrap()
}

fn all_values(array: &NativeArray) -> Vec<Option<Datum>> {
    (0..array.len()).map(|i| array.value(i)).collect()
}

/// Normalizes the chunks of `polars` with the library and with polars, and
/// holds the one against the other.
fn agree(polars: &PolarsSeries, dtype: LogicalType, convert: fn(&dyn Array) -> NativeArray) {
    let mut series = Series::new(polars.name().to_string(), dtype, true);
    for chunk in 0..polars.n_chunks() {
        assert!(series.try_push_chunk(convert(polars.to_arrow(chunk).as_ref())));
    }
    assert_eq!(series.n_chunks(), polars.n_chunks());
    assert_eq!(series.len(), polars.len());
    let ours = series.normalize();
    let rechunked = polars.rechunk();
    assert_eq!(rechunked.n_chunks(), 1);
    let theirs = convert(rechunked.to_arrow(0).as_ref());
    assert_eq!(ours.dtype(), dtype);
    assert_eq!(ours.len(), rechunked.len());
    assert_eq!(ours.null_count(), rechunked.null_count());
    assert_eq!(all_values(&ours), all_values(&theirs));
    for i in 0..ours.len() {
        assert_eq!(ours.is_valid(i), theirs.is_valid(i));
    }
    // and once more: the normal form of the normal form
    let again = Series::from_array(polars.name().to_string(), ours).normalize();
    assert_eq!(all_values(&again), all_values(&theirs));
}

/// A run of numbers that looks random and is the same on every run.
fn numbers(seed: u64, len: usize) -> Vec<u64> {
    let mut state = seed;
    (0..len)
        .map(|_| {
            state = state
                .wrapping_mul(6364136223846793005)
                .wrapping_add(1442695040888963407);
            state >> 17
        })
        .collect()
}

#[test]
fn normalizing_agrees_with_rechunk_on_floats() {
    let mut polars = PolarsSeries::new("f", &[Some(1.5f64), None, Some(-0.0)]);
    polars
        .append(&PolarsSeries::new("f", &[Some(f64::MAX), Some(f64::MIN_POSITIVE)]))
        .unwrap();
    polars.append(&PolarsSeries::new("f", &[None::<f64>])).unwrap();
    agree(&polars, LogicalType::Float64, float64_chunk);
}

#[test]
fn normalizing_agrees_with_rechunk_on_32_bit_integers() {
    let mut signed = PolarsSeries::new("i", &[Some(i32::MIN), None, Some(-1)]);
    signed
        .append(&PolarsSeries::new("i", &[Some(i32::MAX), Some(0)]))
        .unwrap();
    agree(&signed, LogicalType::Int32, int32_chunk);
    let mut unsigned = PolarsSeries::new("u", &[Some(u32::MAX), None]);
    unsigned
        .append(&PolarsSeries::new("u", &[Some(0u32), Some(7)]))
        .unwrap();
    unsigned.append(&PolarsSeries::new("u", &[Some(9u32)])).unwrap();
    agree(&unsigned, LogicalType::UInt32, uint32_chunk);
}

#[test]
fn normalizing_agrees_with_rechunk_on_booleans() {
    let mut polars = PolarsSeries::new("b", &[Some(true), None, Some(false)]);
    polars
        .append(&PolarsSeries::new("b", &[Some(false), Some(true), None, Some(true)]))
        .unwrap();
    agree(&polars, LogicalType::Boolean, boolean_chunk);
}

#[test]
fn normalizing_agrees_with_rechunk_on_one_chunk() {
    agree(
        &PolarsSeries::new("a", &[Some(1i64), None, Some(3)]),
        LogicalType::Int64,
        int64_chunk,
    );
    agree(
        &PolarsSeries::new("t", &[Some("one"), None]),
        LogicalType::LargeUtf8,
        text_chunk,
    );
}

#[test]
fn normalizing_agrees_with_rechunk_without_nulls() {
    let mut polars = PolarsSeries::new("a", &[1i64, 2, 3]);
    polars.append(&PolarsSeries::new("a", &[4i64, 5])).unwrap();
    agree(&polars, LogicalType::Int64, int64_chunk);
    let mut words = PolarsSeries::new("t", &["x", "", "yz"]);
    words.append(&PolarsSeries::new("t", &["äö", "€"])).unwrap();
    agree(&words, LogicalType::LargeUtf8, text_chunk);
}

#[test]
fn normalizing_agrees_with_rechunk_on_many_chunks() {
    let mut integers = PolarsSeries::new("a", &[Some(0i64)]);
    let mut words = PolarsSeries::new("t", &[Some("start")]);
    for round in 0..12u64 {
        let len = (numbers(round, 1)[0] % 40) as usize;
        let drawn = numbers(round + 100, len);
        let chunk: Vec<Option<i64>> = drawn
            .iter()
            .map(|n| if n % 5 == 0 { None } else { Some(*n as i64 - (1 << 40)) })
            .collect();
        if !chunk.is_empty() {
            integers.append(&PolarsSeries::new("a", &chunk)).unwrap();
        }
        let texts: Vec<Option<String>> = drawn
            .iter()
            .map(|n| {
                if n % 7 == 0 {
                    None
                } else {
                    Some("w".repeat((n % 9) as usize) + n.to_string().as_str())
                }
            })
            .collect();
        if !texts.is_empty() {
            words.append(&PolarsSeries::new("t", &texts)).unwrap();
        }
    }
    assert!(integers.n_chunks() > 5);
    assert!(words.n_chunks() > 5);
    agree(&integers, LogicalType::Int64, int64_chunk);
    agree(&words, LogicalType::LargeUtf8, text_chunk);
}
