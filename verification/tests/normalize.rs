use std::sync::Arc;
use tpch_polars::array::{Datum, NativeArray};
use tpch_polars::buffer::Buffer;
use tpch_polars::builder::ArrayBuilder;
use tpch_polars::series::Series;
use tpch_polars::types::LogicalType;

fn int64_chunk(values: &[Option<i64>]) -> NativeArray {
    let mut builder = ArrayBuilder::new(LogicalType::Int64, true);
    for value in values {
        assert!(builder.try_push(value.map(|v| Datum::Bytes(v.to_le_bytes().to_vec()))));
    }
    builder.finish()
}

fn text_chunk(dtype: LogicalType, values: &[Option<&str>]) -> NativeArray {
    let mut builder = ArrayBuilder::new(dtype, true);
    for value in values {
        assert!(builder.try_push(value.map(|text| Datum::Bytes(text.as_bytes().to_vec()))));
    }
    builder.finish()
}

fn values(array: &NativeArray) -> Vec<Option<Datum>> {
    (0..array.len()).map(|i| array.value(i)).collect()
}

fn int64(v: i64) -> Option<Datum> {
    Some(Datum::Bytes(v.to_le_bytes().to_vec()))
}

fn text(v: &str) -> Option<Datum> {
    Some(Datum::Bytes(v.as_bytes().to_vec()))
}

fn first_value_buffer(array: &NativeArray) -> Arc<Vec<u8>> {
    match array.buffer_slots().into_iter().nth(1) {
        Some(Some(Buffer::Bytes(bytes))) => bytes,
        other => panic!("expected bytes, found {:?}", other),
    }
}

#[test]
fn a_single_chunk_passes_through_without_allocation() {
    let chunk = int64_chunk(&[Some(1), None, Some(3)]);
    let buffer = first_value_buffer(&chunk);
    let series = Series::from_array("a".to_string(), chunk);
    let out = series.normalize();
    assert!(Arc::ptr_eq(&buffer, &first_value_buffer(&out)));
    assert_eq!(values(&out), vec![int64(1), None, int64(3)]);
    assert_eq!(out.null_count(), 1);
}

#[test]
fn chunks_are_concatenated_in_order() {
    let mut series = Series::new("a".to_string(), LogicalType::Int64, true);
    assert!(series.try_push_chunk(int64_chunk(&[Some(1), None])));
    assert!(series.try_push_chunk(int64_chunk(&[])));
    assert!(series.try_push_chunk(int64_chunk(&[Some(3), Some(4), None])));
    assert_eq!(series.n_chunks(), 3);
    assert_eq!(series.len(), 5);
    let out = series.normalize();
    assert_eq!(out.dtype(), LogicalType::Int64);
    assert!(out.is_nullable());
    assert_eq!(out.offset(), 0);
    assert_eq!(out.len(), 5);
    assert_eq!(out.null_count(), 2);
    assert_eq!(values(&out), vec![int64(1), None, int64(3), int64(4), None]);
}

#[test]
fn text_chunks_are_concatenated_in_order() {
    for dtype in [LogicalType::Utf8, LogicalType::LargeUtf8] {
        let mut series = Series::new("t".to_string(), dtype, true);
        assert!(series.try_push_chunk(text_chunk(dtype, &[Some("ab"), None, Some("")])));
        assert!(series.try_push_chunk(text_chunk(dtype, &[Some("cde")])));
        let out = series.normalize();
        assert_eq!(out.len(), 4);
        assert_eq!(out.null_count(), 1);
        assert_eq!(out.text_span(), 5);
        assert_eq!(values(&out), vec![text("ab"), None, text(""), text("cde")]);
    }
}

#[test]
fn boolean_chunks_are_concatenated_in_order() {
    let chunk = |flags: &[Option<bool>]| {
        let mut builder = ArrayBuilder::new(LogicalType::Boolean, true);
        for flag in flags {
            assert!(builder.try_push(flag.map(Datum::Flag)));
        }
        builder.finish()
    };
    let mut series = Series::new("b".to_string(), LogicalType::Boolean, true);
    assert!(series.try_push_chunk(chunk(&[Some(true), None])));
    assert!(series.try_push_chunk(chunk(&[Some(false)])));
    let out = series.normalize();
    assert_eq!(
        values(&out),
        vec![Some(Datum::Flag(true)), None, Some(Datum::Flag(false))]
    );
}

#[test]
fn a_window_into_larger_buffers_is_normalized_by_its_slots() {
    let wide = NativeArray::try_new(
        LogicalType::Utf8,
        true,
        1,
        2,
        Some(Buffer::from_bits(vec![true, false, true, true])),
        vec![
            Buffer::from_offsets(vec![0, 1, 2, 4, 6]),
            Buffer::from_bytes(b"abcdef".to_vec()),
        ],
    )
    .unwrap();
    assert_eq!(wide.text_span(), 3);
    let mut series = Series::new("w".to_string(), LogicalType::Utf8, true);
    assert!(series.try_push_chunk(wide));
    assert!(series.try_push_chunk(text_chunk(LogicalType::Utf8, &[Some("z")])));
    let out = series.normalize();
    assert_eq!(out.offset(), 0);
    assert_eq!(values(&out), vec![None, text("cd"), text("z")]);
}

#[test]
fn a_series_without_chunks_normalizes_to_an_empty_array() {
    let series = Series::new("e".to_string(), LogicalType::Utf8, false);
    assert_eq!(series.len(), 0);
    let out = series.normalize();
    assert_eq!(out.len(), 0);
    assert_eq!(out.dtype(), LogicalType::Utf8);
    assert!(!out.is_nullable());
    assert_eq!(out.null_count(), 0);
}

#[test]
fn normalizing_twice_is_normalizing_once() {
    let mut series = Series::new("a".to_string(), LogicalType::Int64, true);
    assert!(series.try_push_chunk(int64_chunk(&[Some(1), None])));
    assert!(series.try_push_chunk(int64_chunk(&[Some(3)])));
    let once = series.rechunk();
    assert_eq!(once.name(), "a");
    assert_eq!(once.n_chunks(), 1);
    assert_eq!(once.dtype(), LogicalType::Int64);
    assert!(once.is_nullable());
    let first = once.normalize();
    let twice = once.rechunk();
    let second = twice.normalize();
    assert_eq!(values(&first), vec![int64(1), None, int64(3)]);
    assert_eq!(values(&second), values(&first));
    assert!(Arc::ptr_eq(&first_value_buffer(&first), &first_value_buffer(&second)));
    assert!(Arc::ptr_eq(
        &first_value_buffer(once.chunk(0)),
        &first_value_buffer(twice.chunk(0))
    ));
}

#[test]
fn a_chunk_of_another_type_does_not_join() {
    let mut series = Series::new("a".to_string(), LogicalType::Int64, true);
    assert!(!series.try_push_chunk(text_chunk(LogicalType::Utf8, &[Some("x")])));
    let mut builder = ArrayBuilder::new(LogicalType::Int64, false);
    assert!(builder.try_push(int64(1)));
    assert!(!series.try_push_chunk(builder.finish()));
    assert_eq!(series.n_chunks(), 0);
    assert_eq!(series.len(), 0);
}

#[test]
fn the_builder_refuses_what_does_not_fit() {
    let mut builder = ArrayBuilder::new(LogicalType::Int32, false);
    assert!(!builder.try_push(None));
    assert!(!builder.try_push(Some(Datum::Flag(true))));
    assert!(!builder.try_push(Some(Datum::Bytes(vec![1, 2, 3]))));
    assert!(!builder.try_push(Some(Datum::Bytes(vec![1, 2, 3, 4, 5]))));
    assert_eq!(builder.len(), 0);
    assert!(builder.try_push(Some(Datum::Bytes(vec![1, 2, 3, 4]))));
    assert_eq!(builder.len(), 1);
    let array = builder.finish();
    assert_eq!(array.value(0), Some(Datum::Bytes(vec![1, 2, 3, 4])));
    let mut flags = ArrayBuilder::new(LogicalType::Boolean, true);
    assert!(!flags.try_push(Some(Datum::Bytes(vec![1]))));
    assert!(flags.try_push(None));
    let mut words = ArrayBuilder::new(LogicalType::Utf8, true);
    assert!(!words.try_push(Some(Datum::Flag(false))));
    assert!(words.try_push(Some(Datum::Bytes(b"ok".to_vec()))));
    assert_eq!(words.len(), 1);
}
