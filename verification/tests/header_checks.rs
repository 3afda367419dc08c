use tpch_polars::array::Datum;
use tpch_polars::builder::ArrayBuilder;
use tpch_polars::descriptor::FLAG_NULLABLE;
use tpch_polars::error::BridgeError;
use tpch_polars::export::export;
use tpch_polars::header::{check_header, DescriptorHeader};
use tpch_polars::import::read_header;
use tpch_polars::types::LogicalType;

fn header(format: &str, n_buffers: i64, present: &[bool]) -> DescriptorHeader {
    DescriptorHeader {
        format: format.to_string(),
        flags: FLAG_NULLABLE,
        schema_children: 0,
        length: 3,
        null_count: 0,
        offset: 0,
        n_buffers,
        buffers_present: present.to_vec(),
        n_children: 0,
    }
}

#[test]
fn a_sound_header_gives_the_type() {
    assert_eq!(check_header(&header("l", 2, &[true, true])), Ok(LogicalType::Int64));
    assert_eq!(check_header(&header("l", 2, &[false, true])), Ok(LogicalType::Int64));
    assert_eq!(check_header(&header("b", 2, &[true, true])), Ok(LogicalType::Boolean));
    assert_eq!(check_header(&header("u", 3, &[true, true, true])), Ok(LogicalType::Utf8));
    assert_eq!(
        check_header(&header("U", 3, &[false, true, true])),
        Ok(LogicalType::LargeUtf8)
    );
}

#[test]
fn the_format_is_checked_first() {
    let mut bad = header("+s", 9, &[]);
    bad.n_children = 4;
    bad.length = -3;
    assert_eq!(check_header(&bad), Err(BridgeError::UnsupportedType));
    assert_eq!(check_header(&header("", 2, &[true, true])), Err(BridgeError::UnsupportedType));
}

#[test]
fn the_shape_is_checked_before_the_pointers() {
    assert_eq!(
        check_header(&header("l", 3, &[true, false, true])),
        Err(BridgeError::MalformedDescriptor)
    );
    assert_eq!(
        check_header(&header("u", 2, &[true, false])),
        Err(BridgeError::MalformedDescriptor)
    );
    assert_eq!(
        check_header(&header("l", 2, &[true])),
        Err(BridgeError::MalformedDescriptor)
    );
    let mut children = header("l", 2, &[true, true]);
    children.n_children = 1;
    assert_eq!(check_header(&children), Err(BridgeError::MalformedDescriptor));
    let mut children = header("l", 2, &[true, true]);
    children.schema_children = -1;
    assert_eq!(check_header(&children), Err(BridgeError::MalformedDescriptor));
    let mut window = header("l", 2, &[true, false]);
    window.length = -1;
    assert_eq!(check_header(&window), Err(BridgeError::MalformedDescriptor));
    let mut window = header("l", 2, &[true, true]);
    window.offset = -1;
    assert_eq!(check_header(&window), Err(BridgeError::MalformedDescriptor));
    let mut nulls = header("l", 2, &[true, true]);
    nulls.null_count = 4;
    assert_eq!(check_header(&nulls), Err(BridgeError::MalformedDescriptor));
    let mut nulls = header("l", 2, &[true, true]);
    nulls.null_count = -2;
    assert_eq!(check_header(&nulls), Err(BridgeError::MalformedDescriptor));
    let mut nulls = header("l", 2, &[false, true]);
    nulls.null_count = 1;
    nulls.flags = 0;
    assert_eq!(check_header(&nulls), Err(BridgeError::MalformedDescriptor));
}

#[test]
fn a_missing_buffer_is_found_on_the_header() {
    assert_eq!(
        check_header(&header("l", 2, &[true, false])),
        Err(BridgeError::NullBufferPointer)
    );
    assert_eq!(
        check_header(&header("u", 3, &[true, false, true])),
        Err(BridgeError::NullBufferPointer)
    );
    assert_eq!(
        check_header(&header("u", 3, &[true, true, false])),
        Err(BridgeError::NullBufferPointer)
    );
    let mut nulls = header("l", 2, &[false, true]);
    nulls.null_count = 3;
    assert_eq!(check_header(&nulls), Err(BridgeError::NullBufferPointer));
    let mut unknown = header("l", 2, &[false, true]);
    unknown.null_count = -1;
    assert_eq!(check_header(&unknown), Ok(LogicalType::Int64));
}

#[test]
fn the_header_of_an_exported_pair() {
    let mut builder = ArrayBuilder::new(LogicalType::Utf8, true);
    assert!(builder.try_push(Some(Datum::Bytes(b"a".to_vec()))));
    assert!(builder.try_push(None));
    let (schema, desc) = export(&builder.finish()).unwrap();
    let header = read_header(&schema, &desc);
    assert_eq!(header.format, "u");
    assert_eq!(header.flags, FLAG_NULLABLE);
    assert_eq!(header.schema_children, 0);
    assert_eq!(header.length, 2);
    assert_eq!(header.null_count, 1);
    assert_eq!(header.offset, 0);
    assert_eq!(header.n_buffers, 3);
    assert_eq!(header.buffers_present, vec![true, true, true]);
    assert_eq!(header.n_children, 0);
    assert_eq!(check_header(&header), Ok(LogicalType::Utf8));
}
