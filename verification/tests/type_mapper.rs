use tpch_polars::error::BridgeError;
use tpch_polars::types::{from_format, to_format, Layout, LogicalType};

fn supported() -> Vec<(LogicalType, &'static str)> {
    vec![
        (LogicalType::Boolean, "b"),
        (LogicalType::Int8, "c"),
        (LogicalType::UInt8, "C"),
        (LogicalType::Int16, "s"),
        (LogicalType::UInt16, "S"),
        (LogicalType::Int32, "i"),
        (LogicalType::UInt32, "I"),
        (LogicalType::Int64, "l"),
        (LogicalType::UInt64, "L"),
        (LogicalType::Float32, "f"),
        (LogicalType::Float64, "g"),
        (LogicalType::Utf8, "u"),
        (LogicalType::LargeUtf8, "U"),
    ]
}

#[test]
fn every_supported_type_has_its_format() {
    for (dtype, format) in supported() {
        assert_eq!(to_format(dtype), Ok(format.to_string()));
    }
}

#[test]
fn every_format_names_its_type() {
    for (dtype, format) in supported() {
        assert_eq!(from_format(format), Ok(dtype));
    }
}

#[test]
fn format_round_trip_gives_the_type_back() {
    for (dtype, _) in supported() {
        let format = to_format(dtype).unwrap();
        assert_eq!(from_format(&format), Ok(dtype));
    }
}

#[test]
fn temporal_types_have_no_format() {
    for dtype in [
        LogicalType::Date,
        LogicalType::Time,
        LogicalType::Datetime,
        LogicalType::Duration,
    ] {
        assert!(!dtype.is_supported());
        assert_eq!(to_format(dtype), Err(BridgeError::UnsupportedType));
    }
}

#[test]
fn unknown_formats_are_refused() {
    for format in ["", "x", "n", "z", "tdD", "+l", "ll", "l ", "é", "B"] {
        assert_eq!(from_format(format), Err(BridgeError::UnsupportedType));
    }
}

#[test]
fn layouts_and_widths() {
    assert_eq!(LogicalType::Boolean.value_layout(), Layout::Bits);
    assert_eq!(LogicalType::Utf8.value_layout(), Layout::Text);
    assert_eq!(LogicalType::LargeUtf8.value_layout(), Layout::Text);
    assert_eq!(LogicalType::Int64.value_layout(), Layout::Fixed);
    assert_eq!(LogicalType::Date.value_layout(), Layout::Fixed);
    assert_eq!(LogicalType::Int8.value_width(), 1);
    assert_eq!(LogicalType::UInt16.value_width(), 2);
    assert_eq!(LogicalType::Float32.value_width(), 4);
    assert_eq!(LogicalType::Date.value_width(), 4);
    assert_eq!(LogicalType::Int64.value_width(), 8);
    assert_eq!(LogicalType::Duration.value_width(), 8);
    assert_eq!(LogicalType::Boolean.value_width(), 0);
    assert_eq!(LogicalType::Utf8.value_width(), 0);
}

#[test]
fn error_messages() {
    assert_eq!(BridgeError::UnsupportedType.message(), "unsupported logical type");
    assert_eq!(BridgeError::MalformedDescriptor.message(), "malformed descriptor");
    assert_eq!(BridgeError::NullBufferPointer.message(), "null buffer pointer");
}
