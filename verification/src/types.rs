//! The native logical types and their format strings.
//!
//! A format string names a logical type in a descriptor. The mapping covers
//! booleans, the fixed-width numerics and the two UTF-8 string types; every
//! format is a single character. The temporal types exist on the native side
//! but have no format here.

use vstd::prelude::*;
use crate::error::BridgeError;

verus! {

/// A logical type of the native columnar engine.
#[derive(Clone, Copy, Debug, PartialEq, Eq, Structural)]
pub enum LogicalType {
    Boolean,
    Int8,
    Int16,
    Int32,
    Int64,
    UInt8,
    UInt16,
    UInt32,
    UInt64,
    Float32,
    Float64,
    /// UTF-8 strings with 32-bit offsets.
    Utf8,
    /// UTF-8 strings with 64-bit offsets.
    LargeUtf8,
    /// Days, in 32 bits; no format string.
    Date,
    /// Time of day, in 64 bits; no format string.
    Time,
    /// A point in time, in 64 bits; no format string.
    Datetime,
    /// A span of time, in 64 bits; no format string.
    Duration,
}

/// How the values of a supported type are laid out in buffers.
#[derive(Clone, Copy, Debug, PartialEq, Eq, Structural)]
pub enum Layout {
    /// One flag per slot.
    Bits,
    /// A fixed number of bytes per slot.
    Fixed,
    /// Slot boundaries into one run of bytes.
    Text,
}

/// The character that stands for `t` in a format string, if `t` is supported.
pub open spec fn format_char(t: LogicalType) -> Option<char> {
    match t {
        LogicalType::Boolean => Some('b'),
        LogicalType::Int8 => Some('c'),
        LogicalType::UInt8 => Some('C'),
        LogicalType::Int16 => Some('s'),
        LogicalType::UInt16 => Some('S'),
        LogicalType::Int32 => Some('i'),
        LogicalType::UInt32 => Some('I'),
        LogicalType::Int64 => Some('l'),
        LogicalType::UInt64 => Some('L'),
        LogicalType::Float32 => Some('f'),
        LogicalType::Float64 => Some('g'),
        LogicalType::Utf8 => Some('u'),
        LogicalType::LargeUtf8 => Some('U'),
        _ => None,
    }
}

/// The logical type that the character `c` stands for, if any.
pub open spec fn type_of_char(c: char) -> Option<LogicalType> {
    if c == 'b' {
        Some(LogicalType::Boolean)
    } else if c == 'c' {
        Some(LogicalType::Int8)
    } else if c == 'C' {
        Some(LogicalType::UInt8)
    } else if c == 's' {
        Some(LogicalType::Int16)
    } else if c == 'S' {
        Some(LogicalType::UInt16)
    } else if c == 'i' {
        Some(LogicalType::Int32)
    } else if c == 'I' {
        Some(LogicalType::UInt32)
    } else if c == 'l' {
        Some(LogicalType::Int64)
    } else if c == 'L' {
        Some(LogicalType::UInt64)
    } else if c == 'f' {
        Some(LogicalType::Float32)
    } else if c == 'g' {
        Some(LogicalType::Float64)
    } else if c == 'u' {
        Some(LogicalType::Utf8)
    } else if c == 'U' {
        Some(LogicalType::LargeUtf8)
    } else {
        None
    }
}

/// The format string of `t`, if `t` is supported.
pub open spec fn format_of(t: LogicalType) -> Option<Seq<char>> {
    match format_char(t) {
        Some(c) => Some(seq![c]),
        None => None,
    }
}

/// The logical type that the format string `format` names, if any.
pub open spec fn type_of_format(format: Seq<char>) -> Option<LogicalType> {
    if format.len() == 1 {
        type_of_char(format[0])
    } else {
        None
    }
}

impl LogicalType {
    /// Whether the type has a format string.
    pub open spec fn supported(self) -> bool {
        format_char(self) is Some
    }

    /// The layout of the values: temporal types are fixed-width numbers.
    pub open spec fn layout(self) -> Layout {
        match self {
            LogicalType::Boolean => Layout::Bits,
            LogicalType::Utf8 | LogicalType::LargeUtf8 => Layout::Text,
            _ => Layout::Fixed,
        }
    }

    /// Bytes per slot of a type with the `Fixed` layout; 0 for the others.
    pub open spec fn byte_width(self) -> nat {
        match self {
            LogicalType::Int8 | LogicalType::UInt8 => 1,
            LogicalType::Int16 | LogicalType::UInt16 => 2,
            LogicalType::Int32 | LogicalType::UInt32 | LogicalType::Float32 | LogicalType::Date => 4,
            LogicalType::Int64
            | LogicalType::UInt64
            | LogicalType::Float64
            | LogicalType::Time
            | LogicalType::Datetime
            | LogicalType::Duration => 8,
            LogicalType::Boolean | LogicalType::Utf8 | LogicalType::LargeUtf8 => 0,
        }
    }

    /// How many buffers an array of the type has, the validity buffer counted
    /// in.
    pub open spec fn buffer_count(self) -> nat {
        match self.layout() {
            Layout::Text => 3,
            _ => 2,
        }
    }

    /// Whether the type has a format string.
    pub fn is_supported(&self) -> (yes: bool)
        ensures
            yes == self.supported(),
    {
        match self {
            LogicalType::Date
            | LogicalType::Time
            | LogicalType::Datetime
            | LogicalType::Duration => false,
            _ => true,
        }
    }

    /// The layout of the type's values.
    pub fn value_layout(&self) -> (layout: Layout)
        ensures
            layout == self.layout(),
    {
        match self {
            LogicalType::Boolean => Layout::Bits,
            LogicalType::Utf8 | LogicalType::LargeUtf8 => Layout::Text,
            _ => Layout::Fixed,
        }
    }

    /// Bytes per slot of a fixed-width type, 0 for the others.
    pub fn value_width(&self) -> (width: usize)
        ensures
            width == self.byte_width(),
    {
        match self {
            LogicalType::Int8 | LogicalType::UInt8 => 1,
            LogicalType::Int16 | LogicalType::UInt16 => 2,
            LogicalType::Int32 | LogicalType::UInt32 | LogicalType::Float32 | LogicalType::Date => 4,
            LogicalType::Int64
            | LogicalType::UInt64
            | LogicalType::Float64
            | LogicalType::Time
            | LogicalType::Datetime
            | LogicalType::Duration => 8,
            LogicalType::Boolean | LogicalType::Utf8 | LogicalType::LargeUtf8 => 0,
        }
    }
}

/// The format string of a logical type.
///
/// Succeeds exactly on the supported types; every other type is refused with
/// `UnsupportedType`.
pub fn to_format(t: LogicalType) -> (res: Result<String, BridgeError>)
    ensures
        match format_of(t) {
            Some(format) => res matches Ok(text) && text@ == format,
            None => res == Err::<String, BridgeError>(BridgeError::UnsupportedType),
        },
{
    proof {
        reveal_strlit("b");
        reveal_strlit("c");
        reveal_strlit("C");
        reveal_strlit("s");
        reveal_strlit("S");
        reveal_strlit("i");
        reveal_strlit("I");
        reveal_strlit("l");
        reveal_strlit("L");
        reveal_strlit("f");
        reveal_strlit("g");
        reveal_strlit("u");
        reveal_strlit("U");
    }
    let text = match t {
        LogicalType::Boolean => "b",
        LogicalType::Int8 => "c",
        LogicalType::UInt8 => "C",
        LogicalType::Int16 => "s",
        LogicalType::UInt16 => "S",
        LogicalType::Int32 => "i",
        LogicalType::UInt32 => "I",
        LogicalType::Int64 => "l",
        LogicalType::UInt64 => "L",
        LogicalType::Float32 => "f",
        LogicalType::Float64 => "g",
        LogicalType::Utf8 => "u",
        LogicalType::LargeUtf8 => "U",
        _ => {
            return Err(BridgeError::UnsupportedType);
        },
    };
    Ok(text.to_owned())
}

/// The logical type that a format string names.
///
/// Succeeds exactly on the format strings of the supported types; any other
/// text is refused with `UnsupportedType`.
pub fn from_format(format: &str) -> (res: Result<LogicalType, BridgeError>)
    ensures
        match type_of_format(format@) {
            Some(t) => res == Ok::<LogicalType, BridgeError>(t),
            None => res == Err::<LogicalType, BridgeError>(BridgeError::UnsupportedType),
        },
{
    if format.unicode_len() != 1 {
        return Err(BridgeError::UnsupportedType);
    }
    let c = format.get_char(0);
    if c == 'b' {
        Ok(LogicalType::Boolean)
    } else if c == 'c' {
        Ok(LogicalType::Int8)
    } else if c == 'C' {
        Ok(LogicalType::UInt8)
    } else if c == 's' {
        Ok(LogicalType::Int16)
    } else if c == 'S' {
        Ok(LogicalType::UInt16)
    } else if c == 'i' {
        Ok(LogicalType::Int32)
    } else if c == 'I' {
        Ok(LogicalType::UInt32)
    } else if c == 'l' {
        Ok(LogicalType::Int64)
    } else if c == 'L' {
        Ok(LogicalType::UInt64)
    } else if c == 'f' {
        Ok(LogicalType::Float32)
    } else if c == 'g' {
        Ok(LogicalType::Float64)
    } else if c == 'u' {
        Ok(LogicalType::Utf8)
    } else if c == 'U' {
        Ok(LogicalType::LargeUtf8)
    } else {
        Err(BridgeError::UnsupportedType)
    }
}

/// Decoding the format string of a supported type gives the type back.
pub proof fn lemma_format_round_trip(t: LogicalType)
    requires
        t.supported(),
    ensures
        format_of(t) is Some,
        type_of_format(format_of(t).unwrap()) == Some(t),
{
}

/// A format string that decodes to a type is the format string of that type,
/// so no two format strings name one type and no string outside the set
/// decodes.
pub proof fn lemma_format_is_canonical(format: Seq<char>)
    requires
        type_of_format(format) is Some,
    ensures
        type_of_format(format).unwrap().supported(),
        format_of(type_of_format(format).unwrap()) == Some(format),
{
}

} // verus!
