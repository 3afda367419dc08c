//! What a pair of descriptors says before any buffer is looked into.
//!
//! The header of a pair is all that can be read off the two structures
//! themselves: the format string, the flags, the counts, the window, and which
//! buffer pointers are null. Whether a pair can describe an array at all is
//! decided on the header alone.

use vstd::prelude::*;
use crate::descriptor::{flags_nullable, is_nullable};
use crate::error::BridgeError;
use crate::types::{from_format, type_of_format, LogicalType};

verus! {

/// The header of a pair of descriptors.
#[derive(Debug)]
pub struct DescriptorHeader {
    /// The format string of the schema descriptor.
    pub format: String,
    /// The flags of the schema descriptor.
    pub flags: i64,
    /// The number of children that the schema descriptor declares.
    pub schema_children: i64,
    pub length: i64,
    pub null_count: i64,
    pub offset: i64,
    pub n_buffers: i64,
    /// For each buffer pointer of the array descriptor, whether it is not
    /// null.
    pub buffers_present: Vec<bool>,
    /// The number of children that the array descriptor declares.
    pub n_children: i64,
}

/// What a header holds.
pub struct HeaderView {
    pub format: Seq<char>,
    pub flags: i64,
    pub schema_children: i64,
    pub length: i64,
    pub null_count: i64,
    pub offset: i64,
    pub n_buffers: i64,
    pub buffers_present: Seq<bool>,
    pub n_children: i64,
}

impl View for DescriptorHeader {
    type V = HeaderView;

    open spec fn view(&self) -> HeaderView {
        HeaderView {
            format: self.format@,
            flags: self.flags,
            schema_children: self.schema_children,
            length: self.length,
            null_count: self.null_count,
            offset: self.offset,
            n_buffers: self.n_buffers,
            buffers_present: self.buffers_present@,
            n_children: self.n_children,
        }
    }
}

/// The header has the shape that `dtype` prescribes: no children on either
/// side, as many buffers as the type has, a window and a null count that can
/// be a window and a count, and nulls only where the field is nullable.
pub open spec fn shape_fits(header: HeaderView, dtype: LogicalType) -> bool {
    &&& header.schema_children == 0
    &&& header.n_children == 0
    &&& header.n_buffers == dtype.buffer_count()
    &&& header.buffers_present.len() == dtype.buffer_count()
    &&& 0 <= header.length <= usize::MAX
    &&& 0 <= header.offset <= usize::MAX
    &&& -1 <= header.null_count <= header.length
    &&& header.null_count > 0 ==> flags_nullable(header.flags)
}

/// A buffer that must be there is a null pointer: any buffer of the values,
/// or the validity buffer of an array that is said to have nulls.
pub open spec fn buffer_missing(header: HeaderView) -> bool {
    ||| exists|i: int|
        0 < i < header.buffers_present.len() && !#[trigger] header.buffers_present[i]
    ||| !header.buffers_present[0] && header.null_count > 0
}

/// What the header of a pair decides: the logical type of the array that the
/// pair may describe, or the reason why it describes none.
///
/// The checks come in this order: the format string must name a type
/// (`UnsupportedType`), the header must have the shape of that type
/// (`MalformedDescriptor`), and no mandated buffer may be missing
/// (`NullBufferPointer`).
pub open spec fn header_outcome(header: HeaderView) -> Result<LogicalType, BridgeError> {
    match type_of_format(header.format) {
        None => Err(BridgeError::UnsupportedType),
        Some(dtype) => if !shape_fits(header, dtype) {
            Err(BridgeError::MalformedDescriptor)
        } else if buffer_missing(header) {
            Err(BridgeError::NullBufferPointer)
        } else {
            Ok(dtype)
        },
    }
}

/// Checks the header of a pair of descriptors: see `header_outcome`.
pub fn check_header(header: &DescriptorHeader) -> (res: Result<LogicalType, BridgeError>)
    ensures
        res == header_outcome(header@),
{
    let dtype = match from_format(header.format.as_str()) {
        Ok(dtype) => dtype,
        Err(e) => {
            return Err(e);
        },
    };
    let expected: usize = match dtype {
        LogicalType::Utf8 | LogicalType::LargeUtf8 => 3,
        _ => 2,
    };
    if header.schema_children != 0 || header.n_children != 0 {
        return Err(BridgeError::MalformedDescriptor);
    }
    if header.n_buffers != expected as i64 || header.buffers_present.len() != expected {
        return Err(BridgeError::MalformedDescriptor);
    }
    if header.length < 0 || header.offset < 0 || header.null_count < -1 {
        return Err(BridgeError::MalformedDescriptor);
    }
    if header.length as u64 > usize::MAX as u64 || header.offset as u64 > usize::MAX as u64 {
        return Err(BridgeError::MalformedDescriptor);
    }
    if header.null_count > header.length {
        return Err(BridgeError::MalformedDescriptor);
    }
    if header.null_count > 0 && !is_nullable(header.flags) {
        return Err(BridgeError::MalformedDescriptor);
    }
    if !header.buffers_present[1] {
        return Err(BridgeError::NullBufferPointer);
    }
    if expected == 3 && !header.buffers_present[2] {
        return Err(BridgeError::NullBufferPointer);
    }
    if !header.buffers_present[0] && header.null_count > 0 {
        return Err(BridgeError::NullBufferPointer);
    }
    Ok(dtype)
}

} // verus!
