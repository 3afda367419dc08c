//! The recoverable failures of an export or an import.

use vstd::prelude::*;

verus! {

/// Why a transfer across the boundary was refused.
#[derive(Clone, Copy, Debug, PartialEq, Eq, Structural)]
pub enum BridgeError {
    /// A logical type or a format string outside the recognised set.
    UnsupportedType,
    /// The array descriptor does not have the structure that its schema
    /// descriptor prescribes.
    MalformedDescriptor,
    /// A buffer that the logical type mandates is missing.
    NullBufferPointer,
}

impl BridgeError {
    /// The text of `self.message()`.
    pub open spec fn message_text(self) -> Seq<char> {
        match self {
            BridgeError::UnsupportedType => "unsupported logical type"@,
            BridgeError::MalformedDescriptor => "malformed descriptor"@,
            BridgeError::NullBufferPointer => "null buffer pointer"@,
        }
    }

    /// A short description for the caller to report.
    pub fn message(&self) -> (text: String)
        ensures
            text@ == self.message_text(),
    {
        match self {
            BridgeError::UnsupportedType => "unsupported logical type".to_owned(),
            BridgeError::MalformedDescriptor => "malformed descriptor".to_owned(),
            BridgeError::NullBufferPointer => "null buffer pointer".to_owned(),
        }
    }
}

} // verus!
