use vstd::prelude::*;

verus! {

/// Failures surfaced to kernel authors.
#[derive(Debug, Clone, PartialEq, Eq)]
pub enum Error {
    /// A native entry point returned a failing status.
    Native { operation: String, message: String },
    /// A buffer that should hold a C string has no terminating NUL byte.
    NotNulTerminated,
    /// A buffer that should hold a C string has a NUL byte before its end.
    InteriorNul { position: usize },
    /// The bytes before the terminating NUL are not valid UTF-8.
    InvalidUtf8,
    /// The requested input index is out of bounds or the input is not constant.
    NotConstant,
    /// The attribute kind cannot be read from a raw attribute buffer.
    NotImplemented,
}

} // verus!
