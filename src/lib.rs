//! Verified core of an interop layer between host-written compute kernels and
//! a native graph-execution engine: ownership of native handles, decoding of
//! operator attributes, and the decisions taken while enumerating a kernel's
//! declared inputs and outputs.
//!
//! Native calls are made by the embedding code; the functions here take what
//! those calls produced as plain values and decide what becomes of it.

pub mod attribute;
pub mod cstring;
pub mod error;
pub mod handle;
pub mod schema;
pub mod scratch;

pub use attribute::{
    attr_type, from_read_op, read_buffer_len, read_op_complete, AttributeKind, AttributeValue,
    OpAttrType,
};
pub use cstring::decode_c_string;
pub use error::Error;
pub use handle::{KernelAttributes, NativeHandle};
pub use schema::{PortInfo, PortList};
pub use scratch::ScratchBuffer;
