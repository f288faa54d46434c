//! Decoded message values.

use vstd::prelude::*;

verus! {

/// A value of a decoded message field. Floating-point fields are not
/// represented.
#[derive(Debug, Clone)]
pub enum CodecValue {
    Bool(bool),
    Int8(i8),
    Int16(i16),
    Int32(i32),
    Int64(i64),
    UInt8(u8),
    UInt16(u16),
    UInt32(u32),
    UInt64(u64),
    String(String),
    Bytes(Vec<u8>),
    Null,
}

} // verus!
