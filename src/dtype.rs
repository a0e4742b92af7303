use vstd::prelude::*;

verus! {

/// The scalar type that raw bytes are reinterpreted as by a buffer conversion.
#[derive(Clone, Copy, Debug, PartialEq, Eq, Structural)]
pub enum DataType {
    Boolean,
    UInt8,
    UInt16,
    UInt32,
    UInt64,
    Int8,
    Int16,
    Int32,
    Int64,
    Float32,
    Float64,
}

} // verus!
