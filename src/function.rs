use crate::dtype::DataType;
use vstd::prelude::*;

verus! {

/// The closed catalog of operations on binary (byte-string) columns.
///
/// Variants with parameters own them by value; nothing here is evaluated.
#[derive(Clone, Copy, Debug, PartialEq, Eq, Structural)]
pub enum BinaryFunction {
    /// Does the value contain the given byte string.
    Contains,
    /// Does the value start with the given byte string.
    StartsWith,
    /// Does the value end with the given byte string.
    EndsWith,
    /// Number of bytes of the value.
    Size,
    /// Bytes from an offset (negative counts from the end) over a length.
    Slice,
    /// The first `n` bytes.
    Head,
    /// The last `n` bytes.
    Tail,
    /// Hexadecimal text of the bytes.
    HexEncode,
    /// Bytes of hexadecimal text; `true` asks the executor to fail on malformed input
    /// instead of producing a missing value.
    HexDecode(bool),
    /// Base64 text of the bytes.
    Base64Encode,
    /// Bytes of base64 text, with the same strictness flag as `HexDecode`.
    Base64Decode(bool),
    /// Reinterprets the bytes as values of the type, little-endian when the flag is set.
    FromBuffer(DataType, bool),
}

/// The function identity attached to an expression node.
#[derive(Clone, Copy, Debug, PartialEq, Eq, Structural)]
pub enum FunctionExpr {
    BinaryExpr(BinaryFunction),
}

/// How the executor may cast the arguments of a node before evaluating it.
#[derive(Clone, Copy, Debug, PartialEq, Eq, Structural)]
pub enum CastingRules {
    /// Cast every input to their common supertype.
    Supertype,
    /// Cast the first input to the supertype of all inputs.
    FirstArgToSupertype,
    /// Cast the first input only where that loses no information.
    FirstArgLossless,
}

impl Default for CastingRules {
    fn default() -> (r: Self)
        ensures
            r == CastingRules::Supertype,
    {
        CastingRules::Supertype
    }
}

/// Options attached to a node that tell the executor how to treat it.
#[derive(Clone, Copy, Debug, PartialEq, Eq, Structural)]
pub struct FunctionOptions {
    /// The node yields a single value rather than one per element.
    pub returns_scalar: bool,
    /// How arguments may be cast; `None` means they are never cast.
    pub cast_options: Option<CastingRules>,
}

impl FunctionOptions {
    /// Options of a node evaluated element by element whose arguments are never cast.
    pub open spec fn spec_elementwise() -> FunctionOptions {
        FunctionOptions { returns_scalar: false, cast_options: None }
    }

    /// Options of a node evaluated element by element whose arguments are never cast.
    pub fn elementwise() -> (r: FunctionOptions)
        ensures
            r == FunctionOptions::spec_elementwise(),
    {
        FunctionOptions { returns_scalar: false, cast_options: None }
    }
}

} // verus!
