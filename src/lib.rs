//! Construction of deferred expressions over binary (byte-string) columns.
mod binary;
mod dtype;
mod expr;
mod function;

pub use binary::{
    binary_node, casting_options, lemma_slice_keeps_argument_order, lemma_starts_with_transparent,
    no_cast_options, BinaryNameSpace,
};
pub use dtype::DataType;
pub use expr::{Expr, LiteralValue, Node, Scalar};
pub use function::{BinaryFunction, CastingRules, FunctionExpr, FunctionOptions};
