use crate::dtype::DataType;
use crate::expr::{Expr, Node};
use crate::function::{BinaryFunction, CastingRules, FunctionExpr, FunctionOptions};
use vstd::prelude::*;

verus! {

/// Operations on an expression whose values are binary (byte strings).
///
/// Every operation returns a new node with the receiver as its first input;
/// nothing is evaluated and no column data is read.
pub struct BinaryNameSpace(pub(crate) Expr);

impl View for BinaryNameSpace {
    type V = Node;

    /// Tree of the receiver expression.
    closed spec fn view(&self) -> Node {
        self.0@
    }
}

impl Expr {
    /// The binary operations on this expression.
    pub fn binary(self) -> (r: BinaryNameSpace)
        ensures
            r@ == self@,
    {
        BinaryNameSpace(self)
    }
}

/// Node tagged with the binary operation `f` over `input`.
pub open spec fn binary_node(input: Seq<Node>, f: BinaryFunction, options: FunctionOptions) -> Node {
    Node::Function { input, function: FunctionExpr::BinaryExpr(f), options }
}

/// Options of a node whose arguments may be cast to a common supertype.
pub open spec fn casting_options() -> FunctionOptions {
    FunctionOptions { returns_scalar: false, cast_options: Some(CastingRules::Supertype) }
}

/// Options of a node whose arguments are never cast.
pub open spec fn no_cast_options() -> FunctionOptions {
    FunctionOptions::spec_elementwise()
}

/// A vector holding `e` alone.
fn single(e: Expr) -> (r: Vec<Expr>)
    ensures
        r@ == seq![e],
{
    let mut r: Vec<Expr> = Vec::new();
    r.push(e);
    proof {
        assert(r@ =~= seq![e]);
    }
    r
}

/// A vector holding `a` then `b`.
fn pair(a: Expr, b: Expr) -> (r: Vec<Expr>)
    ensures
        r@ == seq![a, b],
{
    let mut r: Vec<Expr> = Vec::new();
    r.push(a);
    r.push(b);
    proof {
        assert(r@ =~= seq![a, b]);
    }
    r
}

impl BinaryNameSpace {
    /// Does each value contain the byte string `pat` (a literal match, not a pattern).
    pub fn contains_literal(self, pat: Expr) -> (r: Expr)
        ensures
            r@ == binary_node(seq![self@, pat@], BinaryFunction::Contains, casting_options()),
    {
        let ghost args = seq![pat];
        let r = self.0.map_many_private(
            FunctionExpr::BinaryExpr(BinaryFunction::Contains),
            single(pat),
            false,
            Some(Default::default()),
        );
        assert(Expr::views(args) =~= seq![pat@]);
        assert(seq![self@] + seq![pat@] =~= seq![self@, pat@]);
        r
    }

    /// Does each value end with the byte string `sub`.
    pub fn ends_with(self, sub: Expr) -> (r: Expr)
        ensures
            r@ == binary_node(seq![self@, sub@], BinaryFunction::EndsWith, casting_options()),
    {
        let ghost args = seq![sub];
        let r = self.0.map_many_private(
            FunctionExpr::BinaryExpr(BinaryFunction::EndsWith),
            single(sub),
            false,
            Some(Default::default()),
        );
        assert(Expr::views(args) =~= seq![sub@]);
        assert(seq![self@] + seq![sub@] =~= seq![self@, sub@]);
        r
    }

    /// Does each value start with the byte string `sub`.
    pub fn starts_with(self, sub: Expr) -> (r: Expr)
        ensures
            r@ == binary_node(seq![self@, sub@], BinaryFunction::StartsWith, casting_options()),
    {
        let ghost args = seq![sub];
        let r = self.0.map_many_private(
            FunctionExpr::BinaryExpr(BinaryFunction::StartsWith),
            single(sub),
            false,
            Some(Default::default()),
        );
        assert(Expr::views(args) =~= seq![sub@]);
        assert(seq![self@] + seq![sub@] =~= seq![self@, sub@]);
        r
    }

    /// Number of bytes of each value.
    pub fn size_bytes(self) -> (r: Expr)
        ensures
            r@ == binary_node(seq![self@], BinaryFunction::Size, no_cast_options()),
    {
        self.0.map_private(FunctionExpr::BinaryExpr(BinaryFunction::Size))
    }

    /// Bytes of each value from `offset` (negative counts from the end) over `length`;
    /// the bounds are clamped when evaluated, not here.
    pub fn slice(self, offset: Expr, length: Expr) -> (r: Expr)
        ensures
            r@ == binary_node(seq![self@, offset@, length@], BinaryFunction::Slice, no_cast_options()),
    {
        let ghost args = seq![offset, length];
        let r = self.0.map_many_private(
            FunctionExpr::BinaryExpr(BinaryFunction::Slice),
            pair(offset, length),
            false,
            None,
        );
        assert(Expr::views(args) =~= seq![offset@, length@]);
        assert(seq![self@] + seq![offset@, length@] =~= seq![self@, offset@, length@]);
        r
    }

    /// The first `n` bytes of each value; a count past the end is no error.
    pub fn head(self, n: Expr) -> (r: Expr)
        ensures
            r@ == binary_node(seq![self@, n@], BinaryFunction::Head, no_cast_options()),
    {
        let ghost args = seq![n];
        let r = self.0.map_many_private(
            FunctionExpr::BinaryExpr(BinaryFunction::Head),
            single(n),
            false,
            None,
        );
        assert(Expr::views(args) =~= seq![n@]);
        assert(seq![self@] + seq![n@] =~= seq![self@, n@]);
        r
    }

    /// The last `n` bytes of each value.
    pub fn tail(self, n: Expr) -> (r: Expr)
        ensures
            r@ == binary_node(seq![self@, n@], BinaryFunction::Tail, no_cast_options()),
    {
        let ghost args = seq![n];
        let r = self.0.map_many_private(
            FunctionExpr::BinaryExpr(BinaryFunction::Tail),
            single(n),
            false,
            None,
        );
        assert(Expr::views(args) =~= seq![n@]);
        assert(seq![self@] + seq![n@] =~= seq![self@, n@]);
        r
    }

    /// Bytes of each value read as hexadecimal text; with `strict` the executor fails
    /// on malformed input instead of producing a missing value.
    pub fn hex_decode(self, strict: bool) -> (r: Expr)
        ensures
            r@ == binary_node(seq![self@], BinaryFunction::HexDecode(strict), no_cast_options()),
    {
        self.0.map_private(FunctionExpr::BinaryExpr(BinaryFunction::HexDecode(strict)))
    }

    /// Hexadecimal text of each value.
    pub fn hex_encode(self) -> (r: Expr)
        ensures
            r@ == binary_node(seq![self@], BinaryFunction::HexEncode, no_cast_options()),
    {
        self.0.map_private(FunctionExpr::BinaryExpr(BinaryFunction::HexEncode))
    }

    /// Bytes of each value read as base64 text, with the same strictness as
    /// [`BinaryNameSpace::hex_decode`].
    pub fn base64_decode(self, strict: bool) -> (r: Expr)
        ensures
            r@ == binary_node(seq![self@], BinaryFunction::Base64Decode(strict), no_cast_options()),
    {
        self.0.map_private(FunctionExpr::BinaryExpr(BinaryFunction::Base64Decode(strict)))
    }

    /// Base64 text of each value.
    pub fn base64_encode(self) -> (r: Expr)
        ensures
            r@ == binary_node(seq![self@], BinaryFunction::Base64Encode, no_cast_options()),
    {
        self.0.map_private(FunctionExpr::BinaryExpr(BinaryFunction::Base64Encode))
    }

    /// Each value reinterpreted as values of `to_type`, in little-endian byte order
    /// when `is_little_endian` holds; sizes and alignment are checked when evaluated.
    pub fn from_buffer(self, to_type: DataType, is_little_endian: bool) -> (r: Expr)
        ensures
            r@ == binary_node(seq![self@], BinaryFunction::FromBuffer(to_type, is_little_endian), no_cast_options()),
    {
        self.0.map_private(FunctionExpr::BinaryExpr(BinaryFunction::FromBuffer(to_type, is_little_endian)))
    }
}

/// Construction is referentially transparent: `starts_with` on structurally equal
/// receivers with structurally equal arguments yields structurally equal trees.
pub proof fn lemma_starts_with_transparent(x: BinaryNameSpace, y: BinaryNameSpace, a: Expr, b: Expr)
    requires
        x@ == y@,
        a@ == b@,
    ensures
        binary_node(seq![x@, a@], BinaryFunction::StartsWith, casting_options()) == binary_node(
            seq![y@, b@],
            BinaryFunction::StartsWith,
            casting_options(),
        ),
{
}

/// `slice` keeps its arguments in the order given: with distinct offset and length,
/// its tree differs from the one with the two swapped.
pub proof fn lemma_slice_keeps_argument_order(x: BinaryNameSpace, offset: Expr, length: Expr)
    requires
        offset@ != length@,
    ensures
        binary_node(seq![x@, offset@, length@], BinaryFunction::Slice, no_cast_options())
            != binary_node(seq![x@, length@, offset@], BinaryFunction::Slice, no_cast_options()),
{
    let kept = seq![x@, offset@, length@];
    let swapped = seq![x@, length@, offset@];
    assert(kept[1] != swapped[1]);
}

} // verus!
