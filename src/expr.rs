use crate::function::{CastingRules, FunctionExpr, FunctionOptions};
use vstd::prelude::*;

verus! {

/// A constant embedded in an expression.
#[derive(Debug)]
pub enum LiteralValue {
    Null,
    Boolean(bool),
    Int64(i64),
    UInt64(u64),
    Binary(Vec<u8>),
}

/// Mathematical value of a [`LiteralValue`].
pub enum Scalar {
    Null,
    Boolean(bool),
    Int64(i64),
    UInt64(u64),
    Binary(Seq<u8>),
}

impl View for LiteralValue {
    type V = Scalar;

    open spec fn view(&self) -> Scalar {
        match self {
            LiteralValue::Null => Scalar::Null,
            LiteralValue::Boolean(b) => Scalar::Boolean(*b),
            LiteralValue::Int64(v) => Scalar::Int64(*v),
            LiteralValue::UInt64(v) => Scalar::UInt64(*v),
            LiteralValue::Binary(bytes) => Scalar::Binary(bytes@),
        }
    }
}

impl Clone for LiteralValue {
    fn clone(&self) -> (r: Self)
        ensures
            r@ == self@,
    {
        match self {
            LiteralValue::Null => LiteralValue::Null,
            LiteralValue::Boolean(b) => LiteralValue::Boolean(*b),
            LiteralValue::Int64(v) => LiteralValue::Int64(*v),
            LiteralValue::UInt64(v) => LiteralValue::UInt64(*v),
            LiteralValue::Binary(bytes) => {
                let copy = bytes.clone();
                assert(copy@ =~= bytes@);
                LiteralValue::Binary(copy)
            },
        }
    }
}

/// An immutable description of a computation to be performed later.
///
/// Nodes are only ever built bottom-up, so a tree never contains itself.
#[derive(Debug)]
pub enum Expr {
    /// The values of the named column.
    Column(String),
    /// A constant.
    Literal(LiteralValue),
    /// A function applied to its inputs; the first input is the receiver.
    Function { input: Vec<Expr>, function: FunctionExpr, options: FunctionOptions },
}

/// Mathematical tree of an [`Expr`]: two expressions are structurally equal
/// exactly when their trees are equal.
pub enum Node {
    Column(Seq<char>),
    Literal(Scalar),
    Function { input: Seq<Node>, function: FunctionExpr, options: FunctionOptions },
}

impl Expr {
    /// Tree of this expression.
    pub open spec fn view(&self) -> Node
        decreases self,
    {
        match self {
            Expr::Column(name) => Node::Column(name@),
            Expr::Literal(value) => Node::Literal(value@),
            Expr::Function { input, function, options } => Node::Function {
                input: Seq::new(
                    input.len() as nat,
                    |i: int|
                        if 0 <= i < input.len() {
                            input[i].view()
                        } else {
                            Node::Column(Seq::empty())
                        },
                ),
                function: *function,
                options: *options,
            },
        }
    }

    /// A structurally equal, independently owned copy of this expression.
    pub fn deep_clone(&self) -> (r: Expr)
        ensures
            r@ == self@,
        decreases self,
    {
        match self {
            Expr::Column(name) => Expr::Column(name.clone()),
            Expr::Literal(value) => Expr::Literal(value.clone()),
            Expr::Function { input, function, options } => {
                let mut copy: Vec<Expr> = Vec::new();
                let mut i: usize = 0;
                proof {
                    assert(decreases_to!(*self => *input));
                }
                while i < input.len()
                    invariant
                        decreases_to!(*self => *input),
                        i <= input.len(),
                        copy@.len() == i,
                        forall|j: int| 0 <= j < i ==> (#[trigger] copy@[j])@ == input@[j]@,
                    decreases input.len() - i,
                {
                    proof {
                        assert(decreases_to!(*input => input[i as int]));
                    }
                    copy.push(input[i].deep_clone());
                    i += 1;
                }
                let r = Expr::Function { input: copy, function: *function, options: *options };
                assert(r@->input =~= self@->input);
                r
            },
        }
    }

    /// Trees of a sequence of expressions, in order.
    pub open spec fn views(exprs: Seq<Expr>) -> Seq<Node> {
        exprs.map_values(|e: Expr| e@)
    }

    /// Single-input wrap: a new node that applies `function` to this expression
    /// alone, element by element, with arguments never cast.
    pub fn map_private(self, function: FunctionExpr) -> (r: Expr)
        ensures
            r@ == (Node::Function {
                input: seq![self@],
                function,
                options: FunctionOptions::spec_elementwise(),
            }),
    {
        let ghost receiver = self@;
        let mut input: Vec<Expr> = Vec::new();
        input.push(self);
        let r = Expr::Function { input, function, options: FunctionOptions::elementwise() };
        assert(r@->input =~= seq![receiver]);
        r
    }

    /// Multi-input wrap: a new node that applies `function` to this expression
    /// followed by `arguments` in the order given.
    pub fn map_many_private(
        self,
        function: FunctionExpr,
        arguments: Vec<Expr>,
        returns_scalar: bool,
        cast_options: Option<CastingRules>,
    ) -> (r: Expr)
        ensures
            r@ == (Node::Function {
                input: seq![self@] + Expr::views(arguments@),
                function,
                options: FunctionOptions { returns_scalar, cast_options },
            }),
    {
        let ghost receiver = self@;
        let ghost args = arguments@;
        let mut input = arguments;
        input.insert(0, self);
        let r = Expr::Function {
            input,
            function,
            options: FunctionOptions { returns_scalar, cast_options },
        };
        assert(r@->input =~= seq![receiver] + Expr::views(args));
        r
    }
}

impl Clone for Expr {
    fn clone(&self) -> (r: Self)
        ensures
            r@ == self@,
    {
        self.deep_clone()
    }
}

} // verus!
