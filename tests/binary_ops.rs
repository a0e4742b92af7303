use binary_dsl::{
    BinaryFunction, CastingRules, DataType, Expr, FunctionExpr, FunctionOptions, LiteralValue,
};

fn col(name: &str) -> Expr {
    Expr::Column(name.to_string())
}

fn lit(v: i64) -> Expr {
    Expr::Literal(LiteralValue::Int64(v))
}

fn bytes(b: &[u8]) -> Expr {
    Expr::Literal(LiteralValue::Binary(b.to_vec()))
}

fn debug(e: &Expr) -> String {
    format!("{:?}", e)
}

/// Splits a function node into its inputs (as debug text), its binary function and its options.
fn parts(e: &Expr) -> (Vec<String>, BinaryFunction, FunctionOptions) {
    match e {
        Expr::Function { input, function: FunctionExpr::BinaryExpr(f), options } => {
            (input.iter().map(debug).collect(), *f, *options)
        }
        other => panic!("not a function node: {:?}", other),
    }
}

fn casting() -> FunctionOptions {
    FunctionOptions { returns_scalar: false, cast_options: Some(CastingRules::Supertype) }
}

fn no_cast() -> FunctionOptions {
    FunctionOptions { returns_scalar: false, cast_options: None }
}

#[test]
fn contains_literal_builds_contains_node() {
    let e = col("a").binary().contains_literal(bytes(b"ab"));
    let (input, f, options) = parts(&e);
    assert_eq!(f, BinaryFunction::Contains);
    assert_eq!(input, vec![debug(&col("a")), debug(&bytes(b"ab"))]);
    assert_eq!(options, casting());
    assert!(options.cast_options.is_some());
}

#[test]
fn starts_with_builds_starts_with_node() {
    let e = col("a").binary().starts_with(bytes(b"\x00\x01"));
    let (input, f, options) = parts(&e);
    assert_eq!(f, BinaryFunction::StartsWith);
    assert_eq!(input, vec![debug(&col("a")), debug(&bytes(b"\x00\x01"))]);
    assert_eq!(options, casting());
}

#[test]
fn ends_with_builds_ends_with_node() {
    let e = col("a").binary().ends_with(bytes(b"z"));
    let (input, f, options) = parts(&e);
    assert_eq!(f, BinaryFunction::EndsWith);
    assert_eq!(input, vec![debug(&col("a")), debug(&bytes(b"z"))]);
    assert_eq!(options, casting());
}

#[test]
fn size_bytes_wraps_receiver_alone() {
    let e = col("a").binary().size_bytes();
    let (input, f, options) = parts(&e);
    assert_eq!(f, BinaryFunction::Size);
    assert_eq!(input, vec![debug(&col("a"))]);
    assert_eq!(options, no_cast());
}

#[test]
fn slice_keeps_offset_then_length_without_casting() {
    let e = col("a").binary().slice(lit(-3), lit(7));
    let (input, f, options) = parts(&e);
    assert_eq!(f, BinaryFunction::Slice);
    assert_eq!(input, vec![debug(&col("a")), debug(&lit(-3)), debug(&lit(7))]);
    assert_ne!(input, vec![debug(&col("a")), debug(&lit(7)), debug(&lit(-3))]);
    assert_eq!(options, no_cast());
    assert!(options.cast_options.is_none());
}

#[test]
fn head_requests_no_cast() {
    let e = col("a").binary().head(lit(1000));
    let (input, f, options) = parts(&e);
    assert_eq!(f, BinaryFunction::Head);
    assert_eq!(input, vec![debug(&col("a")), debug(&lit(1000))]);
    assert_eq!(options, no_cast());
}

#[test]
fn tail_requests_no_cast() {
    let e = col("a").binary().tail(lit(2));
    let (input, f, options) = parts(&e);
    assert_eq!(f, BinaryFunction::Tail);
    assert_eq!(input, vec![debug(&col("a")), debug(&lit(2))]);
    assert_eq!(options, no_cast());
}

#[test]
fn hex_decode_keeps_strict_flag() {
    let (input, f, options) = parts(&col("a").binary().hex_decode(true));
    assert_eq!(f, BinaryFunction::HexDecode(true));
    assert_eq!(input, vec![debug(&col("a"))]);
    assert_eq!(options, no_cast());
    let (_, f, _) = parts(&col("a").binary().hex_decode(false));
    assert_eq!(f, BinaryFunction::HexDecode(false));
}

#[test]
fn hex_encode_builds_hex_encode_node() {
    let (input, f, _) = parts(&col("a").binary().hex_encode());
    assert_eq!(f, BinaryFunction::HexEncode);
    assert_eq!(input, vec![debug(&col("a"))]);
}

#[test]
fn base64_decode_keeps_strict_flag() {
    let (_, f, _) = parts(&col("a").binary().base64_decode(true));
    assert_eq!(f, BinaryFunction::Base64Decode(true));
    let (input, f, _) = parts(&col("a").binary().base64_decode(false));
    assert_eq!(f, BinaryFunction::Base64Decode(false));
    assert_eq!(input, vec![debug(&col("a"))]);
}

#[test]
fn base64_encode_builds_base64_encode_node() {
    let (input, f, _) = parts(&col("a").binary().base64_encode());
    assert_eq!(f, BinaryFunction::Base64Encode);
    assert_eq!(input, vec![debug(&col("a"))]);
}

#[test]
fn from_buffer_keeps_type_and_byte_order() {
    let (input, f, options) = parts(&col("a").binary().from_buffer(DataType::Int32, true));
    assert_eq!(f, BinaryFunction::FromBuffer(DataType::Int32, true));
    assert_eq!(input, vec![debug(&col("a"))]);
    assert_eq!(options, no_cast());
    let (_, f, _) = parts(&col("a").binary().from_buffer(DataType::Float64, false));
    assert_eq!(f, BinaryFunction::FromBuffer(DataType::Float64, false));
}

#[test]
fn equal_inputs_give_equal_trees() {
    let first = col("a").binary().starts_with(bytes(b"ab"));
    let second = col("a").binary().starts_with(bytes(b"ab"));
    assert_eq!(debug(&first), debug(&second));
    let third = col("a").binary().starts_with(bytes(b"ac"));
    assert_ne!(debug(&first), debug(&third));
}

#[test]
fn shared_sub_expression_through_clone() {
    let pattern = bytes(b"\xff");
    let a = col("a").binary().contains_literal(pattern.clone());
    let b = col("b").binary().ends_with(pattern.clone());
    assert_eq!(parts(&a).0[1], debug(&pattern));
    assert_eq!(parts(&b).0[1], debug(&pattern));
    let copy = a.clone();
    assert_eq!(debug(&copy), debug(&a));
}

#[test]
fn symbolic_inputs_build_without_data() {
    let receiver = col("never_bound").binary().slice(col("offsets"), col("lengths"));
    let (input, f, _) = parts(&receiver);
    assert_eq!(f, BinaryFunction::Slice);
    assert_eq!(input.len(), 3);
    let nested = receiver.binary().size_bytes();
    let (input, f, _) = parts(&nested);
    assert_eq!(f, BinaryFunction::Size);
    assert_eq!(input.len(), 1);
    let on_null = Expr::Literal(LiteralValue::Null).binary().head(lit(0));
    assert_eq!(parts(&on_null).1, BinaryFunction::Head);
}

#[test]
fn column_slice_scenario() {
    let e = col("payload").binary().slice(lit(2), lit(5));
    match &e {
        Expr::Function { input, function, options } => {
            assert_eq!(*function, FunctionExpr::BinaryExpr(BinaryFunction::Slice));
            assert_eq!(input.len(), 3);
            assert!(matches!(&input[0], Expr::Column(name) if name == "payload"));
            assert!(matches!(&input[1], Expr::Literal(LiteralValue::Int64(2))));
            assert!(matches!(&input[2], Expr::Literal(LiteralValue::Int64(5))));
            assert_eq!(options.cast_options, None);
            assert!(!options.returns_scalar);
        }
        other => panic!("not a function node: {:?}", other),
    }
}
