use saltwater_parser::fold::{
    convert_int, fold_binary, fold_conditional, fold_unary, wrap_value, BinaryOp, Constant,
    FloatConst, Folded, IntConst, UnaryOp,
};

fn int_c(width: u8, signed: bool, value: i128) -> Constant {
    Constant::Int(IntConst { width, signed, value, overflow: false })
}

fn flagged(width: u8, signed: bool, value: i128) -> Folded {
    Folded::Value(Constant::Int(IntConst { width, signed, value, overflow: true }))
}

fn plain(width: u8, signed: bool, value: i128) -> Folded {
    Folded::Value(int_c(width, signed, value))
}

#[test]
fn signed_addition_overflow_is_flagged() {
    let r = fold_binary(BinaryOp::Add, int_c(32, true, 2147483647), int_c(32, true, 1), 32);
    assert_eq!(r, flagged(32, true, -2147483648));
}

#[test]
fn unsigned_arithmetic_wraps_without_a_flag() {
    assert_eq!(
        fold_binary(BinaryOp::Add, int_c(32, false, 4294967295), int_c(32, false, 1), 32),
        plain(32, false, 0)
    );
    assert_eq!(
        fold_binary(BinaryOp::Sub, int_c(32, false, 0), int_c(32, false, 1), 32),
        plain(32, false, 4294967295)
    );
    assert_eq!(
        fold_binary(
            BinaryOp::Mul,
            int_c(64, false, 18446744073709551615),
            int_c(64, false, 18446744073709551615),
            32
        ),
        plain(64, false, 1)
    );
    assert_eq!(fold_unary(UnaryOp::Neg, int_c(8, false, 1), 32), plain(8, false, 255));
}

#[test]
fn arithmetic_within_range_is_exact() {
    assert_eq!(fold_binary(BinaryOp::Add, int_c(32, true, 2), int_c(32, true, 3), 32), plain(32, true, 5));
    assert_eq!(fold_binary(BinaryOp::Sub, int_c(32, true, 2), int_c(32, true, 3), 32), plain(32, true, -1));
    assert_eq!(fold_binary(BinaryOp::Mul, int_c(32, true, -6), int_c(32, true, 7), 32), plain(32, true, -42));
    assert_eq!(
        fold_binary(BinaryOp::Mul, int_c(64, true, -9223372036854775808), int_c(64, true, 1), 32),
        plain(64, true, -9223372036854775808)
    );
}

#[test]
fn signed_multiplication_overflow_is_flagged() {
    assert_eq!(
        fold_binary(BinaryOp::Mul, int_c(32, true, 65536), int_c(32, true, 65536), 32),
        flagged(32, true, 0)
    );
    assert_eq!(
        fold_binary(BinaryOp::Mul, int_c(64, true, -9223372036854775808), int_c(64, true, -1), 32),
        flagged(64, true, -9223372036854775808)
    );
}

#[test]
fn division_truncates_toward_zero() {
    let d = |a, b| fold_binary(BinaryOp::Div, int_c(32, true, a), int_c(32, true, b), 32);
    let r = |a, b| fold_binary(BinaryOp::Rem, int_c(32, true, a), int_c(32, true, b), 32);
    assert_eq!(d(7, 2), plain(32, true, 3));
    assert_eq!(d(-7, 2), plain(32, true, -3));
    assert_eq!(d(7, -2), plain(32, true, -3));
    assert_eq!(d(-7, -2), plain(32, true, 3));
    assert_eq!(r(7, 2), plain(32, true, 1));
    assert_eq!(r(-7, 2), plain(32, true, -1));
    assert_eq!(r(7, -2), plain(32, true, 1));
    assert_eq!(r(-7, -2), plain(32, true, -1));
    assert_eq!(d(-2147483648, -1), flagged(32, true, -2147483648));
}

#[test]
fn division_by_zero_is_an_error() {
    assert_eq!(fold_binary(BinaryOp::Div, int_c(32, true, 1), int_c(32, true, 0), 32), Folded::DivisionByZero);
    assert_eq!(fold_binary(BinaryOp::Rem, int_c(32, false, 1), int_c(32, false, 0), 32), Folded::DivisionByZero);
}

#[test]
fn shifts() {
    let shl = |a, s| fold_binary(BinaryOp::Shl, int_c(32, true, a), int_c(32, true, s), 32);
    let shr = |a, s| fold_binary(BinaryOp::Shr, int_c(32, true, a), int_c(32, true, s), 32);
    assert_eq!(shl(1, 4), plain(32, true, 16));
    assert_eq!(shl(1, 31), flagged(32, true, -2147483648));
    assert_eq!(shl(3, 0), plain(32, true, 3));
    assert_eq!(shl(1, 32), flagged(32, true, 0));
    assert_eq!(shl(1, -1), flagged(32, true, 0));
    assert_eq!(shr(-16, 2), plain(32, true, -4));
    assert_eq!(shr(-1, 5), plain(32, true, -1));
    assert_eq!(shr(17, 1), plain(32, true, 8));
    assert_eq!(
        fold_binary(BinaryOp::Shl, int_c(8, false, 0xC1), int_c(32, true, 1), 32),
        plain(8, false, 0x82)
    );
}

#[test]
fn bitwise_operations() {
    let op = |o, a, b| fold_binary(o, int_c(32, true, a), int_c(32, true, b), 32);
    assert_eq!(op(BinaryOp::BitAnd, 12, 10), plain(32, true, 8));
    assert_eq!(op(BinaryOp::BitOr, 12, 10), plain(32, true, 14));
    assert_eq!(op(BinaryOp::BitXor, 12, 10), plain(32, true, 6));
    assert_eq!(op(BinaryOp::BitAnd, -1, 255), plain(32, true, 255));
    assert_eq!(op(BinaryOp::BitOr, -2, 1), plain(32, true, -1));
    assert_eq!(fold_unary(UnaryOp::BitNot, int_c(32, true, 0), 32), plain(32, true, -1));
    assert_eq!(fold_unary(UnaryOp::BitNot, int_c(16, false, 1), 32), plain(16, false, 65534));
}

#[test]
fn comparisons_and_logic_give_int() {
    let op = |o, a, b| fold_binary(o, int_c(64, false, a), int_c(64, false, b), 32);
    assert_eq!(op(BinaryOp::Lt, 1, 2), plain(32, true, 1));
    assert_eq!(op(BinaryOp::Gt, 1, 2), plain(32, true, 0));
    assert_eq!(op(BinaryOp::Le, 2, 2), plain(32, true, 1));
    assert_eq!(op(BinaryOp::Ge, 1, 2), plain(32, true, 0));
    assert_eq!(op(BinaryOp::Eq, 2, 2), plain(32, true, 1));
    assert_eq!(op(BinaryOp::Ne, 2, 2), plain(32, true, 0));
    assert_eq!(op(BinaryOp::LogAnd, 2, 0), plain(32, true, 0));
    assert_eq!(op(BinaryOp::LogAnd, 2, 3), plain(32, true, 1));
    assert_eq!(op(BinaryOp::LogOr, 0, 0), plain(32, true, 0));
    assert_eq!(op(BinaryOp::LogOr, 0, 3), plain(32, true, 1));
    assert_eq!(fold_unary(UnaryOp::LogNot, int_c(8, true, 0), 16), plain(16, true, 1));
    assert_eq!(fold_unary(UnaryOp::LogNot, int_c(8, true, -3), 16), plain(16, true, 0));
}

#[test]
fn unary_operations() {
    assert_eq!(fold_unary(UnaryOp::Plus, int_c(32, true, -5), 32), plain(32, true, -5));
    assert_eq!(fold_unary(UnaryOp::Neg, int_c(32, true, 5), 32), plain(32, true, -5));
    assert_eq!(fold_unary(UnaryOp::Neg, int_c(32, true, -2147483648), 32), flagged(32, true, -2147483648));
    assert_eq!(fold_unary(UnaryOp::Deref, int_c(32, true, 1), 32), Folded::NotConstant);
    assert_eq!(fold_unary(UnaryOp::PreInc, int_c(32, true, 1), 32), Folded::NotConstant);
}

#[test]
fn overflow_flag_is_sticky() {
    let a = IntConst { width: 32, signed: true, value: 1, overflow: true };
    let r = fold_binary(BinaryOp::Add, Constant::Int(a), int_c(32, true, 1), 32);
    assert_eq!(r, flagged(32, true, 2));
}

#[test]
fn floating_constants_are_not_folded() {
    let f = Constant::Float(FloatConst { double: true, mantissa: 15, exp10: -1 });
    assert_eq!(fold_binary(BinaryOp::Add, f, int_c(32, true, 1), 32), Folded::NotConstant);
    assert_eq!(fold_unary(UnaryOp::Neg, f, 32), Folded::NotConstant);
    assert_eq!(fold_conditional(f, f, f), Folded::NotConstant);
}

#[test]
fn conversion_wraps_without_a_flag() {
    let c = |v| IntConst { width: 32, signed: true, value: v, overflow: false };
    assert_eq!(convert_int(c(-1), 8, false).value, 255);
    assert_eq!(convert_int(c(300), 8, true).value, 44);
    assert_eq!(convert_int(c(200), 8, true).value, -56);
    assert_eq!(convert_int(c(-1), 64, false).value, 18446744073709551615);
    assert!(!convert_int(c(300), 8, true).overflow);
}

#[test]
fn conditional_picks_a_branch() {
    let a = int_c(32, true, 10);
    let b = int_c(32, true, 20);
    assert_eq!(fold_conditional(int_c(32, true, 1), a, b), Folded::Value(a));
    assert_eq!(fold_conditional(int_c(32, true, 0), a, b), Folded::Value(b));
}

#[test]
fn wrap_value_is_congruent() {
    assert_eq!(wrap_value(8, false, 256), 0);
    assert_eq!(wrap_value(8, false, -1), 255);
    assert_eq!(wrap_value(8, true, 128), -128);
    assert_eq!(wrap_value(8, true, -129), 127);
    assert_eq!(wrap_value(16, true, 65535), -1);
    assert_eq!(wrap_value(64, true, 9223372036854775808), -9223372036854775808);
}
