//! Compile-time constants and the arithmetic that folds them.
//!
//! A value is modelled as a mathematical integer together with the width
//! and signedness of its type. Every operation is stated over those
//! integers: the exact result is computed first and brought into the type
//! afterwards, wrapping modulo two to the width. A signed result that had
//! to wrap keeps the wrapped value and is flagged.

use vstd::prelude::*;
use vstd::arithmetic::div_mod::lemma_fundamental_div_mod;
use vstd::arithmetic::div_mod::lemma_mod_bound;
use vstd::arithmetic::div_mod::lemma_mod_multiples_vanish;
use vstd::arithmetic::div_mod::lemma_mul_mod_noop_right;
use vstd::arithmetic::div_mod::lemma_small_mod;

verus! {

/// The operators with one operand.
#[derive(Clone, Copy, Debug, PartialEq, Eq, Structural)]
pub enum UnaryOp {
    Plus,
    Neg,
    BitNot,
    LogNot,
    Deref,
    AddrOf,
    PreInc,
    PreDec,
    PostInc,
    PostDec,
}

/// The operators with two operands, assignment apart.
#[derive(Clone, Copy, Debug, PartialEq, Eq, Structural)]
pub enum BinaryOp {
    Mul,
    Div,
    Rem,
    Add,
    Sub,
    Shl,
    Shr,
    Lt,
    Gt,
    Le,
    Ge,
    Eq,
    Ne,
    BitAnd,
    BitXor,
    BitOr,
    LogAnd,
    LogOr,
}

/// An integer constant: a value of the integer type with the given width in
/// bits and signedness. `overflow` records that the value, or a value it was
/// computed from, is the wrapped image of a signed result that did not fit.
#[derive(Clone, Copy, Debug, PartialEq, Eq, Structural)]
pub struct IntConst {
    pub width: u8,
    pub signed: bool,
    pub value: i128,
    pub overflow: bool,
}

/// A floating constant, kept as the exact decimal `mantissa * 10^exp10` of
/// the literal it came from.
#[derive(Clone, Copy, Debug, PartialEq, Eq, Structural)]
pub struct FloatConst {
    pub double: bool,
    pub mantissa: u64,
    pub exp10: i32,
}

/// A typed constant.
#[derive(Clone, Copy, Debug, PartialEq, Eq, Structural)]
pub enum Constant {
    Int(IntConst),
    Float(FloatConst),
}

/// What folding an operation gives.
#[derive(Clone, Copy, Debug, PartialEq, Eq, Structural)]
pub enum Folded {
    Value(Constant),
    DivisionByZero,
    NotConstant,
}

pub open spec fn valid_width(width: u8) -> bool {
    width == 8 || width == 16 || width == 32 || width == 64
}

/// Two to the power `width`, for the widths an integer type can have.
pub open spec fn modulus(width: u8) -> int {
    if width == 8 {
        0x100
    } else if width == 16 {
        0x1_0000
    } else if width == 32 {
        0x1_0000_0000
    } else {
        0x1_0000_0000_0000_0000
    }
}

/// The least value of an integer type.
pub open spec fn min_value(width: u8, signed: bool) -> int {
    if signed {
        -(modulus(width) / 2)
    } else {
        0
    }
}

/// The greatest value of an integer type.
pub open spec fn max_value(width: u8, signed: bool) -> int {
    if signed {
        modulus(width) / 2 - 1
    } else {
        modulus(width) - 1
    }
}

/// Whether an integer is a value of an integer type.
pub open spec fn in_range(width: u8, signed: bool, x: int) -> bool {
    min_value(width, signed) <= x <= max_value(width, signed)
}

/// The value of the type that is congruent to `x` modulo two to the width.
pub open spec fn wrap(width: u8, signed: bool, x: int) -> int {
    let r = x % modulus(width);
    if signed && r >= modulus(width) / 2 {
        r - modulus(width)
    } else {
        r
    }
}

/// The quotient of C's division, which truncates toward zero.
pub open spec fn trunc_div(a: int, b: int) -> int
    recommends
        b != 0,
{
    if a >= 0 && b > 0 {
        a / b
    } else if a >= 0 {
        -(a / (-b))
    } else if b > 0 {
        -((-a) / b)
    } else {
        (-a) / (-b)
    }
}

/// The remainder of C's division: its magnitude is that of the remainder of
/// the magnitudes, its sign that of the dividend.
pub open spec fn trunc_rem(a: int, b: int) -> int
    recommends
        b != 0,
{
    if a >= 0 && b > 0 {
        a % b
    } else if a >= 0 {
        a % (-b)
    } else if b > 0 {
        -((-a) % b)
    } else {
        -((-a) % (-b))
    }
}

/// `v` times two to the power `s`.
pub open spec fn shl_exact(v: int, s: nat) -> int
    decreases s,
{
    if s == 0 {
        v
    } else {
        shl_exact(2 * v, (s - 1) as nat)
    }
}

/// `v` divided by two to the power `s`, rounded toward negative infinity.
pub open spec fn shr_floor(v: int, s: nat) -> int
    decreases s,
{
    if s == 0 {
        v
    } else {
        shr_floor(v / 2, (s - 1) as nat)
    }
}

impl IntConst {
    /// The width is one an integer type can have and the value is a value
    /// of the type.
    pub open spec fn wf(self) -> bool {
        valid_width(self.width) && in_range(self.width, self.signed, self.value as int)
    }

    /// The constant of the same type as `self` that stands for the exact
    /// result `exact` of an operation on `self` and `other`.
    pub open spec fn result(self, other: IntConst, exact: int) -> IntConst {
        IntConst {
            width: self.width,
            signed: self.signed,
            value: wrap(self.width, self.signed, exact) as i128,
            overflow: self.overflow || other.overflow || (self.signed && !in_range(
                self.width,
                true,
                exact,
            )),
        }
    }
}

impl IntConst {
    /// The constant of the same type as `self` whose bits are the low bits
    /// of `bits`: the result of an operation on the bits of `self` and
    /// `other`, which cannot overflow.
    pub open spec fn from_bits(self, other: IntConst, bits: u64) -> IntConst {
        IntConst {
            width: self.width,
            signed: self.signed,
            value: wrap(self.width, self.signed, bits as int) as i128,
            overflow: self.overflow || other.overflow,
        }
    }
}

/// The constant 1 or 0 of type `int` that stands for a truth value.
pub open spec fn truth(int_width: u8, a: IntConst, b: IntConst, t: bool) -> IntConst {
    IntConst {
        width: int_width,
        signed: true,
        value: if t {
            1
        } else {
            0
        },
        overflow: a.overflow || b.overflow,
    }
}

/// The bits of a value: the natural number below two to the width that is
/// congruent to it.
pub open spec fn encode(width: u8, x: int) -> u64 {
    (x % modulus(width)) as u64
}

/// The result of a binary operation on two integer constants. Arithmetic
/// and bitwise results have the type of the left operand, comparisons and
/// logical operations give an `int` that is 1 or 0. The bitwise operators
/// work on the bits of the operands in the width of the left one. A shift
/// by a negative count or by the width or more is flagged and gives zero.
pub open spec fn fold_int_binary(op: BinaryOp, a: IntConst, b: IntConst, int_width: u8) -> Folded {
    let x = a.value as int;
    let y = b.value as int;
    match op {
        BinaryOp::Add => Folded::Value(Constant::Int(a.result(b, x + y))),
        BinaryOp::Sub => Folded::Value(Constant::Int(a.result(b, x - y))),
        BinaryOp::Mul => Folded::Value(Constant::Int(a.result(b, x * y))),
        BinaryOp::Div => if y == 0 {
            Folded::DivisionByZero
        } else {
            Folded::Value(Constant::Int(a.result(b, trunc_div(x, y))))
        },
        BinaryOp::Rem => if y == 0 {
            Folded::DivisionByZero
        } else {
            Folded::Value(Constant::Int(a.result(b, trunc_rem(x, y))))
        },
        BinaryOp::Shl => if 0 <= y < a.width {
            Folded::Value(Constant::Int(a.result(b, shl_exact(x, y as nat))))
        } else {
            Folded::Value(
                Constant::Int(
                    IntConst { width: a.width, signed: a.signed, value: 0, overflow: true },
                ),
            )
        },
        BinaryOp::Shr => if 0 <= y < a.width {
            Folded::Value(Constant::Int(a.result(b, shr_floor(x, y as nat))))
        } else {
            Folded::Value(
                Constant::Int(
                    IntConst { width: a.width, signed: a.signed, value: 0, overflow: true },
                ),
            )
        },
        BinaryOp::BitAnd => Folded::Value(
            Constant::Int(a.from_bits(b, encode(a.width, x) & encode(a.width, y))),
        ),
        BinaryOp::BitXor => Folded::Value(
            Constant::Int(a.from_bits(b, encode(a.width, x) ^ encode(a.width, y))),
        ),
        BinaryOp::BitOr => Folded::Value(
            Constant::Int(a.from_bits(b, encode(a.width, x) | encode(a.width, y))),
        ),
        BinaryOp::Lt => Folded::Value(Constant::Int(truth(int_width, a, b, x < y))),
        BinaryOp::Gt => Folded::Value(Constant::Int(truth(int_width, a, b, x > y))),
        BinaryOp::Le => Folded::Value(Constant::Int(truth(int_width, a, b, x <= y))),
        BinaryOp::Ge => Folded::Value(Constant::Int(truth(int_width, a, b, x >= y))),
        BinaryOp::Eq => Folded::Value(Constant::Int(truth(int_width, a, b, x == y))),
        BinaryOp::Ne => Folded::Value(Constant::Int(truth(int_width, a, b, x != y))),
        BinaryOp::LogAnd => Folded::Value(
            Constant::Int(truth(int_width, a, b, x != 0 && y != 0)),
        ),
        BinaryOp::LogOr => Folded::Value(Constant::Int(truth(int_width, a, b, x != 0 || y != 0))),
    }
}

pub fn modulus_of(width: u8) -> (m: i128)
    requires
        valid_width(width),
    ensures
        m == modulus(width),
{
    if width == 8 {
        0x100
    } else if width == 16 {
        0x1_0000
    } else if width == 32 {
        0x1_0000_0000
    } else {
        0x1_0000_0000_0000_0000
    }
}

/// Whether `x` is a value of the type.
pub fn fits(width: u8, signed: bool, x: i128) -> (b: bool)
    requires
        valid_width(width),
    ensures
        b == in_range(width, signed, x as int),
{
    let m: i128 = modulus_of(width);
    if signed {
        -(m / 2) <= x && x <= m / 2 - 1
    } else {
        0 <= x && x <= m - 1
    }
}

/// Brings an exact result into the type.
pub fn wrap_value(width: u8, signed: bool, x: i128) -> (r: i128)
    requires
        valid_width(width),
        x > i128::MIN,
    ensures
        r == wrap(width, signed, x as int),
        in_range(width, signed, r as int),
{
    let m: i128 = modulus_of(width);
    let mag: u128 = if x < 0 {
        (-x) as u128
    } else {
        x as u128
    };
    let low: u128 = low_part(width, mag);
    proof {
        lemma_negated_remainder(width, mag as int, low as int);
    }
    let e: i128 = if x < 0 && low != 0 {
        m - (low as i128)
    } else {
        low as i128
    };
    if signed && e >= m / 2 {
        e - m
    } else {
        e
    }
}

impl Constant {
    pub open spec fn wf(self) -> bool {
        match self {
            Constant::Int(c) => c.wf(),
            Constant::Float(_) => true,
        }
    }
}

/// The result of a unary operation on an integer constant. Negation and
/// complement keep the operand's type, logical negation gives an `int`; the
/// other operators have no constant result.
pub open spec fn fold_int_unary(op: UnaryOp, a: IntConst, int_width: u8) -> Folded {
    let x = a.value as int;
    match op {
        UnaryOp::Plus => Folded::Value(Constant::Int(a.result(a, x))),
        UnaryOp::Neg => Folded::Value(Constant::Int(a.result(a, -x))),
        UnaryOp::BitNot => Folded::Value(Constant::Int(a.result(a, -x - 1))),
        UnaryOp::LogNot => Folded::Value(Constant::Int(truth(int_width, a, a, x == 0))),
        _ => Folded::NotConstant,
    }
}

/// The result of a unary operation on a constant. Floating constants are
/// not folded.
pub open spec fn fold_unary_spec(op: UnaryOp, a: Constant, int_width: u8) -> Folded {
    match a {
        Constant::Int(c) => fold_int_unary(op, c, int_width),
        Constant::Float(_) => Folded::NotConstant,
    }
}

/// The result of a binary operation on two constants. Floating constants
/// are not folded.
pub open spec fn fold_binary_spec(op: BinaryOp, a: Constant, b: Constant, int_width: u8) -> Folded {
    match (a, b) {
        (Constant::Int(x), Constant::Int(y)) => fold_int_binary(op, x, y, int_width),
        _ => Folded::NotConstant,
    }
}

/// The value of an integer constant converted to another integer type. A
/// conversion wraps without being flagged.
pub open spec fn convert_int_spec(a: IntConst, width: u8, signed: bool) -> IntConst {
    IntConst { width, signed, value: wrap(width, signed, a.value as int) as i128, overflow: a.overflow }
}

/// The result of the conditional operator on a constant condition: the
/// second operand if the condition is not zero, else the third.
pub open spec fn fold_conditional_spec(c: Constant, a: Constant, b: Constant) -> Folded {
    match c {
        Constant::Int(ci) => if ci.value != 0 {
            Folded::Value(a)
        } else {
            Folded::Value(b)
        },
        Constant::Float(_) => Folded::NotConstant,
    }
}

/// The result of folding a binary operator whose operands may be
/// constant: nothing unless both are.
pub open spec fn fold_operands(
    op: BinaryOp,
    a: Option<Constant>,
    b: Option<Constant>,
    int_width: u8,
) -> Folded {
    match (a, b) {
        (Some(x), Some(y)) => fold_binary_spec(op, x, y, int_width),
        _ => Folded::NotConstant,
    }
}

/// The result of folding a unary operator whose operand may be constant.
pub open spec fn fold_operand(op: UnaryOp, a: Option<Constant>, int_width: u8) -> Folded {
    match a {
        Some(x) => fold_unary_spec(op, x, int_width),
        None => Folded::NotConstant,
    }
}

/// The value that a folded operation leaves on its expression.
pub open spec fn folded_value(f: Folded) -> Option<Constant> {
    match f {
        Folded::Value(c) => Some(c),
        _ => None,
    }
}

/// The value of the conditional operator on operands that may be
/// constant: nothing unless all three are.
pub open spec fn conditional_value(
    c: Option<Constant>,
    a: Option<Constant>,
    b: Option<Constant>,
) -> Option<Constant> {
    match (c, a, b) {
        (Some(x), Some(y), Some(z)) => folded_value(fold_conditional_spec(x, y, z)),
        _ => None,
    }
}

/// The constant of the type of `a` for the exact result `exact`.
fn make_result(a: IntConst, b: IntConst, exact: i128) -> (r: IntConst)
    requires
        a.wf(),
        exact > i128::MIN,
    ensures
        r == a.result(b, exact as int),
        r.wf(),
{
    let value: i128 = wrap_value(a.width, a.signed, exact);
    let overflow: bool = a.overflow || b.overflow || (a.signed && !fits(a.width, true, exact));
    IntConst { width: a.width, signed: a.signed, value, overflow }
}

fn make_from_bits(a: IntConst, b: IntConst, bits: u64) -> (r: IntConst)
    requires
        a.wf(),
    ensures
        r == a.from_bits(b, bits),
        r.wf(),
{
    let value: i128 = wrap_value(a.width, a.signed, bits as i128);
    IntConst { width: a.width, signed: a.signed, value, overflow: a.overflow || b.overflow }
}

fn make_truth(int_width: u8, a: IntConst, b: IntConst, t: bool) -> (r: IntConst)
    requires
        valid_width(int_width),
    ensures
        r == truth(int_width, a, b, t),
        r.wf(),
{
    let value: i128 = if t {
        1
    } else {
        0
    };
    IntConst { width: int_width, signed: true, value, overflow: a.overflow || b.overflow }
}

fn magnitude(x: i128) -> (m: u128)
    requires
        -0x1_0000_0000_0000_0000 <= x <= 0x1_0000_0000_0000_0000,
    ensures
        m == if x < 0 {
            -x
        } else {
            x as int
        },
{
    if x < 0 {
        (-x) as u128
    } else {
        x as u128
    }
}

/// The remainder of a magnitude modulo two to the width.
fn low_part(width: u8, mag: u128) -> (low: u128)
    requires
        valid_width(width),
    ensures
        low == (mag as int) % modulus(width),
        low < modulus(width),
{
    if width == 8 {
        mag % 0x100
    } else if width == 16 {
        mag % 0x1_0000
    } else if width == 32 {
        mag % 0x1_0000_0000
    } else {
        mag % 0x1_0000_0000_0000_0000
    }
}

/// The remainder of the negation of a number with a known remainder.
proof fn lemma_negated_remainder(width: u8, mag: int, low: int)
    requires
        valid_width(width),
        low == mag % modulus(width),
    ensures
        (-mag) % modulus(width) == if low == 0 {
            0
        } else {
            modulus(width) - low
        },
{
    let m = modulus(width);
    let q = mag / m;
    lemma_fundamental_div_mod(mag, m);
    lemma_mod_bound(mag, m);
    if low == 0 {
        assert(-mag == m * (-q) + 0) by (nonlinear_arith)
            requires
                mag == m * q + 0,
        ;
        lemma_mod_multiples_vanish(-q, 0, m);
        lemma_small_mod(0, m as nat);
    } else {
        assert(-mag == m * (-q - 1) + (m - low)) by (nonlinear_arith)
            requires
                mag == m * q + low,
        ;
        lemma_mod_multiples_vanish(-q - 1, m - low, m);
        lemma_small_mod((m - low) as nat, m as nat);
    }
}

/// The result for an exact value given by its sign and magnitude.
fn make_result_signed_magnitude(a: IntConst, b: IntConst, negative: bool, mag: u128) -> (r:
    IntConst)
    requires
        a.wf(),
    ensures
        r == a.result(
            b,
            if negative {
                -(mag as int)
            } else {
                mag as int
            },
        ),
        r.wf(),
{
    let mi: i128 = modulus_of(a.width);
    let m: u128 = mi as u128;
    let low: u128 = low_part(a.width, mag);
    let e: u128 = if negative && low != 0 {
        m - low
    } else {
        low
    };
    proof {
        lemma_negated_remainder(a.width, mag as int, low as int);
    }
    let value: i128 = if a.signed && e >= m / 2 {
        (e as i128) - mi
    } else {
        e as i128
    };
    let out: bool = if negative {
        mag > m / 2
    } else {
        mag > m / 2 - 1
    };
    IntConst {
        width: a.width,
        signed: a.signed,
        value,
        overflow: a.overflow || b.overflow || (a.signed && out),
    }
}

/// A value of the type wraps to itself.
pub proof fn lemma_wrap_in_range(width: u8, signed: bool, g: int)
    requires
        valid_width(width),
        in_range(width, signed, g),
    ensures
        wrap(width, signed, g) == g,
{
    let m = modulus(width);
    if g >= 0 {
        lemma_small_mod(g as nat, m as nat);
    } else {
        lemma_mod_multiples_vanish(1, g, m);
        lemma_small_mod((m + g) as nat, m as nat);
    }
}

/// A number and what it wraps to have the same remainder.
proof fn lemma_wrap_congruent(width: u8, signed: bool, g: int)
    requires
        valid_width(width),
    ensures
        wrap(width, signed, g) % modulus(width) == g % modulus(width),
{
    let m = modulus(width);
    let r = g % m;
    lemma_mod_bound(g, m);
    lemma_small_mod(r as nat, m as nat);
    lemma_mod_multiples_vanish(-1, r, m);
}

/// Doubling commutes with wrapping.
proof fn lemma_wrap_double(width: u8, signed: bool, g: int, y: int)
    requires
        valid_width(width),
        y == wrap(width, signed, g),
    ensures
        wrap(width, signed, 2 * y) == wrap(width, signed, 2 * g),
{
    let m = modulus(width);
    lemma_wrap_congruent(width, signed, g);
    lemma_mul_mod_noop_right(2, y, m);
    lemma_mul_mod_noop_right(2, g, m);
}

fn fold_mul(a: IntConst, b: IntConst) -> (r: IntConst)
    requires
        a.wf(),
        b.wf(),
    ensures
        r == a.result(b, (a.value as int) * (b.value as int)),
        r.wf(),
{
    let na: u128 = magnitude(a.value);
    let nb: u128 = magnitude(b.value);
    assert(na * nb < 0x1_0000_0000_0000_0000_0000_0000_0000_0000) by (nonlinear_arith)
        requires
            na < 0x1_0000_0000_0000_0000,
            nb < 0x1_0000_0000_0000_0000,
    ;
    let mag: u128 = na * nb;
    let negative: bool = (a.value < 0) != (b.value < 0) && mag != 0;
    let ghost x: int = a.value as int;
    let ghost y: int = b.value as int;
    assert(x * y == if negative {
        -(mag as int)
    } else {
        mag as int
    }) by (nonlinear_arith)
        requires
            mag == na * nb,
            na == if x < 0 {
                -x
            } else {
                x
            },
            nb == if y < 0 {
                -y
            } else {
                y
            },
            negative == (((x < 0) != (y < 0)) && mag != 0),
    ;
    make_result_signed_magnitude(a, b, negative, mag)
}

fn fold_div(a: IntConst, b: IntConst) -> (r: IntConst)
    requires
        a.wf(),
        b.wf(),
        b.value != 0,
    ensures
        r == a.result(b, trunc_div(a.value as int, b.value as int)),
        r.wf(),
{
    let na: u128 = magnitude(a.value);
    let nb: u128 = magnitude(b.value);
    let q: u128 = na / nb;
    let negative: bool = (a.value < 0) != (b.value < 0);
    make_result_signed_magnitude(a, b, negative, q)
}

fn fold_rem(a: IntConst, b: IntConst) -> (r: IntConst)
    requires
        a.wf(),
        b.wf(),
        b.value != 0,
    ensures
        r == a.result(b, trunc_rem(a.value as int, b.value as int)),
        r.wf(),
{
    let na: u128 = magnitude(a.value);
    let nb: u128 = magnitude(b.value);
    let q: u128 = na % nb;
    make_result_signed_magnitude(a, b, a.value < 0, q)
}

fn fold_shl(a: IntConst, b: IntConst) -> (r: IntConst)
    requires
        a.wf(),
        b.wf(),
        0 <= b.value < a.width,
    ensures
        r == a.result(b, shl_exact(a.value as int, b.value as nat)),
        r.wf(),
{
    let mut y: i128 = a.value;
    let mut over: bool = false;
    let mut k: i128 = 0;
    let ghost mut gx: int = a.value as int;
    proof {
        lemma_wrap_in_range(a.width, a.signed, gx);
    }
    while k < b.value
        invariant
            a.wf(),
            0 <= k <= b.value < 64,
            shl_exact(gx, (b.value - k) as nat) == shl_exact(a.value as int, b.value as nat),
            y == wrap(a.width, a.signed, gx),
            in_range(a.width, a.signed, y as int),
            a.signed ==> over == !in_range(a.width, true, gx),
            !a.signed ==> !over,
        decreases b.value - k,
    {
        if a.signed && !over {
            over = !fits(a.width, true, 2 * y);
        }
        proof {
            lemma_wrap_double(a.width, a.signed, gx, y as int);
            if in_range(a.width, a.signed, gx) {
                lemma_wrap_in_range(a.width, a.signed, gx);
            }
            gx = 2 * gx;
        }
        y = wrap_value(a.width, a.signed, 2 * y);
        k = k + 1;
    }
    IntConst {
        width: a.width,
        signed: a.signed,
        value: y,
        overflow: a.overflow || b.overflow || (a.signed && over),
    }
}

fn fold_shr(a: IntConst, b: IntConst) -> (r: IntConst)
    requires
        a.wf(),
        b.wf(),
        0 <= b.value < a.width,
    ensures
        r == a.result(b, shr_floor(a.value as int, b.value as nat)),
        r.wf(),
{
    let mut y: i128 = a.value;
    let mut k: i128 = 0;
    while k < b.value
        invariant
            a.wf(),
            0 <= k <= b.value < 64,
            shr_floor(y as int, (b.value - k) as nat) == shr_floor(
                a.value as int,
                b.value as nat,
            ),
            in_range(a.width, a.signed, y as int),
        decreases b.value - k,
    {
        y = if y >= 0 {
            y / 2
        } else {
            -((-y + 1) / 2)
        };
        k = k + 1;
    }
    make_result(a, b, y)
}

/// The bits of a value of a type.
fn bits_of(width: u8, x: i128) -> (e: u64)
    requires
        valid_width(width),
        -0x1_0000_0000_0000_0000 <= x <= 0x1_0000_0000_0000_0000,
    ensures
        e == encode(width, x as int),
{
    let w: i128 = wrap_value(width, false, x);
    w as u64
}

/// Folds a binary operation on two integer constants.
pub fn fold_int_binary_op(op: BinaryOp, a: IntConst, b: IntConst, int_width: u8) -> (r: Folded)
    requires
        a.wf(),
        b.wf(),
        valid_width(int_width),
    ensures
        r == fold_int_binary(op, a, b, int_width),
        r matches Folded::Value(c) ==> c.wf(),
{
    match op {
        BinaryOp::Add => Folded::Value(Constant::Int(make_result(a, b, a.value + b.value))),
        BinaryOp::Sub => Folded::Value(Constant::Int(make_result(a, b, a.value - b.value))),
        BinaryOp::Mul => Folded::Value(Constant::Int(fold_mul(a, b))),
        BinaryOp::Div => if b.value == 0 {
            Folded::DivisionByZero
        } else {
            Folded::Value(Constant::Int(fold_div(a, b)))
        },
        BinaryOp::Rem => if b.value == 0 {
            Folded::DivisionByZero
        } else {
            Folded::Value(Constant::Int(fold_rem(a, b)))
        },
        BinaryOp::Shl => if 0 <= b.value && b.value < a.width as i128 {
            Folded::Value(Constant::Int(fold_shl(a, b)))
        } else {
            Folded::Value(
                Constant::Int(
                    IntConst { width: a.width, signed: a.signed, value: 0, overflow: true },
                ),
            )
        },
        BinaryOp::Shr => if 0 <= b.value && b.value < a.width as i128 {
            Folded::Value(Constant::Int(fold_shr(a, b)))
        } else {
            Folded::Value(
                Constant::Int(
                    IntConst { width: a.width, signed: a.signed, value: 0, overflow: true },
                ),
            )
        },
        BinaryOp::BitAnd => {
            let e: u64 = bits_of(a.width, a.value) & bits_of(a.width, b.value);
            Folded::Value(Constant::Int(make_from_bits(a, b, e)))
        },
        BinaryOp::BitXor => {
            let e: u64 = bits_of(a.width, a.value) ^ bits_of(a.width, b.value);
            Folded::Value(Constant::Int(make_from_bits(a, b, e)))
        },
        BinaryOp::BitOr => {
            let e: u64 = bits_of(a.width, a.value) | bits_of(a.width, b.value);
            Folded::Value(Constant::Int(make_from_bits(a, b, e)))
        },
        BinaryOp::Lt => Folded::Value(Constant::Int(make_truth(int_width, a, b, a.value < b.value))),
        BinaryOp::Gt => Folded::Value(Constant::Int(make_truth(int_width, a, b, a.value > b.value))),
        BinaryOp::Le => Folded::Value(
            Constant::Int(make_truth(int_width, a, b, a.value <= b.value)),
        ),
        BinaryOp::Ge => Folded::Value(
            Constant::Int(make_truth(int_width, a, b, a.value >= b.value)),
        ),
        BinaryOp::Eq => Folded::Value(
            Constant::Int(make_truth(int_width, a, b, a.value == b.value)),
        ),
        BinaryOp::Ne => Folded::Value(
            Constant::Int(make_truth(int_width, a, b, a.value != b.value)),
        ),
        BinaryOp::LogAnd => Folded::Value(
            Constant::Int(make_truth(int_width, a, b, a.value != 0 && b.value != 0)),
        ),
        BinaryOp::LogOr => Folded::Value(
            Constant::Int(make_truth(int_width, a, b, a.value != 0 || b.value != 0)),
        ),
    }
}

/// Folds a unary operation on a constant.
pub fn fold_unary(op: UnaryOp, a: Constant, int_width: u8) -> (r: Folded)
    requires
        a.wf(),
        valid_width(int_width),
    ensures
        r == fold_unary_spec(op, a, int_width),
        r matches Folded::Value(c) ==> c.wf(),
{
    match a {
        Constant::Int(c) => match op {
            UnaryOp::Plus => Folded::Value(Constant::Int(make_result(c, c, c.value))),
            UnaryOp::Neg => Folded::Value(Constant::Int(make_result(c, c, -c.value))),
            UnaryOp::BitNot => Folded::Value(Constant::Int(make_result(c, c, -c.value - 1))),
            UnaryOp::LogNot => Folded::Value(
                Constant::Int(make_truth(int_width, c, c, c.value == 0)),
            ),
            _ => Folded::NotConstant,
        },
        Constant::Float(_) => Folded::NotConstant,
    }
}

/// Folds a binary operation on two constants.
pub fn fold_binary(op: BinaryOp, a: Constant, b: Constant, int_width: u8) -> (r: Folded)
    requires
        a.wf(),
        b.wf(),
        valid_width(int_width),
    ensures
        r == fold_binary_spec(op, a, b, int_width),
        r matches Folded::Value(c) ==> c.wf(),
{
    match (a, b) {
        (Constant::Int(x), Constant::Int(y)) => fold_int_binary_op(op, x, y, int_width),
        _ => Folded::NotConstant,
    }
}

/// Converts an integer constant to another integer type.
pub fn convert_int(a: IntConst, width: u8, signed: bool) -> (r: IntConst)
    requires
        a.wf(),
        valid_width(width),
    ensures
        r == convert_int_spec(a, width, signed),
        r.wf(),
{
    IntConst { width, signed, value: wrap_value(width, signed, a.value), overflow: a.overflow }
}

/// Folds the conditional operator on a constant condition.
pub fn fold_conditional(c: Constant, a: Constant, b: Constant) -> (r: Folded)
    ensures
        r == fold_conditional_spec(c, a, b),
{
    match c {
        Constant::Int(ci) => if ci.value != 0 {
            Folded::Value(a)
        } else {
            Folded::Value(b)
        },
        Constant::Float(_) => Folded::NotConstant,
    }
}

/// An operation whose exact result is a value of the type gives that
/// value, and flags nothing that its operands did not carry.
pub proof fn lemma_result_is_exact(a: IntConst, b: IntConst, exact: int)
    requires
        a.wf(),
        in_range(a.width, a.signed, exact),
    ensures
        a.result(b, exact).value == exact,
        a.result(b, exact).overflow == (a.overflow || b.overflow),
        a.result(b, exact).wf(),
{
    lemma_wrap_in_range(a.width, a.signed, exact);
}

/// An unsigned operation wraps modulo two to the width and is never
/// flagged; a signed operation whose exact result is no value of the type
/// is always flagged. Either way the result is a value of the type that
/// is congruent to the exact result.
pub proof fn lemma_result_wraps(a: IntConst, b: IntConst, exact: int)
    requires
        a.wf(),
    ensures
        !a.signed ==> a.result(b, exact).overflow == (a.overflow || b.overflow),
        a.signed && !in_range(a.width, true, exact) ==> a.result(b, exact).overflow,
        in_range(a.width, a.signed, a.result(b, exact).value as int),
        a.result(b, exact).value as int % modulus(a.width) == exact % modulus(a.width),
{
    let m = modulus(a.width);
    lemma_mod_bound(exact, m);
    lemma_wrap_congruent(a.width, a.signed, exact);
}

} // verus!
