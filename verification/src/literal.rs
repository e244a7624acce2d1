//! The typed constants that literals denote.

use vstd::prelude::*;
use crate::fold::in_range;
use crate::fold::max_value;
use crate::fold::modulus_of;
use crate::fold::Constant;
use crate::fold::FloatConst;
use crate::fold::IntConst;
use crate::target::IntRank;
use crate::target::Target;
use crate::token::FloatLiteral;
use crate::token::IntLiteral;
use crate::token::TokenKind;

verus! {

/// An integer type: a rank and a signedness.
#[derive(Clone, Copy, Debug, PartialEq, Eq, Structural)]
pub struct IntType {
    pub rank: IntRank,
    pub signed: bool,
}

/// The rank at which the search for the type of an integer literal starts:
/// `int`, or what the suffix asks for.
pub open spec fn first_rank(longs: u8) -> IntRank {
    if longs == 0 {
        IntRank::Int
    } else if longs == 1 {
        IntRank::Long
    } else {
        IntRank::LongLong
    }
}

/// The type of an integer literal among the types from a rank up: the
/// first in which its value fits, taking at each rank the signed type
/// unless the suffix asks for an unsigned one, then the unsigned type if
/// the suffix asks for it or the literal is octal or hexadecimal. A value
/// that fits nowhere else has the type `unsigned long long`.
pub open spec fn literal_type_from(target: Target, lit: IntLiteral, rank: IntRank) -> IntType
    decreases 4 - rank.level(),
{
    let width = target.bits_of(rank);
    if !lit.unsigned && lit.value <= max_value(width, true) {
        IntType { rank, signed: true }
    } else if (lit.unsigned || lit.base != 10) && lit.value <= max_value(width, false) {
        IntType { rank, signed: false }
    } else {
        match rank {
            IntRank::Int => literal_type_from(target, lit, IntRank::Long),
            IntRank::Long => literal_type_from(target, lit, IntRank::LongLong),
            _ => IntType { rank: IntRank::LongLong, signed: false },
        }
    }
}

/// The type of an integer literal.
pub open spec fn int_literal_type(target: Target, lit: IntLiteral) -> IntType {
    literal_type_from(target, lit, first_rank(lit.longs))
}

/// The constant that an integer literal denotes: its value, in its type.
pub open spec fn int_literal_constant(target: Target, lit: IntLiteral) -> IntConst {
    let ty = int_literal_type(target, lit);
    IntConst {
        width: target.bits_of(ty.rank),
        signed: ty.signed,
        value: lit.value as i128,
        overflow: false,
    }
}

/// The constant that a character literal denotes: an `int` with the value
/// of the character as a `char` of the target.
pub open spec fn char_literal_constant(target: Target, c: u8) -> IntConst {
    IntConst {
        width: target.bits_of(IntRank::Int),
        signed: true,
        value: if target.char_signed && c >= 128 {
            c - 256
        } else {
            c as int
        } as i128,
        overflow: false,
    }
}

/// The constant that a floating literal denotes: its exact decimal value,
/// in `float` if the suffix asks for it, else in `double`.
pub open spec fn float_literal_constant(lit: FloatLiteral) -> FloatConst {
    FloatConst { double: !lit.single, mantissa: lit.mantissa, exp10: lit.exp10 }
}

/// The constant that a token denotes, if it is a literal with a value.
pub open spec fn literal_constant(target: Target, kind: TokenKind) -> Option<Constant> {
    match kind {
        TokenKind::Int(lit) => Some(Constant::Int(int_literal_constant(target, lit))),
        TokenKind::Char(c) => Some(Constant::Int(char_literal_constant(target, c))),
        TokenKind::Float(lit) => Some(Constant::Float(float_literal_constant(lit))),
        _ => None,
    }
}

fn type_from(target: &Target, lit: IntLiteral, rank: IntRank) -> (ty: IntType)
    requires
        target.wf(),
        rank.level() >= 2,
    ensures
        ty == literal_type_from(*target, lit, rank),
        in_range(target.bits_of(ty.rank), ty.signed, lit.value as int),
    decreases 4 - rank.level(),
{
    let width: u8 = target.bits(rank);
    let m: i128 = modulus_of(width);
    let v: i128 = lit.value as i128;
    if !lit.unsigned && v <= m / 2 - 1 {
        IntType { rank, signed: true }
    } else if (lit.unsigned || lit.base != 10) && v <= m - 1 {
        IntType { rank, signed: false }
    } else {
        match rank {
            IntRank::Int => type_from(target, lit, IntRank::Long),
            IntRank::Long => type_from(target, lit, IntRank::LongLong),
            _ => IntType { rank: IntRank::LongLong, signed: false },
        }
    }
}

/// The type and value of an integer literal. The value is that of the
/// literal and a value of the type.
pub fn int_constant(target: &Target, lit: IntLiteral) -> (r: (IntType, IntConst))
    requires
        target.wf(),
    ensures
        r.0 == int_literal_type(*target, lit),
        r.1 == int_literal_constant(*target, lit),
        r.1.value == lit.value,
        r.1.wf(),
{
    let start: IntRank = if lit.longs == 0 {
        IntRank::Int
    } else if lit.longs == 1 {
        IntRank::Long
    } else {
        IntRank::LongLong
    };
    let ty: IntType = type_from(target, lit, start);
    let c: IntConst = IntConst {
        width: target.bits(ty.rank),
        signed: ty.signed,
        value: lit.value as i128,
        overflow: false,
    };
    (ty, c)
}

/// The value of a character literal.
pub fn char_constant(target: &Target, c: u8) -> (r: IntConst)
    requires
        target.wf(),
    ensures
        r == char_literal_constant(*target, c),
        r.wf(),
{
    let value: i128 = if target.char_signed && c >= 128 {
        c as i128 - 256
    } else {
        c as i128
    };
    IntConst { width: target.bits(IntRank::Int), signed: true, value, overflow: false }
}

/// The value of a floating literal.
pub fn float_constant(lit: FloatLiteral) -> (r: FloatConst)
    ensures
        r == float_literal_constant(lit),
{
    FloatConst { double: !lit.single, mantissa: lit.mantissa, exp10: lit.exp10 }
}

/// The constant that a token denotes, if it is a literal with a value.
pub fn constant_of(target: &Target, kind: TokenKind) -> (r: Option<Constant>)
    requires
        target.wf(),
    ensures
        r == literal_constant(*target, kind),
        r matches Some(c) ==> c.wf(),
{
    match kind {
        TokenKind::Int(lit) => Some(Constant::Int(int_constant(target, lit).1)),
        TokenKind::Char(c) => Some(Constant::Int(char_constant(target, c))),
        TokenKind::Float(lit) => Some(Constant::Float(float_constant(lit))),
        _ => None,
    }
}

} // verus!
