use saltwater_parser::error::ErrorHandler;
use saltwater_parser::fold::{Constant, FloatConst, IntConst};
use saltwater_parser::lex::lex;
use saltwater_parser::literal::{char_constant, constant_of, int_constant, IntType};
use saltwater_parser::names::NameTable;
use saltwater_parser::target::{IntRank, Target};
use saltwater_parser::token::{IntLiteral, TokenKind};

fn literal(target: &Target, src: &str) -> Option<Constant> {
    let mut names = NameTable::new();
    let mut handler = ErrorHandler::new();
    let tokens = lex(src.as_bytes(), 0, &mut names, &mut handler);
    assert!(handler.is_empty());
    assert_eq!(tokens.len(), 2);
    constant_of(target, tokens[0].kind)
}

fn int_c(width: u8, signed: bool, value: i128) -> Option<Constant> {
    Some(Constant::Int(IntConst { width, signed, value, overflow: false }))
}

#[test]
fn literal_values_round_trip() {
    let t = Target::lp64();
    assert_eq!(literal(&t, "0x1Fu"), int_c(32, false, 31));
    assert_eq!(literal(&t, "'\\n'"), int_c(32, true, 10));
    assert_eq!(
        literal(&t, "3.14f"),
        Some(Constant::Float(FloatConst { double: false, mantissa: 314, exp10: -2 }))
    );
    assert_eq!(
        literal(&t, "2.5e3"),
        Some(Constant::Float(FloatConst { double: true, mantissa: 25, exp10: 2 }))
    );
    assert_eq!(literal(&t, "017"), int_c(32, true, 15));
    assert_eq!(literal(&t, "x"), None);
}

#[test]
fn decimal_literals_take_the_first_signed_type_that_fits() {
    let lp64 = Target::lp64();
    let ilp32 = Target::ilp32();
    assert_eq!(literal(&lp64, "2147483647"), int_c(32, true, 2147483647));
    assert_eq!(literal(&lp64, "2147483648"), int_c(64, true, 2147483648));
    assert_eq!(literal(&ilp32, "2147483648"), int_c(64, true, 2147483648));
    assert_eq!(literal(&lp64, "9223372036854775808"), int_c(64, false, 9223372036854775808));
    let lit = IntLiteral { value: 2147483648, base: 10, unsigned: false, longs: 0 };
    assert_eq!(int_constant(&lp64, lit).0, IntType { rank: IntRank::Long, signed: true });
    assert_eq!(int_constant(&ilp32, lit).0, IntType { rank: IntRank::LongLong, signed: true });
}

#[test]
fn hexadecimal_literals_may_be_unsigned() {
    let t = Target::lp64();
    assert_eq!(literal(&t, "0x7fffffff"), int_c(32, true, 2147483647));
    assert_eq!(literal(&t, "0xffffffff"), int_c(32, false, 4294967295));
    assert_eq!(literal(&t, "0x100000000"), int_c(64, true, 4294967296));
    assert_eq!(literal(&t, "0xffffffffffffffff"), int_c(64, false, 18446744073709551615));
}

#[test]
fn suffixes_choose_the_type() {
    let t = Target::ilp32();
    let ty = |src: &str| {
        let mut names = NameTable::new();
        let mut handler = ErrorHandler::new();
        let tokens = lex(src.as_bytes(), 0, &mut names, &mut handler);
        match tokens[0].kind {
            TokenKind::Int(lit) => int_constant(&t, lit).0,
            _ => panic!("no integer literal"),
        }
    };
    assert_eq!(ty("1"), IntType { rank: IntRank::Int, signed: true });
    assert_eq!(ty("1u"), IntType { rank: IntRank::Int, signed: false });
    assert_eq!(ty("1l"), IntType { rank: IntRank::Long, signed: true });
    assert_eq!(ty("1ul"), IntType { rank: IntRank::Long, signed: false });
    assert_eq!(ty("1ll"), IntType { rank: IntRank::LongLong, signed: true });
    assert_eq!(ty("1ull"), IntType { rank: IntRank::LongLong, signed: false });
    assert_eq!(ty("4294967295u"), IntType { rank: IntRank::Int, signed: false });
    assert_eq!(ty("4294967296u"), IntType { rank: IntRank::LongLong, signed: false });
    assert_eq!(ty("2147483648l"), IntType { rank: IntRank::LongLong, signed: true });
}

#[test]
fn character_constants_follow_the_signedness_of_char() {
    let signed = Target::lp64();
    let unsigned = Target { char_signed: false, ..Target::lp64() };
    assert_eq!(char_constant(&signed, 200).value, -56);
    assert_eq!(char_constant(&unsigned, 200).value, 200);
    assert_eq!(char_constant(&signed, 65).value, 65);
}
