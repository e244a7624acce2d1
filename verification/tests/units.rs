use saltwater_parser::error::{DiagCode, ErrorHandler, Location, Severity};
use saltwater_parser::fold::{BinaryOp, Constant, IntConst};
use saltwater_parser::literal::IntType;
use saltwater_parser::names::{bytes_equal, NameTable};
use saltwater_parser::rules::{
    can_cast, common_int_type, convert_constant, convert_for_assignment, promote, type_binary,
    type_conditional, Conversion,
};
use saltwater_parser::scope::{Declared, ScopeStack, Space, Storage, Symbol};
use saltwater_parser::target::{IntRank, Target};
use saltwater_parser::text::{decimal_string, digit_str, push_decimal};
use saltwater_parser::types::{
    int_type, TypeNode, TypeTable, BASE_TYPES, TY_CHAR, TY_DOUBLE, TY_ERROR, TY_FLOAT, TY_INT,
    TY_LONG, TY_NO_PARAMS, TY_UINT, TY_ULONG, TY_VOID,
};

fn here() -> Location {
    Location { file: 0, line: 1, column: 1, offset: 0 }
}

#[test]
fn decimal_text() {
    assert_eq!(decimal_string(0), "0");
    assert_eq!(decimal_string(7), "7");
    assert_eq!(decimal_string(10), "10");
    assert_eq!(decimal_string(1000), "1000");
    assert_eq!(decimal_string(18446744073709551615), "18446744073709551615");
    assert_eq!(digit_str(9), "9");
    let mut s = String::from("n = ");
    push_decimal(&mut s, 42);
    assert_eq!(s, "n = 42");
}

#[test]
fn names_are_interned_once() {
    let mut names = NameTable::new();
    assert_eq!(names.intern(b"alpha"), 0);
    assert_eq!(names.intern(b"beta"), 1);
    assert_eq!(names.intern(b"alpha"), 0);
    assert_eq!(names.intern(b""), 2);
    assert_eq!(names.intern(b"alph"), 3);
    assert_eq!(names.len(), 4);
    assert_eq!(names.spelling(1).as_slice(), b"beta");
    assert!(bytes_equal(b"abc", b"abc"));
    assert!(!bytes_equal(b"abc", b"abd"));
    assert!(!bytes_equal(b"abc", b"ab"));
}

#[test]
fn handler_keeps_errors_and_warnings_apart_and_in_order() {
    let mut h = ErrorHandler::new();
    assert!(h.is_empty());
    h.report(DiagCode::LossyConversion, here());
    assert!(h.is_empty());
    h.report(DiagCode::TypeMismatch, here());
    h.error(DiagCode::Redefinition, here());
    h.warn(DiagCode::SignedOverflow, here());
    assert_eq!(h.error_count(), 2);
    assert_eq!(h.warning_count(), 2);
    assert_eq!(h.error_at(0).code, DiagCode::TypeMismatch);
    assert_eq!(h.error_at(1).severity, Severity::Error);
    assert_eq!(h.warning_at(0).code, DiagCode::LossyConversion);
    assert_eq!(h.warning_at(1).severity, Severity::Warning);
    assert_eq!(h.pop_front().map(|d| d.code), Some(DiagCode::TypeMismatch));
    assert_eq!(h.pop_front().map(|d| d.code), Some(DiagCode::Redefinition));
    assert_eq!(h.pop_front(), None);
    assert_eq!(h.warning_count(), 2);
    let (errors, warnings) = h.drain();
    assert_eq!(errors.len(), 0);
    assert_eq!(warnings.len(), 2);
    assert_eq!(h.warning_count(), 0);
    assert_eq!(DiagCode::DivisionByZero.severity(), Severity::Error);
    assert_eq!(DiagCode::SignedOverflow.severity(), Severity::Warning);
}

#[test]
fn targets() {
    let t = Target::lp64();
    assert!(t.is_valid());
    assert_eq!((t.bits(IntRank::Char), t.bits(IntRank::Short), t.bits(IntRank::Int)), (8, 16, 32));
    assert_eq!((t.bits(IntRank::Long), t.bits(IntRank::LongLong)), (64, 64));
    assert_eq!(Target::ilp32().bits(IntRank::Long), 32);
    assert_eq!(Target::ilp32().align(8), 4);
    assert_eq!(t.align(8), 8);
    assert_eq!(t.align(2), 2);
    assert!(!Target { int_bytes: 3, ..t }.is_valid());
    assert!(!Target { short_bytes: 8, ..t }.is_valid());
    assert!(!Target { long_long_bytes: 4, long_bytes: 4, ..t }.is_valid());
    assert!(!Target { pointer_bytes: 1, ..t }.is_valid());
    assert_eq!(IntRank::LongLong.index(), 4);
}

#[test]
fn types_are_interned_once() {
    let mut types = TypeTable::new();
    assert_eq!(types.len(), BASE_TYPES);
    assert_eq!(types.get(TY_INT), TypeNode::Int { rank: IntRank::Int, signed: true });
    assert_eq!(types.get(TY_NO_PARAMS), TypeNode::NoParams);
    assert_eq!(int_type(IntRank::Long, false), TY_ULONG);
    let p = types.intern(TypeNode::Pointer { to: TY_INT });
    assert_eq!(p, BASE_TYPES);
    assert_eq!(types.intern(TypeNode::Pointer { to: TY_INT }), p);
    assert_eq!(types.intern(TypeNode::Void), TY_VOID);
    let pp = types.intern(TypeNode::Pointer { to: p });
    assert_eq!(pp, p + 1);
    assert_eq!(types.len(), BASE_TYPES + 2);
}

#[test]
fn sizes_and_alignments() {
    let mut types = TypeTable::new();
    let t = Target::lp64();
    let a = types.intern(TypeNode::Array { of: TY_INT, known: true, len: 10 });
    let aa = types.intern(TypeNode::Array { of: a, known: true, len: 3 });
    let open = types.intern(TypeNode::Array { of: TY_INT, known: false, len: 0 });
    let huge = types.intern(TypeNode::Array { of: a, known: true, len: u64::MAX });
    let p = types.intern(TypeNode::Pointer { to: TY_VOID });
    let f = types.intern(TypeNode::Function { ret: TY_INT, params: TY_NO_PARAMS, variadic: false });
    assert_eq!(types.size(&t, TY_CHAR), Some(1));
    assert_eq!(types.size(&t, TY_DOUBLE), Some(8));
    assert_eq!(types.size(&t, a), Some(40));
    assert_eq!(types.size(&t, aa), Some(120));
    assert_eq!(types.size(&t, open), None);
    assert_eq!(types.size(&t, huge), None);
    assert_eq!(types.size(&t, p), Some(8));
    assert_eq!(types.size(&Target::ilp32(), p), Some(4));
    assert_eq!(types.size(&t, f), None);
    assert_eq!(types.size(&t, TY_VOID), None);
    assert_eq!(types.size(&t, TY_ERROR), None);
    assert_eq!(types.align(&t, aa), 4);
    assert_eq!(types.align(&t, TY_DOUBLE), 8);
    assert_eq!(types.align(&Target::ilp32(), TY_DOUBLE), 4);
    let r = types.intern(TypeNode::Record {
        tag: types.len(),
        union: false,
        complete: false,
        fields: TY_NO_PARAMS,
        size: 0,
        align: 1,
    });
    assert_eq!(types.size(&t, r), None);
    types.complete(r, TY_NO_PARAMS, 12, 4);
    assert_eq!(types.size(&t, r), Some(12));
    assert_eq!(types.align(&t, r), 4);
}

fn symbol(name: usize, ty: usize) -> Symbol {
    Symbol {
        name,
        space: Space::Ordinary,
        ty,
        storage: Storage::Auto,
        depth: 0,
        location: here(),
        is_const: false,
        enumerator: false,
        value: 0,
    }
}

#[test]
fn scopes_shadow_and_restore() {
    let types = TypeTable::new();
    let mut scopes = ScopeStack::new();
    assert_eq!(scopes.depth(), 0);
    assert_eq!(scopes.declare(types.as_vec(), 7, TY_INT, Storage::Static, here(), false), Declared::New);
    assert_eq!(scopes.resolve(7).map(|s| (s.ty, s.depth, s.storage)), Some((TY_INT, 0, Storage::Static)));
    scopes.enter();
    assert_eq!(scopes.depth(), 1);
    assert_eq!(scopes.resolve(7).map(|s| s.ty), Some(TY_INT));
    assert_eq!(scopes.declare(types.as_vec(), 7, TY_CHAR, Storage::Auto, here(), true), Declared::New);
    assert_eq!(scopes.resolve(7).map(|s| (s.ty, s.depth, s.is_const)), Some((TY_CHAR, 1, true)));
    assert_eq!(scopes.declare(types.as_vec(), 8, TY_LONG, Storage::Auto, here(), false), Declared::New);
    assert_eq!(scopes.len(), 3);
    scopes.exit();
    assert_eq!(scopes.depth(), 0);
    assert_eq!(scopes.len(), 1);
    assert_eq!(scopes.resolve(7).map(|s| s.ty), Some(TY_INT));
    assert_eq!(scopes.resolve(8), None);
    scopes.exit();
    assert_eq!(scopes.depth(), 0);
    assert_eq!(scopes.resolve(7).map(|s| s.ty), Some(TY_INT));
}

#[test]
fn declarations_merge_or_conflict() {
    let mut types = TypeTable::new();
    let open = types.intern(TypeNode::Array { of: TY_INT, known: false, len: 0 });
    let three = types.intern(TypeNode::Array { of: TY_INT, known: true, len: 3 });
    let four = types.intern(TypeNode::Array { of: TY_INT, known: true, len: 4 });
    let mut scopes = ScopeStack::new();
    assert_eq!(scopes.put(types.as_vec(), symbol(1, TY_INT)), Declared::New);
    assert_eq!(scopes.put(types.as_vec(), symbol(1, TY_INT)), Declared::Merged);
    assert_eq!(scopes.put(types.as_vec(), symbol(1, TY_CHAR)), Declared::Conflict);
    assert_eq!(scopes.resolve(1).map(|s| s.ty), Some(TY_INT));
    assert_eq!(scopes.put(types.as_vec(), symbol(2, open)), Declared::New);
    assert_eq!(scopes.put(types.as_vec(), symbol(2, three)), Declared::Merged);
    assert_eq!(scopes.resolve(2).map(|s| s.ty), Some(three));
    assert_eq!(scopes.put(types.as_vec(), symbol(2, open)), Declared::Merged);
    assert_eq!(scopes.resolve(2).map(|s| s.ty), Some(three));
    assert_eq!(scopes.put(types.as_vec(), symbol(2, four)), Declared::Conflict);
    assert_eq!(scopes.len(), 2);
    let tag = Symbol { space: Space::Tag, ..symbol(1, TY_LONG) };
    assert_eq!(scopes.put(types.as_vec(), tag), Declared::New);
    assert_eq!(scopes.find(1, Space::Tag).map(|s| s.ty), Some(TY_LONG));
    assert_eq!(scopes.find(1, Space::Ordinary).map(|s| s.ty), Some(TY_INT));
    let constant = Symbol { enumerator: true, value: 3, ..symbol(5, TY_INT) };
    assert_eq!(scopes.put(types.as_vec(), constant), Declared::New);
    assert_eq!(scopes.put(types.as_vec(), constant), Declared::Conflict);
    assert_eq!(scopes.put(types.as_vec(), symbol(5, TY_INT)), Declared::Conflict);
    scopes.enter();
    assert_eq!(scopes.local(1, Space::Ordinary), None);
    assert_eq!(scopes.put(types.as_vec(), symbol(1, TY_CHAR)), Declared::New);
    assert_eq!(scopes.local(1, Space::Ordinary).map(|s| s.ty), Some(TY_CHAR));
}

#[test]
fn promotion_and_common_types() {
    let t = Target::lp64();
    let ty = |rank, signed| IntType { rank, signed };
    assert_eq!(promote(&t, ty(IntRank::Char, false)), ty(IntRank::Int, true));
    assert_eq!(promote(&t, ty(IntRank::Short, false)), ty(IntRank::Int, true));
    assert_eq!(promote(&t, ty(IntRank::Int, false)), ty(IntRank::Int, false));
    let wide_short = Target { short_bytes: 4, ..t };
    assert_eq!(promote(&wide_short, ty(IntRank::Short, false)), ty(IntRank::Int, false));
    assert_eq!(promote(&wide_short, ty(IntRank::Short, true)), ty(IntRank::Int, true));
    let common = |a, b| common_int_type(&t, a, b);
    assert_eq!(common(ty(IntRank::Int, true), ty(IntRank::Long, true)), ty(IntRank::Long, true));
    assert_eq!(common(ty(IntRank::Int, false), ty(IntRank::Int, true)), ty(IntRank::Int, false));
    assert_eq!(common(ty(IntRank::Int, false), ty(IntRank::Long, true)), ty(IntRank::Long, true));
    assert_eq!(common(ty(IntRank::LongLong, true), ty(IntRank::Long, false)), ty(IntRank::LongLong, false));
    assert_eq!(
        common_int_type(&Target::ilp32(), ty(IntRank::Int, false), ty(IntRank::Long, true)),
        ty(IntRank::Long, false)
    );
}

#[test]
fn binary_typing_rules() {
    let mut types = TypeTable::new();
    let t = Target::lp64();
    let p = types.intern(TypeNode::Pointer { to: TY_INT });
    let v = types.intern(TypeNode::Pointer { to: TY_VOID });
    let check = |op, l, r| {
        let typing = type_binary(&types, &t, op, l, r, false, false);
        (typing.ok, typing.left, typing.right, typing.result)
    };
    assert_eq!(check(BinaryOp::Add, TY_CHAR, TY_LONG), (true, TY_LONG, TY_LONG, TY_LONG));
    assert_eq!(check(BinaryOp::Mul, TY_INT, TY_FLOAT), (true, TY_FLOAT, TY_FLOAT, TY_FLOAT));
    assert_eq!(check(BinaryOp::Rem, TY_INT, TY_FLOAT), (false, TY_INT, TY_FLOAT, TY_ERROR));
    assert_eq!(check(BinaryOp::Add, p, TY_CHAR), (true, p, TY_INT, p));
    assert_eq!(check(BinaryOp::Add, TY_UINT, p), (true, TY_UINT, p, p));
    assert_eq!(check(BinaryOp::Sub, p, p), (true, p, p, TY_LONG));
    assert_eq!(check(BinaryOp::Sub, TY_INT, p).0, false);
    assert_eq!(check(BinaryOp::Add, v, TY_INT).0, false);
    assert_eq!(check(BinaryOp::Shl, TY_CHAR, TY_LONG), (true, TY_INT, TY_LONG, TY_INT));
    assert_eq!(check(BinaryOp::Lt, TY_INT, TY_DOUBLE), (true, TY_DOUBLE, TY_DOUBLE, TY_INT));
    assert_eq!(check(BinaryOp::Eq, p, v), (true, p, v, TY_INT));
    assert_eq!(check(BinaryOp::Lt, p, v).0, false);
    assert_eq!(check(BinaryOp::LogAnd, p, TY_DOUBLE), (true, p, TY_DOUBLE, TY_INT));
    assert_eq!(check(BinaryOp::BitAnd, TY_ERROR, p), (true, TY_ERROR, p, TY_ERROR));
    assert_eq!(type_binary(&types, &t, BinaryOp::Eq, p, TY_INT, false, true).left, p);
    assert_eq!(type_binary(&types, &t, BinaryOp::Eq, p, TY_INT, false, false).ok, false);
    let c = type_conditional(&types, &t, TY_CHAR, TY_UINT, false, false);
    assert_eq!((c.ok, c.result), (true, TY_UINT));
    assert_eq!(type_conditional(&types, &t, p, TY_INT, false, true).result, p);
    assert_eq!(type_conditional(&types, &t, p, v, false, false).ok, false);
    assert_eq!(type_conditional(&types, &t, TY_VOID, TY_VOID, false, false).result, TY_VOID);
}

#[test]
fn assignment_conversions_and_casts() {
    let mut types = TypeTable::new();
    let t = Target::lp64();
    let p = types.intern(TypeNode::Pointer { to: TY_INT });
    let q = types.intern(TypeNode::Pointer { to: TY_CHAR });
    let v = types.intern(TypeNode::Pointer { to: TY_VOID });
    let constant = |value| Some(Constant::Int(IntConst { width: 32, signed: true, value, overflow: false }));
    let conv = |to, from, c| convert_for_assignment(&types, &t, to, from, c);
    assert_eq!(conv(TY_INT, TY_INT, None), Conversion::Same);
    assert_eq!(conv(TY_LONG, TY_INT, None), Conversion::Convert);
    assert_eq!(conv(TY_CHAR, TY_INT, None), Conversion::Lossy);
    assert_eq!(conv(TY_CHAR, TY_INT, constant(100)), Conversion::Convert);
    assert_eq!(conv(TY_CHAR, TY_INT, constant(200)), Conversion::Lossy);
    assert_eq!(conv(TY_UINT, TY_INT, constant(-1)), Conversion::Lossy);
    assert_eq!(conv(TY_DOUBLE, TY_FLOAT, None), Conversion::Convert);
    assert_eq!(conv(TY_FLOAT, TY_DOUBLE, None), Conversion::Lossy);
    assert_eq!(conv(TY_INT, TY_FLOAT, None), Conversion::Lossy);
    assert_eq!(conv(p, q, None), Conversion::Mismatch);
    assert_eq!(conv(p, v, None), Conversion::Convert);
    assert_eq!(conv(v, q, None), Conversion::Convert);
    assert_eq!(conv(p, TY_INT, constant(0)), Conversion::Convert);
    assert_eq!(conv(p, TY_INT, constant(1)), Conversion::Mismatch);
    assert_eq!(conv(TY_INT, p, None), Conversion::Mismatch);
    assert_eq!(conv(TY_INT, TY_ERROR, None), Conversion::Convert);
    assert!(can_cast(&types, TY_VOID, p));
    assert!(can_cast(&types, TY_LONG, p));
    assert!(can_cast(&types, p, q));
    assert!(!can_cast(&types, p, TY_DOUBLE));
    assert!(!can_cast(&types, TY_FLOAT, p));
    assert_eq!(
        convert_constant(&types, &t, constant(-1), TY_UINT),
        Some(Constant::Int(IntConst { width: 32, signed: false, value: 4294967295, overflow: false }))
    );
    assert_eq!(convert_constant(&types, &t, constant(1), TY_DOUBLE), None);
    assert_eq!(convert_constant(&types, &t, None, TY_INT), None);
}
