//! The conversion rules of the type system: which types an operator takes,
//! to which types its operands are brought, and which type it gives.

use vstd::prelude::*;
use crate::fold::convert_int;
use crate::fold::convert_int_spec;
use crate::fold::fits;
use crate::fold::in_range;
use crate::fold::BinaryOp;
use crate::fold::Constant;
use crate::literal::IntType;
use crate::target::IntRank;
use crate::target::Target;
use crate::types::int_type;
use crate::types::int_type_id;
use crate::types::size_of;
use crate::types::table_wf;
use crate::types::TypeNode;
use crate::types::TypeTable;
use crate::types::TY_DOUBLE;
use crate::types::TY_ERROR;
use crate::types::TY_FLOAT;
use crate::types::TY_INT;
use crate::types::TY_LONG;

verus! {

/// The type of an integer operand after integer promotion: a type below
/// `int` becomes `int` if `int` holds all its values, else `unsigned int`.
pub open spec fn promoted(target: Target, t: IntType) -> IntType {
    if t.rank.level() >= 2 {
        t
    } else if t.signed || target.bits_of(t.rank) < target.bits_of(IntRank::Int) {
        IntType { rank: IntRank::Int, signed: true }
    } else {
        IntType { rank: IntRank::Int, signed: false }
    }
}

/// The common type of two integer operands under the usual arithmetic
/// conversions. Both are promoted. With the same signedness the higher
/// rank wins. Otherwise the unsigned type wins if its rank is not lower;
/// else the signed type wins if it holds all values of the unsigned one;
/// else the unsigned type of the signed type's rank is taken.
pub open spec fn common_int(target: Target, a: IntType, b: IntType) -> IntType {
    let x = promoted(target, a);
    let y = promoted(target, b);
    if x.signed == y.signed {
        IntType { rank: if x.rank.level() >= y.rank.level() {
            x.rank
        } else {
            y.rank
        }, signed: x.signed }
    } else {
        let u = if x.signed {
            y
        } else {
            x
        };
        let s = if x.signed {
            x
        } else {
            y
        };
        if u.rank.level() >= s.rank.level() {
            u
        } else if target.bits_of(s.rank) > target.bits_of(u.rank) {
            s
        } else {
            IntType { rank: s.rank, signed: false }
        }
    }
}

pub open spec fn is_arithmetic(n: TypeNode) -> bool {
    n is Int || n is Float
}

pub open spec fn is_scalar(n: TypeNode) -> bool {
    n is Int || n is Float || n is Pointer
}

/// The common type of two arithmetic operands: `double` if either is one,
/// else `float` if either is one, else the common integer type.
pub open spec fn arith_common(target: Target, a: TypeNode, b: TypeNode) -> usize {
    match (a, b) {
        (TypeNode::Int { rank: ra, signed: sa }, TypeNode::Int { rank: rb, signed: sb }) => {
            let c = common_int(
                target,
                IntType { rank: ra, signed: sa },
                IntType { rank: rb, signed: sb },
            );
            int_type_id(c.rank, c.signed) as usize
        },
        (TypeNode::Float { double: da }, TypeNode::Float { double: db }) => if da || db {
            TY_DOUBLE
        } else {
            TY_FLOAT
        },
        (TypeNode::Float { double }, _) => if double {
            TY_DOUBLE
        } else {
            TY_FLOAT
        },
        (_, TypeNode::Float { double }) => if double {
            TY_DOUBLE
        } else {
            TY_FLOAT
        },
        _ => TY_ERROR,
    }
}

/// The promoted type of an operand of integer type, as a position in the
/// table; the operand's own type for other types.
pub open spec fn promoted_id(target: Target, types: Seq<TypeNode>, id: usize) -> usize {
    match types[id as int] {
        TypeNode::Int { rank, signed } => {
            let p = promoted(target, IntType { rank, signed });
            int_type_id(p.rank, p.signed) as usize
        },
        _ => id,
    }
}

/// Whether a pointer to this type can be stepped: the type has objects of
/// a known size.
pub open spec fn steppable(types: Seq<TypeNode>, target: Target, to: usize) -> bool {
    size_of(types, target, to as int) is Some
}

/// How an operation is typed: whether the operand types are allowed, the
/// types to which the left and right operands are converted, and the type
/// of the result.
pub struct Typing {
    pub ok: bool,
    pub left: usize,
    pub right: usize,
    pub result: usize,
}

pub open spec fn refused(lt: usize, rt: usize) -> Typing {
    Typing { ok: false, left: lt, right: rt, result: TY_ERROR }
}

pub open spec fn both(c: usize, result: usize) -> Typing {
    Typing { ok: true, left: c, right: c, result }
}

/// The typing of a binary operator on operands of types `lt` and `rt`,
/// after arrays and functions have decayed to pointers. `l_null` and
/// `r_null` say whether the operand is the integer constant zero.
///
/// An operand of the sentinel type gives the sentinel type, without
/// complaint. The arithmetic and bitwise operators bring arithmetic
/// operands to their common type; `%` and the bitwise operators take
/// integers only. `+` and `-` step a pointer to a type of known size by an
/// integer, and `-` gives the `long` distance of two pointers of one such
/// type. The shifts promote each operand on its own. The comparisons give
/// `int`; they compare arithmetic operands in their common type, pointers
/// of one type, and for `==` and `!=` also a pointer with a pointer to
/// `void` or with the constant zero. `&&` and `||` take scalars and give
/// `int`.
pub open spec fn binary_typing(
    types: Seq<TypeNode>,
    target: Target,
    op: BinaryOp,
    lt: usize,
    rt: usize,
    l_null: bool,
    r_null: bool,
) -> Typing {
    let a = types[lt as int];
    let b = types[rt as int];
    let c = arith_common(target, a, b);
    if a is Error || b is Error {
        Typing { ok: true, left: lt, right: rt, result: TY_ERROR }
    } else {
        match op {
            BinaryOp::Mul | BinaryOp::Div => if is_arithmetic(a) && is_arithmetic(b) {
                both(c, c)
            } else {
                refused(lt, rt)
            },
            BinaryOp::Rem | BinaryOp::BitAnd | BinaryOp::BitXor | BinaryOp::BitOr => if a is Int
                && b is Int {
                both(c, c)
            } else {
                refused(lt, rt)
            },
            BinaryOp::Add => if is_arithmetic(a) && is_arithmetic(b) {
                both(c, c)
            } else if a is Pointer && b is Int && steppable(types, target, a->to) {
                Typing { ok: true, left: lt, right: promoted_id(target, types, rt), result: lt }
            } else if a is Int && b is Pointer && steppable(types, target, b->to) {
                Typing { ok: true, left: promoted_id(target, types, lt), right: rt, result: rt }
            } else {
                refused(lt, rt)
            },
            BinaryOp::Sub => if is_arithmetic(a) && is_arithmetic(b) {
                both(c, c)
            } else if a is Pointer && b is Int && steppable(types, target, a->to) {
                Typing { ok: true, left: lt, right: promoted_id(target, types, rt), result: lt }
            } else if a is Pointer && lt == rt && steppable(types, target, a->to) {
                Typing { ok: true, left: lt, right: rt, result: TY_LONG }
            } else {
                refused(lt, rt)
            },
            BinaryOp::Shl | BinaryOp::Shr => if a is Int && b is Int {
                Typing {
                    ok: true,
                    left: promoted_id(target, types, lt),
                    right: promoted_id(target, types, rt),
                    result: promoted_id(target, types, lt),
                }
            } else {
                refused(lt, rt)
            },
            BinaryOp::Lt | BinaryOp::Gt | BinaryOp::Le | BinaryOp::Ge => if is_arithmetic(a)
                && is_arithmetic(b) {
                both(c, TY_INT)
            } else if a is Pointer && lt == rt {
                Typing { ok: true, left: lt, right: rt, result: TY_INT }
            } else {
                refused(lt, rt)
            },
            BinaryOp::Eq | BinaryOp::Ne => if is_arithmetic(a) && is_arithmetic(b) {
                both(c, TY_INT)
            } else if a is Pointer && b is Pointer && (lt == rt || types[a->to as int] is Void
                || types[b->to as int] is Void) {
                Typing { ok: true, left: lt, right: rt, result: TY_INT }
            } else if a is Pointer && b is Int && r_null {
                both(lt, TY_INT)
            } else if a is Int && b is Pointer && l_null {
                both(rt, TY_INT)
            } else {
                refused(lt, rt)
            },
            BinaryOp::LogAnd | BinaryOp::LogOr => if is_scalar(a) && is_scalar(b) {
                Typing { ok: true, left: lt, right: rt, result: TY_INT }
            } else {
                refused(lt, rt)
            },
        }
    }
}

/// The typing of the second and third operands of the conditional
/// operator: arithmetic operands are brought to their common type,
/// operands of one type keep it, and the constant zero beside a pointer
/// becomes that pointer.
pub open spec fn conditional_typing(
    types: Seq<TypeNode>,
    target: Target,
    lt: usize,
    rt: usize,
    l_null: bool,
    r_null: bool,
) -> Typing {
    let a = types[lt as int];
    let b = types[rt as int];
    let c = arith_common(target, a, b);
    if a is Error || b is Error {
        Typing { ok: true, left: lt, right: rt, result: TY_ERROR }
    } else if is_arithmetic(a) && is_arithmetic(b) {
        both(c, c)
    } else if lt == rt {
        both(lt, lt)
    } else if a is Pointer && b is Int && r_null {
        both(lt, lt)
    } else if a is Int && b is Pointer && l_null {
        both(rt, rt)
    } else {
        refused(lt, rt)
    }
}

/// How a value is brought to the type of the object it is assigned to.
#[derive(Clone, Copy, Debug, PartialEq, Eq, Structural)]
pub enum Conversion {
    /// The types are the same.
    Same,
    /// The value is converted and nothing can be lost.
    Convert,
    /// The value is converted and the target type does not hold every
    /// value of the source type.
    Lossy,
    /// There is no conversion.
    Mismatch,
}

/// Whether a type holds every value of another arithmetic type.
pub open spec fn holds_all(target: Target, to: TypeNode, from: TypeNode) -> bool {
    match (to, from) {
        (TypeNode::Int { rank: rt, signed: st }, TypeNode::Int { rank: rf, signed: sf }) => {
            let wt = target.bits_of(rt);
            let wf = target.bits_of(rf);
            (st == sf && wt >= wf) || (st && !sf && wt > wf)
        },
        (TypeNode::Float { .. }, TypeNode::Int { .. }) => true,
        (TypeNode::Float { double: dt }, TypeNode::Float { double: df }) => dt || !df,
        _ => false,
    }
}

/// Whether a constant is an integer that an integer type holds.
pub open spec fn constant_fits(target: Target, to: TypeNode, c: Option<Constant>) -> bool {
    match (to, c) {
        (TypeNode::Int { rank, signed }, Some(Constant::Int(v))) => in_range(
            target.bits_of(rank),
            signed,
            v.value as int,
        ),
        _ => false,
    }
}

/// Whether a constant is the integer zero.
pub open spec fn is_null(c: Option<Constant>) -> bool {
    match c {
        Some(Constant::Int(v)) => v.value == 0,
        _ => false,
    }
}

/// How a value of type `from` is brought to type `to` by assignment,
/// initialisation, or when it is passed or returned. The sentinel type
/// converts without complaint. Arithmetic types convert to each other; the
/// conversion is lossy if the target does not hold every value of the
/// source and the value is not a constant that the target holds. A pointer
/// converts to a pointer if one of the two points to `void`, and the
/// constant zero converts to any pointer.
pub open spec fn assign_conversion(
    types: Seq<TypeNode>,
    target: Target,
    to: usize,
    from: usize,
    c: Option<Constant>,
) -> Conversion {
    let a = types[to as int];
    let b = types[from as int];
    if to == from {
        Conversion::Same
    } else if a is Error || b is Error {
        Conversion::Convert
    } else if is_arithmetic(a) && is_arithmetic(b) {
        if holds_all(target, a, b) || constant_fits(target, a, c) {
            Conversion::Convert
        } else {
            Conversion::Lossy
        }
    } else if a is Pointer && b is Pointer {
        if types[a->to as int] is Void || types[b->to as int] is Void {
            Conversion::Convert
        } else {
            Conversion::Mismatch
        }
    } else if a is Pointer && b is Int && is_null(c) {
        Conversion::Convert
    } else {
        Conversion::Mismatch
    }
}

/// Whether a cast from `from` to `to` is allowed: to `void`, from or to
/// the sentinel, and between scalar types, except between pointers and
/// floating types.
pub open spec fn cast_allowed(types: Seq<TypeNode>, to: usize, from: usize) -> bool {
    let a = types[to as int];
    let b = types[from as int];
    a is Void || a is Error || b is Error || (is_scalar(a) && is_scalar(b) && !(a is Pointer
        && b is Float) && !(a is Float && b is Pointer))
}

/// The value of a constant converted to a type: integers convert to
/// integer types; nothing else is folded.
pub open spec fn converted_constant(
    types: Seq<TypeNode>,
    target: Target,
    c: Option<Constant>,
    to: usize,
) -> Option<Constant> {
    match (c, types[to as int]) {
        (Some(Constant::Int(v)), TypeNode::Int { rank, signed }) => Some(
            Constant::Int(convert_int_spec(v, target.bits_of(rank), signed)),
        ),
        _ => None,
    }
}

pub fn promote(target: &Target, t: IntType) -> (r: IntType)
    requires
        target.wf(),
    ensures
        r == promoted(*target, t),
        r.rank.level() >= 2,
{
    if t.rank.index() >= 2 {
        t
    } else if t.signed || target.bits(t.rank) < target.bits(IntRank::Int) {
        IntType { rank: IntRank::Int, signed: true }
    } else {
        IntType { rank: IntRank::Int, signed: false }
    }
}

pub fn common_int_type(target: &Target, a: IntType, b: IntType) -> (r: IntType)
    requires
        target.wf(),
    ensures
        r == common_int(*target, a, b),
{
    let x: IntType = promote(target, a);
    let y: IntType = promote(target, b);
    if x.signed == y.signed {
        IntType { rank: if x.rank.index() >= y.rank.index() {
            x.rank
        } else {
            y.rank
        }, signed: x.signed }
    } else {
        let u: IntType = if x.signed {
            y
        } else {
            x
        };
        let s: IntType = if x.signed {
            x
        } else {
            y
        };
        if u.rank.index() >= s.rank.index() {
            u
        } else if target.bits(s.rank) > target.bits(u.rank) {
            s
        } else {
            IntType { rank: s.rank, signed: false }
        }
    }
}

pub fn node_is_arithmetic(n: TypeNode) -> (b: bool)
    ensures
        b == is_arithmetic(n),
{
    match n {
        TypeNode::Int { .. } => true,
        TypeNode::Float { .. } => true,
        _ => false,
    }
}

pub fn node_is_scalar(n: TypeNode) -> (b: bool)
    ensures
        b == is_scalar(n),
{
    match n {
        TypeNode::Int { .. } => true,
        TypeNode::Float { .. } => true,
        TypeNode::Pointer { .. } => true,
        _ => false,
    }
}

pub fn node_is_int(n: TypeNode) -> (b: bool)
    ensures
        b == (n is Int),
{
    match n {
        TypeNode::Int { .. } => true,
        _ => false,
    }
}

pub fn node_is_pointer(n: TypeNode) -> (b: bool)
    ensures
        b == (n is Pointer),
{
    match n {
        TypeNode::Pointer { .. } => true,
        _ => false,
    }
}

pub fn node_is_error(n: TypeNode) -> (b: bool)
    ensures
        b == (n is Error),
{
    match n {
        TypeNode::Error => true,
        _ => false,
    }
}

pub fn node_is_void(n: TypeNode) -> (b: bool)
    ensures
        b == (n is Void),
{
    match n {
        TypeNode::Void => true,
        _ => false,
    }
}

pub fn arith_common_type(target: &Target, a: TypeNode, b: TypeNode) -> (r: usize)
    requires
        target.wf(),
    ensures
        r == arith_common(*target, a, b),
        r < 15,
{
    match (a, b) {
        (TypeNode::Int { rank: ra, signed: sa }, TypeNode::Int { rank: rb, signed: sb }) => {
            let c: IntType = common_int_type(
                target,
                IntType { rank: ra, signed: sa },
                IntType { rank: rb, signed: sb },
            );
            int_type(c.rank, c.signed)
        },
        (TypeNode::Float { double: da }, TypeNode::Float { double: db }) => if da || db {
            TY_DOUBLE
        } else {
            TY_FLOAT
        },
        (TypeNode::Float { double }, _) => if double {
            TY_DOUBLE
        } else {
            TY_FLOAT
        },
        (_, TypeNode::Float { double }) => if double {
            TY_DOUBLE
        } else {
            TY_FLOAT
        },
        _ => TY_ERROR,
    }
}

pub fn promoted_type(target: &Target, types: &TypeTable, id: usize) -> (r: usize)
    requires
        target.wf(),
        id < types@.len(),
    ensures
        r == promoted_id(*target, types@, id),
        r < types@.len() || r < 15,
{
    match types.get(id) {
        TypeNode::Int { rank, signed } => {
            let p: IntType = promote(target, IntType { rank, signed });
            int_type(p.rank, p.signed)
        },
        _ => id,
    }
}

fn pointee_steppable(types: &TypeTable, target: &Target, n: TypeNode) -> (b: bool)
    requires
        table_wf(types@),
        n is Pointer,
        n->to < types@.len(),
    ensures
        b == steppable(types@, *target, n->to),
{
    match n {
        TypeNode::Pointer { to } => types.size(target, to).is_some(),
        _ => false,
    }
}

fn pointee_is_void(types: &TypeTable, n: TypeNode) -> (b: bool)
    requires
        n is Pointer,
        n->to < types@.len(),
    ensures
        b == (types@[n->to as int] is Void),
{
    match n {
        TypeNode::Pointer { to } => node_is_void(types.get(to)),
        _ => false,
    }
}

/// Types a binary operator.
pub fn type_binary(
    types: &TypeTable,
    target: &Target,
    op: BinaryOp,
    lt: usize,
    rt: usize,
    l_null: bool,
    r_null: bool,
) -> (r: Typing)
    requires
        table_wf(types@),
        target.wf(),
        lt < types@.len(),
        rt < types@.len(),
    ensures
        r == binary_typing(types@, *target, op, lt, rt, l_null, r_null),
        r.left < types@.len(),
        r.right < types@.len(),
        r.result < types@.len(),
{
    let a: TypeNode = types.get(lt);
    let b: TypeNode = types.get(rt);
    let c: usize = arith_common_type(target, a, b);
    let no: Typing = Typing { ok: false, left: lt, right: rt, result: TY_ERROR };
    assert(forall|i: int| 0 <= i < types@.len() ==> crate::types::built_below(
        #[trigger] types@[i],
        i,
    ));
    if node_is_error(a) || node_is_error(b) {
        return Typing { ok: true, left: lt, right: rt, result: TY_ERROR };
    }
    let arith: bool = node_is_arithmetic(a) && node_is_arithmetic(b);
    let ints: bool = node_is_int(a) && node_is_int(b);
    match op {
        BinaryOp::Mul | BinaryOp::Div => if arith {
            Typing { ok: true, left: c, right: c, result: c }
        } else {
            no
        },
        BinaryOp::Rem | BinaryOp::BitAnd | BinaryOp::BitXor | BinaryOp::BitOr => if ints {
            Typing { ok: true, left: c, right: c, result: c }
        } else {
            no
        },
        BinaryOp::Add => if arith {
            Typing { ok: true, left: c, right: c, result: c }
        } else if node_is_pointer(a) && node_is_int(b) && pointee_steppable(types, target, a) {
            Typing { ok: true, left: lt, right: promoted_type(target, types, rt), result: lt }
        } else if node_is_int(a) && node_is_pointer(b) && pointee_steppable(types, target, b) {
            Typing { ok: true, left: promoted_type(target, types, lt), right: rt, result: rt }
        } else {
            no
        },
        BinaryOp::Sub => if arith {
            Typing { ok: true, left: c, right: c, result: c }
        } else if node_is_pointer(a) && node_is_int(b) && pointee_steppable(types, target, a) {
            Typing { ok: true, left: lt, right: promoted_type(target, types, rt), result: lt }
        } else if node_is_pointer(a) && lt == rt && pointee_steppable(types, target, a) {
            Typing { ok: true, left: lt, right: rt, result: TY_LONG }
        } else {
            no
        },
        BinaryOp::Shl | BinaryOp::Shr => if ints {
            Typing {
                ok: true,
                left: promoted_type(target, types, lt),
                right: promoted_type(target, types, rt),
                result: promoted_type(target, types, lt),
            }
        } else {
            no
        },
        BinaryOp::Lt | BinaryOp::Gt | BinaryOp::Le | BinaryOp::Ge => if arith {
            Typing { ok: true, left: c, right: c, result: TY_INT }
        } else if node_is_pointer(a) && lt == rt {
            Typing { ok: true, left: lt, right: rt, result: TY_INT }
        } else {
            no
        },
        BinaryOp::Eq | BinaryOp::Ne => if arith {
            Typing { ok: true, left: c, right: c, result: TY_INT }
        } else if node_is_pointer(a) && node_is_pointer(b) && (lt == rt || pointee_is_void(
            types,
            a,
        ) || pointee_is_void(types, b)) {
            Typing { ok: true, left: lt, right: rt, result: TY_INT }
        } else if node_is_pointer(a) && node_is_int(b) && r_null {
            Typing { ok: true, left: lt, right: lt, result: TY_INT }
        } else if node_is_int(a) && node_is_pointer(b) && l_null {
            Typing { ok: true, left: rt, right: rt, result: TY_INT }
        } else {
            no
        },
        BinaryOp::LogAnd | BinaryOp::LogOr => if node_is_scalar(a) && node_is_scalar(b) {
            Typing { ok: true, left: lt, right: rt, result: TY_INT }
        } else {
            no
        },
    }
}

/// Types the second and third operands of the conditional operator.
pub fn type_conditional(
    types: &TypeTable,
    target: &Target,
    lt: usize,
    rt: usize,
    l_null: bool,
    r_null: bool,
) -> (r: Typing)
    requires
        table_wf(types@),
        target.wf(),
        lt < types@.len(),
        rt < types@.len(),
    ensures
        r == conditional_typing(types@, *target, lt, rt, l_null, r_null),
        r.left < types@.len(),
        r.right < types@.len(),
        r.result < types@.len(),
{
    let a: TypeNode = types.get(lt);
    let b: TypeNode = types.get(rt);
    let c: usize = arith_common_type(target, a, b);
    if node_is_error(a) || node_is_error(b) {
        Typing { ok: true, left: lt, right: rt, result: TY_ERROR }
    } else if node_is_arithmetic(a) && node_is_arithmetic(b) {
        Typing { ok: true, left: c, right: c, result: c }
    } else if lt == rt {
        Typing { ok: true, left: lt, right: lt, result: lt }
    } else if node_is_pointer(a) && node_is_int(b) && r_null {
        Typing { ok: true, left: lt, right: lt, result: lt }
    } else if node_is_int(a) && node_is_pointer(b) && l_null {
        Typing { ok: true, left: rt, right: rt, result: rt }
    } else {
        Typing { ok: false, left: lt, right: rt, result: TY_ERROR }
    }
}

pub fn node_holds_all(target: &Target, to: TypeNode, from: TypeNode) -> (b: bool)
    requires
        target.wf(),
    ensures
        b == holds_all(*target, to, from),
{
    match (to, from) {
        (TypeNode::Int { rank: rt, signed: st }, TypeNode::Int { rank: rf, signed: sf }) => {
            let wt: u8 = target.bits(rt);
            let wf: u8 = target.bits(rf);
            (st == sf && wt >= wf) || (st && !sf && wt > wf)
        },
        (TypeNode::Float { .. }, TypeNode::Int { .. }) => true,
        (TypeNode::Float { double: dt }, TypeNode::Float { double: df }) => dt || !df,
        _ => false,
    }
}

pub fn constant_fits_in(target: &Target, to: TypeNode, c: Option<Constant>) -> (b: bool)
    requires
        target.wf(),
    ensures
        b == constant_fits(*target, to, c),
{
    match (to, c) {
        (TypeNode::Int { rank, signed }, Some(Constant::Int(v))) => fits(
            target.bits(rank),
            signed,
            v.value,
        ),
        _ => false,
    }
}

pub fn constant_is_null(c: Option<Constant>) -> (b: bool)
    ensures
        b == is_null(c),
{
    match c {
        Some(Constant::Int(v)) => v.value == 0,
        _ => false,
    }
}

/// Finds how a value is brought to the type of the object it is assigned
/// to.
pub fn convert_for_assignment(
    types: &TypeTable,
    target: &Target,
    to: usize,
    from: usize,
    c: Option<Constant>,
) -> (r: Conversion)
    requires
        table_wf(types@),
        target.wf(),
        to < types@.len(),
        from < types@.len(),
    ensures
        r == assign_conversion(types@, *target, to, from, c),
{
    let a: TypeNode = types.get(to);
    let b: TypeNode = types.get(from);
    assert(forall|i: int| 0 <= i < types@.len() ==> crate::types::built_below(
        #[trigger] types@[i],
        i,
    ));
    if to == from {
        Conversion::Same
    } else if node_is_error(a) || node_is_error(b) {
        Conversion::Convert
    } else if node_is_arithmetic(a) && node_is_arithmetic(b) {
        if node_holds_all(target, a, b) || constant_fits_in(target, a, c) {
            Conversion::Convert
        } else {
            Conversion::Lossy
        }
    } else if node_is_pointer(a) && node_is_pointer(b) {
        if pointee_is_void(types, a) || pointee_is_void(types, b) {
            Conversion::Convert
        } else {
            Conversion::Mismatch
        }
    } else if node_is_pointer(a) && node_is_int(b) && constant_is_null(c) {
        Conversion::Convert
    } else {
        Conversion::Mismatch
    }
}

/// Whether a cast is allowed.
pub fn can_cast(types: &TypeTable, to: usize, from: usize) -> (r: bool)
    requires
        to < types@.len(),
        from < types@.len(),
    ensures
        r == cast_allowed(types@, to, from),
{
    let a: TypeNode = types.get(to);
    let b: TypeNode = types.get(from);
    let a_float: bool = match a {
        TypeNode::Float { .. } => true,
        _ => false,
    };
    let b_float: bool = match b {
        TypeNode::Float { .. } => true,
        _ => false,
    };
    node_is_void(a) || node_is_error(a) || node_is_error(b) || (node_is_scalar(a)
        && node_is_scalar(b) && !(node_is_pointer(a) && b_float) && !(a_float && node_is_pointer(
        b,
    )))
}

/// Converts a constant to a type.
pub fn convert_constant(types: &TypeTable, target: &Target, c: Option<Constant>, to: usize) -> (r:
    Option<Constant>)
    requires
        target.wf(),
        to < types@.len(),
        c matches Some(v) ==> v.wf(),
    ensures
        r == converted_constant(types@, *target, c, to),
        r matches Some(v) ==> v.wf(),
{
    match (c, types.get(to)) {
        (Some(Constant::Int(v)), TypeNode::Int { rank, signed }) => Some(
            Constant::Int(convert_int(v, target.bits(rank), signed)),
        ),
        _ => None,
    }
}

} // verus!
