//! The analysis of expressions: as the parser recognises an expression it
//! asks here for the node, which comes back with its type, with the
//! conversions of its operands inserted, and with its value if it is
//! constant.

use vstd::prelude::*;
use crate::ast::Category;
use crate::ast::Node;
use crate::ast::NodeKind;
use crate::error::DiagCode;
use crate::error::Diagnostic;
use crate::error::Severity;
use crate::error::Location;
use crate::fold::fits;
use crate::fold::in_range;
use crate::fold::fold_binary;
use crate::fold::conditional_value;
use crate::fold::fold_operand;
use crate::fold::fold_operands;
use crate::fold::folded_value;
use crate::fold::fold_unary;
use crate::fold::BinaryOp;
use crate::fold::Constant;
use crate::fold::Folded;
use crate::fold::UnaryOp;
use crate::literal::char_constant;
use crate::literal::char_literal_constant;
use crate::literal::float_constant;
use crate::literal::float_literal_constant;
use crate::literal::int_constant;
use crate::literal::int_literal_constant;
use crate::literal::int_literal_type;
use crate::rules::binary_typing;
use crate::rules::convert_constant;
use crate::rules::constant_is_null;
use crate::rules::converted_constant;
use crate::rules::is_arithmetic;
use crate::rules::is_null;
use crate::rules::is_scalar;
use crate::rules::node_is_arithmetic;
use crate::rules::node_is_error;
use crate::rules::node_is_int;
use crate::rules::node_is_scalar;
use crate::rules::promoted_id;
use crate::rules::promoted_type;
use crate::rules::type_binary;
use crate::rules::Typing;
use crate::state::Parser;
use crate::state::State;
use crate::target::IntRank;
use crate::token::TokenKind;
use crate::types::int_type;
use crate::types::int_type_id;
use crate::types::TypeNode;
use crate::types::TY_CHAR;
use crate::types::TY_DOUBLE;
use crate::types::TY_ERROR;
use crate::types::TY_FLOAT;
use crate::types::TY_INT;
use crate::types::TY_ULONG;
use crate::types::size_of;
use crate::ast::make_plain;
use crate::ast::plain_node;
use crate::fold::fold_conditional;
use crate::fold::wrap;
use crate::fold::wrap_value;
use crate::fold::IntConst;
use crate::rules::assign_conversion;
use crate::rules::can_cast;
use crate::rules::cast_allowed;
use crate::rules::conditional_typing;
use crate::rules::convert_for_assignment;
use crate::rules::steppable;
use crate::rules::type_conditional;
use crate::rules::Conversion;
use crate::target::Target;

verus! {

/// The node of an expression whose analysis failed.
pub open spec fn error_node(location: Location) -> Node {
    Node {
        kind: NodeKind::Error,
        ty: TY_ERROR,
        category: Category::Value,
        constant: None,
        location,
    }
}

/// The node of an expression that designates a value.
pub open spec fn value_node(
    kind: NodeKind,
    ty: usize,
    constant: Option<Constant>,
    location: Location,
) -> Node {
    Node { kind, ty, category: Category::Value, constant, location }
}

/// Whether a constant carries the mark of an overflow.
pub open spec fn flagged(c: Option<Constant>) -> bool {
    match c {
        Some(Constant::Int(v)) => v.overflow,
        _ => false,
    }
}

/// The value of an enumeration constant as a constant of type `int`; a
/// value that is no `int` stands as zero.
pub open spec fn enumerator_constant(target: Target, value: i128) -> Constant {
    let width = target.bits_of(IntRank::Int);
    Constant::Int(
        IntConst {
            width,
            signed: true,
            value: if in_range(width, true, value as int) {
                value
            } else {
                0
            },
            overflow: false,
        },
    )
}

/// The length of the array that a string literal of `len` bytes is: one
/// more, for the terminator.
pub open spec fn string_length(len: usize) -> u64 {
    if len < u64::MAX {
        (len + 1) as u64
    } else {
        u64::MAX
    }
}

impl State {
    pub open spec fn ty_of(self, e: usize) -> usize {
        self.nodes[e as int].ty
    }

    pub open spec fn type_at(self, e: usize) -> TypeNode {
        self.types[self.nodes[e as int].ty as int]
    }

    pub open spec fn constant_of(self, e: usize) -> Option<Constant> {
        self.nodes[e as int].constant
    }

    pub open spec fn int_bits(self) -> u8 {
        self.target.bits_of(IntRank::Int)
    }

    /// Records a failed analysis: the diagnostic, and a node of the
    /// sentinel type in place of the expression.
    pub open spec fn fail(self, code: DiagCode, location: Location) -> (State, usize) {
        (self.report(code, location).push(error_node(location)), self.next_id())
    }

    /// An expression used for its value: an array becomes a pointer to its
    /// first element and a function a pointer to itself, by a conversion
    /// node; other expressions stay as they are.
    pub open spec fn decay(self, e: usize) -> (State, usize) {
        let n = self.nodes[e as int];
        match self.types[n.ty as int] {
            TypeNode::Array { of, .. } => {
                let s1 = self.intern(TypeNode::Pointer { to: of });
                let ty = self.type_id(TypeNode::Pointer { to: of });
                (
                    s1.push(value_node(NodeKind::Convert { operand: e }, ty, None, n.location)),
                    s1.next_id(),
                )
            },
            TypeNode::Function { .. } => {
                let s1 = self.intern(TypeNode::Pointer { to: n.ty });
                let ty = self.type_id(TypeNode::Pointer { to: n.ty });
                (
                    s1.push(value_node(NodeKind::Convert { operand: e }, ty, None, n.location)),
                    s1.next_id(),
                )
            },
            _ => (self, e),
        }
    }

    /// An expression brought to a type: itself if it has the type, else a
    /// conversion node, which carries the converted value of a constant.
    pub open spec fn convert(self, e: usize, to: usize) -> (State, usize) {
        let n = self.nodes[e as int];
        if n.ty == to {
            (self, e)
        } else {
            (
                self.push(
                    value_node(
                        NodeKind::Convert { operand: e },
                        to,
                        converted_constant(self.types, self.target, n.constant, to),
                        n.location,
                    ),
                ),
                self.next_id(),
            )
        }
    }

    /// The state after folding gave `f` for operands with the constants
    /// `a` and `b`: a division by zero is recorded as an error, and an
    /// overflow that the operands did not carry as a warning.
    pub open spec fn note_fold(
        self,
        f: Folded,
        a: Option<Constant>,
        b: Option<Constant>,
        location: Location,
    ) -> State {
        match f {
            Folded::DivisionByZero => self.report(DiagCode::DivisionByZero, location),
            Folded::Value(c) => if flagged(Some(c)) && !flagged(a) && !flagged(b) {
                self.report(DiagCode::SignedOverflow, location)
            } else {
                self
            },
            Folded::NotConstant => self,
        }
    }

    /// The node of a literal: an integer literal has the type that its
    /// value and suffix give it, a character literal is an `int`, a
    /// floating literal a `float` or a `double`, each with its value; a
    /// string literal is an array of `char` with room for the terminator,
    /// and an object.
    pub open spec fn literal(self, kind: TokenKind, location: Location) -> (State, usize) {
        match kind {
            TokenKind::Int(lit) => {
                let ty = int_literal_type(self.target, lit);
                (
                    self.push(
                        value_node(
                            NodeKind::Literal,
                            int_type_id(ty.rank, ty.signed) as usize,
                            Some(Constant::Int(int_literal_constant(self.target, lit))),
                            location,
                        ),
                    ),
                    self.next_id(),
                )
            },
            TokenKind::Char(c) => (
                self.push(
                    value_node(
                        NodeKind::Literal,
                        TY_INT,
                        Some(Constant::Int(char_literal_constant(self.target, c))),
                        location,
                    ),
                ),
                self.next_id(),
            ),
            TokenKind::Float(lit) => (
                self.push(
                    value_node(
                        NodeKind::Literal,
                        if lit.single {
                            TY_FLOAT
                        } else {
                            TY_DOUBLE
                        },
                        Some(Constant::Float(float_literal_constant(lit))),
                        location,
                    ),
                ),
                self.next_id(),
            ),
            TokenKind::Str(len) => {
                let array = TypeNode::Array { of: TY_CHAR, known: true, len: string_length(len) };
                let s1 = self.intern(array);
                (
                    s1.push(
                        Node {
                            kind: NodeKind::Str { len },
                            ty: self.type_id(array),
                            category: Category::Object,
                            constant: None,
                            location,
                        },
                    ),
                    s1.next_id(),
                )
            },
            _ => self.fail(DiagCode::UnexpectedToken, location),
        }
    }

    /// The node of an identifier. An enumeration constant gives an `int`
    /// with its value. Another declared name gives a node of the type of
    /// its symbol: a value if it names a function, else an object,
    /// assignable unless the symbol is `const`. An undeclared name is
    /// recorded as an error and gives a node of the sentinel type.
    pub open spec fn ident(self, name: usize, location: Location) -> (State, usize) {
        match self.scopes.resolve(name) {
            Some(sym) => if sym.enumerator {
                (
                    self.push(
                        value_node(
                            NodeKind::Ident { name },
                            TY_INT,
                            Some(enumerator_constant(self.target, sym.value)),
                            location,
                        ),
                    ),
                    self.next_id(),
                )
            } else {
                (
                    self.push(
                        Node {
                            kind: NodeKind::Ident { name },
                            ty: sym.ty,
                            category: if self.types[sym.ty as int] is Function {
                                Category::Value
                            } else if sym.is_const {
                                Category::ConstObject
                            } else {
                                Category::Object
                            },
                            constant: None,
                            location,
                        },
                    ),
                    self.next_id(),
                )
            },
            None => self.fail(DiagCode::UndeclaredIdentifier, location),
        }
    }

    /// The node of a binary operation. The operands decay, the operator is
    /// typed by `binary_typing`, the operands are converted as the typing
    /// says, and the operation is folded if both operands are constant.
    /// Operand types that the operator does not take are recorded as an
    /// error and give a node of the sentinel type.
    pub open spec fn binary(self, op: BinaryOp, l: usize, r: usize, location: Location) -> (
        State,
        usize,
    ) {
        let (s1, l1) = self.decay(l);
        let (s2, r1) = s1.decay(r);
        let t = binary_typing(
            s2.types,
            s2.target,
            op,
            s2.ty_of(l1),
            s2.ty_of(r1),
            is_null(s2.constant_of(l1)),
            is_null(s2.constant_of(r1)),
        );
        if !t.ok {
            s2.fail(DiagCode::TypeMismatch, location)
        } else {
            let (s3, l2) = s2.convert(l1, t.left);
            let (s4, r2) = s3.convert(r1, t.right);
            let a = s4.constant_of(l2);
            let b = s4.constant_of(r2);
            let f = fold_operands(op, a, b, s4.int_bits());
            let s5 = s4.note_fold(f, a, b, location);
            (
                s5.push(
                    value_node(
                        NodeKind::Binary { operator: op, left: l2, right: r2 },
                        t.result,
                        folded_value(f),
                        location,
                    ),
                ),
                s5.next_id(),
            )
        }
    }

    /// The node of `+`, `-`, `~` or `!` on an operand. `+` and `-` take an
    /// arithmetic operand and `~` an integer, which is promoted; `!` takes
    /// a scalar and gives an `int`. The operation is folded if the operand
    /// is constant. An operand of the sentinel type gives the sentinel
    /// type without complaint.
    pub open spec fn unary_value(self, op: UnaryOp, e: usize, location: Location) -> (
        State,
        usize,
    ) {
        let (s1, e1) = self.decay(e);
        let a = s1.type_at(e1);
        let allowed = match op {
            UnaryOp::BitNot => a is Int,
            UnaryOp::LogNot => is_scalar(a),
            _ => is_arithmetic(a),
        };
        if a is Error {
            (
                s1.push(
                    value_node(
                        NodeKind::Unary { op, operand: e1 },
                        TY_ERROR,
                        folded_value(fold_operand(op, s1.constant_of(e1), s1.int_bits())),
                        location,
                    ),
                ),
                s1.next_id(),
            )
        } else if !allowed {
            s1.fail(DiagCode::TypeMismatch, location)
        } else {
            let to = if op == UnaryOp::LogNot {
                s1.ty_of(e1)
            } else {
                promoted_id(s1.target, s1.types, s1.ty_of(e1))
            };
            let (s2, e2) = s1.convert(e1, to);
            let c = s2.constant_of(e2);
            let f = fold_operand(op, c, s2.int_bits());
            let s3 = s2.note_fold(f, c, c, location);
            (
                s3.push(
                    value_node(
                        NodeKind::Unary { op, operand: e2 },
                        if op == UnaryOp::LogNot {
                            TY_INT
                        } else {
                            to
                        },
                        folded_value(f),
                        location,
                    ),
                ),
                s3.next_id(),
            )
        }
    }
}

impl Parser {
    /// Records a failed analysis and gives the node that stands for the
    /// expression.
    pub fn fail(&mut self, code: DiagCode, location: Location) -> (r: usize)
        requires
            old(self).wf(),
        ensures
            final(self).wf(),
            final(self)@ == old(self)@.fail(code, location).0,
            r == old(self)@.fail(code, location).1,
            old(self)@.grows_to(final(self)@),
            final(self)@.pos == old(self)@.pos,
            r < final(self)@.nodes.len(),
            final(self)@.nodes[r as int].ty == TY_ERROR,
    {
        self.report(code, location);
        self.push(
            Node {
                kind: NodeKind::Error,
                ty: TY_ERROR,
                category: Category::Value,
                constant: None,
                location,
            },
        )
    }

    /// Lets an array or a function decay to a pointer.
    pub fn decay(&mut self, e: usize) -> (r: usize)
        requires
            old(self).wf(),
            e < old(self)@.nodes.len(),
        ensures
            final(self).wf(),
            final(self)@ == old(self)@.decay(e).0,
            r == old(self)@.decay(e).1,
            old(self)@.grows_to(final(self)@),
            final(self)@.pos == old(self)@.pos,
            r < final(self)@.nodes.len(),
    {
        let n: Node = self.node(e);
        match self.type_node(n.ty) {
            TypeNode::Array { of, .. } => {
                let ty: usize = self.intern(TypeNode::Pointer { to: of });
                self.push(
                    Node {
                        kind: NodeKind::Convert { operand: e },
                        ty,
                        category: Category::Value,
                        constant: None,
                        location: n.location,
                    },
                )
            },
            TypeNode::Function { .. } => {
                let ty: usize = self.intern(TypeNode::Pointer { to: n.ty });
                self.push(
                    Node {
                        kind: NodeKind::Convert { operand: e },
                        ty,
                        category: Category::Value,
                        constant: None,
                        location: n.location,
                    },
                )
            },
            _ => e,
        }
    }

    /// Brings an expression to a type.
    pub fn convert(&mut self, e: usize, to: usize) -> (r: usize)
        requires
            old(self).wf(),
            e < old(self)@.nodes.len(),
            to < old(self)@.types.len(),
        ensures
            final(self).wf(),
            final(self)@ == old(self)@.convert(e, to).0,
            r == old(self)@.convert(e, to).1,
            old(self)@.grows_to(final(self)@),
            final(self)@.pos == old(self)@.pos,
            final(self)@.types == old(self)@.types,
            r < final(self)@.nodes.len(),
            final(self)@.nodes[r as int].ty == to,
    {
        let n: Node = self.node(e);
        if n.ty == to {
            e
        } else {
            let target = self.target();
            let constant: Option<Constant> = convert_constant(
                self.types(),
                &target,
                n.constant,
                to,
            );
            self.push(
                Node {
                    kind: NodeKind::Convert { operand: e },
                    ty: to,
                    category: Category::Value,
                    constant,
                    location: n.location,
                },
            )
        }
    }

    /// Records what folding found.
    pub fn note_fold(
        &mut self,
        f: Folded,
        a: Option<Constant>,
        b: Option<Constant>,
        location: Location,
    )
        requires
            old(self).wf(),
        ensures
            final(self).wf(),
            final(self)@ == old(self)@.note_fold(f, a, b, location),
            old(self)@.grows_to(final(self)@),
            final(self)@.pos == old(self)@.pos,
            final(self)@.nodes == old(self)@.nodes,
            final(self)@.types == old(self)@.types,
    {
        match f {
            Folded::DivisionByZero => {
                self.report(DiagCode::DivisionByZero, location);
            },
            Folded::Value(c) => {
                if is_flagged(Some(c)) && !is_flagged(a) && !is_flagged(b) {
                    self.report(DiagCode::SignedOverflow, location);
                }
            },
            Folded::NotConstant => {},
        }
    }

    /// Makes the node of a literal.
    pub fn literal(&mut self, kind: TokenKind, location: Location) -> (r: usize)
        requires
            old(self).wf(),
        ensures
            final(self).wf(),
            final(self)@ == old(self)@.literal(kind, location).0,
            r == old(self)@.literal(kind, location).1,
            old(self)@.grows_to(final(self)@),
            final(self)@.pos == old(self)@.pos,
            r < final(self)@.nodes.len(),
    {
        let target = self.target();
        match kind {
            TokenKind::Int(lit) => {
                let (ty, c) = int_constant(&target, lit);
                let id: usize = int_type(ty.rank, ty.signed);
                self.push(
                    Node {
                        kind: NodeKind::Literal,
                        ty: id,
                        category: Category::Value,
                        constant: Some(Constant::Int(c)),
                        location,
                    },
                )
            },
            TokenKind::Char(c) => {
                let v = char_constant(&target, c);
                self.push(
                    Node {
                        kind: NodeKind::Literal,
                        ty: TY_INT,
                        category: Category::Value,
                        constant: Some(Constant::Int(v)),
                        location,
                    },
                )
            },
            TokenKind::Float(lit) => {
                let ty: usize = if lit.single {
                    TY_FLOAT
                } else {
                    TY_DOUBLE
                };
                self.push(
                    Node {
                        kind: NodeKind::Literal,
                        ty,
                        category: Category::Value,
                        constant: Some(Constant::Float(float_constant(lit))),
                        location,
                    },
                )
            },
            TokenKind::Str(len) => {
                let length: u64 = if (len as u64) < u64::MAX {
                    len as u64 + 1
                } else {
                    u64::MAX
                };
                let ty: usize = self.intern(
                    TypeNode::Array { of: TY_CHAR, known: true, len: length },
                );
                self.push(
                    Node {
                        kind: NodeKind::Str { len },
                        ty,
                        category: Category::Object,
                        constant: None,
                        location,
                    },
                )
            },
            _ => self.fail(DiagCode::UnexpectedToken, location),
        }
    }

    /// Makes the node of an identifier. If the name is not declared, one
    /// error more is recorded and the node has the sentinel type.
    pub fn ident(&mut self, name: usize, location: Location) -> (r: usize)
        requires
            old(self).wf(),
        ensures
            final(self).wf(),
            final(self)@ == old(self)@.ident(name, location).0,
            r == old(self)@.ident(name, location).1,
            old(self)@.grows_to(final(self)@),
            final(self)@.pos == old(self)@.pos,
            r < final(self)@.nodes.len(),
            old(self)@.scopes.resolve(name) is None ==> final(self)@.nodes[r as int].ty
                == TY_ERROR && final(self)@.errors.len() == old(self)@.errors.len() + 1,
    {
        match self.resolve(name) {
            Some(sym) => {
                if sym.enumerator {
                    let target = self.target();
                    let width: u8 = target.bits(IntRank::Int);
                    let value: i128 = if fits(width, true, sym.value) {
                        sym.value
                    } else {
                        0
                    };
                    return self.push(
                        Node {
                            kind: NodeKind::Ident { name },
                            ty: TY_INT,
                            category: Category::Value,
                            constant: Some(
                                Constant::Int(
                                    IntConst { width, signed: true, value, overflow: false },
                                ),
                            ),
                            location,
                        },
                    );
                }
                let is_function: bool = match self.type_node(sym.ty) {
                    TypeNode::Function { .. } => true,
                    _ => false,
                };
                let category: Category = if is_function {
                    Category::Value
                } else if sym.is_const {
                    Category::ConstObject
                } else {
                    Category::Object
                };
                self.push(
                    Node {
                        kind: NodeKind::Ident { name },
                        ty: sym.ty,
                        category,
                        constant: None,
                        location,
                    },
                )
            },
            None => self.fail(DiagCode::UndeclaredIdentifier, location),
        }
    }

    /// Makes the node of a binary operation.
    #[verifier::rlimit(80)]
    pub fn binary(&mut self, op: BinaryOp, l: usize, r: usize, location: Location) -> (id: usize)
        requires
            old(self).wf(),
            l < old(self)@.nodes.len(),
            r < old(self)@.nodes.len(),
        ensures
            final(self).wf(),
            final(self)@ == old(self)@.binary(op, l, r, location).0,
            id == old(self)@.binary(op, l, r, location).1,
            old(self)@.grows_to(final(self)@),
            final(self)@.pos == old(self)@.pos,
            id < final(self)@.nodes.len(),
    {
        let l1: usize = self.decay(l);
        let r1: usize = self.decay(r);
        let target = self.target();
        let ln: Node = self.node(l1);
        let rn: Node = self.node(r1);
        let t: Typing = type_binary(
            self.types(),
            &target,
            op,
            ln.ty,
            rn.ty,
            constant_is_null(ln.constant),
            constant_is_null(rn.constant),
        );
        if !t.ok {
            return self.fail(DiagCode::TypeMismatch, location);
        }
        let l2: usize = self.convert(l1, t.left);
        let r2: usize = self.convert(r1, t.right);
        let a: Option<Constant> = self.node(l2).constant;
        let b: Option<Constant> = self.node(r2).constant;
        let f: Folded = match (a, b) {
            (Some(x), Some(y)) => fold_binary(op, x, y, target.bits(IntRank::Int)),
            _ => Folded::NotConstant,
        };
        self.note_fold(f, a, b, location);
        let constant: Option<Constant> = match f {
            Folded::Value(c) => Some(c),
            _ => None,
        };
        self.push(
            Node {
                kind: NodeKind::Binary { operator: op, left: l2, right: r2 },
                ty: t.result,
                category: Category::Value,
                constant,
                location,
            },
        )
    }

    /// Makes the node of `+`, `-`, `~` or `!` on an operand.
    pub fn unary_value(&mut self, op: UnaryOp, e: usize, location: Location) -> (id: usize)
        requires
            old(self).wf(),
            e < old(self)@.nodes.len(),
        ensures
            final(self).wf(),
            final(self)@ == old(self)@.unary_value(op, e, location).0,
            id == old(self)@.unary_value(op, e, location).1,
            old(self)@.grows_to(final(self)@),
            final(self)@.pos == old(self)@.pos,
            id < final(self)@.nodes.len(),
    {
        let e1: usize = self.decay(e);
        let target = self.target();
        let n: Node = self.node(e1);
        let a: TypeNode = self.type_node(n.ty);
        let is_not: bool = match op {
            UnaryOp::LogNot => true,
            _ => false,
        };
        let allowed: bool = match op {
            UnaryOp::BitNot => node_is_int(a),
            UnaryOp::LogNot => node_is_scalar(a),
            _ => node_is_arithmetic(a),
        };
        if node_is_error(a) {
            let constant: Option<Constant> = match n.constant {
                Some(x) => match fold_unary(op, x, target.bits(IntRank::Int)) {
                    Folded::Value(v) => Some(v),
                    _ => None,
                },
                None => None,
            };
            return self.push(
                Node {
                    kind: NodeKind::Unary { op, operand: e1 },
                    ty: TY_ERROR,
                    category: Category::Value,
                    constant,
                    location,
                },
            );
        }
        if !allowed {
            return self.fail(DiagCode::TypeMismatch, location);
        }
        let to: usize = if is_not {
            n.ty
        } else {
            promoted_type(&target, self.types(), n.ty)
        };
        let e2: usize = self.convert(e1, to);
        let c: Option<Constant> = self.node(e2).constant;
        let f: Folded = match c {
            Some(x) => fold_unary(op, x, target.bits(IntRank::Int)),
            None => Folded::NotConstant,
        };
        self.note_fold(f, c, c, location);
        let constant: Option<Constant> = match f {
            Folded::Value(v) => Some(v),
            _ => None,
        };
        let ty: usize = if is_not {
            TY_INT
        } else {
            to
        };
        self.push(
            Node {
                kind: NodeKind::Unary { op, operand: e2 },
                ty,
                category: Category::Value,
                constant,
                location,
            },
        )
    }
}

pub fn is_flagged(c: Option<Constant>) -> (b: bool)
    ensures
        b == flagged(c),
{
    match c {
        Some(Constant::Int(v)) => v.overflow,
        _ => false,
    }
}

/// The value of a size as a constant of type `unsigned long`.
pub open spec fn size_constant(target: Target, n: u64) -> Constant {
    Constant::Int(
        IntConst {
            width: target.bits_of(IntRank::Long),
            signed: false,
            value: wrap(target.bits_of(IntRank::Long), false, n as int) as i128,
            overflow: false,
        },
    )
}

/// What passing arguments gives: the state after it, the arguments as
/// they are passed, and whether their number is right.
pub struct Passed {
    pub state: State,
    pub args: Seq<usize>,
    pub ok: bool,
}

impl State {
    /// The node of `*` on an operand: the operand decays and must be a
    /// pointer; the node designates the object pointed to.
    pub open spec fn deref(self, e: usize, location: Location) -> (State, usize) {
        let (s1, e1) = self.decay(e);
        match s1.type_at(e1) {
            TypeNode::Pointer { to } => (
                s1.push(
                    Node {
                        kind: NodeKind::Unary { op: UnaryOp::Deref, operand: e1 },
                        ty: to,
                        category: if s1.types[to as int] is Function {
                            Category::Value
                        } else {
                            Category::Object
                        },
                        constant: None,
                        location,
                    },
                ),
                s1.next_id(),
            ),
            TypeNode::Error => (
                s1.push(
                    value_node(
                        NodeKind::Unary { op: UnaryOp::Deref, operand: e1 },
                        TY_ERROR,
                        None,
                        location,
                    ),
                ),
                s1.next_id(),
            ),
            _ => s1.fail(DiagCode::TypeMismatch, location),
        }
    }

    /// The node of `&` on an operand, which must designate an object or a
    /// function; the node is a pointer to the operand's type.
    pub open spec fn address(self, e: usize, location: Location) -> (State, usize) {
        let n = self.nodes[e as int];
        let kind = NodeKind::Unary { op: UnaryOp::AddrOf, operand: e };
        if self.types[n.ty as int] is Error {
            (self.push(value_node(kind, TY_ERROR, None, location)), self.next_id())
        } else if n.category != Category::Value || self.types[n.ty as int] is Function {
            let p = TypeNode::Pointer { to: n.ty };
            let s1 = self.intern(p);
            (s1.push(value_node(kind, self.type_id(p), None, location)), s1.next_id())
        } else {
            self.fail(DiagCode::InvalidLvalue, location)
        }
    }

    /// The node of `++` or `--` on an operand, which must designate an
    /// assignable object of arithmetic type or a pointer that can be
    /// stepped.
    pub open spec fn step(self, op: UnaryOp, e: usize, location: Location) -> (State, usize) {
        let n = self.nodes[e as int];
        let a = self.types[n.ty as int];
        let kind = NodeKind::Unary { op, operand: e };
        if a is Error {
            (self.push(value_node(kind, TY_ERROR, None, location)), self.next_id())
        } else if n.category == Category::Object && (is_arithmetic(a) || (a is Pointer
            && steppable(self.types, self.target, a->to))) {
            (self.push(value_node(kind, n.ty, None, location)), self.next_id())
        } else {
            self.fail(DiagCode::InvalidLvalue, location)
        }
    }

    /// The node of a unary operation.
    pub open spec fn unary(self, op: UnaryOp, e: usize, location: Location) -> (State, usize) {
        match op {
            UnaryOp::Deref => self.deref(e, location),
            UnaryOp::AddrOf => self.address(e, location),
            UnaryOp::PreInc | UnaryOp::PreDec | UnaryOp::PostInc | UnaryOp::PostDec => self.step(
                op,
                e,
                location,
            ),
            _ => self.unary_value(op, e, location),
        }
    }

    /// An expression brought to the type of an object that it is assigned
    /// to, that it initialises, or as which it is passed or returned. The
    /// expression decays and is converted as `assign_conversion` says; a
    /// lossy conversion is recorded as a warning, and a missing one as an
    /// error, with a node of the sentinel type as the result.
    pub open spec fn coerce(self, e: usize, to: usize, location: Location) -> (State, usize) {
        let (s1, e1) = self.decay(e);
        let conv = assign_conversion(
            s1.types,
            s1.target,
            to,
            s1.ty_of(e1),
            s1.constant_of(e1),
        );
        if conv == Conversion::Mismatch {
            s1.fail(DiagCode::TypeMismatch, location)
        } else if conv == Conversion::Lossy {
            s1.report(DiagCode::LossyConversion, location).convert(e1, to)
        } else {
            s1.convert(e1, to)
        }
    }

    /// The node of a simple assignment. The target must designate an
    /// assignable object that is no array and no function; the value is
    /// brought to its type.
    pub open spec fn assign(self, target: usize, value: usize, location: Location) -> (
        State,
        usize,
    ) {
        let t = self.nodes[target as int];
        let a = self.types[t.ty as int];
        if a is Error {
            let (s1, v1) = self.decay(value);
            (
                s1.push(
                    value_node(
                        NodeKind::Assign {
                            compound: false,
                            with: BinaryOp::Add,
                            target,
                            value: v1,
                        },
                        TY_ERROR,
                        None,
                        location,
                    ),
                ),
                s1.next_id(),
            )
        } else if t.category != Category::Object || a is Array || a is Function {
            self.fail(DiagCode::InvalidLvalue, location)
        } else {
            let (s1, v1) = self.coerce(value, t.ty, location);
            (
                s1.push(
                    value_node(
                        NodeKind::Assign {
                            compound: false,
                            with: BinaryOp::Add,
                            target,
                            value: v1,
                        },
                        t.ty,
                        None,
                        location,
                    ),
                ),
                s1.next_id(),
            )
        }
    }

    /// The node of a compound assignment with an operator. The target
    /// must be as for a simple assignment; the operator is typed on the
    /// target and the value, and its result must convert to the type of
    /// the target.
    pub open spec fn assign_with(
        self,
        op: BinaryOp,
        target: usize,
        value: usize,
        location: Location,
    ) -> (State, usize) {
        let (s1, v1) = self.decay(value);
        let t = s1.nodes[target as int];
        let a = s1.types[t.ty as int];
        let kind = NodeKind::Assign { compound: true, with: op, target, value: v1 };
        if a is Error || s1.type_at(v1) is Error {
            (s1.push(value_node(kind, TY_ERROR, None, location)), s1.next_id())
        } else if t.category != Category::Object || a is Array || a is Function {
            s1.fail(DiagCode::InvalidLvalue, location)
        } else {
            let bt = binary_typing(
                s1.types,
                s1.target,
                op,
                t.ty,
                s1.ty_of(v1),
                false,
                is_null(s1.constant_of(v1)),
            );
            let conv = assign_conversion(s1.types, s1.target, t.ty, bt.result, None);
            if !bt.ok || conv == Conversion::Mismatch {
                s1.fail(DiagCode::TypeMismatch, location)
            } else {
                let s2 = if conv == Conversion::Lossy {
                    s1.report(DiagCode::LossyConversion, location)
                } else {
                    s1
                };
                let (s3, v2) = s2.convert(v1, bt.right);
                (
                    s3.push(
                        value_node(
                            NodeKind::Assign { compound: true, with: op, target, value: v2 },
                            t.ty,
                            None,
                            location,
                        ),
                    ),
                    s3.next_id(),
                )
            }
        }
    }

    /// The node of the conditional operator. The operands decay; the
    /// first must be scalar, the other two are typed by
    /// `conditional_typing` and converted; the node is constant if all
    /// three are.
    pub open spec fn conditional(self, c: usize, a: usize, b: usize, location: Location) -> (
        State,
        usize,
    ) {
        let (s1, c1) = self.decay(c);
        let (s2, a1) = s1.decay(a);
        let (s3, b1) = s2.decay(b);
        let t = conditional_typing(
            s3.types,
            s3.target,
            s3.ty_of(a1),
            s3.ty_of(b1),
            is_null(s3.constant_of(a1)),
            is_null(s3.constant_of(b1)),
        );
        let ct = s3.type_at(c1);
        if !(ct is Error || is_scalar(ct)) || !t.ok {
            s3.fail(DiagCode::TypeMismatch, location)
        } else {
            let (s4, a2) = s3.convert(a1, t.left);
            let (s5, b2) = s4.convert(b1, t.right);
            let constant = conditional_value(
                s5.constant_of(c1),
                s5.constant_of(a2),
                s5.constant_of(b2),
            );
            (
                s5.push(
                    value_node(
                        NodeKind::Conditional { cond: c1, then_part: a2, else_part: b2 },
                        t.result,
                        constant,
                        location,
                    ),
                ),
                s5.next_id(),
            )
        }
    }

    /// The node of two expressions with a comma between them: the right
    /// one decays and gives the node its type; the node is no constant.
    pub open spec fn comma(self, l: usize, r: usize, location: Location) -> (State, usize) {
        let (s1, r1) = self.decay(r);
        (
            s1.push(
                value_node(NodeKind::Comma { left: l, right: r1 }, s1.ty_of(r1), None, location),
            ),
            s1.next_id(),
        )
    }

    /// The node of a subscript. The operands decay; one must be a pointer
    /// that can be stepped and the other an integer, which is promoted;
    /// the node designates the object pointed to.
    pub open spec fn index(self, base: usize, index: usize, location: Location) -> (
        State,
        usize,
    ) {
        let (s1, b1) = self.decay(base);
        let (s2, i1) = s1.decay(index);
        let a = s2.type_at(b1);
        let b = s2.type_at(i1);
        if a is Error || b is Error {
            (
                s2.push(
                    value_node(NodeKind::Index { base: b1, index: i1 }, TY_ERROR, None, location),
                ),
                s2.next_id(),
            )
        } else if a is Pointer && b is Int && steppable(s2.types, s2.target, a->to) {
            let (s3, i2) = s2.convert(i1, promoted_id(s2.target, s2.types, s2.ty_of(i1)));
            (
                s3.push(
                    Node {
                        kind: NodeKind::Index { base: b1, index: i2 },
                        ty: a->to,
                        category: Category::Object,
                        constant: None,
                        location,
                    },
                ),
                s3.next_id(),
            )
        } else if a is Int && b is Pointer && steppable(s2.types, s2.target, b->to) {
            let (s3, b2) = s2.convert(b1, promoted_id(s2.target, s2.types, s2.ty_of(b1)));
            (
                s3.push(
                    Node {
                        kind: NodeKind::Index { base: i1, index: b2 },
                        ty: b->to,
                        category: Category::Object,
                        constant: None,
                        location,
                    },
                ),
                s3.next_id(),
            )
        } else {
            s2.fail(DiagCode::TypeMismatch, location)
        }
    }

    /// The node of a cast to a type, if `cast_allowed` allows it; the node
    /// carries the converted value of a constant operand.
    pub open spec fn cast(self, to: usize, e: usize, location: Location) -> (State, usize) {
        let (s1, e1) = self.decay(e);
        if cast_allowed(s1.types, to, s1.ty_of(e1)) {
            (
                s1.push(
                    value_node(
                        NodeKind::Cast { operand: e1 },
                        to,
                        converted_constant(s1.types, s1.target, s1.constant_of(e1), to),
                        location,
                    ),
                ),
                s1.next_id(),
            )
        } else {
            s1.fail(DiagCode::TypeMismatch, location)
        }
    }

    /// The node of `sizeof` on a type: a constant of type `unsigned long`.
    /// A type without a known size is recorded as an error.
    pub open spec fn sizeof_type(self, of: usize, location: Location) -> (State, usize) {
        match size_of(self.types, self.target, of as int) {
            Some(n) => (
                self.push(
                    value_node(
                        NodeKind::SizeofType { of },
                        TY_ULONG,
                        Some(size_constant(self.target, n)),
                        location,
                    ),
                ),
                self.next_id(),
            ),
            None => self.fail(DiagCode::IncompleteType, location),
        }
    }

    /// The node of `sizeof` on an expression, which does not decay.
    pub open spec fn sizeof_expr(self, e: usize, location: Location) -> (State, usize) {
        let ty = self.ty_of(e);
        if self.types[ty as int] is Error {
            (
                self.push(
                    value_node(NodeKind::SizeofExpr { operand: e }, TY_ERROR, None, location),
                ),
                self.next_id(),
            )
        } else {
            match size_of(self.types, self.target, ty as int) {
                Some(n) => (
                    self.push(
                        value_node(
                            NodeKind::SizeofExpr { operand: e },
                            TY_ULONG,
                            Some(size_constant(self.target, n)),
                            location,
                        ),
                    ),
                    self.next_id(),
                ),
                None => self.fail(DiagCode::IncompleteType, location),
            }
        }
    }

    /// The list of the first `k` of `items` in front of the list `tail`.
    pub open spec fn link(self, items: Seq<usize>, k: int, tail: usize, location: Location) -> (
        State,
        usize,
    )
        decreases k,
    {
        if k <= 0 || k > items.len() {
            (self, tail)
        } else {
            self.push(plain_node(NodeKind::Cons { head: items[k - 1], tail }, location)).link(
                items,
                k - 1,
                self.next_id(),
                location,
            )
        }
    }

    /// The list of `items`.
    pub open spec fn make_list(self, items: Seq<usize>, location: Location) -> (State, usize) {
        self.link(items, items.len() as int, 0, location)
    }

    /// Passing the arguments from the `i`-th on to the parameters from
    /// `params` on, after `done`. Each argument is brought to the type of
    /// its parameter; an argument beyond the parameters only decays, and
    /// is one too many unless the function is variadic; a parameter
    /// beyond the arguments is one too many as well.
    pub open spec fn pass(
        self,
        args: Seq<usize>,
        i: int,
        params: usize,
        variadic: bool,
        done: Seq<usize>,
        ok: bool,
    ) -> Passed
        decreases args.len() - i,
    {
        if i < 0 || i >= args.len() {
            Passed { state: self, args: done, ok: ok && !(self.types[params as int] is Params) }
        } else {
            match self.types[params as int] {
                TypeNode::Params { head, tail } => {
                    let (s1, a1) = self.coerce(args[i], head, self.nodes[args[i] as int].location);
                    s1.pass(args, i + 1, tail, variadic, done.push(a1), ok)
                },
                _ => {
                    let (s1, a1) = self.decay(args[i]);
                    s1.pass(args, i + 1, params, variadic, done.push(a1), ok && variadic)
                },
            }
        }
    }

    /// The node of a call. The callee decays and must be a pointer to a
    /// function; the arguments are passed to its parameters, and a wrong
    /// number of them is recorded as an error; the node has the type that
    /// the function returns.
    pub open spec fn call(self, callee: usize, args: Seq<usize>, location: Location) -> (
        State,
        usize,
    ) {
        let (s1, f1) = self.decay(callee);
        match s1.type_at(f1) {
            TypeNode::Pointer { to } => match s1.types[to as int] {
                TypeNode::Function { ret, params, variadic } => {
                    let p = s1.pass(args, 0, params, variadic, Seq::empty(), true);
                    let s2 = if p.ok {
                        p.state
                    } else {
                        p.state.report(DiagCode::TypeMismatch, location)
                    };
                    let (s3, list) = s2.make_list(p.args, location);
                    (
                        s3.push(
                            value_node(
                                NodeKind::Call { callee: f1, args: list },
                                ret,
                                None,
                                location,
                            ),
                        ),
                        s3.next_id(),
                    )
                },
                _ => s1.fail(DiagCode::TypeMismatch, location),
            },
            TypeNode::Error => {
                let (s2, list) = s1.make_list(args, location);
                (
                    s2.push(
                        value_node(
                            NodeKind::Call { callee: f1, args: list },
                            TY_ERROR,
                            None,
                            location,
                        ),
                    ),
                    s2.next_id(),
                )
            },
            _ => s1.fail(DiagCode::TypeMismatch, location),
        }
    }
}

/// The type of the member `name` among the members from `fields` on.
pub open spec fn field_type(types: Seq<TypeNode>, fields: int, name: usize) -> Option<usize>
    decreases fields,
{
    if fields < 0 || fields >= types.len() {
        None
    } else {
        match types[fields] {
            TypeNode::Field { name: n, ty, tail, .. } => if n == name {
                Some(ty)
            } else if tail < fields {
                field_type(types, tail as int, name)
            } else {
                None
            },
            _ => None,
        }
    }
}

impl State {
    /// The node of a member access. With `->` the operand decays and
    /// must be a pointer to a structure or union; with `.` it must be
    /// one. The structure or union must be complete and have the member.
    /// The node has the type of the member and designates an object if
    /// the operand does or was reached through a pointer.
    pub open spec fn member(self, e: usize, name: usize, arrow: bool, location: Location) -> (
        State,
        usize,
    ) {
        let (s1, e1) = if arrow {
            self.decay(e)
        } else {
            (self, e)
        };
        let n = s1.nodes[e1 as int];
        let t = s1.types[n.ty as int];
        let record = if arrow {
            match t {
                TypeNode::Pointer { to } => to,
                _ => TY_ERROR,
            }
        } else {
            n.ty
        };
        let kind = NodeKind::Member { operand: e1, name, arrow };
        if t is Error {
            (s1.push(value_node(kind, TY_ERROR, None, location)), s1.next_id())
        } else {
            match s1.types[record as int] {
                TypeNode::Record { complete, fields, .. } => if !complete {
                    s1.fail(DiagCode::IncompleteType, location)
                } else {
                    match field_type(s1.types, fields as int, name) {
                        Some(ty) => (
                            s1.push(
                                Node {
                                    kind,
                                    ty,
                                    category: if arrow {
                                        Category::Object
                                    } else {
                                        n.category
                                    },
                                    constant: None,
                                    location,
                                },
                            ),
                            s1.next_id(),
                        ),
                        None => s1.fail(DiagCode::UndeclaredIdentifier, location),
                    }
                },
                _ => s1.fail(DiagCode::TypeMismatch, location),
            }
        }
    }
}

impl Parser {
    /// The type of a member among the members from `fields` on.
    pub fn field_type(&self, fields: usize, name: usize) -> (r: Option<usize>)
        requires
            self.wf(),
        ensures
            r == field_type(self@.types, fields as int, name),
            r matches Some(ty) ==> ty < self@.types.len(),
    {
        let mut at: usize = fields;
        loop
            invariant
                self.wf(),
                field_type(self@.types, at as int, name) == field_type(
                    self@.types,
                    fields as int,
                    name,
                ),
            decreases at,
        {
            if at >= self.type_count() {
                return None;
            }
            match self.type_node(at) {
                TypeNode::Field { name: n, ty, tail, .. } => {
                    if n == name {
                        return Some(ty);
                    }
                    if tail < at {
                        at = tail;
                    } else {
                        return None;
                    }
                },
                _ => {
                    return None;
                },
            }
        }
    }

    /// Makes the node of a member access.
    pub fn member(&mut self, e: usize, name: usize, arrow: bool, location: Location) -> (id: usize)
        requires
            old(self).wf(),
            e < old(self)@.nodes.len(),
        ensures
            final(self).wf(),
            final(self)@ == old(self)@.member(e, name, arrow, location).0,
            id == old(self)@.member(e, name, arrow, location).1,
            old(self)@.grows_to(final(self)@),
            final(self)@.pos == old(self)@.pos,
            id < final(self)@.nodes.len(),
    {
        let e1: usize = if arrow {
            self.decay(e)
        } else {
            e
        };
        let n: Node = self.node(e1);
        let t: TypeNode = self.type_node(n.ty);
        let record: usize = if arrow {
            match t {
                TypeNode::Pointer { to } => to,
                _ => TY_ERROR,
            }
        } else {
            n.ty
        };
        let kind: NodeKind = NodeKind::Member { operand: e1, name, arrow };
        if node_is_error(t) {
            return self.push(
                Node { kind, ty: TY_ERROR, category: Category::Value, constant: None, location },
            );
        }
        match self.type_node(record) {
            TypeNode::Record { complete, fields, .. } => {
                if !complete {
                    return self.fail(DiagCode::IncompleteType, location);
                }
                match self.field_type(fields, name) {
                    Some(ty) => {
                        let category: Category = if arrow {
                            Category::Object
                        } else {
                            n.category
                        };
                        self.push(Node { kind, ty, category, constant: None, location })
                    },
                    None => self.fail(DiagCode::UndeclaredIdentifier, location),
                }
            },
            _ => self.fail(DiagCode::TypeMismatch, location),
        }
    }
}

/// Whether every one of some nodes is a node of a state.
pub open spec fn all_below(items: Seq<usize>, n: int) -> bool {
    forall|k: int| 0 <= k < items.len() ==> #[trigger] items[k] < n
}

pub fn is_object(c: Category) -> (b: bool)
    ensures
        b == (c == Category::Object),
{
    match c {
        Category::Object => true,
        _ => false,
    }
}

pub fn is_value(c: Category) -> (b: bool)
    ensures
        b == (c == Category::Value),
{
    match c {
        Category::Value => true,
        _ => false,
    }
}

fn size_value(target: &Target, n: u64) -> (c: Constant)
    requires
        target.wf(),
    ensures
        c == size_constant(*target, n),
        c.wf(),
{
    let width: u8 = target.bits(IntRank::Long);
    Constant::Int(
        IntConst {
            width,
            signed: false,
            value: wrap_value(width, false, n as i128),
            overflow: false,
        },
    )
}

impl Parser {
    /// Whether a pointer to the type at a position can be stepped.
    fn can_step(&self, to: usize) -> (b: bool)
        requires
            self.wf(),
            to < self@.types.len(),
        ensures
            b == steppable(self@.types, self@.target, to),
    {
        let target = self.target();
        self.types().size(&target, to).is_some()
    }

    /// Makes the node of `*` on an operand.
    pub fn deref(&mut self, e: usize, location: Location) -> (id: usize)
        requires
            old(self).wf(),
            e < old(self)@.nodes.len(),
        ensures
            final(self).wf(),
            final(self)@ == old(self)@.deref(e, location).0,
            id == old(self)@.deref(e, location).1,
            old(self)@.grows_to(final(self)@),
            final(self)@.pos == old(self)@.pos,
            id < final(self)@.nodes.len(),
    {
        let e1: usize = self.decay(e);
        let n: Node = self.node(e1);
        match self.type_node(n.ty) {
            TypeNode::Pointer { to } => {
                let is_function: bool = match self.type_node(to) {
                    TypeNode::Function { .. } => true,
                    _ => false,
                };
                let category: Category = if is_function {
                    Category::Value
                } else {
                    Category::Object
                };
                self.push(
                    Node {
                        kind: NodeKind::Unary { op: UnaryOp::Deref, operand: e1 },
                        ty: to,
                        category,
                        constant: None,
                        location,
                    },
                )
            },
            TypeNode::Error => self.push(
                Node {
                    kind: NodeKind::Unary { op: UnaryOp::Deref, operand: e1 },
                    ty: TY_ERROR,
                    category: Category::Value,
                    constant: None,
                    location,
                },
            ),
            _ => self.fail(DiagCode::TypeMismatch, location),
        }
    }

    /// Makes the node of `&` on an operand.
    pub fn address(&mut self, e: usize, location: Location) -> (id: usize)
        requires
            old(self).wf(),
            e < old(self)@.nodes.len(),
        ensures
            final(self).wf(),
            final(self)@ == old(self)@.address(e, location).0,
            id == old(self)@.address(e, location).1,
            old(self)@.grows_to(final(self)@),
            final(self)@.pos == old(self)@.pos,
            id < final(self)@.nodes.len(),
    {
        let n: Node = self.node(e);
        let a: TypeNode = self.type_node(n.ty);
        let kind: NodeKind = NodeKind::Unary { op: UnaryOp::AddrOf, operand: e };
        let is_function: bool = match a {
            TypeNode::Function { .. } => true,
            _ => false,
        };
        if node_is_error(a) {
            self.push(
                Node { kind, ty: TY_ERROR, category: Category::Value, constant: None, location },
            )
        } else if !is_value(n.category) || is_function {
            let ty: usize = self.intern(TypeNode::Pointer { to: n.ty });
            self.push(Node { kind, ty, category: Category::Value, constant: None, location })
        } else {
            self.fail(DiagCode::InvalidLvalue, location)
        }
    }

    /// Makes the node of `++` or `--` on an operand.
    pub fn step(&mut self, op: UnaryOp, e: usize, location: Location) -> (id: usize)
        requires
            old(self).wf(),
            e < old(self)@.nodes.len(),
            op is PreInc || op is PreDec || op is PostInc || op is PostDec,
        ensures
            final(self).wf(),
            final(self)@ == old(self)@.step(op, e, location).0,
            id == old(self)@.step(op, e, location).1,
            old(self)@.grows_to(final(self)@),
            final(self)@.pos == old(self)@.pos,
            id < final(self)@.nodes.len(),
    {
        let n: Node = self.node(e);
        let a: TypeNode = self.type_node(n.ty);
        let kind: NodeKind = NodeKind::Unary { op, operand: e };
        if node_is_error(a) {
            return self.push(
                Node { kind, ty: TY_ERROR, category: Category::Value, constant: None, location },
            );
        }
        let steps: bool = match a {
            TypeNode::Pointer { to } => self.can_step(to),
            _ => node_is_arithmetic(a),
        };
        if is_object(n.category) && steps {
            self.push(Node { kind, ty: n.ty, category: Category::Value, constant: None, location })
        } else {
            self.fail(DiagCode::InvalidLvalue, location)
        }
    }

    /// Makes the node of a unary operation.
    pub fn unary(&mut self, op: UnaryOp, e: usize, location: Location) -> (id: usize)
        requires
            old(self).wf(),
            e < old(self)@.nodes.len(),
        ensures
            final(self).wf(),
            final(self)@ == old(self)@.unary(op, e, location).0,
            id == old(self)@.unary(op, e, location).1,
            old(self)@.grows_to(final(self)@),
            final(self)@.pos == old(self)@.pos,
            id < final(self)@.nodes.len(),
    {
        match op {
            UnaryOp::Deref => self.deref(e, location),
            UnaryOp::AddrOf => self.address(e, location),
            UnaryOp::PreInc | UnaryOp::PreDec | UnaryOp::PostInc | UnaryOp::PostDec => self.step(
                op,
                e,
                location,
            ),
            _ => self.unary_value(op, e, location),
        }
    }

    /// Brings an expression to the type of an object it is stored in.
    pub fn coerce(&mut self, e: usize, to: usize, location: Location) -> (id: usize)
        requires
            old(self).wf(),
            e < old(self)@.nodes.len(),
            to < old(self)@.types.len(),
        ensures
            final(self).wf(),
            final(self)@ == old(self)@.coerce(e, to, location).0,
            id == old(self)@.coerce(e, to, location).1,
            old(self)@.grows_to(final(self)@),
            final(self)@.pos == old(self)@.pos,
            id < final(self)@.nodes.len(),
    {
        let e1: usize = self.decay(e);
        let target = self.target();
        let n: Node = self.node(e1);
        let conv: Conversion = convert_for_assignment(self.types(), &target, to, n.ty, n.constant);
        match conv {
            Conversion::Mismatch => self.fail(DiagCode::TypeMismatch, location),
            Conversion::Lossy => {
                self.report(DiagCode::LossyConversion, location);
                self.convert(e1, to)
            },
            _ => self.convert(e1, to),
        }
    }

    /// Makes the node of a simple assignment.
    pub fn assign(&mut self, target: usize, value: usize, location: Location) -> (id: usize)
        requires
            old(self).wf(),
            target < old(self)@.nodes.len(),
            value < old(self)@.nodes.len(),
        ensures
            final(self).wf(),
            final(self)@ == old(self)@.assign(target, value, location).0,
            id == old(self)@.assign(target, value, location).1,
            old(self)@.grows_to(final(self)@),
            final(self)@.pos == old(self)@.pos,
            id < final(self)@.nodes.len(),
    {
        let t: Node = self.node(target);
        let a: TypeNode = self.type_node(t.ty);
        let fixed: bool = match a {
            TypeNode::Array { .. } => true,
            TypeNode::Function { .. } => true,
            _ => false,
        };
        if node_is_error(a) {
            let v1: usize = self.decay(value);
            self.push(
                Node {
                    kind: NodeKind::Assign {
                        compound: false,
                        with: BinaryOp::Add,
                        target,
                        value: v1,
                    },
                    ty: TY_ERROR,
                    category: Category::Value,
                    constant: None,
                    location,
                },
            )
        } else if !is_object(t.category) || fixed {
            self.fail(DiagCode::InvalidLvalue, location)
        } else {
            let v1: usize = self.coerce(value, t.ty, location);
            self.push(
                Node {
                    kind: NodeKind::Assign {
                        compound: false,
                        with: BinaryOp::Add,
                        target,
                        value: v1,
                    },
                    ty: t.ty,
                    category: Category::Value,
                    constant: None,
                    location,
                },
            )
        }
    }

    /// Makes the node of a compound assignment.
    pub fn assign_with(&mut self, op: BinaryOp, target: usize, value: usize, location: Location) -> (id:
        usize)
        requires
            old(self).wf(),
            target < old(self)@.nodes.len(),
            value < old(self)@.nodes.len(),
        ensures
            final(self).wf(),
            final(self)@ == old(self)@.assign_with(op, target, value, location).0,
            id == old(self)@.assign_with(op, target, value, location).1,
            old(self)@.grows_to(final(self)@),
            final(self)@.pos == old(self)@.pos,
            id < final(self)@.nodes.len(),
    {
        let v1: usize = self.decay(value);
        let tgt = self.target();
        let t: Node = self.node(target);
        let a: TypeNode = self.type_node(t.ty);
        let v: Node = self.node(v1);
        let kind: NodeKind = NodeKind::Assign { compound: true, with: op, target, value: v1 };
        let fixed: bool = match a {
            TypeNode::Array { .. } => true,
            TypeNode::Function { .. } => true,
            _ => false,
        };
        if node_is_error(a) || node_is_error(self.type_node(v.ty)) {
            return self.push(
                Node { kind, ty: TY_ERROR, category: Category::Value, constant: None, location },
            );
        }
        if !is_object(t.category) || fixed {
            return self.fail(DiagCode::InvalidLvalue, location);
        }
        let bt: Typing = type_binary(
            self.types(),
            &tgt,
            op,
            t.ty,
            v.ty,
            false,
            constant_is_null(v.constant),
        );
        let conv: Conversion = convert_for_assignment(self.types(), &tgt, t.ty, bt.result, None);
        let mismatch: bool = match conv {
            Conversion::Mismatch => true,
            _ => false,
        };
        if !bt.ok || mismatch {
            return self.fail(DiagCode::TypeMismatch, location);
        }
        match conv {
            Conversion::Lossy => {
                self.report(DiagCode::LossyConversion, location);
            },
            _ => {},
        }
        let v2: usize = self.convert(v1, bt.right);
        self.push(
            Node {
                kind: NodeKind::Assign { compound: true, with: op, target, value: v2 },
                ty: t.ty,
                category: Category::Value,
                constant: None,
                location,
            },
        )
    }

    /// Makes the node of the conditional operator.
    #[verifier::rlimit(80)]
    pub fn conditional(&mut self, c: usize, a: usize, b: usize, location: Location) -> (id: usize)
        requires
            old(self).wf(),
            c < old(self)@.nodes.len(),
            a < old(self)@.nodes.len(),
            b < old(self)@.nodes.len(),
        ensures
            final(self).wf(),
            final(self)@ == old(self)@.conditional(c, a, b, location).0,
            id == old(self)@.conditional(c, a, b, location).1,
            old(self)@.grows_to(final(self)@),
            final(self)@.pos == old(self)@.pos,
            id < final(self)@.nodes.len(),
    {
        let c1: usize = self.decay(c);
        let a1: usize = self.decay(a);
        let b1: usize = self.decay(b);
        let target = self.target();
        let an: Node = self.node(a1);
        let bn: Node = self.node(b1);
        let t: Typing = type_conditional(
            self.types(),
            &target,
            an.ty,
            bn.ty,
            constant_is_null(an.constant),
            constant_is_null(bn.constant),
        );
        let ct: TypeNode = self.type_node(self.node(c1).ty);
        if !(node_is_error(ct) || node_is_scalar(ct)) || !t.ok {
            return self.fail(DiagCode::TypeMismatch, location);
        }
        let a2: usize = self.convert(a1, t.left);
        let b2: usize = self.convert(b1, t.right);
        let constant: Option<Constant> = match (
            self.node(c1).constant,
            self.node(a2).constant,
            self.node(b2).constant,
        ) {
            (Some(x), Some(y), Some(z)) => match fold_conditional(x, y, z) {
                Folded::Value(v) => Some(v),
                _ => None,
            },
            _ => None,
        };
        self.push(
            Node {
                kind: NodeKind::Conditional { cond: c1, then_part: a2, else_part: b2 },
                ty: t.result,
                category: Category::Value,
                constant,
                location,
            },
        )
    }

    /// Makes the node of two expressions with a comma between them.
    pub fn comma(&mut self, l: usize, r: usize, location: Location) -> (id: usize)
        requires
            old(self).wf(),
            l < old(self)@.nodes.len(),
            r < old(self)@.nodes.len(),
        ensures
            final(self).wf(),
            final(self)@ == old(self)@.comma(l, r, location).0,
            id == old(self)@.comma(l, r, location).1,
            old(self)@.grows_to(final(self)@),
            final(self)@.pos == old(self)@.pos,
            id < final(self)@.nodes.len(),
    {
        let r1: usize = self.decay(r);
        let ty: usize = self.node(r1).ty;
        self.push(
            Node {
                kind: NodeKind::Comma { left: l, right: r1 },
                ty,
                category: Category::Value,
                constant: None,
                location,
            },
        )
    }

    /// Makes the node of a subscript.
    pub fn index(&mut self, base: usize, index: usize, location: Location) -> (id: usize)
        requires
            old(self).wf(),
            base < old(self)@.nodes.len(),
            index < old(self)@.nodes.len(),
        ensures
            final(self).wf(),
            final(self)@ == old(self)@.index(base, index, location).0,
            id == old(self)@.index(base, index, location).1,
            old(self)@.grows_to(final(self)@),
            final(self)@.pos == old(self)@.pos,
            id < final(self)@.nodes.len(),
    {
        let b1: usize = self.decay(base);
        let i1: usize = self.decay(index);
        let target = self.target();
        let bn: Node = self.node(b1);
        let n: Node = self.node(i1);
        let a: TypeNode = self.type_node(bn.ty);
        let b: TypeNode = self.type_node(n.ty);
        if node_is_error(a) || node_is_error(b) {
            return self.push(
                Node {
                    kind: NodeKind::Index { base: b1, index: i1 },
                    ty: TY_ERROR,
                    category: Category::Value,
                    constant: None,
                    location,
                },
            );
        }
        match (a, b) {
            (TypeNode::Pointer { to }, TypeNode::Int { .. }) => {
                if self.can_step(to) {
                    let p: usize = promoted_type(&target, self.types(), n.ty);
                    let i2: usize = self.convert(i1, p);
                    return self.push(
                        Node {
                            kind: NodeKind::Index { base: b1, index: i2 },
                            ty: to,
                            category: Category::Object,
                            constant: None,
                            location,
                        },
                    );
                }
            },
            (TypeNode::Int { .. }, TypeNode::Pointer { to }) => {
                if self.can_step(to) {
                    let p: usize = promoted_type(&target, self.types(), bn.ty);
                    let b2: usize = self.convert(b1, p);
                    return self.push(
                        Node {
                            kind: NodeKind::Index { base: i1, index: b2 },
                            ty: to,
                            category: Category::Object,
                            constant: None,
                            location,
                        },
                    );
                }
            },
            _ => {},
        }
        self.fail(DiagCode::TypeMismatch, location)
    }

    /// Makes the node of a cast.
    pub fn cast(&mut self, to: usize, e: usize, location: Location) -> (id: usize)
        requires
            old(self).wf(),
            e < old(self)@.nodes.len(),
            to < old(self)@.types.len(),
        ensures
            final(self).wf(),
            final(self)@ == old(self)@.cast(to, e, location).0,
            id == old(self)@.cast(to, e, location).1,
            old(self)@.grows_to(final(self)@),
            final(self)@.pos == old(self)@.pos,
            id < final(self)@.nodes.len(),
    {
        let e1: usize = self.decay(e);
        let target = self.target();
        let n: Node = self.node(e1);
        if can_cast(self.types(), to, n.ty) {
            let constant: Option<Constant> = convert_constant(
                self.types(),
                &target,
                n.constant,
                to,
            );
            self.push(
                Node {
                    kind: NodeKind::Cast { operand: e1 },
                    ty: to,
                    category: Category::Value,
                    constant,
                    location,
                },
            )
        } else {
            self.fail(DiagCode::TypeMismatch, location)
        }
    }

    /// Makes the node of `sizeof` on a type.
    pub fn sizeof_type(&mut self, of: usize, location: Location) -> (id: usize)
        requires
            old(self).wf(),
            of < old(self)@.types.len(),
        ensures
            final(self).wf(),
            final(self)@ == old(self)@.sizeof_type(of, location).0,
            id == old(self)@.sizeof_type(of, location).1,
            old(self)@.grows_to(final(self)@),
            final(self)@.pos == old(self)@.pos,
            id < final(self)@.nodes.len(),
    {
        let target = self.target();
        match self.types().size(&target, of) {
            Some(n) => self.push(
                Node {
                    kind: NodeKind::SizeofType { of },
                    ty: TY_ULONG,
                    category: Category::Value,
                    constant: Some(size_value(&target, n)),
                    location,
                },
            ),
            None => self.fail(DiagCode::IncompleteType, location),
        }
    }

    /// Makes the node of `sizeof` on an expression.
    pub fn sizeof_expr(&mut self, e: usize, location: Location) -> (id: usize)
        requires
            old(self).wf(),
            e < old(self)@.nodes.len(),
        ensures
            final(self).wf(),
            final(self)@ == old(self)@.sizeof_expr(e, location).0,
            id == old(self)@.sizeof_expr(e, location).1,
            old(self)@.grows_to(final(self)@),
            final(self)@.pos == old(self)@.pos,
            id < final(self)@.nodes.len(),
    {
        let target = self.target();
        let ty: usize = self.node(e).ty;
        if node_is_error(self.type_node(ty)) {
            return self.push(
                Node {
                    kind: NodeKind::SizeofExpr { operand: e },
                    ty: TY_ERROR,
                    category: Category::Value,
                    constant: None,
                    location,
                },
            );
        }
        match self.types().size(&target, ty) {
            Some(n) => self.push(
                Node {
                    kind: NodeKind::SizeofExpr { operand: e },
                    ty: TY_ULONG,
                    category: Category::Value,
                    constant: Some(size_value(&target, n)),
                    location,
                },
            ),
            None => self.fail(DiagCode::IncompleteType, location),
        }
    }

    /// Makes the list of some nodes.
    pub fn make_list(&mut self, items: &Vec<usize>, location: Location) -> (list: usize)
        requires
            old(self).wf(),
            all_below(items@, old(self)@.nodes.len() as int),
        ensures
            final(self).wf(),
            final(self)@ == old(self)@.make_list(items@, location).0,
            list == old(self)@.make_list(items@, location).1,
            old(self)@.grows_to(final(self)@),
            final(self)@.pos == old(self)@.pos,
            final(self)@.types == old(self)@.types,
            list < final(self)@.nodes.len(),
    {
        let mut k: usize = items.len();
        let mut tail: usize = 0;
        while k > 0
            invariant
                self.wf(),
                self@.wf(),
                k <= items@.len(),
                tail < self@.nodes.len(),
                all_below(items@, self@.nodes.len() as int),
                old(self)@.grows_to(self@),
                self@.pos == old(self)@.pos,
                self@.types == old(self)@.types,
                self@.link(items@, k as int, tail, location) == old(self)@.make_list(
                    items@,
                    location,
                ),
            decreases k,
        {
            let node: Node = make_plain(NodeKind::Cons { head: items[k - 1], tail }, location);
            tail = self.push(node);
            k = k - 1;
        }
        tail
    }

    /// Passes the arguments of a call to the parameters from `params` on.
    /// The result holds the arguments as they are passed and says whether
    /// their number is right.
    pub fn pass(&mut self, args: &Vec<usize>, params: usize, variadic: bool) -> (r: (
        Vec<usize>,
        bool,
    ))
        requires
            old(self).wf(),
            all_below(args@, old(self)@.nodes.len() as int),
            params < old(self)@.types.len(),
        ensures
            final(self).wf(),
            ({
                let p = old(self)@.pass(args@, 0, params, variadic, Seq::empty(), true);
                &&& final(self)@ == p.state
                &&& r.0@ == p.args
                &&& r.1 == p.ok
            }),
            old(self)@.grows_to(final(self)@),
            final(self)@.pos == old(self)@.pos,
            all_below(r.0@, final(self)@.nodes.len() as int),
    {
        let mut done: Vec<usize> = Vec::new();
        let mut ok: bool = true;
        let mut at: usize = params;
        let mut i: usize = 0;
        while i < args.len()
            invariant
                self.wf(),
                self@.wf(),
                i <= args@.len(),
                at < self@.types.len(),
                all_below(args@, self@.nodes.len() as int),
                all_below(done@, self@.nodes.len() as int),
                old(self)@.grows_to(self@),
                self@.pos == old(self)@.pos,
                self@.pass(args@, i as int, at, variadic, done@, ok) == old(self)@.pass(
                    args@,
                    0,
                    params,
                    variadic,
                    Seq::empty(),
                    true,
                ),
            decreases args@.len() - i,
        {
            let arg: usize = args[i];
            match self.type_node(at) {
                TypeNode::Params { head, tail } => {
                    let location: Location = self.node(arg).location;
                    let a1: usize = self.coerce(arg, head, location);
                    done.push(a1);
                    at = tail;
                },
                _ => {
                    let a1: usize = self.decay(arg);
                    done.push(a1);
                    ok = ok && variadic;
                },
            }
            i = i + 1;
        }
        let more: bool = match self.type_node(at) {
            TypeNode::Params { .. } => true,
            _ => false,
        };
        (done, ok && !more)
    }

    /// Makes the node of a call.
    pub fn call(&mut self, callee: usize, args: &Vec<usize>, location: Location) -> (id: usize)
        requires
            old(self).wf(),
            callee < old(self)@.nodes.len(),
            all_below(args@, old(self)@.nodes.len() as int),
        ensures
            final(self).wf(),
            final(self)@ == old(self)@.call(callee, args@, location).0,
            id == old(self)@.call(callee, args@, location).1,
            old(self)@.grows_to(final(self)@),
            final(self)@.pos == old(self)@.pos,
            id < final(self)@.nodes.len(),
    {
        let f1: usize = self.decay(callee);
        let n: Node = self.node(f1);
        match self.type_node(n.ty) {
            TypeNode::Pointer { to } => match self.type_node(to) {
                TypeNode::Function { ret, params, variadic } => {
                    let (passed, ok) = self.pass(args, params, variadic);
                    if !ok {
                        self.report(DiagCode::TypeMismatch, location);
                    }
                    let list: usize = self.make_list(&passed, location);
                    self.push(
                        Node {
                            kind: NodeKind::Call { callee: f1, args: list },
                            ty: ret,
                            category: Category::Value,
                            constant: None,
                            location,
                        },
                    )
                },
                _ => self.fail(DiagCode::TypeMismatch, location),
            },
            TypeNode::Error => {
                let list: usize = self.make_list(args, location);
                self.push(
                    Node {
                        kind: NodeKind::Call { callee: f1, args: list },
                        ty: TY_ERROR,
                        category: Category::Value,
                        constant: None,
                        location,
                    },
                )
            },
            _ => self.fail(DiagCode::TypeMismatch, location),
        }
    }
}

/// A failed analysis is recorded and does not stop the parse: one error
/// more is recorded, the node that stands for the expression has the
/// sentinel type, and nothing else changes; the place reached and the
/// record of the depth sentinel are as before.
pub proof fn lemma_failure_is_recorded(s: State, code: DiagCode, location: Location)
    requires
        code.severity_of() == Severity::Error,
        s.nodes.len() <= usize::MAX,
    ensures
        ({
            let (t, e) = s.fail(code, location);
            &&& t.errors == s.errors.push(Diagnostic { severity: Severity::Error, code, location })
            &&& t.warnings == s.warnings
            &&& e == s.nodes.len()
            &&& t.nodes == s.nodes.push(error_node(location))
            &&& t.nodes[e as int].ty == TY_ERROR
            &&& t.pos == s.pos
            &&& t.tokens == s.tokens
            &&& t.fatal == s.fatal
            &&& t.scopes == s.scopes
            &&& t.types == s.types
        }),
{
}

/// The use of an undeclared identifier is a failed analysis of that kind.
pub proof fn lemma_undeclared_identifier(s: State, name: usize, location: Location)
    requires
        s.scopes.resolve(name) is None,
        s.nodes.len() <= usize::MAX,
    ensures
        s.ident(name, location) == s.fail(DiagCode::UndeclaredIdentifier, location),
        s.ident(name, location).0.errors.len() == s.errors.len() + 1,
        s.ident(name, location).0.nodes[s.ident(name, location).1 as int].ty == TY_ERROR,
{
}

/// A left operand of the sentinel type, which has no value, makes a
/// binary operation of the sentinel type and no new diagnostic: one
/// failure is reported once.
pub proof fn lemma_sentinel_is_silent(
    s: State,
    op: BinaryOp,
    l: usize,
    r: usize,
    location: Location,
)
    requires
        s.wf(),
        s.nodes.len() <= usize::MAX,
        l < s.nodes.len(),
        r < s.nodes.len(),
        s.type_at(l) is Error,
        s.constant_of(l) is None,
        s.type_at(r) is Error || s.type_at(r) is Int,
    ensures
        ({
            let (t, e) = s.binary(op, l, r, location);
            &&& t.errors == s.errors
            &&& t.warnings == s.warnings
            &&& t.nodes[e as int].ty == TY_ERROR
            &&& t.nodes[e as int].constant is None
        }),
{
}

} // verus!
