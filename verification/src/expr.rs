//! The parser of expressions: precedence climbing for the binary
//! operators, and one procedure each for what binds tighter or looser.
//!
//! The depth sentinel is consulted where the recursion can nest without
//! bound: before the operand of a prefix operator (which is where every
//! parenthesis leads), before the branches of a conditional, and before
//! the right side of an assignment.

use vstd::prelude::*;
use crate::analyze::all_below;
use crate::analyze::error_node;
use crate::ast::Category;
use crate::ast::Node;
use crate::ast::NodeKind;
use crate::error::DiagCode;
use crate::error::Location;
use crate::fold::BinaryOp;
use crate::fold::UnaryOp;
use crate::guard::Level;
use crate::guard::RecursionGuard;
use crate::state::Parser;
use crate::state::State;
use crate::token::Keyword;
use crate::token::Punct;
use crate::token::TokenKind;
use crate::typename::kind_starts_type;
use crate::typename::starts_type;
use crate::types::TY_ERROR;

verus! {

/// A binary operator and how tightly it binds: a higher level binds
/// tighter.
#[derive(Clone, Copy, Debug, PartialEq, Eq, Structural)]
pub struct Infix {
    pub op: BinaryOp,
    pub level: u8,
}

/// An assignment operator: whether it is compound, and with which
/// operator.
#[derive(Clone, Copy, Debug, PartialEq, Eq, Structural)]
pub struct Assignment {
    pub compound: bool,
    pub op: BinaryOp,
}

/// The binary operator that a token is, and its level.
pub open spec fn infix(kind: TokenKind) -> Option<Infix> {
    match kind {
        TokenKind::Punct(p) => match p {
            Punct::OrOr => Some(Infix { op: BinaryOp::LogOr, level: 1 }),
            Punct::AndAnd => Some(Infix { op: BinaryOp::LogAnd, level: 2 }),
            Punct::Pipe => Some(Infix { op: BinaryOp::BitOr, level: 3 }),
            Punct::Caret => Some(Infix { op: BinaryOp::BitXor, level: 4 }),
            Punct::Amp => Some(Infix { op: BinaryOp::BitAnd, level: 5 }),
            Punct::EqEq => Some(Infix { op: BinaryOp::Eq, level: 6 }),
            Punct::Ne => Some(Infix { op: BinaryOp::Ne, level: 6 }),
            Punct::Lt => Some(Infix { op: BinaryOp::Lt, level: 7 }),
            Punct::Gt => Some(Infix { op: BinaryOp::Gt, level: 7 }),
            Punct::Le => Some(Infix { op: BinaryOp::Le, level: 7 }),
            Punct::Ge => Some(Infix { op: BinaryOp::Ge, level: 7 }),
            Punct::Shl => Some(Infix { op: BinaryOp::Shl, level: 8 }),
            Punct::Shr => Some(Infix { op: BinaryOp::Shr, level: 8 }),
            Punct::Plus => Some(Infix { op: BinaryOp::Add, level: 9 }),
            Punct::Minus => Some(Infix { op: BinaryOp::Sub, level: 9 }),
            Punct::Star => Some(Infix { op: BinaryOp::Mul, level: 10 }),
            Punct::Slash => Some(Infix { op: BinaryOp::Div, level: 10 }),
            Punct::Percent => Some(Infix { op: BinaryOp::Rem, level: 10 }),
            _ => None,
        },
        _ => None,
    }
}

/// The assignment operator that a token is.
pub open spec fn assignment_op(kind: TokenKind) -> Option<Assignment> {
    match kind {
        TokenKind::Punct(p) => match p {
            Punct::Assign => Some(Assignment { compound: false, op: BinaryOp::Add }),
            Punct::PlusAssign => Some(Assignment { compound: true, op: BinaryOp::Add }),
            Punct::MinusAssign => Some(Assignment { compound: true, op: BinaryOp::Sub }),
            Punct::StarAssign => Some(Assignment { compound: true, op: BinaryOp::Mul }),
            Punct::SlashAssign => Some(Assignment { compound: true, op: BinaryOp::Div }),
            Punct::PercentAssign => Some(Assignment { compound: true, op: BinaryOp::Rem }),
            Punct::AmpAssign => Some(Assignment { compound: true, op: BinaryOp::BitAnd }),
            Punct::PipeAssign => Some(Assignment { compound: true, op: BinaryOp::BitOr }),
            Punct::CaretAssign => Some(Assignment { compound: true, op: BinaryOp::BitXor }),
            Punct::ShlAssign => Some(Assignment { compound: true, op: BinaryOp::Shl }),
            Punct::ShrAssign => Some(Assignment { compound: true, op: BinaryOp::Shr }),
            _ => None,
        },
        _ => None,
    }
}

/// The prefix operator that a token is.
pub open spec fn prefix_op(kind: TokenKind) -> Option<UnaryOp> {
    match kind {
        TokenKind::Punct(p) => match p {
            Punct::Plus => Some(UnaryOp::Plus),
            Punct::Minus => Some(UnaryOp::Neg),
            Punct::Tilde => Some(UnaryOp::BitNot),
            Punct::Bang => Some(UnaryOp::LogNot),
            Punct::Star => Some(UnaryOp::Deref),
            Punct::Amp => Some(UnaryOp::AddrOf),
            Punct::PlusPlus => Some(UnaryOp::PreInc),
            Punct::MinusMinus => Some(UnaryOp::PreDec),
            _ => None,
        },
        _ => None,
    }
}

pub fn infix_of(kind: TokenKind) -> (r: Option<Infix>)
    ensures
        r == infix(kind),
        r matches Some(i) ==> 1 <= i.level <= 10,
{
    match kind {
        TokenKind::Punct(p) => match p {
            Punct::OrOr => Some(Infix { op: BinaryOp::LogOr, level: 1 }),
            Punct::AndAnd => Some(Infix { op: BinaryOp::LogAnd, level: 2 }),
            Punct::Pipe => Some(Infix { op: BinaryOp::BitOr, level: 3 }),
            Punct::Caret => Some(Infix { op: BinaryOp::BitXor, level: 4 }),
            Punct::Amp => Some(Infix { op: BinaryOp::BitAnd, level: 5 }),
            Punct::EqEq => Some(Infix { op: BinaryOp::Eq, level: 6 }),
            Punct::Ne => Some(Infix { op: BinaryOp::Ne, level: 6 }),
            Punct::Lt => Some(Infix { op: BinaryOp::Lt, level: 7 }),
            Punct::Gt => Some(Infix { op: BinaryOp::Gt, level: 7 }),
            Punct::Le => Some(Infix { op: BinaryOp::Le, level: 7 }),
            Punct::Ge => Some(Infix { op: BinaryOp::Ge, level: 7 }),
            Punct::Shl => Some(Infix { op: BinaryOp::Shl, level: 8 }),
            Punct::Shr => Some(Infix { op: BinaryOp::Shr, level: 8 }),
            Punct::Plus => Some(Infix { op: BinaryOp::Add, level: 9 }),
            Punct::Minus => Some(Infix { op: BinaryOp::Sub, level: 9 }),
            Punct::Star => Some(Infix { op: BinaryOp::Mul, level: 10 }),
            Punct::Slash => Some(Infix { op: BinaryOp::Div, level: 10 }),
            Punct::Percent => Some(Infix { op: BinaryOp::Rem, level: 10 }),
            _ => None,
        },
        _ => None,
    }
}

pub fn assignment_of(kind: TokenKind) -> (r: Option<Assignment>)
    ensures
        r == assignment_op(kind),
{
    match kind {
        TokenKind::Punct(p) => match p {
            Punct::Assign => Some(Assignment { compound: false, op: BinaryOp::Add }),
            Punct::PlusAssign => Some(Assignment { compound: true, op: BinaryOp::Add }),
            Punct::MinusAssign => Some(Assignment { compound: true, op: BinaryOp::Sub }),
            Punct::StarAssign => Some(Assignment { compound: true, op: BinaryOp::Mul }),
            Punct::SlashAssign => Some(Assignment { compound: true, op: BinaryOp::Div }),
            Punct::PercentAssign => Some(Assignment { compound: true, op: BinaryOp::Rem }),
            Punct::AmpAssign => Some(Assignment { compound: true, op: BinaryOp::BitAnd }),
            Punct::PipeAssign => Some(Assignment { compound: true, op: BinaryOp::BitOr }),
            Punct::CaretAssign => Some(Assignment { compound: true, op: BinaryOp::BitXor }),
            Punct::ShlAssign => Some(Assignment { compound: true, op: BinaryOp::Shl }),
            Punct::ShrAssign => Some(Assignment { compound: true, op: BinaryOp::Shr }),
            _ => None,
        },
        _ => None,
    }
}

pub fn prefix_of(kind: TokenKind) -> (r: Option<UnaryOp>)
    ensures
        r == prefix_op(kind),
{
    match kind {
        TokenKind::Punct(p) => match p {
            Punct::Plus => Some(UnaryOp::Plus),
            Punct::Minus => Some(UnaryOp::Neg),
            Punct::Tilde => Some(UnaryOp::BitNot),
            Punct::Bang => Some(UnaryOp::LogNot),
            Punct::Star => Some(UnaryOp::Deref),
            Punct::Amp => Some(UnaryOp::AddrOf),
            Punct::PlusPlus => Some(UnaryOp::PreInc),
            Punct::MinusMinus => Some(UnaryOp::PreDec),
            _ => None,
        },
        _ => None,
    }
}

impl State {
    /// What stands in for an expression that lies too deep: a node of the
    /// sentinel type, without a diagnostic of its own.
    pub open spec fn too_deep(self, location: Location) -> (State, usize) {
        (self.push(error_node(location)), self.next_id())
    }

    /// A primary expression: an identifier, a literal, or an expression in
    /// parentheses. Any other token is recorded as unexpected and is not
    /// stepped over.
    pub open spec fn primary(self, g: Level) -> (State, usize)
        decreases g.max - g.depth, self.tokens.len() - self.pos, 0int,
        when self.in_tokens()
    {
        let loc = self.here();
        match self.kind() {
            TokenKind::Ident(name) => self.advance().ident(name, loc),
            TokenKind::Int(_) | TokenKind::Char(_) | TokenKind::Float(_) | TokenKind::Str(_) => {
                self.advance().literal(self.kind(), loc)
            },
            TokenKind::Punct(Punct::LParen) => {
                let (s1, e) = self.advance().expr(g);
                (s1.expect(Punct::RParen), e)
            },
            _ => self.fail(DiagCode::UnexpectedToken, loc),
        }
    }

    /// The postfix operators that follow the expression `e`: subscripts,
    /// calls, member accesses, `++` and `--`, applied one after another.
    pub open spec fn postfix_rest(self, g: Level, e: usize) -> (State, usize)
        decreases g.max - g.depth, self.tokens.len() - self.pos, 1int,
        when self.in_tokens()
    {
        let loc = self.here();
        if self.at_punct(Punct::LBracket) {
            let (s1, i) = self.advance().expr(g);
            let (s2, node) = s1.expect(Punct::RBracket).index(e, i, loc);
            if self.passed_by(s2) {
                s2.postfix_rest(g, node)
            } else {
                (s2, node)
            }
        } else if self.at_punct(Punct::LParen) {
            let (s1, args) = self.advance().arguments(g, Seq::empty());
            let (s2, node) = s1.expect(Punct::RParen).call(e, args, loc);
            if self.passed_by(s2) {
                s2.postfix_rest(g, node)
            } else {
                (s2, node)
            }
        } else if self.at_punct(Punct::Dot) || self.at_punct(Punct::Arrow) {
            let s1 = self.advance();
            let (s2, node) = match s1.kind() {
                TokenKind::Ident(name) => s1.advance().member(
                    e,
                    name,
                    self.at_punct(Punct::Arrow),
                    loc,
                ),
                _ => s1.fail(DiagCode::UnexpectedToken, loc),
            };
            if self.passed_by(s2) {
                s2.postfix_rest(g, node)
            } else {
                (s2, node)
            }
        } else if self.at_punct(Punct::PlusPlus) || self.at_punct(Punct::MinusMinus) {
            let op = if self.at_punct(Punct::PlusPlus) {
                UnaryOp::PostInc
            } else {
                UnaryOp::PostDec
            };
            let (s2, node) = self.advance().step(op, e, loc);
            if self.passed_by(s2) {
                s2.postfix_rest(g, node)
            } else {
                (s2, node)
            }
        } else {
            (self, e)
        }
    }

    /// A postfix expression: a primary expression and the postfix
    /// operators that follow it.
    pub open spec fn postfix(self, g: Level) -> (State, usize)
        decreases g.max - g.depth, self.tokens.len() - self.pos, 2int,
        when self.in_tokens()
    {
        let (s1, e) = self.primary(g);
        if self.reached_by(s1) {
            s1.postfix_rest(g, e)
        } else {
            (s1, e)
        }
    }

    /// A unary expression. The depth sentinel is consulted first; past the
    /// limit the expression is not parsed. Else the expression is a prefix
    /// operator on a unary expression, `sizeof` on a type name in
    /// parentheses or on a unary expression, a cast, or a postfix
    /// expression.
    pub open spec fn prefix(self, g: Level) -> (State, usize)
        decreases g.max - g.depth, self.tokens.len() - self.pos, 3int,
        when self.in_tokens()
    {
        let loc = self.here();
        let s0 = self.enter(g);
        let d = g.deeper();
        if !g.may_enter() {
            s0.too_deep(loc)
        } else {
            match prefix_op(s0.kind()) {
                Some(op) => {
                    let (s1, e) = s0.advance().prefix(d);
                    s1.unary(op, e, loc)
                },
                None => if s0.at_keyword(Keyword::Sizeof) {
                    let s1 = s0.advance();
                    if s1.at_punct(Punct::LParen) && starts_type(s1.kind_ahead(1)) {
                        let (s2, ty) = s1.advance().named_type(d);
                        s2.expect(Punct::RParen).sizeof_type(ty, loc)
                    } else {
                        let (s2, e) = s1.prefix(d);
                        s2.sizeof_expr(e, loc)
                    }
                } else if s0.at_punct(Punct::LParen) && starts_type(s0.kind_ahead(1)) {
                    let (s1, ty) = s0.advance().named_type(d);
                    let (s2, e) = s1.expect(Punct::RParen).prefix(d);
                    s2.cast(ty, e, loc)
                } else {
                    s0.postfix(d)
                },
            }
        }
    }

    /// The binary operators of level `min` or tighter that follow the
    /// expression `lhs`, applied from left to right; the right operand of
    /// each is an expression of operators that bind tighter than it.
    pub open spec fn binary_rest(self, g: Level, min: nat, lhs: usize) -> (State, usize)
        decreases g.max - g.depth, self.tokens.len() - self.pos, 4int,
        when self.in_tokens()
    {
        match infix(self.kind()) {
            Some(i) => if i.level >= min {
                let loc = self.here();
                let (s1, rhs) = self.advance().binary_level(g, (i.level + 1) as nat);
                let (s2, node) = s1.binary(i.op, lhs, rhs, loc);
                if self.passed_by(s2) {
                    s2.binary_rest(g, min, node)
                } else {
                    (s2, node)
                }
            } else {
                (self, lhs)
            },
            None => (self, lhs),
        }
    }

    /// An expression of binary operators of level `min` or tighter.
    pub open spec fn binary_level(self, g: Level, min: nat) -> (State, usize)
        decreases g.max - g.depth, self.tokens.len() - self.pos, 5int,
        when self.in_tokens()
    {
        let (s1, lhs) = self.prefix(g);
        if self.reached_by(s1) {
            s1.binary_rest(g, min, lhs)
        } else {
            (s1, lhs)
        }
    }

    /// A conditional expression. The depth sentinel is consulted before
    /// the branches are parsed.
    pub open spec fn ternary(self, g: Level) -> (State, usize)
        decreases g.max - g.depth, self.tokens.len() - self.pos, 6int,
        when self.in_tokens()
    {
        let (s1, c) = self.binary_level(g, 1);
        if s1.at_punct(Punct::Question) {
            let loc = s1.here();
            let s2 = s1.advance().enter(g);
            if !g.may_enter() {
                s2.too_deep(loc)
            } else {
                let (s3, a) = s2.expr(g.deeper());
                let (s4, b) = s3.expect(Punct::Colon).ternary(g.deeper());
                s4.conditional(c, a, b, loc)
            }
        } else {
            (s1, c)
        }
    }

    /// An assignment expression. The depth sentinel is consulted before
    /// the right side is parsed.
    pub open spec fn assignment(self, g: Level) -> (State, usize)
        decreases g.max - g.depth, self.tokens.len() - self.pos, 7int,
        when self.in_tokens()
    {
        let (s1, lhs) = self.ternary(g);
        match assignment_op(s1.kind()) {
            Some(a) => {
                let loc = s1.here();
                let s2 = s1.advance().enter(g);
                if !g.may_enter() {
                    s2.too_deep(loc)
                } else {
                    let (s3, rhs) = s2.assignment(g.deeper());
                    if a.compound {
                        s3.assign_with(a.op, lhs, rhs, loc)
                    } else {
                        s3.assign(lhs, rhs, loc)
                    }
                }
            },
            None => (s1, lhs),
        }
    }

    /// The assignment expressions that follow the expression `lhs`, each
    /// after a comma, joined from left to right.
    pub open spec fn comma_rest(self, g: Level, lhs: usize) -> (State, usize)
        decreases g.max - g.depth, self.tokens.len() - self.pos, 7int,
        when self.in_tokens()
    {
        if self.at_punct(Punct::Comma) {
            let loc = self.here();
            let (s1, rhs) = self.advance().assignment(g);
            let (s2, node) = s1.comma(lhs, rhs, loc);
            if self.passed_by(s2) {
                s2.comma_rest(g, node)
            } else {
                (s2, node)
            }
        } else {
            (self, lhs)
        }
    }

    /// An expression: assignment expressions with commas between them.
    pub open spec fn expr(self, g: Level) -> (State, usize)
        decreases g.max - g.depth, self.tokens.len() - self.pos, 8int,
        when self.in_tokens()
    {
        let (s1, e) = self.assignment(g);
        if self.reached_by(s1) {
            s1.comma_rest(g, e)
        } else {
            (s1, e)
        }
    }

    /// The arguments of a call after `done`, up to the closing
    /// parenthesis: assignment expressions with commas between them.
    pub open spec fn arguments(self, g: Level, done: Seq<usize>) -> (State, Seq<usize>)
        decreases g.max - g.depth, self.tokens.len() - self.pos, 9int,
        when self.in_tokens()
    {
        if self.at_punct(Punct::RParen) || self.kind() is Eof {
            (self, done)
        } else {
            let (s1, a) = self.assignment(g);
            if s1.at_punct(Punct::Comma) && self.passed_by(s1.advance()) {
                s1.advance().arguments(g, done.push(a))
            } else {
                (s1, done.push(a))
            }
        }
    }
}

impl Parser {
    /// Makes the node that stands in for what lies too deep.
    pub fn too_deep_node(&mut self, location: Location) -> (r: usize)
        requires
            old(self).wf(),
        ensures
            final(self).wf(),
            final(self)@ == old(self)@.too_deep(location).0,
            r == old(self)@.too_deep(location).1,
            old(self)@.grows_to(final(self)@),
            final(self)@.pos == old(self)@.pos,
            r < final(self)@.nodes.len(),
    {
        self.too_deep(location)
    }

    fn too_deep(&mut self, location: Location) -> (r: usize)
        requires
            old(self).wf(),
        ensures
            final(self).wf(),
            final(self)@ == old(self)@.too_deep(location).0,
            r == old(self)@.too_deep(location).1,
            old(self)@.grows_to(final(self)@),
            final(self)@.pos == old(self)@.pos,
            r < final(self)@.nodes.len(),
    {
        self.push(
            Node {
                kind: NodeKind::Error,
                ty: TY_ERROR,
                category: Category::Value,
                constant: None,
                location,
            },
        )
    }

    /// Parses a primary expression.
    pub fn primary(&mut self, guard: RecursionGuard) -> (r: usize)
        requires
            old(self).wf(),
            guard.wf(),
        ensures
            final(self).wf(),
            final(self)@ == old(self)@.primary(guard@).0,
            r == old(self)@.primary(guard@).1,
            old(self)@.grows_to(final(self)@),
            r < final(self)@.nodes.len(),
        decreases guard@.max - guard@.depth, old(self)@.tokens.len() - old(self)@.pos, 0int,
    {
        let location: Location = self.here();
        let kind: TokenKind = self.kind();
        match kind {
            TokenKind::Ident(name) => {
                self.advance();
                self.ident(name, location)
            },
            TokenKind::Int(_) | TokenKind::Char(_) | TokenKind::Float(_) | TokenKind::Str(_) => {
                self.advance();
                self.literal(kind, location)
            },
            TokenKind::Punct(Punct::LParen) => {
                self.advance();
                let e: usize = self.expr(guard);
                self.expect(Punct::RParen);
                e
            },
            _ => self.fail(DiagCode::UnexpectedToken, location),
        }
    }

    /// Parses the postfix operators that follow an expression.
    pub fn postfix_rest(&mut self, guard: RecursionGuard, e: usize) -> (r: usize)
        requires
            old(self).wf(),
            guard.wf(),
            e < old(self)@.nodes.len(),
        ensures
            final(self).wf(),
            final(self)@ == old(self)@.postfix_rest(guard@, e).0,
            r == old(self)@.postfix_rest(guard@, e).1,
            old(self)@.grows_to(final(self)@),
            r < final(self)@.nodes.len(),
        decreases guard@.max - guard@.depth, old(self)@.tokens.len() - old(self)@.pos, 1int,
    {
        let mut node: usize = e;
        loop
            invariant
                self.wf(),
                guard.wf(),
                node < self@.nodes.len(),
                old(self)@.grows_to(self@),
                self@.postfix_rest(guard@, node) == old(self)@.postfix_rest(guard@, e),
            decreases self@.tokens.len() - self@.pos,
        {
            let location: Location = self.here();
            if self.at_punct(Punct::LBracket) {
                self.advance();
                let i: usize = self.expr(guard);
                self.expect(Punct::RBracket);
                node = self.index(node, i, location);
            } else if self.at_punct(Punct::LParen) {
                self.advance();
                let args: Vec<usize> = self.arguments(guard);
                self.expect(Punct::RParen);
                node = self.call(node, &args, location);
            } else if self.at_punct(Punct::Dot) || self.at_punct(Punct::Arrow) {
                let arrow: bool = self.at_punct(Punct::Arrow);
                self.advance();
                match self.kind() {
                    TokenKind::Ident(name) => {
                        self.advance();
                        node = self.member(node, name, arrow, location);
                    },
                    _ => {
                        node = self.fail(DiagCode::UnexpectedToken, location);
                    },
                }
            } else if self.at_punct(Punct::PlusPlus) {
                self.advance();
                node = self.step(UnaryOp::PostInc, node, location);
            } else if self.at_punct(Punct::MinusMinus) {
                self.advance();
                node = self.step(UnaryOp::PostDec, node, location);
            } else {
                return node;
            }
        }
    }

    /// Parses a postfix expression.
    pub fn postfix(&mut self, guard: RecursionGuard) -> (r: usize)
        requires
            old(self).wf(),
            guard.wf(),
        ensures
            final(self).wf(),
            final(self)@ == old(self)@.postfix(guard@).0,
            r == old(self)@.postfix(guard@).1,
            old(self)@.grows_to(final(self)@),
            r < final(self)@.nodes.len(),
        decreases guard@.max - guard@.depth, old(self)@.tokens.len() - old(self)@.pos, 2int,
    {
        let e: usize = self.primary(guard);
        self.postfix_rest(guard, e)
    }

    /// Parses a unary expression.
    pub fn prefix(&mut self, guard: RecursionGuard) -> (r: usize)
        requires
            old(self).wf(),
            guard.wf(),
        ensures
            final(self).wf(),
            final(self)@ == old(self)@.prefix(guard@).0,
            r == old(self)@.prefix(guard@).1,
            old(self)@.grows_to(final(self)@),
            r < final(self)@.nodes.len(),
        decreases guard@.max - guard@.depth, old(self)@.tokens.len() - old(self)@.pos, 3int,
    {
        let location: Location = self.here();
        let g: RecursionGuard = match self.enter(guard) {
            Some(g) => g,
            None => {
                return self.too_deep(location);
            },
        };
        match prefix_of(self.kind()) {
            Some(op) => {
                self.advance();
                let e: usize = self.prefix(g);
                self.unary(op, e, location)
            },
            None => {
                if self.at_keyword(Keyword::Sizeof) {
                    self.advance();
                    if self.at_punct(Punct::LParen) && kind_starts_type(self.kind_ahead(1)) {
                        self.advance();
                        let ty: usize = self.named_type(g);
                        self.expect(Punct::RParen);
                        self.sizeof_type(ty, location)
                    } else {
                        let e: usize = self.prefix(g);
                        self.sizeof_expr(e, location)
                    }
                } else if self.at_punct(Punct::LParen) && kind_starts_type(self.kind_ahead(1)) {
                    self.advance();
                    let ty: usize = self.named_type(g);
                    self.expect(Punct::RParen);
                    let e: usize = self.prefix(g);
                    self.cast(ty, e, location)
                } else {
                    self.postfix(g)
                }
            },
        }
    }

    /// Parses the binary operators that follow an expression.
    pub fn binary_rest(&mut self, guard: RecursionGuard, min: u8, lhs: usize) -> (r: usize)
        requires
            old(self).wf(),
            guard.wf(),
            lhs < old(self)@.nodes.len(),
            min <= 11,
        ensures
            final(self).wf(),
            final(self)@ == old(self)@.binary_rest(guard@, min as nat, lhs).0,
            r == old(self)@.binary_rest(guard@, min as nat, lhs).1,
            old(self)@.grows_to(final(self)@),
            r < final(self)@.nodes.len(),
        decreases guard@.max - guard@.depth, old(self)@.tokens.len() - old(self)@.pos, 4int,
    {
        let mut node: usize = lhs;
        loop
            invariant
                self.wf(),
                guard.wf(),
                node < self@.nodes.len(),
                min <= 11,
                old(self)@.grows_to(self@),
                self@.binary_rest(guard@, min as nat, node) == old(self)@.binary_rest(
                    guard@,
                    min as nat,
                    lhs,
                ),
            decreases self@.tokens.len() - self@.pos,
        {
            match infix_of(self.kind()) {
                Some(i) => {
                    if i.level >= min {
                        let location: Location = self.here();
                        self.advance();
                        let rhs: usize = self.binary_level(guard, i.level + 1);
                        node = self.binary(i.op, node, rhs, location);
                    } else {
                        return node;
                    }
                },
                None => {
                    return node;
                },
            }
        }
    }

    /// Parses an expression of binary operators of a level or tighter.
    pub fn binary_level(&mut self, guard: RecursionGuard, min: u8) -> (r: usize)
        requires
            old(self).wf(),
            guard.wf(),
            min <= 11,
        ensures
            final(self).wf(),
            final(self)@ == old(self)@.binary_level(guard@, min as nat).0,
            r == old(self)@.binary_level(guard@, min as nat).1,
            old(self)@.grows_to(final(self)@),
            r < final(self)@.nodes.len(),
        decreases guard@.max - guard@.depth, old(self)@.tokens.len() - old(self)@.pos, 5int,
    {
        let lhs: usize = self.prefix(guard);
        self.binary_rest(guard, min, lhs)
    }

    /// Parses a conditional expression.
    pub fn ternary(&mut self, guard: RecursionGuard) -> (r: usize)
        requires
            old(self).wf(),
            guard.wf(),
        ensures
            final(self).wf(),
            final(self)@ == old(self)@.ternary(guard@).0,
            r == old(self)@.ternary(guard@).1,
            old(self)@.grows_to(final(self)@),
            r < final(self)@.nodes.len(),
        decreases guard@.max - guard@.depth, old(self)@.tokens.len() - old(self)@.pos, 6int,
    {
        let c: usize = self.binary_level(guard, 1);
        if !self.at_punct(Punct::Question) {
            return c;
        }
        let location: Location = self.here();
        self.advance();
        let g: RecursionGuard = match self.enter(guard) {
            Some(g) => g,
            None => {
                return self.too_deep(location);
            },
        };
        let a: usize = self.expr(g);
        self.expect(Punct::Colon);
        let b: usize = self.ternary(g);
        self.conditional(c, a, b, location)
    }

    /// Parses an assignment expression.
    pub fn assignment(&mut self, guard: RecursionGuard) -> (r: usize)
        requires
            old(self).wf(),
            guard.wf(),
        ensures
            final(self).wf(),
            final(self)@ == old(self)@.assignment(guard@).0,
            r == old(self)@.assignment(guard@).1,
            old(self)@.grows_to(final(self)@),
            r < final(self)@.nodes.len(),
        decreases guard@.max - guard@.depth, old(self)@.tokens.len() - old(self)@.pos, 7int,
    {
        let lhs: usize = self.ternary(guard);
        match assignment_of(self.kind()) {
            Some(a) => {
                let location: Location = self.here();
                self.advance();
                let g: RecursionGuard = match self.enter(guard) {
                    Some(g) => g,
                    None => {
                        return self.too_deep(location);
                    },
                };
                let rhs: usize = self.assignment(g);
                if a.compound {
                    self.assign_with(a.op, lhs, rhs, location)
                } else {
                    self.assign(lhs, rhs, location)
                }
            },
            None => lhs,
        }
    }

    /// Parses an expression.
    pub fn expr(&mut self, guard: RecursionGuard) -> (r: usize)
        requires
            old(self).wf(),
            guard.wf(),
        ensures
            final(self).wf(),
            final(self)@ == old(self)@.expr(guard@).0,
            r == old(self)@.expr(guard@).1,
            old(self)@.grows_to(final(self)@),
            r < final(self)@.nodes.len(),
        decreases guard@.max - guard@.depth, old(self)@.tokens.len() - old(self)@.pos, 8int,
    {
        let e: usize = self.assignment(guard);
        self.comma_rest(guard, e)
    }

    /// Parses the assignment expressions that follow an expression, each
    /// after a comma.
    pub fn comma_rest(&mut self, guard: RecursionGuard, lhs: usize) -> (r: usize)
        requires
            old(self).wf(),
            guard.wf(),
            lhs < old(self)@.nodes.len(),
        ensures
            final(self).wf(),
            final(self)@ == old(self)@.comma_rest(guard@, lhs).0,
            r == old(self)@.comma_rest(guard@, lhs).1,
            old(self)@.grows_to(final(self)@),
            r < final(self)@.nodes.len(),
        decreases guard@.max - guard@.depth, old(self)@.tokens.len() - old(self)@.pos, 7int,
    {
        let mut node: usize = lhs;
        loop
            invariant
                self.wf(),
                guard.wf(),
                node < self@.nodes.len(),
                old(self)@.grows_to(self@),
                self@.comma_rest(guard@, node) == old(self)@.comma_rest(guard@, lhs),
            decreases self@.tokens.len() - self@.pos,
        {
            if !self.at_punct(Punct::Comma) {
                return node;
            }
            let location: Location = self.here();
            self.advance();
            let rhs: usize = self.assignment(guard);
            node = self.comma(node, rhs, location);
        }
    }

    /// Parses the arguments of a call.
    pub fn arguments(&mut self, guard: RecursionGuard) -> (args: Vec<usize>)
        requires
            old(self).wf(),
            guard.wf(),
        ensures
            final(self).wf(),
            final(self)@ == old(self)@.arguments(guard@, Seq::empty()).0,
            args@ == old(self)@.arguments(guard@, Seq::empty()).1,
            old(self)@.grows_to(final(self)@),
            all_below(args@, final(self)@.nodes.len() as int),
        decreases guard@.max - guard@.depth, old(self)@.tokens.len() - old(self)@.pos, 9int,
    {
        let mut done: Vec<usize> = Vec::new();
        loop
            invariant
                self.wf(),
                guard.wf(),
                all_below(done@, self@.nodes.len() as int),
                old(self)@.grows_to(self@),
                self@.arguments(guard@, done@) == old(self)@.arguments(guard@, Seq::empty()),
            decreases self@.tokens.len() - self@.pos,
        {
            if self.at_punct(Punct::RParen) || self.at_eof() {
                return done;
            }
            let a: usize = self.assignment(guard);
            done.push(a);
            if self.at_punct(Punct::Comma) {
                self.advance();
            } else {
                return done;
            }
        }
    }
}

} // verus!
