//! The parser of statements, function definitions and translation units.
//!
//! The depth sentinel is consulted at the start of every statement and of
//! every external declaration. The procedures that run after it was
//! consulted take the level that was entered.

use vstd::prelude::*;
use crate::analyze::all_below;
use crate::ast::make_plain;
use crate::ast::plain_node;
use crate::ast::Category;
use crate::ast::Node;
use crate::ast::NodeKind;
use crate::decl::Declarator;
use crate::error::DiagCode;
use crate::error::Location;
use crate::fold::Constant;
use crate::guard::Level;
use crate::guard::RecursionGuard;
use crate::rules::is_scalar;
use crate::rules::node_is_error;
use crate::rules::node_is_int;
use crate::rules::node_is_scalar;
use crate::rules::node_is_void;
use crate::scope::Storage;
use crate::state::Parser;
use crate::state::State;
use crate::token::Keyword;
use crate::token::Punct;
use crate::token::TokenKind;
use crate::typename::kind_starts_declaration;
use crate::typename::starts_declaration;
use crate::typename::Base;
use crate::types::TypeNode;
use crate::types::TY_ERROR;

verus! {

impl State {
    /// The state after the parameters in a list of parameter nodes were
    /// declared in the innermost scope, those that have names.
    pub open spec fn declare_params(self, list: usize) -> State
        decreases list,
    {
        if list == 0 || list >= self.nodes.len() {
            self
        } else {
            match self.nodes[list as int].kind {
                NodeKind::Cons { head, tail } => if tail < list && head < self.nodes.len() {
                    let n = self.nodes[head as int];
                    let s1 = match n.kind {
                        NodeKind::Param { name, named } => if named && n.ty < self.types.len() {
                            self.bind(name, n.ty, Storage::Auto, n.location, false)
                        } else {
                            self
                        },
                        _ => self,
                    };
                    s1.declare_params(tail)
                } else {
                    self
                },
                _ => self,
            }
        }
    }

    /// A controlling expression: it decays and must be scalar.
    pub open spec fn condition(self, g: Level, loc: Location) -> (State, usize)
        decreases g.max - g.depth, self.tokens.len() - self.pos, 10int,
        when self.in_tokens()
    {
        let (s1, e) = self.expr(g);
        let (s2, e1) = s1.decay(e);
        if s2.type_at(e1) is Error || is_scalar(s2.type_at(e1)) {
            (s2, e1)
        } else {
            (s2.report(DiagCode::TypeMismatch, loc), e1)
        }
    }

    /// A declaration from its specifiers on. Specifiers alone declare
    /// nothing. A function declarator followed by `{` starts a function
    /// definition where `body` allows one.
    pub open spec fn declaration(self, d: Level, loc: Location, body: bool) -> (State, usize)
        decreases d.max - d.depth + 1, self.tokens.len() - self.pos, 12int,
        when self.in_tokens() && d.depth <= d.max
    {
        let (s1, base) = self.specifier(d);
        if s1.at_punct(Punct::Semi) {
            (s1.advance().push(plain_node(NodeKind::Empty, loc)), s1.next_id())
        } else {
            let (s2, dc) = s1.declarator(d, base.ty);
            if !(self.reached_by(s2) && base.ty < s2.types.len() && dc.ty < s2.types.len()) {
                (s2, 0)
            } else if body && dc.function && s2.at_punct(Punct::LBrace) {
                s2.function_definition(d, base, dc, loc)
            } else {
                s2.finish_declaration(d, base, dc, loc)
            }
        }
    }

    /// A function definition from the `{` of its body on. The function is
    /// declared, its parameters are declared in a scope of their own, and
    /// the body is parsed in that scope with the function's return type
    /// as the type that `return` converts to.
    pub open spec fn function_definition(self, d: Level, base: Base, dc: Declarator, loc: Location) -> (
        State,
        usize,
    )
        decreases d.max - d.depth + 1, self.tokens.len() - self.pos, 9int,
        when self.in_tokens() && d.depth <= d.max
    {
        let s1 = self.bind(dc.name, dc.ty, base.storage, dc.location, false);
        let ret = match s1.types[dc.ty as int] {
            TypeNode::Function { ret, .. } => ret,
            _ => TY_ERROR,
        };
        let s2 = s1.with_return_type(ret).open_scope().declare_params(dc.params);
        if self.reached_by(s2) {
            let (s3, body) = s2.compound(d, loc);
            let s4 = s3.close_scope().with_return_type(self.return_type);
            (
                s4.push(
                    Node {
                        kind: NodeKind::Function {
                            name: dc.name,
                            storage: base.storage,
                            params: dc.params,
                            body,
                        },
                        ty: dc.ty,
                        category: Category::Value,
                        constant: None,
                        location: dc.location,
                    },
                ),
                s4.next_id(),
            )
        } else {
            (s2, 0)
        }
    }

    /// The statements and declarations of a block after `done`, up to the
    /// closing brace. If one of them steps over no token, the token is
    /// recorded as unexpected and stepped over.
    pub open spec fn block_items(self, d: Level, done: Seq<usize>) -> (State, Seq<usize>)
        decreases d.max - d.depth + 1, self.tokens.len() - self.pos, 4int,
        when self.in_tokens() && d.depth <= d.max
    {
        if self.at_punct(Punct::RBrace) || self.kind() is Eof {
            (self, done)
        } else {
            let (s1, item) = self.statement(d);
            let s2 = if s1.pos == self.pos {
                s1.report(DiagCode::UnexpectedToken, s1.here()).advance()
            } else {
                s1
            };
            if self.passed_by(s2) {
                s2.block_items(d, done.push(item))
            } else {
                (s2, done.push(item))
            }
        }
    }

    /// A compound statement from its `{` on: a scope of its own, with the
    /// statements and declarations of the block in it.
    pub open spec fn compound(self, d: Level, loc: Location) -> (State, usize)
        decreases d.max - d.depth + 1, self.tokens.len() - self.pos, 5int,
        when self.in_tokens() && d.depth <= d.max
    {
        if self.at_punct(Punct::LBrace) {
            let (s1, items) = self.advance().open_scope().block_items(d, Seq::empty());
            let (s2, list) = s1.expect(Punct::RBrace).close_scope().make_list(items, loc);
            (s2.push(plain_node(NodeKind::Compound { items: list }, loc)), s2.next_id())
        } else {
            self.fail(DiagCode::MissingToken, loc)
        }
    }

    /// An `if` statement from `if` on.
    pub open spec fn if_statement(self, d: Level, loc: Location) -> (State, usize)
        decreases d.max - d.depth + 1, self.tokens.len() - self.pos, 3int,
        when self.in_tokens() && d.depth <= d.max
    {
        let (s1, c) = self.advance().expect(Punct::LParen).condition(d, loc);
        let (s2, t) = s1.expect(Punct::RParen).statement(d);
        if s2.at_keyword(Keyword::Else) {
            let (s3, e) = s2.advance().statement(d);
            (
                s3.push(plain_node(NodeKind::If { cond: c, then_part: t, else_part: e }, loc)),
                s3.next_id(),
            )
        } else {
            (
                s2.push(plain_node(NodeKind::If { cond: c, then_part: t, else_part: 0 }, loc)),
                s2.next_id(),
            )
        }
    }

    /// A `while` statement from `while` on.
    pub open spec fn while_statement(self, d: Level, loc: Location) -> (State, usize)
        decreases d.max - d.depth + 1, self.tokens.len() - self.pos, 3int,
        when self.in_tokens() && d.depth <= d.max
    {
        let (s1, c) = self.advance().expect(Punct::LParen).condition(d, loc);
        let (s2, body) = s1.expect(Punct::RParen).statement(d);
        (s2.push(plain_node(NodeKind::While { cond: c, body }, loc)), s2.next_id())
    }

    /// A `do` statement from `do` on.
    pub open spec fn do_statement(self, d: Level, loc: Location) -> (State, usize)
        decreases d.max - d.depth + 1, self.tokens.len() - self.pos, 3int,
        when self.in_tokens() && d.depth <= d.max
    {
        let (s1, body) = self.advance().statement(d);
        let s2 = if s1.at_keyword(Keyword::While) {
            s1.advance()
        } else {
            s1.report(DiagCode::MissingToken, s1.here())
        };
        let (s3, c) = s2.expect(Punct::LParen).condition(d, loc);
        let s4 = s3.expect(Punct::RParen).end_statement();
        (s4.push(plain_node(NodeKind::DoWhile { body, cond: c }, loc)), s4.next_id())
    }

    /// The first part of the head of a `for` statement, up to and with
    /// its `;`: nothing, a declaration, or an expression.
    pub open spec fn for_init(self, d: Level, loc: Location) -> (State, usize)
        decreases d.max - d.depth + 1, self.tokens.len() - self.pos, 13int,
        when self.in_tokens() && d.depth <= d.max
    {
        if self.at_punct(Punct::Semi) {
            (self.advance(), 0)
        } else if starts_declaration(self.kind()) {
            self.declaration(d, loc, false)
        } else {
            let (s1, e) = self.expr(d);
            let s2 = s1.expect(Punct::Semi);
            (s2.push(plain_node(NodeKind::ExprStmt { expr: e }, loc)), s2.next_id())
        }
    }

    /// A `for` statement from `for` on. Its head and body are in a scope
    /// of their own.
    pub open spec fn for_statement(self, d: Level, loc: Location) -> (State, usize)
        decreases d.max - d.depth + 1, self.tokens.len() - self.pos, 14int,
        when self.in_tokens() && d.depth <= d.max
    {
        let s0 = self.advance().expect(Punct::LParen).open_scope();
        if !(self.kind() is Keyword && s0.in_tokens()) {
            (s0, 0)
        } else {
            let (s1, init) = s0.for_init(d, loc);
            let (s2, c) = if s1.at_punct(Punct::Semi) {
                (s1, 0usize)
            } else {
                s1.condition(d, loc)
            };
            let s3 = s2.expect(Punct::Semi);
            let (s4, step) = if s3.at_punct(Punct::RParen) {
                (s3, 0usize)
            } else {
                s3.expr(d)
            };
            let (s5, body) = s4.expect(Punct::RParen).statement(d);
            let s6 = s5.close_scope();
            (s6.push(plain_node(NodeKind::For { init, cond: c, step, body }, loc)), s6.next_id())
        }
    }

    /// A `return` statement from `return` on. A value is brought to the
    /// return type of the function; no value is an error unless that type
    /// is `void`.
    pub open spec fn return_statement(self, d: Level, loc: Location) -> (State, usize)
        decreases d.max - d.depth + 1, self.tokens.len() - self.pos, 3int,
        when self.in_tokens() && d.depth <= d.max
    {
        let s0 = self.advance();
        if s0.at_punct(Punct::Semi) {
            let t = s0.types[s0.return_type as int];
            let s1 = if t is Void || t is Error {
                s0.advance()
            } else {
                s0.advance().report(DiagCode::TypeMismatch, loc)
            };
            (s1.push(plain_node(NodeKind::Return { value: 0 }, loc)), s1.next_id())
        } else {
            let (s1, e) = s0.expr(d);
            let (s2, v) = s1.coerce(e, s1.return_type, loc);
            let s3 = s2.end_statement();
            (s3.push(plain_node(NodeKind::Return { value: v }, loc)), s3.next_id())
        }
    }

    /// A `switch` statement from `switch` on. The controlling expression
    /// must be an integer.
    pub open spec fn switch_statement(self, d: Level, loc: Location) -> (State, usize)
        decreases d.max - d.depth + 1, self.tokens.len() - self.pos, 3int,
        when self.in_tokens() && d.depth <= d.max
    {
        let (s1, e) = self.advance().expect(Punct::LParen).expr(d);
        let (s2, c) = s1.decay(e);
        let s3 = if s2.type_at(c) is Error || s2.type_at(c) is Int {
            s2
        } else {
            s2.report(DiagCode::TypeMismatch, loc)
        };
        let (s4, body) = s3.expect(Punct::RParen).statement(d);
        (s4.push(plain_node(NodeKind::Switch { cond: c, body }, loc)), s4.next_id())
    }

    /// A `case` label and its statement, from `case` on. The label must
    /// fold to an integer constant; one that does not is recorded as an
    /// error and stands as zero.
    pub open spec fn case_statement(self, d: Level, loc: Location) -> (State, usize)
        decreases d.max - d.depth + 1, self.tokens.len() - self.pos, 3int,
        when self.in_tokens() && d.depth <= d.max
    {
        let (s1, e) = self.advance().ternary(d);
        let constant = match s1.constant_of(e) {
            Some(Constant::Int(v)) => Some(v.value),
            _ => None,
        };
        let s2 = if constant is Some || s1.type_at(e) is Error {
            s1
        } else {
            s1.report(DiagCode::NotConstant, loc)
        };
        let (s3, body) = s2.expect(Punct::Colon).statement(d);
        (
            s3.push(
                plain_node(
                    NodeKind::Case {
                        label: match constant {
                            Some(v) => v,
                            None => 0,
                        },
                        body,
                    },
                    loc,
                ),
            ),
            s3.next_id(),
        )
    }

    /// A `default` label and its statement, from `default` on.
    pub open spec fn default_statement(self, d: Level, loc: Location) -> (State, usize)
        decreases d.max - d.depth + 1, self.tokens.len() - self.pos, 3int,
        when self.in_tokens() && d.depth <= d.max
    {
        let (s1, body) = self.advance().expect(Punct::Colon).statement(d);
        (s1.push(plain_node(NodeKind::Default { body }, loc)), s1.next_id())
    }

    /// An expression statement.
    pub open spec fn expression_statement(self, d: Level, loc: Location) -> (State, usize)
        decreases d.max - d.depth + 1, self.tokens.len() - self.pos, 3int,
        when self.in_tokens() && d.depth <= d.max
    {
        let (s1, e) = self.expr(d);
        let s2 = s1.end_statement();
        (s2.push(plain_node(NodeKind::ExprStmt { expr: e }, loc)), s2.next_id())
    }

    /// A statement that starts with the reserved word `k`.
    pub open spec fn keyword_statement(self, d: Level, k: Keyword, loc: Location) -> (State, usize)
        decreases d.max - d.depth + 1, self.tokens.len() - self.pos, 15int,
        when self.in_tokens() && d.depth <= d.max
    {
        match k {
            Keyword::If => self.if_statement(d, loc),
            Keyword::While => self.while_statement(d, loc),
            Keyword::Do => self.do_statement(d, loc),
            Keyword::For => self.for_statement(d, loc),
            Keyword::Return => self.return_statement(d, loc),
            Keyword::Switch => self.switch_statement(d, loc),
            Keyword::Case => self.case_statement(d, loc),
            Keyword::Default => self.default_statement(d, loc),
            Keyword::Break => {
                let s1 = self.advance().end_statement();
                (s1.push(plain_node(NodeKind::Break, loc)), s1.next_id())
            },
            Keyword::Continue => {
                let s1 = self.advance().end_statement();
                (s1.push(plain_node(NodeKind::Continue, loc)), s1.next_id())
            },
            _ => if starts_declaration(TokenKind::Keyword(k)) {
                self.declaration(d, loc, false)
            } else {
                self.expression_statement(d, loc)
            },
        }
    }

    /// A statement. The depth sentinel is consulted first; past the limit
    /// the statement is not parsed.
    pub open spec fn statement(self, g: Level) -> (State, usize)
        decreases g.max - g.depth, self.tokens.len() - self.pos, 16int,
        when self.in_tokens()
    {
        let loc = self.here();
        let s0 = self.enter(g);
        let d = g.deeper();
        if !g.may_enter() {
            s0.too_deep(loc)
        } else {
            match s0.kind() {
                TokenKind::Punct(Punct::LBrace) => s0.compound(d, loc),
                TokenKind::Punct(Punct::Semi) => (
                    s0.advance().push(plain_node(NodeKind::Empty, loc)),
                    s0.next_id(),
                ),
                TokenKind::Keyword(k) => s0.keyword_statement(d, k, loc),
                _ => s0.expression_statement(d, loc),
            }
        }
    }

    /// An external declaration: a declaration or a function definition.
    /// The depth sentinel is consulted first.
    pub open spec fn external(self, g: Level) -> (State, usize)
        decreases g.max - g.depth, self.tokens.len() - self.pos, 17int,
        when self.in_tokens()
    {
        let loc = self.here();
        let s0 = self.enter(g);
        if !g.may_enter() {
            s0.too_deep(loc)
        } else {
            s0.declaration(g.deeper(), loc, true)
        }
    }

    /// The external declarations of a translation unit after `done`, up
    /// to the end of the tokens. If one of them steps over no token, the
    /// token is recorded as unexpected and stepped over.
    pub open spec fn unit_items(self, g: Level, done: Seq<usize>) -> (State, Seq<usize>)
        decreases g.max - g.depth, self.tokens.len() - self.pos, 18int,
        when self.in_tokens()
    {
        if self.kind() is Eof {
            (self, done)
        } else {
            let (s1, item) = self.external(g);
            let s2 = if s1.pos == self.pos {
                s1.report(DiagCode::UnexpectedToken, s1.here()).advance()
            } else {
                s1
            };
            if self.passed_by(s2) {
                s2.unit_items(g, done.push(item))
            } else {
                (s2, done.push(item))
            }
        }
    }
}

impl Parser {
    /// Declares the parameters of a function in the innermost scope.
    pub fn declare_params(&mut self, list: usize)
        requires
            old(self).wf(),
        ensures
            final(self).wf(),
            final(self)@ == old(self)@.declare_params(list),
            old(self)@.grows_to(final(self)@),
            final(self)@.pos == old(self)@.pos,
            final(self)@.nodes == old(self)@.nodes,
            final(self)@.types == old(self)@.types,
    {
        let mut at: usize = list;
        loop
            invariant
                self.wf(),
                old(self)@.grows_to(self@),
                self@.pos == old(self)@.pos,
                self@.nodes == old(self)@.nodes,
                self@.types == old(self)@.types,
                self@.declare_params(at) == old(self)@.declare_params(list),
            decreases at,
        {
            if at == 0 || at >= self.node_count() {
                return ;
            }
            match self.node(at).kind {
                NodeKind::Cons { head, tail } => {
                    if tail < at && head < self.node_count() {
                        let n: Node = self.node(head);
                        match n.kind {
                            NodeKind::Param { name, named } => {
                                if named {
                                    self.bind(name, n.ty, Storage::Auto, n.location, false);
                                }
                            },
                            _ => {},
                        }
                        at = tail;
                    } else {
                        return ;
                    }
                },
                _ => {
                    return ;
                },
            }
        }
    }

    /// Parses a controlling expression.
    pub fn condition(&mut self, guard: RecursionGuard, location: Location) -> (r: usize)
        requires
            old(self).wf(),
            guard.wf(),
        ensures
            final(self).wf(),
            final(self)@ == old(self)@.condition(guard@, location).0,
            r == old(self)@.condition(guard@, location).1,
            old(self)@.grows_to(final(self)@),
            r < final(self)@.nodes.len(),
        decreases guard@.max - guard@.depth, old(self)@.tokens.len() - old(self)@.pos, 10int,
    {
        let e: usize = self.expr(guard);
        let e1: usize = self.decay(e);
        let t: TypeNode = self.type_node(self.node(e1).ty);
        if !(node_is_error(t) || node_is_scalar(t)) {
            self.report(DiagCode::TypeMismatch, location);
        }
        e1
    }

    /// Parses a declaration from its specifiers on.
    pub fn declaration(&mut self, guard: RecursionGuard, location: Location, body: bool) -> (r:
        usize)
        requires
            old(self).wf(),
            guard.wf(),
            guard@.depth <= guard@.max,
        ensures
            final(self).wf(),
            final(self)@ == old(self)@.declaration(guard@, location, body).0,
            r == old(self)@.declaration(guard@, location, body).1,
            old(self)@.grows_to(final(self)@),
            r < final(self)@.nodes.len(),
        decreases guard@.max - guard@.depth + 1, old(self)@.tokens.len() - old(self)@.pos, 12int,
    {
        let base: Base = self.specifier(guard);
        if self.at_punct(Punct::Semi) {
            self.advance();
            return self.push(make_plain(NodeKind::Empty, location));
        }
        let dc: Declarator = self.declarator(guard, base.ty);
        if body && dc.function && self.at_punct(Punct::LBrace) {
            self.function_definition(guard, base, dc, location)
        } else {
            self.finish_declaration(guard, base, dc, location)
        }
    }

    /// Parses a function definition from the `{` of its body on.
    pub fn function_definition(
        &mut self,
        guard: RecursionGuard,
        base: Base,
        dc: Declarator,
        location: Location,
    ) -> (r: usize)
        requires
            old(self).wf(),
            guard.wf(),
            guard@.depth <= guard@.max,
            dc.ty < old(self)@.types.len(),
            dc.params < old(self)@.nodes.len(),
        ensures
            final(self).wf(),
            final(self)@ == old(self)@.function_definition(guard@, base, dc, location).0,
            r == old(self)@.function_definition(guard@, base, dc, location).1,
            old(self)@.grows_to(final(self)@),
            r < final(self)@.nodes.len(),
        decreases guard@.max - guard@.depth + 1, old(self)@.tokens.len() - old(self)@.pos, 9int,
    {
        let outer: usize = self.return_type();
        self.bind(dc.name, dc.ty, base.storage, dc.location, false);
        let ret: usize = match self.type_node(dc.ty) {
            TypeNode::Function { ret, .. } => ret,
            _ => TY_ERROR,
        };
        self.set_return_type(ret);
        self.open_scope();
        self.declare_params(dc.params);
        let body: usize = self.compound(guard, location);
        self.close_scope();
        self.set_return_type(outer);
        self.push(
            Node {
                kind: NodeKind::Function {
                    name: dc.name,
                    storage: base.storage,
                    params: dc.params,
                    body,
                },
                ty: dc.ty,
                category: Category::Value,
                constant: None,
                location: dc.location,
            },
        )
    }

    /// Parses the statements and declarations of a block.
    pub fn block_items(&mut self, guard: RecursionGuard) -> (items: Vec<usize>)
        requires
            old(self).wf(),
            guard.wf(),
            guard@.depth <= guard@.max,
        ensures
            final(self).wf(),
            final(self)@ == old(self)@.block_items(guard@, Seq::empty()).0,
            items@ == old(self)@.block_items(guard@, Seq::empty()).1,
            old(self)@.grows_to(final(self)@),
            all_below(items@, final(self)@.nodes.len() as int),
        decreases guard@.max - guard@.depth + 1, old(self)@.tokens.len() - old(self)@.pos, 4int,
    {
        let mut done: Vec<usize> = Vec::new();
        loop
            invariant
                self.wf(),
                guard.wf(),
                guard@.depth <= guard@.max,
                all_below(done@, self@.nodes.len() as int),
                old(self)@.grows_to(self@),
                self@.block_items(guard@, done@) == old(self)@.block_items(guard@, Seq::empty()),
            decreases self@.tokens.len() - self@.pos,
        {
            if self.at_punct(Punct::RBrace) || self.at_eof() {
                return done;
            }
            let before: usize = self.position();
            let item: usize = self.statement(guard);
            done.push(item);
            if self.position() == before {
                let at: Location = self.here();
                self.report(DiagCode::UnexpectedToken, at);
                self.advance();
            }
            if self.position() == before {
                return done;
            }
        }
    }

    /// Parses a compound statement from its `{` on.
    pub fn compound(&mut self, guard: RecursionGuard, location: Location) -> (r: usize)
        requires
            old(self).wf(),
            guard.wf(),
            guard@.depth <= guard@.max,
        ensures
            final(self).wf(),
            final(self)@ == old(self)@.compound(guard@, location).0,
            r == old(self)@.compound(guard@, location).1,
            old(self)@.grows_to(final(self)@),
            r < final(self)@.nodes.len(),
        decreases guard@.max - guard@.depth + 1, old(self)@.tokens.len() - old(self)@.pos, 5int,
    {
        if !self.at_punct(Punct::LBrace) {
            return self.fail(DiagCode::MissingToken, location);
        }
        self.advance();
        self.open_scope();
        let items: Vec<usize> = self.block_items(guard);
        self.expect(Punct::RBrace);
        self.close_scope();
        let list: usize = self.make_list(&items, location);
        self.push(make_plain(NodeKind::Compound { items: list }, location))
    }

    /// Parses an `if` statement from `if` on.
    pub fn if_statement(&mut self, guard: RecursionGuard, location: Location) -> (r: usize)
        requires
            old(self).wf(),
            guard.wf(),
            guard@.depth <= guard@.max,
        ensures
            final(self).wf(),
            final(self)@ == old(self)@.if_statement(guard@, location).0,
            r == old(self)@.if_statement(guard@, location).1,
            old(self)@.grows_to(final(self)@),
            r < final(self)@.nodes.len(),
        decreases guard@.max - guard@.depth + 1, old(self)@.tokens.len() - old(self)@.pos, 3int,
    {
        self.advance();
        self.expect(Punct::LParen);
        let c: usize = self.condition(guard, location);
        self.expect(Punct::RParen);
        let t: usize = self.statement(guard);
        let e: usize = if self.at_keyword(Keyword::Else) {
            self.advance();
            self.statement(guard)
        } else {
            0
        };
        self.push(make_plain(NodeKind::If { cond: c, then_part: t, else_part: e }, location))
    }

    /// Parses a `while` statement from `while` on.
    pub fn while_statement(&mut self, guard: RecursionGuard, location: Location) -> (r: usize)
        requires
            old(self).wf(),
            guard.wf(),
            guard@.depth <= guard@.max,
        ensures
            final(self).wf(),
            final(self)@ == old(self)@.while_statement(guard@, location).0,
            r == old(self)@.while_statement(guard@, location).1,
            old(self)@.grows_to(final(self)@),
            r < final(self)@.nodes.len(),
        decreases guard@.max - guard@.depth + 1, old(self)@.tokens.len() - old(self)@.pos, 3int,
    {
        self.advance();
        self.expect(Punct::LParen);
        let c: usize = self.condition(guard, location);
        self.expect(Punct::RParen);
        let body: usize = self.statement(guard);
        self.push(make_plain(NodeKind::While { cond: c, body }, location))
    }

    /// Parses a `do` statement from `do` on.
    pub fn do_statement(&mut self, guard: RecursionGuard, location: Location) -> (r: usize)
        requires
            old(self).wf(),
            guard.wf(),
            guard@.depth <= guard@.max,
        ensures
            final(self).wf(),
            final(self)@ == old(self)@.do_statement(guard@, location).0,
            r == old(self)@.do_statement(guard@, location).1,
            old(self)@.grows_to(final(self)@),
            r < final(self)@.nodes.len(),
        decreases guard@.max - guard@.depth + 1, old(self)@.tokens.len() - old(self)@.pos, 3int,
    {
        self.advance();
        let body: usize = self.statement(guard);
        if self.at_keyword(Keyword::While) {
            self.advance();
        } else {
            let at: Location = self.here();
            self.report(DiagCode::MissingToken, at);
        }
        self.expect(Punct::LParen);
        let c: usize = self.condition(guard, location);
        self.expect(Punct::RParen);
        self.end_statement();
        self.push(make_plain(NodeKind::DoWhile { body, cond: c }, location))
    }

    /// Parses the first part of the head of a `for` statement.
    pub fn for_init(&mut self, guard: RecursionGuard, location: Location) -> (r: usize)
        requires
            old(self).wf(),
            guard.wf(),
            guard@.depth <= guard@.max,
        ensures
            final(self).wf(),
            final(self)@ == old(self)@.for_init(guard@, location).0,
            r == old(self)@.for_init(guard@, location).1,
            old(self)@.grows_to(final(self)@),
            r < final(self)@.nodes.len(),
        decreases guard@.max - guard@.depth + 1, old(self)@.tokens.len() - old(self)@.pos, 13int,
    {
        if self.at_punct(Punct::Semi) {
            self.advance();
            0
        } else if kind_starts_declaration(self.kind()) {
            self.declaration(guard, location, false)
        } else {
            let e: usize = self.expr(guard);
            self.expect(Punct::Semi);
            self.push(make_plain(NodeKind::ExprStmt { expr: e }, location))
        }
    }

    /// Parses a `for` statement from `for` on.
    pub fn for_statement(&mut self, guard: RecursionGuard, location: Location) -> (r: usize)
        requires
            old(self).wf(),
            guard.wf(),
            guard@.depth <= guard@.max,
            old(self)@.kind() is Keyword,
        ensures
            final(self).wf(),
            final(self)@ == old(self)@.for_statement(guard@, location).0,
            r == old(self)@.for_statement(guard@, location).1,
            old(self)@.grows_to(final(self)@),
            r < final(self)@.nodes.len(),
        decreases guard@.max - guard@.depth + 1, old(self)@.tokens.len() - old(self)@.pos, 14int,
    {
        self.advance();
        self.expect(Punct::LParen);
        self.open_scope();
        let init: usize = self.for_init(guard, location);
        let c: usize = if self.at_punct(Punct::Semi) {
            0
        } else {
            self.condition(guard, location)
        };
        self.expect(Punct::Semi);
        let step: usize = if self.at_punct(Punct::RParen) {
            0
        } else {
            self.expr(guard)
        };
        self.expect(Punct::RParen);
        let body: usize = self.statement(guard);
        self.close_scope();
        self.push(make_plain(NodeKind::For { init, cond: c, step, body }, location))
    }

    /// Parses a `return` statement from `return` on.
    pub fn return_statement(&mut self, guard: RecursionGuard, location: Location) -> (r: usize)
        requires
            old(self).wf(),
            guard.wf(),
            guard@.depth <= guard@.max,
        ensures
            final(self).wf(),
            final(self)@ == old(self)@.return_statement(guard@, location).0,
            r == old(self)@.return_statement(guard@, location).1,
            old(self)@.grows_to(final(self)@),
            r < final(self)@.nodes.len(),
        decreases guard@.max - guard@.depth + 1, old(self)@.tokens.len() - old(self)@.pos, 3int,
    {
        self.advance();
        if self.at_punct(Punct::Semi) {
            let t: TypeNode = self.type_node(self.return_type());
            self.advance();
            if !(node_is_void(t) || node_is_error(t)) {
                self.report(DiagCode::TypeMismatch, location);
            }
            self.push(make_plain(NodeKind::Return { value: 0 }, location))
        } else {
            let e: usize = self.expr(guard);
            let to: usize = self.return_type();
            let v: usize = self.coerce(e, to, location);
            self.end_statement();
            self.push(make_plain(NodeKind::Return { value: v }, location))
        }
    }

    /// Parses a `switch` statement from `switch` on.
    pub fn switch_statement(&mut self, guard: RecursionGuard, location: Location) -> (r: usize)
        requires
            old(self).wf(),
            guard.wf(),
            guard@.depth <= guard@.max,
        ensures
            final(self).wf(),
            final(self)@ == old(self)@.switch_statement(guard@, location).0,
            r == old(self)@.switch_statement(guard@, location).1,
            old(self)@.grows_to(final(self)@),
            r < final(self)@.nodes.len(),
        decreases guard@.max - guard@.depth + 1, old(self)@.tokens.len() - old(self)@.pos, 3int,
    {
        self.advance();
        self.expect(Punct::LParen);
        let e: usize = self.expr(guard);
        let c: usize = self.decay(e);
        let t: TypeNode = self.type_node(self.node(c).ty);
        if !(node_is_error(t) || node_is_int(t)) {
            self.report(DiagCode::TypeMismatch, location);
        }
        self.expect(Punct::RParen);
        let body: usize = self.statement(guard);
        self.push(make_plain(NodeKind::Switch { cond: c, body }, location))
    }

    /// Parses a `case` label and its statement.
    pub fn case_statement(&mut self, guard: RecursionGuard, location: Location) -> (r: usize)
        requires
            old(self).wf(),
            guard.wf(),
            guard@.depth <= guard@.max,
        ensures
            final(self).wf(),
            final(self)@ == old(self)@.case_statement(guard@, location).0,
            r == old(self)@.case_statement(guard@, location).1,
            old(self)@.grows_to(final(self)@),
            r < final(self)@.nodes.len(),
        decreases guard@.max - guard@.depth + 1, old(self)@.tokens.len() - old(self)@.pos, 3int,
    {
        self.advance();
        let e: usize = self.ternary(guard);
        let n: Node = self.node(e);
        let constant: Option<i128> = match n.constant {
            Some(Constant::Int(v)) => Some(v.value),
            _ => None,
        };
        if !(constant.is_some() || node_is_error(self.type_node(n.ty))) {
            self.report(DiagCode::NotConstant, location);
        }
        self.expect(Punct::Colon);
        let body: usize = self.statement(guard);
        let label: i128 = match constant {
            Some(v) => v,
            None => 0,
        };
        self.push(make_plain(NodeKind::Case { label, body }, location))
    }

    /// Parses a `default` label and its statement.
    pub fn default_statement(&mut self, guard: RecursionGuard, location: Location) -> (r: usize)
        requires
            old(self).wf(),
            guard.wf(),
            guard@.depth <= guard@.max,
        ensures
            final(self).wf(),
            final(self)@ == old(self)@.default_statement(guard@, location).0,
            r == old(self)@.default_statement(guard@, location).1,
            old(self)@.grows_to(final(self)@),
            r < final(self)@.nodes.len(),
        decreases guard@.max - guard@.depth + 1, old(self)@.tokens.len() - old(self)@.pos, 3int,
    {
        self.advance();
        self.expect(Punct::Colon);
        let body: usize = self.statement(guard);
        self.push(make_plain(NodeKind::Default { body }, location))
    }

    /// Parses an expression statement.
    pub fn expression_statement(&mut self, guard: RecursionGuard, location: Location) -> (r: usize)
        requires
            old(self).wf(),
            guard.wf(),
            guard@.depth <= guard@.max,
        ensures
            final(self).wf(),
            final(self)@ == old(self)@.expression_statement(guard@, location).0,
            r == old(self)@.expression_statement(guard@, location).1,
            old(self)@.grows_to(final(self)@),
            r < final(self)@.nodes.len(),
        decreases guard@.max - guard@.depth + 1, old(self)@.tokens.len() - old(self)@.pos, 3int,
    {
        let e: usize = self.expr(guard);
        self.end_statement();
        self.push(make_plain(NodeKind::ExprStmt { expr: e }, location))
    }

    /// Parses a statement that starts with a reserved word.
    #[verifier::rlimit(60)]
    pub fn keyword_statement(&mut self, guard: RecursionGuard, k: Keyword, location: Location) -> (r:
        usize)
        requires
            old(self).wf(),
            guard.wf(),
            guard@.depth <= guard@.max,
            old(self)@.kind() == TokenKind::Keyword(k),
        ensures
            final(self).wf(),
            final(self)@ == old(self)@.keyword_statement(guard@, k, location).0,
            r == old(self)@.keyword_statement(guard@, k, location).1,
            old(self)@.grows_to(final(self)@),
            r < final(self)@.nodes.len(),
        decreases guard@.max - guard@.depth + 1, old(self)@.tokens.len() - old(self)@.pos, 15int,
    {
        match k {
            Keyword::If => self.if_statement(guard, location),
            Keyword::While => self.while_statement(guard, location),
            Keyword::Do => self.do_statement(guard, location),
            Keyword::For => self.for_statement(guard, location),
            Keyword::Return => self.return_statement(guard, location),
            Keyword::Switch => self.switch_statement(guard, location),
            Keyword::Case => self.case_statement(guard, location),
            Keyword::Default => self.default_statement(guard, location),
            Keyword::Break => {
                self.advance();
                self.end_statement();
                self.push(make_plain(NodeKind::Break, location))
            },
            Keyword::Continue => {
                self.advance();
                self.end_statement();
                self.push(make_plain(NodeKind::Continue, location))
            },
            _ => {
                if kind_starts_declaration(TokenKind::Keyword(k)) {
                    self.declaration(guard, location, false)
                } else {
                    self.expression_statement(guard, location)
                }
            },
        }
    }

    /// Parses a statement.
    pub fn statement(&mut self, guard: RecursionGuard) -> (r: usize)
        requires
            old(self).wf(),
            guard.wf(),
        ensures
            final(self).wf(),
            final(self)@ == old(self)@.statement(guard@).0,
            r == old(self)@.statement(guard@).1,
            old(self)@.grows_to(final(self)@),
            r < final(self)@.nodes.len(),
        decreases guard@.max - guard@.depth, old(self)@.tokens.len() - old(self)@.pos, 16int,
    {
        let location: Location = self.here();
        let g: RecursionGuard = match self.enter(guard) {
            Some(g) => g,
            None => {
                return self.too_deep_node(location);
            },
        };
        match self.kind() {
            TokenKind::Punct(Punct::LBrace) => self.compound(g, location),
            TokenKind::Punct(Punct::Semi) => {
                self.advance();
                self.push(make_plain(NodeKind::Empty, location))
            },
            TokenKind::Keyword(k) => self.keyword_statement(g, k, location),
            _ => self.expression_statement(g, location),
        }
    }

    /// Parses an external declaration.
    pub fn external(&mut self, guard: RecursionGuard) -> (r: usize)
        requires
            old(self).wf(),
            guard.wf(),
        ensures
            final(self).wf(),
            final(self)@ == old(self)@.external(guard@).0,
            r == old(self)@.external(guard@).1,
            old(self)@.grows_to(final(self)@),
            r < final(self)@.nodes.len(),
        decreases guard@.max - guard@.depth, old(self)@.tokens.len() - old(self)@.pos, 17int,
    {
        let location: Location = self.here();
        match self.enter(guard) {
            Some(g) => self.declaration(g, location, true),
            None => self.too_deep_node(location),
        }
    }

    /// Parses the external declarations of a translation unit.
    pub fn unit_items(&mut self, guard: RecursionGuard) -> (items: Vec<usize>)
        requires
            old(self).wf(),
            guard.wf(),
        ensures
            final(self).wf(),
            final(self)@ == old(self)@.unit_items(guard@, Seq::empty()).0,
            items@ == old(self)@.unit_items(guard@, Seq::empty()).1,
            old(self)@.grows_to(final(self)@),
            all_below(items@, final(self)@.nodes.len() as int),
    {
        let mut done: Vec<usize> = Vec::new();
        loop
            invariant
                self.wf(),
                guard.wf(),
                all_below(done@, self@.nodes.len() as int),
                old(self)@.grows_to(self@),
                self@.unit_items(guard@, done@) == old(self)@.unit_items(guard@, Seq::empty()),
            decreases self@.tokens.len() - self@.pos,
        {
            if self.at_eof() {
                return done;
            }
            let before: usize = self.position();
            let item: usize = self.external(guard);
            done.push(item);
            if self.position() == before {
                let at: Location = self.here();
                self.report(DiagCode::UnexpectedToken, at);
                self.advance();
            }
            if self.position() == before {
                return done;
            }
        }
    }
}

} // verus!
