//! The parser of declarators, initialisers and declarations.
//!
//! The depth sentinel is consulted before an array or function suffix of
//! a declarator and before an initialiser in braces. The procedures that
//! run after it was consulted take the level that was entered.

use vstd::prelude::*;
use crate::analyze::all_below;
use crate::ast::list_len;
use crate::ast::make_plain;
use crate::ast::plain_node;
use crate::ast::Category;
use crate::ast::Node;
use crate::ast::NodeKind;
use crate::error::DiagCode;
use crate::error::Location;
use crate::fold::Constant;
use crate::guard::Level;
use crate::guard::RecursionGuard;
use crate::rules::node_is_error;
use crate::scope::Declared;
use crate::scope::Storage;
use crate::state::Parser;
use crate::state::State;
use crate::token::Keyword;
use crate::token::Punct;
use crate::token::TokenKind;
use crate::typename::Base;
use crate::types::settled;
use crate::types::size_of;
use crate::types::TypeNode;
use crate::types::TY_ERROR;
use crate::types::TY_NO_PARAMS;

verus! {

/// The bound of an array declarator: whether a length is given, and the
/// length.
#[derive(Clone, Copy, Debug, PartialEq, Eq, Structural)]
pub struct Bound {
    pub known: bool,
    pub len: u64,
}

/// What the suffixes of a declarator make of a type: the type, the list
/// of the parameter nodes if the first suffix is a parameter list, and
/// whether it is one.
#[derive(Clone, Copy, Debug, PartialEq, Eq, Structural)]
pub struct Shape {
    pub ty: usize,
    pub params: usize,
    pub function: bool,
}

/// A parameter list: the list of the parameter types in the table of
/// types, the list of the parameter nodes, and whether more arguments may
/// follow.
#[derive(Clone, Copy, Debug, PartialEq, Eq, Structural)]
pub struct ParamList {
    pub chain: usize,
    pub list: usize,
    pub variadic: bool,
}

/// A declarator: the declared type, the declared name if there is one,
/// the place of the name, and for a function declarator the list of the
/// parameter nodes.
#[derive(Clone, Copy, Debug, PartialEq, Eq, Structural)]
pub struct Declarator {
    pub ty: usize,
    pub name: usize,
    pub named: bool,
    pub location: Location,
    pub params: usize,
    pub function: bool,
}

/// The parameters read so far.
pub struct Items {
    pub state: State,
    pub types: Seq<usize>,
    pub nodes: Seq<usize>,
    pub variadic: bool,
}

impl State {
    /// The state after tokens were skipped up to and with the next `;`,
    /// or up to the next `}` or the end: where parsing resumes after a
    /// statement or declaration that could not be parsed.
    pub open spec fn sync(self) -> State
        decreases self.tokens.len() - self.pos,
        when self.in_tokens()
    {
        if self.at_punct(Punct::Semi) {
            self.advance()
        } else if self.at_punct(Punct::RBrace) || self.kind() is Eof {
            self
        } else {
            self.advance().sync()
        }
    }

    /// The state after the `;` that ends a statement or declaration was
    /// asked for: if it is missing that is recorded and parsing resumes
    /// at the next boundary.
    pub open spec fn end_statement(self) -> State {
        if self.at_punct(Punct::Semi) {
            self.advance()
        } else {
            self.report(DiagCode::MissingToken, self.here()).sync()
        }
    }

    /// The state after a name was declared; a declaration that conflicts
    /// with an earlier one in the scope is recorded as an error.
    pub open spec fn bind(
        self,
        name: usize,
        ty: usize,
        storage: Storage,
        location: Location,
        is_const: bool,
    ) -> State {
        let s1 = self.declare(name, ty, storage, location, is_const);
        if self.scopes.declare_outcome(self.types, name, ty) == Declared::Conflict {
            s1.report(DiagCode::Redefinition, location)
        } else {
            s1
        }
    }

    /// The type of a parameter declared with a type: an array becomes a
    /// pointer to its element and a function a pointer to itself.
    pub open spec fn adjusted(self, ty: usize) -> (State, usize) {
        match self.types[ty as int] {
            TypeNode::Array { of, .. } => (
                self.intern(TypeNode::Pointer { to: of }),
                self.type_id(TypeNode::Pointer { to: of }),
            ),
            TypeNode::Function { .. } => (
                self.intern(TypeNode::Pointer { to: ty }),
                self.type_id(TypeNode::Pointer { to: ty }),
            ),
            _ => (self, ty),
        }
    }

    /// The list of the first `k` of some types in front of the list
    /// `tail`, in the table of types.
    pub open spec fn chain(self, types: Seq<usize>, k: int, tail: usize) -> (State, usize)
        decreases k,
    {
        if k <= 0 || k > types.len() {
            (self, tail)
        } else {
            let cell = TypeNode::Params { head: types[k - 1], tail };
            self.intern(cell).chain(types, k - 1, self.type_id(cell))
        }
    }

    /// The bound between the brackets of an array declarator: none if the
    /// brackets are empty, else a constant expression, which must fold to
    /// an integer that is not negative. An expression that does not is
    /// recorded as an error and leaves the bound open.
    pub open spec fn array_bound(self, d: Level) -> (State, Bound)
        decreases d.max - d.depth + 1, self.tokens.len() - self.pos, 1int,
        when self.in_tokens() && d.depth <= d.max
    {
        if self.at_punct(Punct::RBracket) {
            (self, Bound { known: false, len: 0 })
        } else {
            let loc = self.here();
            let (s1, e) = self.ternary(d);
            match s1.constant_of(e) {
                Some(Constant::Int(v)) => if 0 <= v.value <= u64::MAX {
                    (s1, Bound { known: true, len: v.value as u64 })
                } else {
                    (s1.report(DiagCode::TypeMismatch, loc), Bound { known: false, len: 0 })
                },
                _ => (
                    if s1.type_at(e) is Error {
                        s1
                    } else {
                        s1.report(DiagCode::NotConstant, loc)
                    },
                    Bound { known: false, len: 0 },
                ),
            }
        }
    }

    /// An array suffix after its `[`: the bound, the `]`, and the
    /// suffixes that follow, which make the element type. The element
    /// type must have a known size.
    pub open spec fn array_suffix(self, d: Level, ty: usize, loc: Location) -> (State, Shape)
        decreases d.max - d.depth + 1, self.tokens.len() - self.pos, 5int,
        when self.in_tokens() && d.depth <= d.max
    {
        let (s1, b) = self.array_bound(d);
        let (s2, inner) = s1.expect(Punct::RBracket).suffix(d, ty);
        let none = Shape { ty: TY_ERROR, params: 0, function: false };
        if s2.types[inner.ty as int] is Error {
            (s2, none)
        } else if size_of(s2.types, s2.target, inner.ty as int) is None {
            (s2.report(DiagCode::IncompleteType, loc), none)
        } else {
            let array = TypeNode::Array { of: inner.ty, known: b.known, len: b.len };
            (s2.intern(array), Shape { ty: s2.type_id(array), params: 0, function: false })
        }
    }

    /// One parameter: specifiers and a declarator, which need not name
    /// anything.
    pub open spec fn param(self, d: Level) -> (State, usize, usize)
        decreases d.max - d.depth + 1, self.tokens.len() - self.pos, 2int,
        when self.in_tokens() && d.depth <= d.max
    {
        let loc = self.here();
        let (s1, b) = self.specifier(d);
        let (s2, dc) = s1.declarator(d, b.ty);
        let (s3, ty) = s2.adjusted(dc.ty);
        (
            s3.push(
                Node {
                    kind: NodeKind::Param { name: dc.name, named: dc.named },
                    ty,
                    category: Category::Value,
                    constant: None,
                    location: loc,
                },
            ),
            ty,
            s3.next_id(),
        )
    }

    /// The parameters after those in `types` and `nodes`, with commas
    /// between them; `...` ends them and makes the function variadic.
    pub open spec fn param_items(self, d: Level, types: Seq<usize>, nodes: Seq<usize>) -> Items
        decreases d.max - d.depth + 1, self.tokens.len() - self.pos, 3int,
        when self.in_tokens() && d.depth <= d.max
    {
        if self.at_punct(Punct::Ellipsis) {
            Items { state: self.advance(), types, nodes, variadic: true }
        } else {
            let (s1, ty, node) = self.param(d);
            if s1.at_punct(Punct::Comma) && self.passed_by(s1.advance()) {
                s1.advance().param_items(d, types.push(ty), nodes.push(node))
            } else {
                Items { state: s1, types: types.push(ty), nodes: nodes.push(node), variadic: false }
            }
        }
    }

    /// A parameter list up to its `)`. An empty list says nothing of the
    /// parameters and takes any arguments; `void` alone says there are
    /// none.
    pub open spec fn parameters(self, d: Level) -> (State, ParamList)
        decreases d.max - d.depth + 1, self.tokens.len() - self.pos, 4int,
        when self.in_tokens() && d.depth <= d.max
    {
        if self.at_punct(Punct::RParen) {
            (self, ParamList { chain: TY_NO_PARAMS, list: 0, variadic: true })
        } else if self.at_keyword(Keyword::Void) && self.kind_ahead(1) == TokenKind::Punct(
            Punct::RParen,
        ) {
            (self.advance(), ParamList { chain: TY_NO_PARAMS, list: 0, variadic: false })
        } else {
            let loc = self.here();
            let r = self.param_items(d, Seq::empty(), Seq::empty());
            let (s2, chain) = r.state.chain(r.types, r.types.len() as int, TY_NO_PARAMS);
            let (s3, list) = s2.make_list(r.nodes, loc);
            (s3, ParamList { chain, list, variadic: r.variadic })
        }
    }

    /// A function suffix after its `(`: the parameters and the `)`. A
    /// function cannot return an array or a function.
    pub open spec fn function_suffix(self, d: Level, ty: usize, loc: Location) -> (State, Shape)
        decreases d.max - d.depth + 1, self.tokens.len() - self.pos, 5int,
        when self.in_tokens() && d.depth <= d.max
    {
        let (s1, p) = self.parameters(d);
        let s2 = s1.expect(Punct::RParen);
        if s2.types[ty as int] is Array || s2.types[ty as int] is Function {
            (
                s2.report(DiagCode::TypeMismatch, loc),
                Shape { ty: TY_ERROR, params: p.list, function: true },
            )
        } else {
            let f = TypeNode::Function { ret: ty, params: p.chain, variadic: p.variadic };
            (s2.intern(f), Shape { ty: s2.type_id(f), params: p.list, function: true })
        }
    }

    /// The suffixes of a declarator and what they make of the type `ty`.
    /// The depth sentinel is consulted after the opening bracket; past the
    /// limit the suffix is not parsed and the type is the sentinel.
    pub open spec fn suffix(self, g: Level, ty: usize) -> (State, Shape)
        decreases g.max - g.depth, self.tokens.len() - self.pos, 12int,
        when self.in_tokens()
    {
        let loc = self.here();
        if self.at_punct(Punct::LBracket) || self.at_punct(Punct::LParen) {
            let s0 = self.advance().enter(g);
            if !g.may_enter() {
                (s0, Shape { ty: TY_ERROR, params: 0, function: false })
            } else if self.at_punct(Punct::LBracket) {
                s0.array_suffix(g.deeper(), ty, loc)
            } else {
                s0.function_suffix(g.deeper(), ty, loc)
            }
        } else {
            (self, Shape { ty, params: 0, function: false })
        }
    }

    /// A declarator on the type `ty`: `*`s, a name if there is one, and
    /// suffixes.
    pub open spec fn declarator(self, g: Level, ty: usize) -> (State, Declarator)
        decreases g.max - g.depth, self.tokens.len() - self.pos, 13int,
        when self.in_tokens()
    {
        let (s1, pointer) = self.pointers(ty);
        let loc = s1.here();
        let named = s1.kind() is Ident;
        let name = match s1.kind() {
            TokenKind::Ident(n) => n,
            _ => 0,
        };
        let s2 = if named {
            s1.advance()
        } else {
            s1
        };
        if self.reached_by(s2) {
            let (s3, sh) = s2.suffix(g, pointer);
            (
                s3,
                Declarator {
                    ty: sh.ty,
                    name,
                    named,
                    location: loc,
                    params: sh.params,
                    function: sh.function,
                },
            )
        } else {
            (
                s2,
                Declarator { ty: pointer, name, named, location: loc, params: 0, function: false },
            )
        }
    }

    /// The initialisers in braces after `done`, with commas between them.
    /// Each is for an object of type `elem`, or, where the list
    /// initialises a structure or union, for the next of its members
    /// from `fields` on; an initialiser beyond the members is recorded as
    /// an error.
    pub open spec fn init_items(
        self,
        d: Level,
        elem: usize,
        fields: usize,
        by_field: bool,
        done: Seq<usize>,
    ) -> (State, Seq<usize>)
        decreases d.max - d.depth + 1, self.tokens.len() - self.pos, 2int,
        when self.in_tokens() && d.depth <= d.max
    {
        if self.at_punct(Punct::RBrace) || self.kind() is Eof {
            (self, done)
        } else {
            let cell = self.types[fields as int];
            let ty = if !by_field {
                elem
            } else {
                match cell {
                    TypeNode::Field { ty, .. } => ty,
                    _ => TY_ERROR,
                }
            };
            let next = match cell {
                TypeNode::Field { tail, .. } => if by_field {
                    tail
                } else {
                    fields
                },
                _ => fields,
            };
            let s0 = if by_field && !(cell is Field) {
                self.report(DiagCode::TypeMismatch, self.here())
            } else {
                self
            };
            let (s1, item) = s0.initializer(d, ty);
            if s1.at_punct(Punct::Comma) && self.passed_by(s1.advance()) {
                s1.advance().init_items(d, elem, next, by_field, done.push(item))
            } else {
                (s1, done.push(item))
            }
        }
    }

    /// An initialiser in braces after its `{`, for an object of type
    /// `ty`: its members initialise the elements of an array, the
    /// members of a complete structure or union, or the object itself.
    pub open spec fn brace_init(self, d: Level, ty: usize, loc: Location) -> (State, usize)
        decreases d.max - d.depth + 1, self.tokens.len() - self.pos, 3int,
        when self.in_tokens() && d.depth <= d.max
    {
        let t = self.types[ty as int];
        let elem = match t {
            TypeNode::Array { of, .. } => of,
            _ => ty,
        };
        let by_field = match t {
            TypeNode::Record { complete, .. } => complete,
            _ => false,
        };
        let fields = match t {
            TypeNode::Record { fields, .. } => if by_field && fields < self.types.len() {
                fields
            } else {
                0
            },
            _ => 0,
        };
        let (s1, items) = self.init_items(d, elem, fields, by_field, Seq::empty());
        let (s2, list) = s1.expect(Punct::RBrace).make_list(items, loc);
        (
            s2.push(
                Node {
                    kind: NodeKind::InitList { items: list },
                    ty,
                    category: Category::Value,
                    constant: None,
                    location: loc,
                },
            ),
            s2.next_id(),
        )
    }

    /// An initialiser for an object of type `ty`: a list in braces, or an
    /// assignment expression, which is brought to the type; a string
    /// literal initialises an array as it is. The depth sentinel is
    /// consulted after an opening brace.
    pub open spec fn initializer(self, g: Level, ty: usize) -> (State, usize)
        decreases g.max - g.depth, self.tokens.len() - self.pos, 11int,
        when self.in_tokens()
    {
        let loc = self.here();
        if self.at_punct(Punct::LBrace) {
            let s0 = self.advance().enter(g);
            if !g.may_enter() {
                s0.too_deep(loc)
            } else {
                s0.brace_init(g.deeper(), ty, loc)
            }
        } else {
            let (s1, e) = self.assignment(g);
            if s1.types[ty as int] is Array && s1.nodes[e as int].kind is Str {
                (s1, e)
            } else {
                s1.coerce(e, ty, loc)
            }
        }
    }

    /// The type of an object declared with type `ty` and initialised by
    /// `init`: an array of open length takes its length from the members
    /// of a list, or the type of a string literal.
    pub open spec fn completed(self, ty: usize, init: usize) -> (State, usize) {
        match self.types[ty as int] {
            TypeNode::Array { of, known, .. } => if known {
                (self, ty)
            } else {
                match self.nodes[init as int].kind {
                    NodeKind::InitList { items } => {
                        let t = TypeNode::Array {
                            of,
                            known: true,
                            len: list_len(self.nodes, items as int) as u64,
                        };
                        (self.intern(t), self.type_id(t))
                    },
                    NodeKind::Str { .. } => (self, self.nodes[init as int].ty),
                    _ => (self, ty),
                }
            },
            _ => (self, ty),
        }
    }

    /// Whether the initialiser of an object with this storage class must
    /// be constant and is not: `static` objects take constants only.
    pub open spec fn lacks_constant(self, storage: Storage, init: usize) -> bool {
        let n = self.nodes[init as int];
        storage == Storage::Static && n.constant is None && !(n.kind is InitList) && !(
        n.kind is Str) && !(self.types[n.ty as int] is Error)
    }

    /// One declarator of a declaration with its initialiser, if it has
    /// one. The name is declared before the initialiser is parsed. A
    /// declarator without a name, and an object of type `void` or of an
    /// incomplete structure or union, are recorded as errors.
    pub open spec fn declare_object(self, d: Level, base: Base, dc: Declarator) -> (State, usize)
        decreases d.max - d.depth + 1, self.tokens.len() - self.pos, 6int,
        when self.in_tokens() && d.depth <= d.max
    {
        let s1 = if dc.named {
            self
        } else {
            self.report(DiagCode::UnexpectedToken, dc.location)
        };
        let s2 = if s1.types[dc.ty as int] is Void || !settled(s1.types[dc.ty as int]) {
            s1.report(DiagCode::IncompleteType, dc.location)
        } else {
            s1
        };
        let s3 = s2.bind(dc.name, dc.ty, base.storage, dc.location, base.is_const);
        if s3.at_punct(Punct::Assign) {
            let (s4, init) = s3.advance().initializer(d, dc.ty);
            let (s5, ty) = s4.completed(dc.ty, init);
            let s6 = if ty == dc.ty {
                s5
            } else {
                s5.declare(dc.name, ty, base.storage, dc.location, base.is_const)
            };
            let s7 = if s6.lacks_constant(base.storage, init) {
                s6.report(DiagCode::NotConstant, dc.location)
            } else {
                s6
            };
            (
                s7.push(
                    Node {
                        kind: NodeKind::Declare { name: dc.name, storage: base.storage, init },
                        ty,
                        category: Category::Value,
                        constant: None,
                        location: dc.location,
                    },
                ),
                s7.next_id(),
            )
        } else {
            (
                s3.push(
                    Node {
                        kind: NodeKind::Declare { name: dc.name, storage: base.storage, init: 0 },
                        ty: dc.ty,
                        category: Category::Value,
                        constant: None,
                        location: dc.location,
                    },
                ),
                s3.next_id(),
            )
        }
    }

    /// The declarators of a declaration from `dc` on, after `done`, with
    /// commas between them.
    pub open spec fn declarators(self, d: Level, base: Base, dc: Declarator, done: Seq<usize>) -> (
        State,
        Seq<usize>,
    )
        decreases d.max - d.depth + 1, self.tokens.len() - self.pos, 7int,
        when self.in_tokens() && d.depth <= d.max
    {
        let (s1, node) = self.declare_object(d, base, dc);
        if s1.at_punct(Punct::Comma) {
            let (s2, next) = s1.advance().declarator(d, base.ty);
            if self.passed_by(s2) {
                s2.declarators(d, base, next, done.push(node))
            } else {
                (s2, done.push(node))
            }
        } else {
            (s1, done.push(node))
        }
    }

    /// The rest of a declaration whose specifiers and first declarator
    /// were parsed: the declarators, the `;`, and the node that groups
    /// the declarations.
    pub open spec fn finish_declaration(self, d: Level, base: Base, dc: Declarator, loc: Location) -> (
        State,
        usize,
    )
        decreases d.max - d.depth + 1, self.tokens.len() - self.pos, 8int,
        when self.in_tokens() && d.depth <= d.max
    {
        let (s1, items) = self.declarators(d, base, dc, Seq::empty());
        let (s2, list) = s1.end_statement().make_list(items, loc);
        (s2.push(plain_node(NodeKind::Group { items: list }, loc)), s2.next_id())
    }
}

impl Parser {
    /// Skips to where parsing resumes after a statement or declaration
    /// that could not be parsed.
    pub fn sync(&mut self)
        requires
            old(self).wf(),
        ensures
            final(self).wf(),
            final(self)@ == old(self)@.sync(),
            old(self)@.grows_to(final(self)@),
            final(self)@.nodes == old(self)@.nodes,
            final(self)@.types == old(self)@.types,
    {
        loop
            invariant
                self.wf(),
                old(self)@.grows_to(self@),
                self@.nodes == old(self)@.nodes,
                self@.types == old(self)@.types,
                self@.sync() == old(self)@.sync(),
            decreases self@.tokens.len() - self@.pos,
        {
            if self.at_punct(Punct::Semi) {
                self.advance();
                return ;
            }
            if self.at_punct(Punct::RBrace) || self.at_eof() {
                return ;
            }
            self.advance();
        }
    }

    /// Asks for the `;` that ends a statement or declaration.
    pub fn end_statement(&mut self)
        requires
            old(self).wf(),
        ensures
            final(self).wf(),
            final(self)@ == old(self)@.end_statement(),
            old(self)@.grows_to(final(self)@),
            final(self)@.nodes == old(self)@.nodes,
            final(self)@.types == old(self)@.types,
    {
        if self.at_punct(Punct::Semi) {
            self.advance();
        } else {
            let at: Location = self.here();
            self.report(DiagCode::MissingToken, at);
            self.sync();
        }
    }

    /// Declares a name and records a conflict.
    pub fn bind(
        &mut self,
        name: usize,
        ty: usize,
        storage: Storage,
        location: Location,
        is_const: bool,
    )
        requires
            old(self).wf(),
            ty < old(self)@.types.len(),
        ensures
            final(self).wf(),
            final(self)@ == old(self)@.bind(name, ty, storage, location, is_const),
            old(self)@.grows_to(final(self)@),
            final(self)@.pos == old(self)@.pos,
            final(self)@.nodes == old(self)@.nodes,
            final(self)@.types == old(self)@.types,
    {
        match self.declare(name, ty, storage, location, is_const) {
            Declared::Conflict => {
                self.report(DiagCode::Redefinition, location);
            },
            _ => {},
        }
    }

    /// The type of a parameter declared with a type.
    pub fn adjusted(&mut self, ty: usize) -> (r: usize)
        requires
            old(self).wf(),
            ty < old(self)@.types.len(),
        ensures
            final(self).wf(),
            final(self)@ == old(self)@.adjusted(ty).0,
            r == old(self)@.adjusted(ty).1,
            old(self)@.grows_to(final(self)@),
            final(self)@.pos == old(self)@.pos,
            final(self)@.nodes == old(self)@.nodes,
            r < final(self)@.types.len(),
    {
        match self.type_node(ty) {
            TypeNode::Array { of, .. } => self.intern(TypeNode::Pointer { to: of }),
            TypeNode::Function { .. } => self.intern(TypeNode::Pointer { to: ty }),
            _ => ty,
        }
    }

    /// Makes the list of some parameter types.
    pub fn chain(&mut self, types: &Vec<usize>) -> (r: usize)
        requires
            old(self).wf(),
            all_below(types@, old(self)@.types.len() as int),
        ensures
            final(self).wf(),
            final(self)@ == old(self)@.chain(types@, types@.len() as int, TY_NO_PARAMS).0,
            r == old(self)@.chain(types@, types@.len() as int, TY_NO_PARAMS).1,
            old(self)@.grows_to(final(self)@),
            final(self)@.pos == old(self)@.pos,
            final(self)@.nodes == old(self)@.nodes,
            r < final(self)@.types.len(),
    {
        let mut k: usize = types.len();
        let mut tail: usize = TY_NO_PARAMS;
        while k > 0
            invariant
                self.wf(),
                k <= types@.len(),
                tail < self@.types.len(),
                all_below(types@, self@.types.len() as int),
                old(self)@.grows_to(self@),
                self@.pos == old(self)@.pos,
                self@.nodes == old(self)@.nodes,
                self@.chain(types@, k as int, tail) == old(self)@.chain(
                    types@,
                    types@.len() as int,
                    TY_NO_PARAMS,
                ),
            decreases k,
        {
            tail = self.intern(TypeNode::Params { head: types[k - 1], tail });
            k = k - 1;
        }
        tail
    }

    /// Parses the bound of an array declarator.
    pub fn array_bound(&mut self, guard: RecursionGuard) -> (b: Bound)
        requires
            old(self).wf(),
            guard.wf(),
            guard@.depth <= guard@.max,
        ensures
            final(self).wf(),
            final(self)@ == old(self)@.array_bound(guard@).0,
            b == old(self)@.array_bound(guard@).1,
            old(self)@.grows_to(final(self)@),
        decreases guard@.max - guard@.depth + 1, old(self)@.tokens.len() - old(self)@.pos, 1int,
    {
        if self.at_punct(Punct::RBracket) {
            return Bound { known: false, len: 0 };
        }
        let location: Location = self.here();
        let e: usize = self.ternary(guard);
        let n: Node = self.node(e);
        match n.constant {
            Some(Constant::Int(v)) => {
                if 0 <= v.value && v.value <= u64::MAX as i128 {
                    Bound { known: true, len: v.value as u64 }
                } else {
                    self.report(DiagCode::TypeMismatch, location);
                    Bound { known: false, len: 0 }
                }
            },
            _ => {
                if !node_is_error(self.type_node(n.ty)) {
                    self.report(DiagCode::NotConstant, location);
                }
                Bound { known: false, len: 0 }
            },
        }
    }

    /// Parses an array suffix after its `[`.
    pub fn array_suffix(&mut self, guard: RecursionGuard, ty: usize, location: Location) -> (r: Shape)
        requires
            old(self).wf(),
            guard.wf(),
            guard@.depth <= guard@.max,
            ty < old(self)@.types.len(),
        ensures
            final(self).wf(),
            final(self)@ == old(self)@.array_suffix(guard@, ty, location).0,
            r == old(self)@.array_suffix(guard@, ty, location).1,
            old(self)@.grows_to(final(self)@),
            r.ty < final(self)@.types.len(),
            r.params < final(self)@.nodes.len(),
        decreases guard@.max - guard@.depth + 1, old(self)@.tokens.len() - old(self)@.pos, 5int,
    {
        let b: Bound = self.array_bound(guard);
        self.expect(Punct::RBracket);
        let inner: Shape = self.suffix(guard, ty);
        let none: Shape = Shape { ty: TY_ERROR, params: 0, function: false };
        if node_is_error(self.type_node(inner.ty)) {
            return none;
        }
        let target = self.target();
        if self.types().size(&target, inner.ty).is_none() {
            self.report(DiagCode::IncompleteType, location);
            return none;
        }
        let id: usize = self.intern(TypeNode::Array { of: inner.ty, known: b.known, len: b.len });
        Shape { ty: id, params: 0, function: false }
    }

    /// Parses one parameter; the result is its type and its node.
    pub fn param(&mut self, guard: RecursionGuard) -> (r: (usize, usize))
        requires
            old(self).wf(),
            guard.wf(),
            guard@.depth <= guard@.max,
        ensures
            final(self).wf(),
            final(self)@ == old(self)@.param(guard@).0,
            r.0 == old(self)@.param(guard@).1,
            r.1 == old(self)@.param(guard@).2,
            old(self)@.grows_to(final(self)@),
            r.0 < final(self)@.types.len(),
            r.1 < final(self)@.nodes.len(),
        decreases guard@.max - guard@.depth + 1, old(self)@.tokens.len() - old(self)@.pos, 2int,
    {
        let location: Location = self.here();
        let b: Base = self.specifier(guard);
        let dc: Declarator = self.declarator(guard, b.ty);
        let ty: usize = self.adjusted(dc.ty);
        let node: usize = self.push(
            Node {
                kind: NodeKind::Param { name: dc.name, named: dc.named },
                ty,
                category: Category::Value,
                constant: None,
                location,
            },
        );
        (ty, node)
    }

    /// Parses a parameter list up to its `)`.
    pub fn parameters(&mut self, guard: RecursionGuard) -> (r: ParamList)
        requires
            old(self).wf(),
            guard.wf(),
            guard@.depth <= guard@.max,
        ensures
            final(self).wf(),
            final(self)@ == old(self)@.parameters(guard@).0,
            r == old(self)@.parameters(guard@).1,
            old(self)@.grows_to(final(self)@),
            r.chain < final(self)@.types.len(),
            r.list < final(self)@.nodes.len(),
        decreases guard@.max - guard@.depth + 1, old(self)@.tokens.len() - old(self)@.pos, 4int,
    {
        if self.at_punct(Punct::RParen) {
            return ParamList { chain: TY_NO_PARAMS, list: 0, variadic: true };
        }
        let next_closes: bool = match self.kind_ahead(1) {
            TokenKind::Punct(Punct::RParen) => true,
            _ => false,
        };
        if self.at_keyword(Keyword::Void) && next_closes {
            self.advance();
            return ParamList { chain: TY_NO_PARAMS, list: 0, variadic: false };
        }
        let location: Location = self.here();
        let mut types: Vec<usize> = Vec::new();
        let mut nodes: Vec<usize> = Vec::new();
        let mut variadic: bool = false;
        let ghost start = self@;
        loop
            invariant_except_break
                self.wf(),
                guard.wf(),
                !variadic,
                all_below(types@, self@.types.len() as int),
                all_below(nodes@, self@.nodes.len() as int),
                old(self)@.grows_to(self@),
                self@.param_items(guard@, types@, nodes@) == start.param_items(
                    guard@,
                    Seq::empty(),
                    Seq::empty(),
                ),
            invariant
                start == old(self)@,
                start.in_tokens(),
                guard@.depth <= guard@.max,
            ensures
                self.wf(),
                all_below(types@, self@.types.len() as int),
                all_below(nodes@, self@.nodes.len() as int),
                old(self)@.grows_to(self@),
                start == old(self)@,
                (Items { state: self@, types: types@, nodes: nodes@, variadic })
                    == start.param_items(guard@, Seq::empty(), Seq::empty()),
            decreases self@.tokens.len() - self@.pos,
        {
            if self.at_punct(Punct::Ellipsis) {
                self.advance();
                variadic = true;
                break ;
            }
            let (ty, node) = self.param(guard);
            types.push(ty);
            nodes.push(node);
            if self.at_punct(Punct::Comma) {
                self.advance();
            } else {
                break ;
            }
        }
        let chain: usize = self.chain(&types);
        let list: usize = self.make_list(&nodes, location);
        ParamList { chain, list, variadic }
    }

    /// Parses a function suffix after its `(`.
    pub fn function_suffix(&mut self, guard: RecursionGuard, ty: usize, location: Location) -> (r:
        Shape)
        requires
            old(self).wf(),
            guard.wf(),
            guard@.depth <= guard@.max,
            ty < old(self)@.types.len(),
        ensures
            final(self).wf(),
            final(self)@ == old(self)@.function_suffix(guard@, ty, location).0,
            r == old(self)@.function_suffix(guard@, ty, location).1,
            old(self)@.grows_to(final(self)@),
            r.ty < final(self)@.types.len(),
            r.params < final(self)@.nodes.len(),
        decreases guard@.max - guard@.depth + 1, old(self)@.tokens.len() - old(self)@.pos, 5int,
    {
        let p: ParamList = self.parameters(guard);
        self.expect(Punct::RParen);
        let fixed: bool = match self.type_node(ty) {
            TypeNode::Array { .. } => true,
            TypeNode::Function { .. } => true,
            _ => false,
        };
        if fixed {
            self.report(DiagCode::TypeMismatch, location);
            return Shape { ty: TY_ERROR, params: p.list, function: true };
        }
        let id: usize = self.intern(
            TypeNode::Function { ret: ty, params: p.chain, variadic: p.variadic },
        );
        Shape { ty: id, params: p.list, function: true }
    }

    /// Parses the suffixes of a declarator.
    pub fn suffix(&mut self, guard: RecursionGuard, ty: usize) -> (r: Shape)
        requires
            old(self).wf(),
            guard.wf(),
            ty < old(self)@.types.len(),
        ensures
            final(self).wf(),
            final(self)@ == old(self)@.suffix(guard@, ty).0,
            r == old(self)@.suffix(guard@, ty).1,
            old(self)@.grows_to(final(self)@),
            r.ty < final(self)@.types.len(),
            r.params < final(self)@.nodes.len(),
        decreases guard@.max - guard@.depth, old(self)@.tokens.len() - old(self)@.pos, 12int,
    {
        let location: Location = self.here();
        let array: bool = self.at_punct(Punct::LBracket);
        if array || self.at_punct(Punct::LParen) {
            self.advance();
            match self.enter(guard) {
                None => Shape { ty: TY_ERROR, params: 0, function: false },
                Some(g) => {
                    if array {
                        self.array_suffix(g, ty, location)
                    } else {
                        self.function_suffix(g, ty, location)
                    }
                },
            }
        } else {
            Shape { ty, params: 0, function: false }
        }
    }

    /// Parses a declarator on a type.
    pub fn declarator(&mut self, guard: RecursionGuard, ty: usize) -> (r: Declarator)
        requires
            old(self).wf(),
            guard.wf(),
            ty < old(self)@.types.len(),
        ensures
            final(self).wf(),
            final(self)@ == old(self)@.declarator(guard@, ty).0,
            r == old(self)@.declarator(guard@, ty).1,
            old(self)@.grows_to(final(self)@),
            r.ty < final(self)@.types.len(),
            r.params < final(self)@.nodes.len(),
        decreases guard@.max - guard@.depth, old(self)@.tokens.len() - old(self)@.pos, 13int,
    {
        let pointer: usize = self.pointers(ty);
        let location: Location = self.here();
        let (name, named) = match self.kind() {
            TokenKind::Ident(n) => (n, true),
            _ => (0, false),
        };
        if named {
            self.advance();
        }
        let sh: Shape = self.suffix(guard, pointer);
        Declarator {
            ty: sh.ty,
            name,
            named,
            location,
            params: sh.params,
            function: sh.function,
        }
    }

    /// Parses the members of an initialiser in braces.
    pub fn init_items(&mut self, guard: RecursionGuard, elem: usize, fields: usize, by_field: bool) -> (items:
        Vec<usize>)
        requires
            old(self).wf(),
            guard.wf(),
            guard@.depth <= guard@.max,
            elem < old(self)@.types.len(),
            fields < old(self)@.types.len(),
        ensures
            final(self).wf(),
            final(self)@ == old(self)@.init_items(guard@, elem, fields, by_field, Seq::empty()).0,
            items@ == old(self)@.init_items(guard@, elem, fields, by_field, Seq::empty()).1,
            old(self)@.grows_to(final(self)@),
            all_below(items@, final(self)@.nodes.len() as int),
        decreases guard@.max - guard@.depth + 1, old(self)@.tokens.len() - old(self)@.pos, 2int,
    {
        let mut done: Vec<usize> = Vec::new();
        let mut at: usize = fields;
        loop
            invariant
                self.wf(),
                guard.wf(),
                guard@.depth <= guard@.max,
                elem < self@.types.len(),
                at < self@.types.len(),
                all_below(done@, self@.nodes.len() as int),
                old(self)@.grows_to(self@),
                self@.init_items(guard@, elem, at, by_field, done@) == old(self)@.init_items(
                    guard@,
                    elem,
                    fields,
                    by_field,
                    Seq::empty(),
                ),
            decreases self@.tokens.len() - self@.pos,
        {
            if self.at_punct(Punct::RBrace) || self.at_eof() {
                return done;
            }
            let cell: TypeNode = self.type_node(at);
            let (ty, next, is_field) = match cell {
                TypeNode::Field { ty, tail, .. } => (
                    if by_field {
                        ty
                    } else {
                        elem
                    },
                    if by_field {
                        tail
                    } else {
                        at
                    },
                    true,
                ),
                _ => (
                    if by_field {
                        TY_ERROR
                    } else {
                        elem
                    },
                    at,
                    false,
                ),
            };
            if by_field && !is_field {
                let here: Location = self.here();
                self.report(DiagCode::TypeMismatch, here);
            }
            let item: usize = self.initializer(guard, ty);
            done.push(item);
            at = next;
            if self.at_punct(Punct::Comma) {
                self.advance();
            } else {
                return done;
            }
        }
    }

    /// Parses an initialiser in braces after its `{`.
    pub fn brace_init(&mut self, guard: RecursionGuard, ty: usize, location: Location) -> (r: usize)
        requires
            old(self).wf(),
            guard.wf(),
            guard@.depth <= guard@.max,
            ty < old(self)@.types.len(),
        ensures
            final(self).wf(),
            final(self)@ == old(self)@.brace_init(guard@, ty, location).0,
            r == old(self)@.brace_init(guard@, ty, location).1,
            old(self)@.grows_to(final(self)@),
            r < final(self)@.nodes.len(),
        decreases guard@.max - guard@.depth + 1, old(self)@.tokens.len() - old(self)@.pos, 3int,
    {
        let t: TypeNode = self.type_node(ty);
        let elem: usize = match t {
            TypeNode::Array { of, .. } => of,
            _ => ty,
        };
        let by_field: bool = match t {
            TypeNode::Record { complete, .. } => complete,
            _ => false,
        };
        let fields: usize = match t {
            TypeNode::Record { fields, .. } => if by_field && fields < self.type_count() {
                fields
            } else {
                0
            },
            _ => 0,
        };
        let items: Vec<usize> = self.init_items(guard, elem, fields, by_field);
        self.expect(Punct::RBrace);
        let list: usize = self.make_list(&items, location);
        self.push(
            Node {
                kind: NodeKind::InitList { items: list },
                ty,
                category: Category::Value,
                constant: None,
                location,
            },
        )
    }

    /// Parses an initialiser for an object of a type.
    pub fn initializer(&mut self, guard: RecursionGuard, ty: usize) -> (r: usize)
        requires
            old(self).wf(),
            guard.wf(),
            ty < old(self)@.types.len(),
        ensures
            final(self).wf(),
            final(self)@ == old(self)@.initializer(guard@, ty).0,
            r == old(self)@.initializer(guard@, ty).1,
            old(self)@.grows_to(final(self)@),
            r < final(self)@.nodes.len(),
        decreases guard@.max - guard@.depth, old(self)@.tokens.len() - old(self)@.pos, 11int,
    {
        let location: Location = self.here();
        if self.at_punct(Punct::LBrace) {
            self.advance();
            match self.enter(guard) {
                None => self.too_deep_node(location),
                Some(g) => self.brace_init(g, ty, location),
            }
        } else {
            let e: usize = self.assignment(guard);
            let is_array: bool = match self.type_node(ty) {
                TypeNode::Array { .. } => true,
                _ => false,
            };
            let is_string: bool = match self.node(e).kind {
                NodeKind::Str { .. } => true,
                _ => false,
            };
            if is_array && is_string {
                e
            } else {
                self.coerce(e, ty, location)
            }
        }
    }

    /// Completes the type of an initialised array of open length.
    pub fn completed(&mut self, ty: usize, init: usize) -> (r: usize)
        requires
            old(self).wf(),
            ty < old(self)@.types.len(),
            init < old(self)@.nodes.len(),
        ensures
            final(self).wf(),
            final(self)@ == old(self)@.completed(ty, init).0,
            r == old(self)@.completed(ty, init).1,
            old(self)@.grows_to(final(self)@),
            final(self)@.pos == old(self)@.pos,
            final(self)@.nodes == old(self)@.nodes,
            r < final(self)@.types.len(),
    {
        match self.type_node(ty) {
            TypeNode::Array { of, known, .. } => {
                if known {
                    return ty;
                }
                let n: Node = self.node(init);
                match n.kind {
                    NodeKind::InitList { items } => {
                        let count: usize = self.list_length(items);
                        self.intern(TypeNode::Array { of, known: true, len: count as u64 })
                    },
                    NodeKind::Str { .. } => n.ty,
                    _ => ty,
                }
            },
            _ => ty,
        }
    }

    /// Whether an initialiser must be constant and is not.
    pub fn lacks_constant(&self, storage: Storage, init: usize) -> (b: bool)
        requires
            self.wf(),
            init < self@.nodes.len(),
        ensures
            b == self@.lacks_constant(storage, init),
    {
        let n: Node = self.node(init);
        let is_static: bool = match storage {
            Storage::Static => true,
            _ => false,
        };
        let listed: bool = match n.kind {
            NodeKind::InitList { .. } => true,
            NodeKind::Str { .. } => true,
            _ => false,
        };
        is_static && n.constant.is_none() && !listed && !node_is_error(self.type_node(n.ty))
    }

    /// Parses the initialiser of a declarator, if it has one, and makes
    /// the node of the declaration.
    #[verifier::rlimit(100)]
    pub fn declare_object(&mut self, guard: RecursionGuard, base: Base, dc: Declarator) -> (r:
        usize)
        requires
            old(self).wf(),
            guard.wf(),
            guard@.depth <= guard@.max,
            dc.ty < old(self)@.types.len(),
        ensures
            final(self).wf(),
            final(self)@ == old(self)@.declare_object(guard@, base, dc).0,
            r == old(self)@.declare_object(guard@, base, dc).1,
            old(self)@.grows_to(final(self)@),
            r < final(self)@.nodes.len(),
        decreases guard@.max - guard@.depth + 1, old(self)@.tokens.len() - old(self)@.pos, 6int,
    {
        if !dc.named {
            self.report(DiagCode::UnexpectedToken, dc.location);
        }
        let incomplete: bool = match self.type_node(dc.ty) {
            TypeNode::Void => true,
            TypeNode::Record { complete, .. } => !complete,
            _ => false,
        };
        if incomplete {
            self.report(DiagCode::IncompleteType, dc.location);
        }
        self.bind(dc.name, dc.ty, base.storage, dc.location, base.is_const);
        if self.at_punct(Punct::Assign) {
            self.advance();
            let init: usize = self.initializer(guard, dc.ty);
            let ty: usize = self.completed(dc.ty, init);
            if ty != dc.ty {
                self.declare(dc.name, ty, base.storage, dc.location, base.is_const);
            }
            if self.lacks_constant(base.storage, init) {
                self.report(DiagCode::NotConstant, dc.location);
            }
            self.push(
                Node {
                    kind: NodeKind::Declare { name: dc.name, storage: base.storage, init },
                    ty,
                    category: Category::Value,
                    constant: None,
                    location: dc.location,
                },
            )
        } else {
            self.push(
                Node {
                    kind: NodeKind::Declare { name: dc.name, storage: base.storage, init: 0 },
                    ty: dc.ty,
                    category: Category::Value,
                    constant: None,
                    location: dc.location,
                },
            )
        }
    }

    /// Parses the declarators of a declaration from the second on; the
    /// first was parsed already.
    pub fn declarators(&mut self, guard: RecursionGuard, base: Base, dc: Declarator) -> (items:
        Vec<usize>)
        requires
            old(self).wf(),
            guard.wf(),
            guard@.depth <= guard@.max,
            dc.ty < old(self)@.types.len(),
            base.ty < old(self)@.types.len(),
        ensures
            final(self).wf(),
            final(self)@ == old(self)@.declarators(guard@, base, dc, Seq::empty()).0,
            items@ == old(self)@.declarators(guard@, base, dc, Seq::empty()).1,
            old(self)@.grows_to(final(self)@),
            all_below(items@, final(self)@.nodes.len() as int),
        decreases guard@.max - guard@.depth + 1, old(self)@.tokens.len() - old(self)@.pos, 7int,
    {
        let mut done: Vec<usize> = Vec::new();
        let mut current: Declarator = dc;
        loop
            invariant
                self.wf(),
                guard.wf(),
                guard@.depth <= guard@.max,
                current.ty < self@.types.len(),
                base.ty < self@.types.len(),
                all_below(done@, self@.nodes.len() as int),
                old(self)@.grows_to(self@),
                self@.declarators(guard@, base, current, done@) == old(self)@.declarators(
                    guard@,
                    base,
                    dc,
                    Seq::empty(),
                ),
            decreases self@.tokens.len() - self@.pos,
        {
            let node: usize = self.declare_object(guard, base, current);
            done.push(node);
            if self.at_punct(Punct::Comma) {
                self.advance();
                current = self.declarator(guard, base.ty);
            } else {
                return done;
            }
        }
    }

    /// Parses the rest of a declaration whose specifiers and first
    /// declarator were parsed.
    pub fn finish_declaration(
        &mut self,
        guard: RecursionGuard,
        base: Base,
        dc: Declarator,
        location: Location,
    ) -> (r: usize)
        requires
            old(self).wf(),
            guard.wf(),
            guard@.depth <= guard@.max,
            dc.ty < old(self)@.types.len(),
            base.ty < old(self)@.types.len(),
        ensures
            final(self).wf(),
            final(self)@ == old(self)@.finish_declaration(guard@, base, dc, location).0,
            r == old(self)@.finish_declaration(guard@, base, dc, location).1,
            old(self)@.grows_to(final(self)@),
            r < final(self)@.nodes.len(),
        decreases guard@.max - guard@.depth + 1, old(self)@.tokens.len() - old(self)@.pos, 8int,
    {
        let items: Vec<usize> = self.declarators(guard, base, dc);
        self.end_statement();
        let list: usize = self.make_list(&items, location);
        self.push(make_plain(NodeKind::Group { items: list }, location))
    }
}

} // verus!
