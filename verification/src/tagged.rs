//! The specifiers of declarations and type names, with the specifiers of
//! structures, unions and enumerations.
//!
//! The depth sentinel is consulted after the reserved word that starts
//! the specifier of a structure, a union or an enumeration.

use vstd::prelude::*;
use crate::analyze::all_below;
use crate::decl::Declarator;
use crate::error::DiagCode;
use crate::error::Location;
use crate::fold::wrap;
use crate::fold::wrap_value;
use crate::fold::Constant;
use crate::guard::Level;
use crate::guard::RecursionGuard;
use crate::rules::node_is_error;
use crate::scope::Declared;
use crate::scope::Space;
use crate::scope::Storage;
use crate::scope::Symbol;
use crate::state::Parser;
use crate::state::State;
use crate::target::IntRank;
use crate::target::Target;
use crate::token::Keyword;
use crate::token::Punct;
use crate::token::TokenKind;
use crate::typename::has_no_type_words;
use crate::typename::is_tag_word;
use crate::typename::keyword_is_tag_word;
use crate::typename::no_type_words;
use crate::typename::nothing_seen;
use crate::typename::seen_storage;
use crate::typename::storage_of_seen;
use crate::typename::Base;
use crate::typename::Seen;
use crate::types::align_of_type;
use crate::types::settled;
use crate::types::size_of;
use crate::types::TypeNode;
use crate::types::TY_ERROR;
use crate::types::TY_NO_PARAMS;
use crate::types::TY_INT;

verus! {

/// The symbol of a tag that is being declared.
pub open spec fn tag_symbol(name: usize, ty: usize, location: Location) -> Symbol {
    Symbol {
        name,
        space: Space::Tag,
        ty,
        storage: Storage::Auto,
        depth: 0,
        location,
        is_const: false,
        enumerator: false,
        value: 0,
    }
}

/// The symbol of an enumeration constant that is being declared.
pub open spec fn enumerator_symbol(name: usize, value: i128, location: Location) -> Symbol {
    Symbol {
        name,
        space: Space::Ordinary,
        ty: TY_INT,
        storage: Storage::Auto,
        depth: 0,
        location,
        is_const: true,
        enumerator: true,
        value,
    }
}

/// The members of a structure or union as they are laid out: their
/// names, types and offsets, the size and alignment reached, and whether
/// every size so far was one that 64 bits hold.
pub struct Layout {
    pub names: Seq<usize>,
    pub types: Seq<usize>,
    pub offsets: Seq<u64>,
    pub size: u64,
    pub align: u8,
    pub ok: bool,
}

pub open spec fn empty_layout() -> Layout {
    Layout {
        names: Seq::empty(),
        types: Seq::empty(),
        offsets: Seq::empty(),
        size: 0,
        align: 1,
        ok: true,
    }
}

/// The least multiple of `a` that is not below `x`, if 64 bits hold it;
/// `x` itself if `a` is zero.
pub open spec fn round_up(x: u64, a: u8) -> Option<u64> {
    if a == 0 || x % (a as u64) == 0 {
        Some(x)
    } else if x + (a - x % (a as u64)) <= u64::MAX {
        Some((x + (a - x % (a as u64))) as u64)
    } else {
        None
    }
}

/// A layout with one member more. In a structure the member lies at the
/// end of the members before it, rounded up to its alignment, and the
/// structure ends where the member ends; in a union every member lies at
/// the start, and the union is as large as its largest member. The
/// alignment is the strictest of the members.
pub open spec fn with_member(
    lay: Layout,
    union: bool,
    name: usize,
    ty: usize,
    size: u64,
    align: u8,
) -> Layout {
    let at = if union {
        Some(0u64)
    } else {
        round_up(lay.size, align)
    };
    match at {
        Some(offset) => if offset + size <= u64::MAX {
            Layout {
                names: lay.names.push(name),
                types: lay.types.push(ty),
                offsets: lay.offsets.push(offset),
                size: if !union {
                    (offset + size) as u64
                } else if size > lay.size {
                    size
                } else {
                    lay.size
                },
                align: if align > lay.align {
                    align
                } else {
                    lay.align
                },
                ok: lay.ok,
            }
        } else {
            Layout { ok: false, ..lay }
        },
        None => Layout { ok: false, ..lay },
    }
}

/// The members of a structure or union as the parser lays them out.
pub struct Members {
    pub names: Vec<usize>,
    pub types: Vec<usize>,
    pub offsets: Vec<u64>,
    pub size: u64,
    pub align: u8,
    pub ok: bool,
}

impl View for Members {
    type V = Layout;

    open spec fn view(&self) -> Layout {
        Layout {
            names: self.names@,
            types: self.types@,
            offsets: self.offsets@,
            size: self.size,
            align: self.align,
            ok: self.ok,
        }
    }
}

/// Whether a layout has a name, a type and an offset for each member, and
/// every type is one of the first `n` of the table of types.
pub open spec fn layout_fits(lay: Layout, n: int) -> bool {
    lay.names.len() == lay.types.len() && lay.types.len() == lay.offsets.len() && all_below(
        lay.types,
        n,
    )
}

pub fn rounded(x: u64, a: u8) -> (r: Option<u64>)
    ensures
        r == round_up(x, a),
{
    if a == 0 {
        return Some(x);
    }
    let rest: u64 = x % (a as u64);
    if rest == 0 {
        Some(x)
    } else {
        x.checked_add(a as u64 - rest)
    }
}

/// Adds a member to a layout.
pub fn place(lay: &mut Members, union: bool, name: usize, ty: usize, size: u64, align: u8)
    ensures
        final(lay)@ == with_member(old(lay)@, union, name, ty, size, align),
        forall|n: int| layout_fits(old(lay)@, n) && ty < n ==> layout_fits(final(lay)@, n),
{
    let at: Option<u64> = if union {
        Some(0)
    } else {
        rounded(lay.size, align)
    };
    let end: Option<u64> = match at {
        Some(offset) => offset.checked_add(size),
        None => None,
    };
    match (at, end) {
        (Some(offset), Some(e)) => {
            lay.names.push(name);
            lay.types.push(ty);
            lay.offsets.push(offset);
            if !union {
                lay.size = e;
            } else if size > lay.size {
                lay.size = size;
            }
            if align > lay.align {
                lay.align = align;
            }
        },
        _ => {
            lay.ok = false;
        },
    }
}

/// A number as a value of type `int`.
pub open spec fn as_int(target: Target, value: int) -> i128 {
    wrap(target.bits_of(IntRank::Int), true, value) as i128
}

impl State {
    /// The state after a symbol was declared; a declaration that
    /// conflicts with an earlier one in the scope is recorded as an
    /// error.
    pub open spec fn introduce(self, sym: Symbol) -> State {
        let s1 = self.put(sym);
        if self.scopes.outcome(self.types, sym) == Declared::Conflict {
            s1.report(DiagCode::Redefinition, sym.location)
        } else {
            s1
        }
    }

    /// The value that an enumeration constant is given after its `=`: a
    /// constant expression that folds to an integer, taken as an `int`.
    /// An expression that does not is recorded as an error and the
    /// constant takes the value `next`.
    pub open spec fn enumerator_value(self, d: Level, next: i128, loc: Location) -> (State, i128)
        decreases d.max - d.depth + 1, self.tokens.len() - self.pos, 4int,
        when self.in_tokens() && d.depth <= d.max
    {
        let (s1, e) = self.ternary(d);
        match s1.constant_of(e) {
            Some(Constant::Int(v)) => (s1, as_int(s1.target, v.value as int)),
            _ => (
                if s1.type_at(e) is Error {
                    s1
                } else {
                    s1.report(DiagCode::NotConstant, loc)
                },
                next,
            ),
        }
    }

    /// The enumeration constants of an enumeration, with commas between
    /// them. Each is declared with the value given to it, or else with
    /// `next`: zero for the first, one more than its predecessor for the
    /// others.
    pub open spec fn enumerators(self, d: Level, next: i128) -> State
        decreases d.max - d.depth + 1, self.tokens.len() - self.pos, 5int,
        when self.in_tokens() && d.depth <= d.max
    {
        match self.kind() {
            TokenKind::Ident(name) => {
                let loc = self.here();
                let s1 = self.advance();
                let (s2, value) = if s1.at_punct(Punct::Assign) && self.passed_by(s1.advance()) {
                    s1.advance().enumerator_value(d, next, loc)
                } else {
                    (s1, next)
                };
                let s3 = s2.introduce(enumerator_symbol(name, value, loc));
                if s3.at_punct(Punct::Comma) && self.passed_by(s3.advance()) {
                    s3.advance().enumerators(d, as_int(s3.target, value + 1))
                } else {
                    s3
                }
            },
            _ => self,
        }
    }

    /// The specifier of an enumeration after `enum`: a tag, a list of
    /// enumeration constants in braces, or both. Its type is `int`. A
    /// tag with a list is declared; a tag without one must be the tag of
    /// an enumeration.
    pub open spec fn enum_specifier(self, d: Level, loc: Location) -> (State, usize)
        decreases d.max - d.depth + 1, self.tokens.len() - self.pos, 6int,
        when self.in_tokens() && d.depth <= d.max
    {
        let named = self.kind() is Ident;
        let name = match self.kind() {
            TokenKind::Ident(n) => n,
            _ => 0,
        };
        let s1 = if named {
            self.advance()
        } else {
            self
        };
        if s1.at_punct(Punct::LBrace) {
            let s2 = if named {
                s1.introduce(tag_symbol(name, TY_INT, loc))
            } else {
                s1
            };
            let s3 = s2.advance();
            if self.passed_by(s3) {
                (s3.enumerators(d, 0).expect(Punct::RBrace), TY_INT)
            } else {
                (s3, TY_INT)
            }
        } else if named {
            match s1.scopes.find(name, Space::Tag) {
                Some(sym) => if sym.ty == TY_INT {
                    (s1, TY_INT)
                } else {
                    (s1.report(DiagCode::TypeMismatch, loc), TY_INT)
                },
                None => (s1.report(DiagCode::UndeclaredIdentifier, loc), TY_INT),
            }
        } else {
            (s1.report(DiagCode::UnexpectedToken, loc), TY_INT)
        }
    }

    /// The state after the member that a declarator declares was added
    /// to a layout, and the layout. A member must have a name and a type
    /// of known size.
    pub open spec fn add_member(self, union: bool, dc: Declarator, lay: Layout) -> (State, Layout) {
        if !dc.named {
            (self.report(DiagCode::UnexpectedToken, dc.location), lay)
        } else {
            match size_of(self.types, self.target, dc.ty as int) {
                Some(size) => (
                    self,
                    with_member(
                        lay,
                        union,
                        dc.name,
                        dc.ty,
                        size,
                        align_of_type(self.types, self.target, dc.ty as int),
                    ),
                ),
                None => (
                    if self.types[dc.ty as int] is Error {
                        self
                    } else {
                        self.report(DiagCode::IncompleteType, dc.location)
                    },
                    lay,
                ),
            }
        }
    }

    /// The declarators of a member declaration from `dc` on, with commas
    /// between them, each adding a member to the layout.
    pub open spec fn member_declarators(
        self,
        d: Level,
        union: bool,
        base: Base,
        dc: Declarator,
        lay: Layout,
    ) -> (State, Layout)
        decreases d.max - d.depth + 1, self.tokens.len() - self.pos, 7int,
        when self.in_tokens() && d.depth <= d.max
    {
        let (s1, lay1) = self.add_member(union, dc, lay);
        if s1.at_punct(Punct::Comma) {
            let (s2, next) = s1.advance().declarator(d, base.ty);
            if self.passed_by(s2) {
                s2.member_declarators(d, union, base, next, lay1)
            } else {
                (s2, lay1)
            }
        } else {
            (s1, lay1)
        }
    }

    /// One member declaration: specifiers, declarators, and a `;`.
    pub open spec fn member_declaration(self, d: Level, union: bool, lay: Layout) -> (State, Layout)
        decreases d.max - d.depth + 1, self.tokens.len() - self.pos, 8int,
        when self.in_tokens() && d.depth <= d.max
    {
        let (s1, base) = self.specifier(d);
        let (s2, dc) = s1.declarator(d, base.ty);
        if self.reached_by(s2) {
            let (s3, lay1) = s2.member_declarators(d, union, base, dc, lay);
            (s3.end_statement(), lay1)
        } else {
            (s2, lay)
        }
    }

    /// The member declarations of a structure or union up to its closing
    /// brace. If one of them steps over no token, the token is recorded
    /// as unexpected and stepped over.
    pub open spec fn members(self, d: Level, union: bool, lay: Layout) -> (State, Layout)
        decreases d.max - d.depth + 1, self.tokens.len() - self.pos, 9int,
        when self.in_tokens() && d.depth <= d.max
    {
        if self.at_punct(Punct::RBrace) || self.kind() is Eof {
            (self, lay)
        } else {
            let (s1, lay1) = self.member_declaration(d, union, lay);
            let s2 = if s1.pos == self.pos {
                s1.report(DiagCode::UnexpectedToken, s1.here()).advance()
            } else {
                s1
            };
            if self.passed_by(s2) {
                s2.members(d, union, lay1)
            } else {
                (s2, lay1)
            }
        }
    }

    /// The list of the first `k` members of a layout in front of the
    /// list `tail`, in the table of types.
    pub open spec fn field_chain(self, lay: Layout, k: int, tail: usize) -> (State, usize)
        decreases k,
    {
        if k <= 0 || k > lay.names.len() || k > lay.types.len() || k > lay.offsets.len() {
            (self, tail)
        } else {
            let cell = TypeNode::Field {
                name: lay.names[k - 1],
                ty: lay.types[k - 1],
                offset: lay.offsets[k - 1],
                tail,
            };
            self.intern(cell).field_chain(lay, k - 1, self.type_id(cell))
        }
    }

    /// A new incomplete structure or union, declared under its tag in the
    /// innermost scope if it has one.
    pub open spec fn new_record(self, name: usize, named: bool, union: bool, loc: Location) -> (
        State,
        usize,
    ) {
        let node = TypeNode::Record {
            tag: self.types.len() as usize,
            union,
            complete: false,
            fields: TY_NO_PARAMS,
            size: 0,
            align: 1,
        };
        let s1 = self.intern(node);
        let id = self.type_id(node);
        (
            if named {
                s1.introduce(tag_symbol(name, id, loc))
            } else {
                s1
            },
            id,
        )
    }

    /// The structure or union that a specifier with a member list
    /// defines: the one that the innermost scope holds under the tag, if
    /// it is of the same kind and still incomplete; else a new one. A tag
    /// that the scope holds for something else, or for a complete
    /// structure or union, is recorded as redefined.
    pub open spec fn record_to_define(self, name: usize, named: bool, union: bool, loc: Location) -> (
        State,
        usize,
    ) {
        match self.scopes.local(name, Space::Tag) {
            Some(sym) => if !named {
                self.new_record(name, false, union, loc)
            } else {
                match self.types[sym.ty as int] {
                    TypeNode::Record { union: u, complete, .. } => if u == union && !complete {
                        (self, sym.ty)
                    } else {
                        self.report(DiagCode::Redefinition, loc).new_record(name, false, union, loc)
                    },
                    _ => self.report(DiagCode::Redefinition, loc).new_record(
                        name,
                        false,
                        union,
                        loc,
                    ),
                }
            },
            None => self.new_record(name, named, union, loc),
        }
    }

    /// The state after the structure or union at `id` was given the
    /// members of a layout: it is complete, with the members in the table
    /// of types, the size of the layout rounded up to its alignment, and
    /// that alignment. A layout that no 64-bit size holds, and a
    /// structure or union that is complete already, are recorded as
    /// errors.
    pub open spec fn finish_record(self, id: usize, lay: Layout, loc: Location) -> State {
        let (s1, fields) = self.field_chain(lay, lay.names.len() as int, TY_NO_PARAMS);
        let total = round_up(lay.size, lay.align);
        if lay.ok && total is Some && id < s1.types.len() && fields < s1.types.len()
            && s1.types[id as int] is Record && !settled(s1.types[id as int]) {
            s1.complete_record(id, fields, total.unwrap(), lay.align)
        } else {
            s1.report(DiagCode::IncompleteType, loc)
        }
    }

    /// The specifier of a structure or union after its reserved word: a
    /// tag, a member list in braces, or both. With a member list it
    /// defines a structure or union and completes it. A tag alone names
    /// the structure or union of that tag, which is declared, incomplete,
    /// if no scope holds it.
    pub open spec fn record_specifier(self, d: Level, union: bool, loc: Location) -> (State, usize)
        decreases d.max - d.depth + 1, self.tokens.len() - self.pos, 10int,
        when self.in_tokens() && d.depth <= d.max
    {
        let named = self.kind() is Ident;
        let name = match self.kind() {
            TokenKind::Ident(n) => n,
            _ => 0,
        };
        let s1 = if named {
            self.advance()
        } else {
            self
        };
        if s1.at_punct(Punct::LBrace) {
            let (s2, id) = s1.record_to_define(name, named, union, loc);
            let s3 = s2.advance();
            if self.passed_by(s3) {
                let (s4, lay) = s3.members(d, union, empty_layout());
                (s4.expect(Punct::RBrace).finish_record(id, lay, loc), id)
            } else {
                (s3, id)
            }
        } else if named {
            match s1.scopes.find(name, Space::Tag) {
                Some(sym) => match s1.types[sym.ty as int] {
                    TypeNode::Record { union: u, .. } => if u == union {
                        (s1, sym.ty)
                    } else {
                        (s1.report(DiagCode::TypeMismatch, loc), TY_ERROR)
                    },
                    _ => (s1.report(DiagCode::TypeMismatch, loc), TY_ERROR),
                },
                None => s1.new_record(name, true, union, loc),
            }
        } else {
            (s1.report(DiagCode::UnexpectedToken, loc), TY_ERROR)
        }
    }

    /// A specifier that starts with `struct`, `union` or `enum`. The
    /// depth sentinel is consulted after the reserved word; past the
    /// limit the specifier is not parsed and its type is the sentinel.
    pub open spec fn tagged(self, g: Level) -> (State, usize)
        decreases g.max - g.depth, self.tokens.len() - self.pos, 18int,
        when self.in_tokens()
    {
        let loc = self.here();
        let s0 = self.advance().enter(g);
        if !g.may_enter() || !(self.kind() is Keyword) {
            (s0, TY_ERROR)
        } else if self.at_keyword(Keyword::Enum) {
            s0.enum_specifier(g.deeper(), loc)
        } else {
            s0.record_specifier(g.deeper(), self.at_keyword(Keyword::Union), loc)
        }
    }

    /// The specifiers of a declaration or of a type name, and what they
    /// say: words that name a type, or the specifier of a structure, a
    /// union or an enumeration, with qualifiers and a storage class
    /// around them.
    pub open spec fn specifier(self, g: Level) -> (State, Base)
        decreases g.max - g.depth, self.tokens.len() - self.pos, 19int,
        when self.in_tokens()
    {
        let (s1, seen) = self.specifiers(nothing_seen());
        let tag = match s1.kind() {
            TokenKind::Keyword(k) => is_tag_word(k),
            _ => false,
        };
        if tag && self.reached_by(s1) {
            let (s2, ty) = s1.tagged(g);
            let (s3, all) = s2.specifiers(seen);
            let base = Base {
                ty,
                storage: match seen_storage(all) {
                    Some(s) => s,
                    None => Storage::Auto,
                },
                is_const: all.consts > 0,
            };
            if no_type_words(all) && seen_storage(all) is Some {
                (s3, base)
            } else {
                (s3.report(DiagCode::UnexpectedToken, self.here()), base)
            }
        } else {
            self.base()
        }
    }

    /// The type name at the place reached: specifiers, then `*`s.
    pub open spec fn named_type(self, g: Level) -> (State, usize)
        decreases g.max - g.depth, self.tokens.len() - self.pos, 20int,
        when self.in_tokens()
    {
        let (s1, b) = self.specifier(g);
        s1.pointers(b.ty)
    }
}

impl Parser {
    /// Declares a symbol and records a conflict.
    pub fn introduce(&mut self, sym: Symbol)
        requires
            old(self).wf(),
            sym.ty < old(self)@.types.len(),
        ensures
            final(self).wf(),
            final(self)@ == old(self)@.introduce(sym),
            old(self)@.grows_to(final(self)@),
            final(self)@.pos == old(self)@.pos,
            final(self)@.nodes == old(self)@.nodes,
            final(self)@.types == old(self)@.types,
    {
        match self.put(sym) {
            Declared::Conflict => {
                self.report(DiagCode::Redefinition, sym.location);
            },
            _ => {},
        }
    }

    fn int_value(&self, value: i128) -> (r: i128)
        requires
            self.wf(),
            value > i128::MIN,
        ensures
            r == as_int(self@.target, value as int),
            -0x8000_0000_0000_0000 <= r <= 0x7fff_ffff_ffff_ffff,
    {
        let target = self.target();
        wrap_value(target.bits(IntRank::Int), true, value)
    }

    /// Parses the value given to an enumeration constant.
    pub fn enumerator_value(&mut self, guard: RecursionGuard, next: i128, location: Location) -> (r:
        i128)
        requires
            old(self).wf(),
            guard.wf(),
            guard@.depth <= guard@.max,
            -0x8000_0000_0000_0000 <= next <= 0x7fff_ffff_ffff_ffff,
        ensures
            final(self).wf(),
            final(self)@ == old(self)@.enumerator_value(guard@, next, location).0,
            r == old(self)@.enumerator_value(guard@, next, location).1,
            old(self)@.grows_to(final(self)@),
            -0x8000_0000_0000_0000 <= r <= 0x7fff_ffff_ffff_ffff,
        decreases guard@.max - guard@.depth + 1, old(self)@.tokens.len() - old(self)@.pos, 4int,
    {
        let e: usize = self.ternary(guard);
        let n = self.node(e);
        match n.constant {
            Some(Constant::Int(v)) => {
                assert(crate::ast::node_ok(n, e as int, self@.types.len() as int));
                self.int_value(v.value)
            },
            _ => {
                if !node_is_error(self.type_node(n.ty)) {
                    self.report(DiagCode::NotConstant, location);
                }
                next
            },
        }
    }

    /// Parses the enumeration constants of an enumeration.
    pub fn enumerators(&mut self, guard: RecursionGuard)
        requires
            old(self).wf(),
            guard.wf(),
            guard@.depth <= guard@.max,
        ensures
            final(self).wf(),
            final(self)@ == old(self)@.enumerators(guard@, 0),
            old(self)@.grows_to(final(self)@),
        decreases guard@.max - guard@.depth + 1, old(self)@.tokens.len() - old(self)@.pos, 5int,
    {
        let mut next: i128 = 0;
        loop
            invariant
                self.wf(),
                guard.wf(),
                guard@.depth <= guard@.max,
                -0x8000_0000_0000_0000 <= next <= 0x7fff_ffff_ffff_ffff,
                old(self)@.grows_to(self@),
                self@.enumerators(guard@, next) == old(self)@.enumerators(guard@, 0),
            decreases self@.tokens.len() - self@.pos,
        {
            match self.kind() {
                TokenKind::Ident(name) => {
                    let location: Location = self.here();
                    self.advance();
                    let value: i128 = if self.at_punct(Punct::Assign) {
                        self.advance();
                        self.enumerator_value(guard, next, location)
                    } else {
                        next
                    };
                    self.introduce(
                        Symbol {
                            name,
                            space: Space::Ordinary,
                            ty: TY_INT,
                            storage: Storage::Auto,
                            depth: 0,
                            location,
                            is_const: true,
                            enumerator: true,
                            value,
                        },
                    );
                    if self.at_punct(Punct::Comma) {
                        self.advance();
                        next = self.int_value(value + 1);
                    } else {
                        return ;
                    }
                },
                _ => {
                    return ;
                },
            }
        }
    }

    /// Parses the specifier of an enumeration after `enum`.
    pub fn enum_specifier(&mut self, guard: RecursionGuard, location: Location) -> (r: usize)
        requires
            old(self).wf(),
            guard.wf(),
            guard@.depth <= guard@.max,
        ensures
            final(self).wf(),
            final(self)@ == old(self)@.enum_specifier(guard@, location).0,
            r == old(self)@.enum_specifier(guard@, location).1,
            old(self)@.grows_to(final(self)@),
            r < final(self)@.types.len(),
        decreases guard@.max - guard@.depth + 1, old(self)@.tokens.len() - old(self)@.pos, 6int,
    {
        let (name, named) = match self.kind() {
            TokenKind::Ident(n) => (n, true),
            _ => (0, false),
        };
        if named {
            self.advance();
        }
        if self.at_punct(Punct::LBrace) {
            if named {
                self.introduce(
                    Symbol {
                        name,
                        space: Space::Tag,
                        ty: TY_INT,
                        storage: Storage::Auto,
                        depth: 0,
                        location,
                        is_const: false,
                        enumerator: false,
                        value: 0,
                    },
                );
            }
            self.advance();
            self.enumerators(guard);
            self.expect(Punct::RBrace);
        } else if named {
            match self.resolve_tag(name) {
                Some(sym) => {
                    if sym.ty != TY_INT {
                        self.report(DiagCode::TypeMismatch, location);
                    }
                },
                None => {
                    self.report(DiagCode::UndeclaredIdentifier, location);
                },
            }
        } else {
            self.report(DiagCode::UnexpectedToken, location);
        }
        TY_INT
    }

    /// Adds the member that a declarator declares to a layout.
    pub fn add_member(&mut self, union: bool, dc: Declarator, lay: &mut Members)
        requires
            old(self).wf(),
            dc.ty < old(self)@.types.len(),
            layout_fits(old(lay)@, old(self)@.types.len() as int),
        ensures
            final(self).wf(),
            final(self)@ == old(self)@.add_member(union, dc, old(lay)@).0,
            final(lay)@ == old(self)@.add_member(union, dc, old(lay)@).1,
            old(self)@.grows_to(final(self)@),
            final(self)@.pos == old(self)@.pos,
            final(self)@.types == old(self)@.types,
            layout_fits(final(lay)@, final(self)@.types.len() as int),
    {
        if !dc.named {
            self.report(DiagCode::UnexpectedToken, dc.location);
            return ;
        }
        let target = self.target();
        match self.types().size(&target, dc.ty) {
            Some(size) => {
                let align: u8 = self.types().align(&target, dc.ty);
                place(lay, union, dc.name, dc.ty, size, align);
            },
            None => {
                if !node_is_error(self.type_node(dc.ty)) {
                    self.report(DiagCode::IncompleteType, dc.location);
                }
            },
        }
    }

    /// Parses the declarators of a member declaration from the second
    /// on; the first was parsed already.
    pub fn member_declarators(
        &mut self,
        guard: RecursionGuard,
        union: bool,
        base: Base,
        dc: Declarator,
        lay: &mut Members,
    )
        requires
            old(self).wf(),
            guard.wf(),
            guard@.depth <= guard@.max,
            dc.ty < old(self)@.types.len(),
            base.ty < old(self)@.types.len(),
            layout_fits(old(lay)@, old(self)@.types.len() as int),
        ensures
            final(self).wf(),
            final(self)@ == old(self)@.member_declarators(guard@, union, base, dc, old(lay)@).0,
            final(lay)@ == old(self)@.member_declarators(guard@, union, base, dc, old(lay)@).1,
            old(self)@.grows_to(final(self)@),
            layout_fits(final(lay)@, final(self)@.types.len() as int),
        decreases guard@.max - guard@.depth + 1, old(self)@.tokens.len() - old(self)@.pos, 7int,
    {
        let mut current: Declarator = dc;
        loop
            invariant
                self.wf(),
                guard.wf(),
                guard@.depth <= guard@.max,
                current.ty < self@.types.len(),
                base.ty < self@.types.len(),
                layout_fits(lay@, self@.types.len() as int),
                old(self)@.grows_to(self@),
                self@.member_declarators(guard@, union, base, current, lay@) == old(
                    self,
                )@.member_declarators(guard@, union, base, dc, old(lay)@),
            decreases self@.tokens.len() - self@.pos,
        {
            self.add_member(union, current, lay);
            if self.at_punct(Punct::Comma) {
                self.advance();
                current = self.declarator(guard, base.ty);
            } else {
                return ;
            }
        }
    }

    /// Parses one member declaration.
    #[verifier::rlimit(60)]
    pub fn member_declaration(&mut self, guard: RecursionGuard, union: bool, lay: &mut Members)
        requires
            old(self).wf(),
            guard.wf(),
            guard@.depth <= guard@.max,
            layout_fits(old(lay)@, old(self)@.types.len() as int),
        ensures
            final(self).wf(),
            final(self)@ == old(self)@.member_declaration(guard@, union, old(lay)@).0,
            final(lay)@ == old(self)@.member_declaration(guard@, union, old(lay)@).1,
            old(self)@.grows_to(final(self)@),
            layout_fits(final(lay)@, final(self)@.types.len() as int),
        decreases guard@.max - guard@.depth + 1, old(self)@.tokens.len() - old(self)@.pos, 8int,
    {
        let base: Base = self.specifier(guard);
        let dc: Declarator = self.declarator(guard, base.ty);
        assert(layout_fits(lay@, self@.types.len() as int)) by {
            assert(all_below(lay@.types, old(self)@.types.len() as int));
        }
        self.member_declarators(guard, union, base, dc, lay);
        self.end_statement();
    }

    /// Parses the member declarations of a structure or union.
    pub fn members(&mut self, guard: RecursionGuard, union: bool) -> (lay: Members)
        requires
            old(self).wf(),
            guard.wf(),
            guard@.depth <= guard@.max,
        ensures
            final(self).wf(),
            final(self)@ == old(self)@.members(guard@, union, empty_layout()).0,
            lay@ == old(self)@.members(guard@, union, empty_layout()).1,
            old(self)@.grows_to(final(self)@),
            layout_fits(lay@, final(self)@.types.len() as int),
        decreases guard@.max - guard@.depth + 1, old(self)@.tokens.len() - old(self)@.pos, 9int,
    {
        let mut lay: Members = Members {
            names: Vec::new(),
            types: Vec::new(),
            offsets: Vec::new(),
            size: 0,
            align: 1,
            ok: true,
        };
        assert(lay@ =~= empty_layout()) by {
            assert(lay@.names =~= Seq::<usize>::empty());
            assert(lay@.types =~= Seq::<usize>::empty());
            assert(lay@.offsets =~= Seq::<u64>::empty());
        }
        loop
            invariant
                self.wf(),
                guard.wf(),
                guard@.depth <= guard@.max,
                layout_fits(lay@, self@.types.len() as int),
                old(self)@.grows_to(self@),
                self@.members(guard@, union, lay@) == old(self)@.members(
                    guard@,
                    union,
                    empty_layout(),
                ),
            decreases self@.tokens.len() - self@.pos,
        {
            if self.at_punct(Punct::RBrace) || self.at_eof() {
                return lay;
            }
            let before: usize = self.position();
            self.member_declaration(guard, union, &mut lay);
            if self.position() == before {
                let at: Location = self.here();
                self.report(DiagCode::UnexpectedToken, at);
                self.advance();
            }
            if self.position() == before {
                return lay;
            }
        }
    }

    /// Makes the list of the members of a layout.
    pub fn field_chain(&mut self, lay: &Members) -> (r: usize)
        requires
            old(self).wf(),
            layout_fits(lay@, old(self)@.types.len() as int),
        ensures
            final(self).wf(),
            final(self)@ == old(self)@.field_chain(lay@, lay@.names.len() as int, TY_NO_PARAMS).0,
            r == old(self)@.field_chain(lay@, lay@.names.len() as int, TY_NO_PARAMS).1,
            old(self)@.grows_to(final(self)@),
            final(self)@.pos == old(self)@.pos,
            final(self)@.nodes == old(self)@.nodes,
            r < final(self)@.types.len(),
    {
        let mut k: usize = lay.names.len();
        let mut tail: usize = TY_NO_PARAMS;
        while k > 0
            invariant
                self.wf(),
                k <= lay@.names.len(),
                tail < self@.types.len(),
                layout_fits(lay@, self@.types.len() as int),
                old(self)@.grows_to(self@),
                self@.pos == old(self)@.pos,
                self@.nodes == old(self)@.nodes,
                self@.field_chain(lay@, k as int, tail) == old(self)@.field_chain(
                    lay@,
                    lay@.names.len() as int,
                    TY_NO_PARAMS,
                ),
            decreases k,
        {
            tail = self.intern(
                TypeNode::Field {
                    name: lay.names[k - 1],
                    ty: lay.types[k - 1],
                    offset: lay.offsets[k - 1],
                    tail,
                },
            );
            k = k - 1;
        }
        tail
    }

    /// Makes a new incomplete structure or union.
    pub fn new_record(&mut self, name: usize, named: bool, union: bool, location: Location) -> (id:
        usize)
        requires
            old(self).wf(),
        ensures
            final(self).wf(),
            final(self)@ == old(self)@.new_record(name, named, union, location).0,
            id == old(self)@.new_record(name, named, union, location).1,
            old(self)@.grows_to(final(self)@),
            final(self)@.pos == old(self)@.pos,
            final(self)@.nodes == old(self)@.nodes,
            id < final(self)@.types.len(),
    {
        let tag: usize = self.type_count();
        let id: usize = self.intern(
            TypeNode::Record {
                tag,
                union,
                complete: false,
                fields: TY_NO_PARAMS,
                size: 0,
                align: 1,
            },
        );
        if named {
            self.introduce(
                Symbol {
                    name,
                    space: Space::Tag,
                    ty: id,
                    storage: Storage::Auto,
                    depth: 0,
                    location,
                    is_const: false,
                    enumerator: false,
                    value: 0,
                },
            );
        }
        id
    }

    /// Finds or makes the structure or union that a specifier with a
    /// member list defines.
    pub fn record_to_define(&mut self, name: usize, named: bool, union: bool, location: Location) -> (id:
        usize)
        requires
            old(self).wf(),
        ensures
            final(self).wf(),
            final(self)@ == old(self)@.record_to_define(name, named, union, location).0,
            id == old(self)@.record_to_define(name, named, union, location).1,
            old(self)@.grows_to(final(self)@),
            final(self)@.pos == old(self)@.pos,
            final(self)@.nodes == old(self)@.nodes,
            id < final(self)@.types.len(),
    {
        match self.local_tag(name) {
            Some(sym) => {
                if !named {
                    return self.new_record(name, false, union, location);
                }
                match self.type_node(sym.ty) {
                    TypeNode::Record { union: u, complete, .. } => {
                        if u == union && !complete {
                            return sym.ty;
                        }
                    },
                    _ => {},
                }
                self.report(DiagCode::Redefinition, location);
                self.new_record(name, false, union, location)
            },
            None => self.new_record(name, named, union, location),
        }
    }

    /// Completes a structure or union with the members of a layout.
    pub fn finish_record(&mut self, id: usize, lay: &Members, location: Location)
        requires
            old(self).wf(),
            layout_fits(lay@, old(self)@.types.len() as int),
        ensures
            final(self).wf(),
            final(self)@ == old(self)@.finish_record(id, lay@, location),
            old(self)@.grows_to(final(self)@),
            final(self)@.pos == old(self)@.pos,
            final(self)@.nodes == old(self)@.nodes,
    {
        let fields: usize = self.field_chain(lay);
        let total: Option<u64> = rounded(lay.size, lay.align);
        let open: bool = if id < self.type_count() {
            match self.type_node(id) {
                TypeNode::Record { complete, .. } => !complete,
                _ => false,
            }
        } else {
            false
        };
        match total {
            Some(size) => {
                if lay.ok && open {
                    self.complete_record(id, fields, size, lay.align);
                    return ;
                }
            },
            None => {},
        }
        self.report(DiagCode::IncompleteType, location);
    }

    /// Parses the specifier of a structure or union after its reserved
    /// word.
    #[verifier::rlimit(60)]
    pub fn record_specifier(&mut self, guard: RecursionGuard, union: bool, location: Location) -> (r:
        usize)
        requires
            old(self).wf(),
            guard.wf(),
            guard@.depth <= guard@.max,
        ensures
            final(self).wf(),
            final(self)@ == old(self)@.record_specifier(guard@, union, location).0,
            r == old(self)@.record_specifier(guard@, union, location).1,
            old(self)@.grows_to(final(self)@),
            r < final(self)@.types.len(),
        decreases guard@.max - guard@.depth + 1, old(self)@.tokens.len() - old(self)@.pos, 10int,
    {
        let (name, named) = match self.kind() {
            TokenKind::Ident(n) => (n, true),
            _ => (0, false),
        };
        if named {
            self.advance();
        }
        if self.at_punct(Punct::LBrace) {
            let id: usize = self.record_to_define(name, named, union, location);
            self.advance();
            let lay: Members = self.members(guard, union);
            self.expect(Punct::RBrace);
            self.finish_record(id, &lay, location);
            id
        } else if named {
            match self.resolve_tag(name) {
                Some(sym) => {
                    match self.type_node(sym.ty) {
                        TypeNode::Record { union: u, .. } => {
                            if u == union {
                                return sym.ty;
                            }
                        },
                        _ => {},
                    }
                    self.report(DiagCode::TypeMismatch, location);
                    TY_ERROR
                },
                None => self.new_record(name, true, union, location),
            }
        } else {
            self.report(DiagCode::UnexpectedToken, location);
            TY_ERROR
        }
    }

    /// Parses a specifier that starts with `struct`, `union` or `enum`.
    pub fn tagged(&mut self, guard: RecursionGuard) -> (r: usize)
        requires
            old(self).wf(),
            guard.wf(),
            old(self)@.kind() is Keyword,
        ensures
            final(self).wf(),
            final(self)@ == old(self)@.tagged(guard@).0,
            r == old(self)@.tagged(guard@).1,
            old(self)@.grows_to(final(self)@),
            r < final(self)@.types.len(),
        decreases guard@.max - guard@.depth, old(self)@.tokens.len() - old(self)@.pos, 18int,
    {
        let location: Location = self.here();
        let is_enum: bool = self.at_keyword(Keyword::Enum);
        let is_union: bool = self.at_keyword(Keyword::Union);
        self.advance();
        match self.enter(guard) {
            None => TY_ERROR,
            Some(g) => {
                if is_enum {
                    self.enum_specifier(g, location)
                } else {
                    self.record_specifier(g, is_union, location)
                }
            },
        }
    }

    /// Parses the specifiers of a declaration or of a type name.
    pub fn specifier(&mut self, guard: RecursionGuard) -> (b: Base)
        requires
            old(self).wf(),
            guard.wf(),
        ensures
            final(self).wf(),
            final(self)@ == old(self)@.specifier(guard@).0,
            b == old(self)@.specifier(guard@).1,
            old(self)@.grows_to(final(self)@),
            b.ty < final(self)@.types.len(),
        decreases guard@.max - guard@.depth, old(self)@.tokens.len() - old(self)@.pos, 19int,
    {
        let location: Location = self.here();
        let seen: Seen = self.specifiers();
        let tag: bool = match self.kind() {
            TokenKind::Keyword(k) => keyword_is_tag_word(k),
            _ => false,
        };
        if !tag {
            return self.settle(seen, location);
        }
        let ty: usize = self.tagged(guard);
        let all: Seen = self.more_specifiers(seen);
        let storage: Option<Storage> = storage_of_seen(all);
        if !(has_no_type_words(all) && storage.is_some()) {
            self.report(DiagCode::UnexpectedToken, location);
        }
        Base {
            ty,
            storage: match storage {
                Some(s) => s,
                None => Storage::Auto,
            },
            is_const: all.consts > 0,
        }
    }

    /// Parses the type name at the place reached.
    pub fn named_type(&mut self, guard: RecursionGuard) -> (r: usize)
        requires
            old(self).wf(),
            guard.wf(),
        ensures
            final(self).wf(),
            final(self)@ == old(self)@.named_type(guard@).0,
            r == old(self)@.named_type(guard@).1,
            old(self)@.grows_to(final(self)@),
            r < final(self)@.types.len(),
        decreases guard@.max - guard@.depth, old(self)@.tokens.len() - old(self)@.pos, 20int,
    {
        let b: Base = self.specifier(guard);
        self.pointers(b.ty)
    }
}

} // verus!
