//! Declaration specifiers and type names.

use vstd::prelude::*;
use crate::error::DiagCode;
use crate::error::Location;
use crate::scope::Storage;
use crate::state::Parser;
use crate::state::State;
use crate::target::IntRank;
use crate::target::Target;
use crate::token::Keyword;
use crate::token::Punct;
use crate::token::TokenKind;
use crate::types::int_type;
use crate::types::int_type_id;
use crate::types::TypeNode;
use crate::types::TY_DOUBLE;
use crate::types::TY_ERROR;
use crate::types::TY_FLOAT;
use crate::types::TY_VOID;

verus! {

/// How often each specifier was seen in a run of specifiers; each count is
/// held at three.
#[derive(Clone, Copy, Debug, PartialEq, Eq, Structural)]
pub struct Seen {
    pub voids: u8,
    pub chars: u8,
    pub shorts: u8,
    pub ints: u8,
    pub longs: u8,
    pub floats: u8,
    pub doubles: u8,
    pub signeds: u8,
    pub unsigneds: u8,
    pub consts: u8,
    pub volatiles: u8,
    pub statics: u8,
    pub externs: u8,
    pub autos: u8,
    pub registers: u8,
}

/// What a run of specifiers says: a type, a storage class, and whether the
/// declared objects are `const`.
#[derive(Clone, Copy, Debug, PartialEq, Eq, Structural)]
pub struct Base {
    pub ty: usize,
    pub storage: Storage,
    pub is_const: bool,
}

pub open spec fn nothing_seen() -> Seen {
    Seen {
        voids: 0,
        chars: 0,
        shorts: 0,
        ints: 0,
        longs: 0,
        floats: 0,
        doubles: 0,
        signeds: 0,
        unsigneds: 0,
        consts: 0,
        volatiles: 0,
        statics: 0,
        externs: 0,
        autos: 0,
        registers: 0,
    }
}

/// A count after one more occurrence.
pub open spec fn one_more(n: u8) -> u8 {
    if n < 3 {
        (n + 1) as u8
    } else {
        3
    }
}

/// Whether a reserved word names a type or qualifies one.
pub open spec fn is_type_word(k: Keyword) -> bool {
    k is Void || k is Char || k is Short || k is Int || k is Long || k is Float || k is Double
        || k is Signed || k is Unsigned || k is Const || k is Volatile
}

/// Whether a reserved word is a declaration specifier.
pub open spec fn is_specifier(k: Keyword) -> bool {
    is_type_word(k) || k is Static || k is Extern || k is Auto || k is Register
}

/// Whether a reserved word starts the specifier of a structure, a union
/// or an enumeration.
pub open spec fn is_tag_word(k: Keyword) -> bool {
    k is Struct || k is Union || k is Enum
}

/// Whether a token can start a type name.
pub open spec fn starts_type(kind: TokenKind) -> bool {
    match kind {
        TokenKind::Keyword(k) => is_type_word(k) || is_tag_word(k),
        _ => false,
    }
}

/// Whether a token can start a declaration.
pub open spec fn starts_declaration(kind: TokenKind) -> bool {
    match kind {
        TokenKind::Keyword(k) => is_specifier(k) || is_tag_word(k),
        _ => false,
    }
}

/// Whether a run of specifiers holds no word that names a type.
pub open spec fn no_type_words(seen: Seen) -> bool {
    seen.voids + seen.chars + seen.shorts + seen.ints + seen.longs + seen.floats + seen.doubles
        + seen.signeds + seen.unsigneds == 0
}

/// The counts after a specifier was seen.
pub open spec fn seen_with(seen: Seen, k: Keyword) -> Seen {
    match k {
        Keyword::Void => Seen { voids: one_more(seen.voids), ..seen },
        Keyword::Char => Seen { chars: one_more(seen.chars), ..seen },
        Keyword::Short => Seen { shorts: one_more(seen.shorts), ..seen },
        Keyword::Int => Seen { ints: one_more(seen.ints), ..seen },
        Keyword::Long => Seen { longs: one_more(seen.longs), ..seen },
        Keyword::Float => Seen { floats: one_more(seen.floats), ..seen },
        Keyword::Double => Seen { doubles: one_more(seen.doubles), ..seen },
        Keyword::Signed => Seen { signeds: one_more(seen.signeds), ..seen },
        Keyword::Unsigned => Seen { unsigneds: one_more(seen.unsigneds), ..seen },
        Keyword::Const => Seen { consts: one_more(seen.consts), ..seen },
        Keyword::Volatile => Seen { volatiles: one_more(seen.volatiles), ..seen },
        Keyword::Static => Seen { statics: one_more(seen.statics), ..seen },
        Keyword::Extern => Seen { externs: one_more(seen.externs), ..seen },
        Keyword::Auto => Seen { autos: one_more(seen.autos), ..seen },
        Keyword::Register => Seen { registers: one_more(seen.registers), ..seen },
        _ => seen,
    }
}

/// The type that a run of specifiers names, if it names one: `void`,
/// `float` and `double` stand alone (`long double` is `double`); `char`
/// takes a sign, and is signed without one as the target says; `short`,
/// `long` and `long long` take a sign and one `int`; a sign alone is an
/// `int`.
pub open spec fn seen_type(target: Target, seen: Seen) -> Option<usize> {
    let sign = seen.signeds + seen.unsigneds;
    let signed = seen.unsigneds == 0;
    let words = seen.chars + seen.shorts + seen.ints + seen.longs;
    if sign > 1 {
        None
    } else if seen.voids + seen.floats + seen.doubles > 0 {
        if seen.voids == 1 && seen.floats + seen.doubles + words + sign == 0 {
            Some(TY_VOID)
        } else if seen.floats == 1 && seen.voids + seen.doubles + words + sign == 0 {
            Some(TY_FLOAT)
        } else if seen.doubles == 1 && seen.voids + seen.floats + seen.chars + seen.shorts
            + seen.ints + sign == 0 && seen.longs <= 1 {
            Some(TY_DOUBLE)
        } else {
            None
        }
    } else if seen.chars > 0 {
        if seen.chars == 1 && seen.shorts + seen.ints + seen.longs == 0 {
            Some(
                int_type_id(
                    IntRank::Char,
                    if sign == 0 {
                        target.char_signed
                    } else {
                        signed
                    },
                ) as usize,
            )
        } else {
            None
        }
    } else if seen.ints > 1 {
        None
    } else if seen.shorts > 0 {
        if seen.shorts == 1 && seen.longs == 0 {
            Some(int_type_id(IntRank::Short, signed) as usize)
        } else {
            None
        }
    } else if seen.longs == 1 {
        Some(int_type_id(IntRank::Long, signed) as usize)
    } else if seen.longs == 2 {
        Some(int_type_id(IntRank::LongLong, signed) as usize)
    } else if seen.longs > 2 {
        None
    } else if seen.ints == 1 || sign == 1 {
        Some(int_type_id(IntRank::Int, signed) as usize)
    } else {
        None
    }
}

/// The storage class that a run of specifiers names: at most one may be
/// given, and none means `auto`.
pub open spec fn seen_storage(seen: Seen) -> Option<Storage> {
    let n = seen.statics + seen.externs + seen.autos + seen.registers;
    if n == 0 {
        Some(Storage::Auto)
    } else if n > 1 {
        None
    } else if seen.statics == 1 {
        Some(Storage::Static)
    } else if seen.externs == 1 {
        Some(Storage::Extern)
    } else if seen.registers == 1 {
        Some(Storage::Register)
    } else {
        Some(Storage::Auto)
    }
}

/// What a run of specifiers says; where it names no type the sentinel
/// type stands in, and where it names no storage class `auto` does.
pub open spec fn seen_base(target: Target, seen: Seen) -> Base {
    Base {
        ty: match seen_type(target, seen) {
            Some(ty) => ty,
            None => TY_ERROR,
        },
        storage: match seen_storage(seen) {
            Some(s) => s,
            None => Storage::Auto,
        },
        is_const: seen.consts > 0,
    }
}

impl State {
    /// The run of specifiers at the place reached, counted on top of
    /// `seen`.
    pub open spec fn specifiers(self, seen: Seen) -> (State, Seen)
        decreases self.tokens.len() - self.pos,
        when self.in_tokens()
    {
        match self.kind() {
            TokenKind::Keyword(k) => if is_specifier(k) {
                self.advance().specifiers(seen_with(seen, k))
            } else {
                (self, seen)
            },
            _ => (self, seen),
        }
    }

    /// The specifiers at the place reached and what they say. Specifiers
    /// that name no type or more than one storage class are recorded as an
    /// error.
    pub open spec fn base(self) -> (State, Base) {
        let (s1, seen) = self.specifiers(nothing_seen());
        if seen_type(s1.target, seen) is Some && seen_storage(seen) is Some {
            (s1, seen_base(s1.target, seen))
        } else {
            (s1.report(DiagCode::UnexpectedToken, self.here()), seen_base(s1.target, seen))
        }
    }

    /// The type that the `*`s at the place reached make of a type, each
    /// with at most one qualifier after it.
    pub open spec fn pointers(self, ty: usize) -> (State, usize)
        decreases self.tokens.len() - self.pos,
        when self.in_tokens()
    {
        if self.at_punct(Punct::Star) {
            let s1 = self.advance();
            let s2 = if s1.at_keyword(Keyword::Const) || s1.at_keyword(Keyword::Volatile) {
                s1.advance()
            } else {
                s1
            };
            if self.passed_by(s2) {
                s2.intern(TypeNode::Pointer { to: ty }).pointers(
                    s2.type_id(TypeNode::Pointer { to: ty }),
                )
            } else {
                (s2, ty)
            }
        } else {
            (self, ty)
        }
    }
}

fn bump(n: u8) -> (r: u8)
    ensures
        r == one_more(n),
{
    if n < 3 {
        n + 1
    } else {
        3
    }
}

pub fn keyword_is_type_word(k: Keyword) -> (b: bool)
    ensures
        b == is_type_word(k),
{
    match k {
        Keyword::Void | Keyword::Char | Keyword::Short | Keyword::Int | Keyword::Long
        | Keyword::Float | Keyword::Double | Keyword::Signed | Keyword::Unsigned | Keyword::Const
        | Keyword::Volatile => true,
        _ => false,
    }
}

pub fn keyword_is_specifier(k: Keyword) -> (b: bool)
    ensures
        b == is_specifier(k),
{
    match k {
        Keyword::Static | Keyword::Extern | Keyword::Auto | Keyword::Register => true,
        _ => keyword_is_type_word(k),
    }
}

pub fn keyword_is_tag_word(k: Keyword) -> (b: bool)
    ensures
        b == is_tag_word(k),
{
    match k {
        Keyword::Struct | Keyword::Union | Keyword::Enum => true,
        _ => false,
    }
}

pub fn kind_starts_type(kind: TokenKind) -> (b: bool)
    ensures
        b == starts_type(kind),
{
    match kind {
        TokenKind::Keyword(k) => keyword_is_type_word(k) || keyword_is_tag_word(k),
        _ => false,
    }
}

pub fn kind_starts_declaration(kind: TokenKind) -> (b: bool)
    ensures
        b == starts_declaration(kind),
{
    match kind {
        TokenKind::Keyword(k) => keyword_is_specifier(k) || keyword_is_tag_word(k),
        _ => false,
    }
}

pub fn has_no_type_words(seen: Seen) -> (b: bool)
    requires
        counts_held(seen),
    ensures
        b == no_type_words(seen),
{
    seen.voids + seen.chars + seen.shorts + seen.ints + seen.longs + seen.floats + seen.doubles
        + seen.signeds + seen.unsigneds == 0
}

pub fn see(seen: Seen, k: Keyword) -> (r: Seen)
    ensures
        r == seen_with(seen, k),
{
    let mut r: Seen = seen;
    match k {
        Keyword::Void => {
            r.voids = bump(seen.voids);
        },
        Keyword::Char => {
            r.chars = bump(seen.chars);
        },
        Keyword::Short => {
            r.shorts = bump(seen.shorts);
        },
        Keyword::Int => {
            r.ints = bump(seen.ints);
        },
        Keyword::Long => {
            r.longs = bump(seen.longs);
        },
        Keyword::Float => {
            r.floats = bump(seen.floats);
        },
        Keyword::Double => {
            r.doubles = bump(seen.doubles);
        },
        Keyword::Signed => {
            r.signeds = bump(seen.signeds);
        },
        Keyword::Unsigned => {
            r.unsigneds = bump(seen.unsigneds);
        },
        Keyword::Const => {
            r.consts = bump(seen.consts);
        },
        Keyword::Volatile => {
            r.volatiles = bump(seen.volatiles);
        },
        Keyword::Static => {
            r.statics = bump(seen.statics);
        },
        Keyword::Extern => {
            r.externs = bump(seen.externs);
        },
        Keyword::Auto => {
            r.autos = bump(seen.autos);
        },
        Keyword::Register => {
            r.registers = bump(seen.registers);
        },
        _ => {},
    }
    r
}

pub fn type_of_seen(target: &Target, seen: Seen) -> (r: Option<usize>)
    requires
        seen.voids <= 3 && seen.chars <= 3 && seen.shorts <= 3 && seen.ints <= 3 && seen.longs
            <= 3 && seen.floats <= 3 && seen.doubles <= 3 && seen.signeds <= 3 && seen.unsigneds
            <= 3,
    ensures
        r == seen_type(*target, seen),
        r matches Some(ty) ==> ty < 15,
{
    let sign: u8 = seen.signeds + seen.unsigneds;
    let signed: bool = seen.unsigneds == 0;
    let words: u8 = seen.chars + seen.shorts + seen.ints + seen.longs;
    if sign > 1 {
        None
    } else if seen.voids + seen.floats + seen.doubles > 0 {
        if seen.voids == 1 && seen.floats + seen.doubles + words + sign == 0 {
            Some(TY_VOID)
        } else if seen.floats == 1 && seen.voids + seen.doubles + words + sign == 0 {
            Some(TY_FLOAT)
        } else if seen.doubles == 1 && seen.voids + seen.floats + seen.chars + seen.shorts
            + seen.ints + sign == 0 && seen.longs <= 1 {
            Some(TY_DOUBLE)
        } else {
            None
        }
    } else if seen.chars > 0 {
        if seen.chars == 1 && seen.shorts + seen.ints + seen.longs == 0 {
            Some(
                int_type(
                    IntRank::Char,
                    if sign == 0 {
                        target.char_signed
                    } else {
                        signed
                    },
                ),
            )
        } else {
            None
        }
    } else if seen.ints > 1 {
        None
    } else if seen.shorts > 0 {
        if seen.shorts == 1 && seen.longs == 0 {
            Some(int_type(IntRank::Short, signed))
        } else {
            None
        }
    } else if seen.longs == 1 {
        Some(int_type(IntRank::Long, signed))
    } else if seen.longs == 2 {
        Some(int_type(IntRank::LongLong, signed))
    } else if seen.longs > 2 {
        None
    } else if seen.ints == 1 || sign == 1 {
        Some(int_type(IntRank::Int, signed))
    } else {
        None
    }
}

pub fn storage_of_seen(seen: Seen) -> (r: Option<Storage>)
    requires
        seen.statics <= 3 && seen.externs <= 3 && seen.autos <= 3 && seen.registers <= 3,
    ensures
        r == seen_storage(seen),
{
    let n: u8 = seen.statics + seen.externs + seen.autos + seen.registers;
    if n == 0 {
        Some(Storage::Auto)
    } else if n > 1 {
        None
    } else if seen.statics == 1 {
        Some(Storage::Static)
    } else if seen.externs == 1 {
        Some(Storage::Extern)
    } else if seen.registers == 1 {
        Some(Storage::Register)
    } else {
        Some(Storage::Auto)
    }
}

/// Whether no count is above three.
pub open spec fn counts_held(seen: Seen) -> bool {
    seen.voids <= 3 && seen.chars <= 3 && seen.shorts <= 3 && seen.ints <= 3 && seen.longs <= 3
        && seen.floats <= 3 && seen.doubles <= 3 && seen.signeds <= 3 && seen.unsigneds <= 3
        && seen.consts <= 3 && seen.volatiles <= 3 && seen.statics <= 3 && seen.externs <= 3
        && seen.autos <= 3 && seen.registers <= 3
}

impl Parser {
    /// Reads the run of specifiers at the place reached.
    pub fn specifiers(&mut self) -> (seen: Seen)
        requires
            old(self).wf(),
        ensures
            final(self).wf(),
            final(self)@ == old(self)@.specifiers(nothing_seen()).0,
            seen == old(self)@.specifiers(nothing_seen()).1,
            old(self)@.grows_to(final(self)@),
            final(self)@.nodes == old(self)@.nodes,
            final(self)@.types == old(self)@.types,
            counts_held(seen),
    {
        self.more_specifiers(
            Seen {
                voids: 0,
                chars: 0,
                shorts: 0,
                ints: 0,
                longs: 0,
                floats: 0,
                doubles: 0,
                signeds: 0,
                unsigneds: 0,
                consts: 0,
                volatiles: 0,
                statics: 0,
                externs: 0,
                autos: 0,
                registers: 0,
            },
        )
    }

    /// Reads the run of specifiers at the place reached, counting on top
    /// of what was seen before.
    pub fn more_specifiers(&mut self, before: Seen) -> (seen: Seen)
        requires
            old(self).wf(),
            counts_held(before),
        ensures
            final(self).wf(),
            final(self)@ == old(self)@.specifiers(before).0,
            seen == old(self)@.specifiers(before).1,
            old(self)@.grows_to(final(self)@),
            final(self)@.nodes == old(self)@.nodes,
            final(self)@.types == old(self)@.types,
            counts_held(seen),
    {
        let mut seen: Seen = before;
        loop
            invariant
                self.wf(),
                self@.wf(),
                counts_held(seen),
                old(self)@.grows_to(self@),
                self@.nodes == old(self)@.nodes,
                self@.types == old(self)@.types,
                self@.specifiers(seen) == old(self)@.specifiers(before),
            decreases self@.tokens.len() - self@.pos,
        {
            match self.kind() {
                TokenKind::Keyword(k) => {
                    if keyword_is_specifier(k) {
                        self.advance();
                        seen = see(seen, k);
                    } else {
                        return seen;
                    }
                },
                _ => {
                    return seen;
                },
            }
        }
    }

    /// Says what a run of specifiers that was read says, and records it
    /// if they name no type or more than one storage class. `location`
    /// is where the run started.
    pub fn settle(&mut self, seen: Seen, location: Location) -> (b: Base)
        requires
            old(self).wf(),
            counts_held(seen),
        ensures
            final(self).wf(),
            final(self)@ == (if seen_type(old(self)@.target, seen) is Some && seen_storage(seen)
                is Some {
                old(self)@
            } else {
                old(self)@.report(DiagCode::UnexpectedToken, location)
            }),
            b == seen_base(old(self)@.target, seen),
            old(self)@.grows_to(final(self)@),
            final(self)@.pos == old(self)@.pos,
            final(self)@.nodes == old(self)@.nodes,
            final(self)@.types == old(self)@.types,
            b.ty < 15,
    {
        let target = self.target();
        let ty: Option<usize> = type_of_seen(&target, seen);
        let storage: Option<Storage> = storage_of_seen(seen);
        if ty.is_none() || storage.is_none() {
            self.report(DiagCode::UnexpectedToken, location);
        }
        Base {
            ty: match ty {
                Some(t) => t,
                None => TY_ERROR,
            },
            storage: match storage {
                Some(s) => s,
                None => Storage::Auto,
            },
            is_const: seen.consts > 0,
        }
    }

    /// Reads the specifiers at the place reached and says what they say.
    pub fn base(&mut self) -> (b: Base)
        requires
            old(self).wf(),
        ensures
            final(self).wf(),
            final(self)@ == old(self)@.base().0,
            b == old(self)@.base().1,
            old(self)@.grows_to(final(self)@),
            final(self)@.nodes == old(self)@.nodes,
            final(self)@.types == old(self)@.types,
            b.ty < 15,
    {
        let location: Location = self.here();
        let seen: Seen = self.specifiers();
        self.settle(seen, location)
    }

    /// Reads the `*`s at the place reached and makes the pointer type.
    pub fn pointers(&mut self, ty: usize) -> (r: usize)
        requires
            old(self).wf(),
            ty < old(self)@.types.len(),
        ensures
            final(self).wf(),
            final(self)@ == old(self)@.pointers(ty).0,
            r == old(self)@.pointers(ty).1,
            old(self)@.grows_to(final(self)@),
            final(self)@.nodes == old(self)@.nodes,
            r < final(self)@.types.len(),
    {
        let mut at: usize = ty;
        loop
            invariant
                self.wf(),
                self@.wf(),
                at < self@.types.len(),
                old(self)@.grows_to(self@),
                self@.nodes == old(self)@.nodes,
                self@.pointers(at) == old(self)@.pointers(ty),
            decreases self@.tokens.len() - self@.pos,
        {
            if !self.at_punct(Punct::Star) {
                return at;
            }
            self.advance();
            if self.at_keyword(Keyword::Const) || self.at_keyword(Keyword::Volatile) {
                self.advance();
            }
            at = self.intern(TypeNode::Pointer { to: at });
        }
    }
}

} // verus!
