//! The state of one parse: the tokens and the place reached in them, the
//! tables of types and nodes, the scopes, and the diagnostics.
//!
//! The parser is specified as a function on values of `State`. Every
//! procedure of the parser has a twin among the functions of `State` that
//! says what state it leaves and what it returns.
//!
//! The twins are recursive as the grammar is, and are well founded on the
//! depth that is left below the limit, then on the tokens that are left,
//! then on the order of the procedures. Where a twin goes on after
//! another has run, it first asks that the place reached has not moved
//! back (`reached_by`, `passed_by`); the parser proves that it never
//! has.

use vstd::prelude::*;
use crate::ast::folded;
use crate::ast::folded_here;
use crate::ast::lemma_folded_push;
use crate::ast::node_ok;
use crate::ast::nodes_wf;
use crate::ast::Category;
use crate::ast::Node;
use crate::ast::NodeKind;
use crate::error::DiagCode;
use crate::error::Diagnostic;
use crate::error::ErrorHandler;
use crate::error::Location;
use crate::error::Severity;
use crate::guard::FatalReport;
use crate::guard::Level;
use crate::guard::RecursionGuard;
use crate::scope::Declared;
use crate::scope::ScopeStack;
use crate::scope::Scopes;
use crate::scope::Space;
use crate::scope::Storage;
use crate::scope::Symbol;
use crate::target::IntRank;
use crate::target::Target;
use crate::token::Keyword;
use crate::token::Punct;
use crate::token::Token;
use crate::token::TokenKind;
use crate::types::base_table;
use crate::types::built_below;
use crate::types::completion;
use crate::types::settled;
use crate::types::interned_table;
use crate::types::interned_type;
use crate::types::table_wf;
use crate::types::TypeNode;
use crate::types::TypeTable;
use crate::types::BASE_TYPES;
use crate::types::TY_VOID;

verus! {

/// What is kept of a parse that went past the depth limit: the depth that
/// was reached and the diagnostics that were pending.
pub struct Fatal {
    pub depth: usize,
    pub max_depth: usize,
    pub errors: Seq<Diagnostic>,
    pub warnings: Seq<Diagnostic>,
}

/// The state of a parse.
pub struct State {
    pub tokens: Seq<Token>,
    pub pos: int,
    pub target: Target,
    pub types: Seq<TypeNode>,
    pub scopes: Scopes,
    pub nodes: Seq<Node>,
    pub errors: Seq<Diagnostic>,
    pub warnings: Seq<Diagnostic>,
    pub fatal: Option<Fatal>,
    pub return_type: usize,
}

/// Tokens are fit for parsing if `Eof` is the last of them and occurs
/// nowhere else.
pub open spec fn tokens_ok(tokens: Seq<Token>) -> bool {
    &&& tokens.len() >= 1
    &&& tokens[tokens.len() - 1].kind is Eof
    &&& forall|i: int| 0 <= i < tokens.len() - 1 ==> !((#[trigger] tokens[i]).kind is Eof)
}

/// The node at position 0 of every table of nodes.
pub open spec fn nil_node() -> Node {
    Node {
        kind: NodeKind::Nil,
        ty: TY_VOID,
        category: Category::Value,
        constant: None,
        location: Location { file: 0, line: 0, column: 0, offset: 0 },
    }
}

/// The state in which a parse starts.
pub open spec fn initial_state(
    tokens: Seq<Token>,
    target: Target,
    errors: Seq<Diagnostic>,
    warnings: Seq<Diagnostic>,
) -> State {
    State {
        tokens,
        pos: 0,
        target,
        types: base_table(),
        scopes: Scopes { symbols: Seq::empty(), marks: seq![0usize] },
        nodes: seq![nil_node()],
        errors,
        warnings,
        fatal: None,
        return_type: TY_VOID,
    }
}

impl State {
    /// The invariant of a parse: the place reached is a token; the tables
    /// are well formed; every type that a node or a symbol names is in the
    /// table of types; and the record of a failure of the depth sentinel
    /// names a depth one past the limit.
    pub open spec fn wf(self) -> bool {
        &&& tokens_ok(self.tokens)
        &&& 0 <= self.pos < self.tokens.len()
        &&& self.target.wf()
        &&& table_wf(self.types)
        &&& self.scopes.wf()
        &&& forall|k: int|
            0 <= k < self.scopes.symbols.len() ==> (#[trigger] self.scopes.symbols[k]).ty
                < self.types.len()
        &&& nodes_wf(self.nodes, self.types.len() as int)
        &&& self.return_type < self.types.len()
        &&& self.fatal matches Some(f) ==> f.depth == f.max_depth + 1
    }

    /// What a later state of the same parse keeps of an earlier one: the
    /// tokens and the target are the same, the place reached is not
    /// before, and the tables hold no less. If every node carried the
    /// value that folding gives it, every node still does. No type
    /// changes but an incomplete structure or union, which may become
    /// complete. The
    /// record of a failure of the depth sentinel stays as it is; and as
    /// long as there is none, the diagnostics are only added to.
    pub open spec fn grows_to(self, later: State) -> bool {
        &&& later.tokens == self.tokens
        &&& later.target == self.target
        &&& self.pos <= later.pos
        &&& self.nodes.len() <= later.nodes.len()
        &&& self.types.len() <= later.types.len()
        &&& forall|i: int|
            0 <= i < self.types.len() && settled(#[trigger] self.types[i]) ==> later.types[i]
                == self.types[i]
        &&& self.folded() ==> later.folded()
        &&& self.fatal is Some ==> later.fatal == self.fatal
        &&& later.fatal is None ==> self.errors.is_prefix_of(later.errors)
            && self.warnings.is_prefix_of(later.warnings)
    }

    /// Whether every node carries the value that folding gives it.
    pub open spec fn folded(self) -> bool {
        folded(self.nodes, self.target.bits_of(IntRank::Int))
    }

    /// The kind of the token at the place reached.
    pub open spec fn kind(self) -> TokenKind {
        self.tokens[self.pos].kind
    }

    /// The place in the source of the token at the place reached.
    pub open spec fn here(self) -> Location {
        self.tokens[self.pos].location
    }

    /// The kind of the token `k` tokens further on, or of the last token.
    pub open spec fn kind_ahead(self, k: int) -> TokenKind {
        if self.pos + k < self.tokens.len() {
            self.tokens[self.pos + k].kind
        } else {
            self.tokens[self.tokens.len() - 1].kind
        }
    }

    /// The state after stepping over a token; `Eof` is never stepped over.
    pub open spec fn advance(self) -> State {
        if self.kind() is Eof {
            self
        } else {
            State { pos: self.pos + 1, ..self }
        }
    }

    pub open spec fn at_punct(self, p: Punct) -> bool {
        self.kind() == TokenKind::Punct(p)
    }

    pub open spec fn at_keyword(self, k: Keyword) -> bool {
        self.kind() == TokenKind::Keyword(k)
    }

    /// The state after a diagnostic was recorded, among the errors or the
    /// warnings as its code says.
    pub open spec fn report(self, code: DiagCode, location: Location) -> State {
        match code.severity_of() {
            Severity::Error => State {
                errors: self.errors.push(Diagnostic { severity: Severity::Error, code, location }),
                ..self
            },
            Severity::Warning => State {
                warnings: self.warnings.push(
                    Diagnostic { severity: Severity::Warning, code, location },
                ),
                ..self
            },
        }
    }

    /// The state after a punctuator was asked for: it is stepped over if
    /// it is there, else its absence is recorded.
    pub open spec fn expect(self, p: Punct) -> State {
        if self.at_punct(p) {
            self.advance()
        } else {
            self.report(DiagCode::MissingToken, self.here())
        }
    }

    /// The state after a node was added; its position is the number of
    /// nodes before.
    pub open spec fn push(self, node: Node) -> State {
        State { nodes: self.nodes.push(node), ..self }
    }

    /// The position of the next node to be added.
    pub open spec fn next_id(self) -> usize {
        self.nodes.len() as usize
    }

    /// The state after a type was interned.
    pub open spec fn intern(self, node: TypeNode) -> State {
        State { types: interned_table(self.types, node), ..self }
    }

    /// The position of a type after it was interned.
    pub open spec fn type_id(self, node: TypeNode) -> usize {
        interned_type(self.types, node) as usize
    }

    /// The state after the depth sentinel was consulted at a level. Below
    /// the limit nothing changes. At the limit, the first time, the
    /// pending diagnostics are moved into the record of the failure; later
    /// failures change nothing.
    pub open spec fn enter(self, g: Level) -> State {
        if g.may_enter() || self.fatal is Some {
            self
        } else {
            State {
                fatal: Some(
                    Fatal {
                        depth: (g.depth + 1) as usize,
                        max_depth: g.max as usize,
                        errors: self.errors,
                        warnings: self.warnings,
                    },
                ),
                errors: Seq::empty(),
                warnings: Seq::empty(),
                ..self
            }
        }
    }

    /// Whether a later state of the same parse has got past the place
    /// that this one has reached.
    pub open spec fn passed_by(self, later: State) -> bool {
        later.tokens == self.tokens && self.pos < later.pos < later.tokens.len()
    }

    /// Whether a later state of the same parse has not fallen behind the
    /// place that this one has reached.
    pub open spec fn reached_by(self, later: State) -> bool {
        later.tokens == self.tokens && self.pos <= later.pos < later.tokens.len()
    }

    /// Whether the place reached is one of the tokens.
    pub open spec fn in_tokens(self) -> bool {
        0 <= self.pos < self.tokens.len()
    }

    pub open spec fn open_scope(self) -> State {
        State { scopes: self.scopes.enter(), ..self }
    }

    pub open spec fn close_scope(self) -> State {
        State { scopes: self.scopes.exit(), ..self }
    }

    /// The state after a name was declared in the innermost scope.
    pub open spec fn declare(
        self,
        name: usize,
        ty: usize,
        storage: Storage,
        location: Location,
        is_const: bool,
    ) -> State {
        State {
            scopes: self.scopes.declare(self.types, name, ty, storage, location, is_const),
            ..self
        }
    }

    /// The state after an incomplete structure or union was completed.
    pub open spec fn complete_record(self, id: usize, fields: usize, size: u64, align: u8) -> State {
        State {
            types: self.types.update(
                id as int,
                completion(self.types[id as int], fields, size, align),
            ),
            ..self
        }
    }

    /// The state after a symbol was declared in the innermost scope.
    pub open spec fn put(self, sym: Symbol) -> State {
        State { scopes: self.scopes.put(self.types, sym), ..self }
    }

    pub open spec fn with_return_type(self, ty: usize) -> State {
        State { return_type: ty, ..self }
    }
}

/// A parser at work on one translation unit.
pub struct Parser {
    tokens: Vec<Token>,
    pos: usize,
    target: Target,
    types: TypeTable,
    scopes: ScopeStack,
    nodes: Vec<Node>,
    handler: ErrorHandler,
    fatal: Option<FatalReport>,
    return_type: usize,
}

impl View for Parser {
    type V = State;

    closed spec fn view(&self) -> State {
        State {
            tokens: self.tokens@,
            pos: self.pos as int,
            target: self.target,
            types: self.types@,
            scopes: self.scopes@,
            nodes: self.nodes@,
            errors: self.handler.errors(),
            warnings: self.handler.warnings(),
            fatal: match self.fatal {
                Some(r) => Some(
                    Fatal {
                        depth: r.depth,
                        max_depth: r.max_depth,
                        errors: r.errors@,
                        warnings: r.warnings@,
                    },
                ),
                None => None,
            },
            return_type: self.return_type,
        }
    }
}

/// What a finished parse hands over.
pub struct Parts {
    pub nodes: Vec<Node>,
    pub types: TypeTable,
    pub handler: ErrorHandler,
    pub fatal: Option<FatalReport>,
}

impl Parser {
    /// The invariant of `State`.
    pub open spec fn wf(&self) -> bool {
        self@.wf()
    }

    /// A parser at the first of the tokens, with the base types, the file
    /// scope, and the diagnostics that `handler` holds.
    pub fn new(tokens: Vec<Token>, target: Target, handler: ErrorHandler) -> (p: Parser)
        requires
            tokens_ok(tokens@),
            target.wf(),
        ensures
            p.wf(),
            p@.wf(),
            p@.types.len() == BASE_TYPES,
            p@ == initial_state(tokens@, target, handler.errors(), handler.warnings()),
            p@.folded(),
    {
        let mut nodes: Vec<Node> = Vec::new();
        nodes.push(
            Node {
                kind: NodeKind::Nil,
                ty: TY_VOID,
                category: Category::Value,
                constant: None,
                location: Location { file: 0, line: 0, column: 0, offset: 0 },
            },
        );
        let p = Parser {
            tokens,
            pos: 0,
            target,
            types: TypeTable::new(),
            scopes: ScopeStack::new(),
            nodes,
            handler,
            fatal: None,
            return_type: TY_VOID,
        };
        assert(p@.nodes =~= seq![nil_node()]);
        assert(p@.folded()) by {
            reveal(folded);
        }
        p
    }

    /// Ends the parse and hands over its tables and diagnostics.
    pub fn finish(self) -> (parts: Parts)
        requires
            self.wf(),
        ensures
            parts.nodes@ == self@.nodes,
            parts.types@ == self@.types,
            parts.handler.errors() == self@.errors,
            parts.handler.warnings() == self@.warnings,
            match parts.fatal {
                Some(r) => self@.fatal == Some(
                    Fatal {
                        depth: r.depth,
                        max_depth: r.max_depth,
                        errors: r.errors@,
                        warnings: r.warnings@,
                    },
                ),
                None => self@.fatal is None,
            },
    {
        Parts { nodes: self.nodes, types: self.types, handler: self.handler, fatal: self.fatal }
    }

    pub fn target(&self) -> (t: Target)
        ensures
            t == self@.target,
    {
        self.target
    }

    pub fn types(&self) -> (t: &TypeTable)
        ensures
            t@ == self@.types,
    {
        &self.types
    }

    pub fn return_type(&self) -> (t: usize)
        ensures
            t == self@.return_type,
    {
        self.return_type
    }

    pub fn set_return_type(&mut self, ty: usize)
        requires
            old(self).wf(),
            ty < old(self)@.types.len(),
        ensures
            final(self).wf(),
            final(self)@ == old(self)@.with_return_type(ty),
    {
        self.return_type = ty;
    }

    /// The kind of the token at the place reached.
    pub fn kind(&self) -> (k: TokenKind)
        requires
            self.wf(),
        ensures
            k == self@.kind(),
    {
        self.tokens[self.pos].kind
    }

    /// The place in the source of the token at the place reached.
    pub fn here(&self) -> (l: Location)
        requires
            self.wf(),
        ensures
            l == self@.here(),
    {
        self.tokens[self.pos].location
    }

    /// The kind of the token `k` tokens further on.
    pub fn kind_ahead(&self, k: usize) -> (r: TokenKind)
        requires
            self.wf(),
        ensures
            r == self@.kind_ahead(k as int),
    {
        if k < self.tokens.len() - self.pos {
            self.tokens[self.pos + k].kind
        } else {
            self.tokens[self.tokens.len() - 1].kind
        }
    }

    /// The place reached, as a position among the tokens.
    pub fn position(&self) -> (n: usize)
        ensures
            n == self@.pos,
    {
        self.pos
    }

    /// How many tokens are left before `Eof`.
    pub fn remaining(&self) -> (n: usize)
        requires
            self.wf(),
        ensures
            n == self@.tokens.len() - self@.pos,
            n >= 1,
    {
        self.tokens.len() - self.pos
    }

    /// Steps over a token, unless it is `Eof`.
    pub fn advance(&mut self)
        requires
            old(self).wf(),
        ensures
            final(self).wf(),
            final(self)@ == old(self)@.advance(),
            old(self)@.grows_to(final(self)@),
            !(old(self)@.kind() is Eof) ==> final(self)@.pos == old(self)@.pos + 1,
    {
        match self.tokens[self.pos].kind {
            TokenKind::Eof => {},
            _ => {
                let count: usize = self.tokens.len();
                self.pos = self.pos + 1;
            },
        }
    }

    pub fn at_punct(&self, p: Punct) -> (b: bool)
        requires
            self.wf(),
        ensures
            b == self@.at_punct(p),
    {
        match self.tokens[self.pos].kind {
            TokenKind::Punct(q) => q == p,
            _ => false,
        }
    }

    pub fn at_keyword(&self, k: Keyword) -> (b: bool)
        requires
            self.wf(),
        ensures
            b == self@.at_keyword(k),
    {
        match self.tokens[self.pos].kind {
            TokenKind::Keyword(q) => q == k,
            _ => false,
        }
    }

    pub fn at_eof(&self) -> (b: bool)
        requires
            self.wf(),
        ensures
            b == (self@.kind() is Eof),
    {
        match self.tokens[self.pos].kind {
            TokenKind::Eof => true,
            _ => false,
        }
    }

    /// Records a diagnostic.
    pub fn report(&mut self, code: DiagCode, location: Location)
        requires
            old(self).wf(),
        ensures
            final(self).wf(),
            final(self)@ == old(self)@.report(code, location),
            old(self)@.grows_to(final(self)@),
            final(self)@.pos == old(self)@.pos,
    {
        self.handler.report(code, location);
    }

    /// Asks for a punctuator: steps over it if it is there, else records
    /// its absence. The result says whether it was there.
    pub fn expect(&mut self, p: Punct) -> (found: bool)
        requires
            old(self).wf(),
        ensures
            final(self).wf(),
            final(self)@ == old(self)@.expect(p),
            found == old(self)@.at_punct(p),
            old(self)@.grows_to(final(self)@),
            found ==> final(self)@.pos == old(self)@.pos + 1,
    {
        if self.at_punct(p) {
            self.advance();
            true
        } else {
            let at: Location = self.here();
            self.report(DiagCode::MissingToken, at);
            false
        }
    }

    /// The number of nodes.
    pub fn node_count(&self) -> (n: usize)
        ensures
            n == self@.nodes.len(),
            n == self@.next_id(),
    {
        self.nodes.len()
    }

    /// The node at a position.
    pub fn node(&self, id: usize) -> (n: Node)
        requires
            self.wf(),
            id < self@.nodes.len(),
        ensures
            n == self@.nodes[id as int],
            n.ty < self@.types.len(),
    {
        self.nodes[id]
    }

    /// The number of members of a list of nodes.
    pub fn list_length(&self, list: usize) -> (n: usize)
        requires
            self.wf(),
        ensures
            n == crate::ast::list_len(self@.nodes, list as int),
    {
        let items: Vec<usize> = crate::ast::items_of(&self.nodes, list);
        proof {
            crate::ast::lemma_list_len(self@.nodes, list as int);
        }
        items.len()
    }

    /// The depth of the innermost scope; zero is the file scope.
    pub fn scope_depth(&self) -> (d: usize)
        requires
            self.wf(),
        ensures
            d == self@.scopes.depth(),
    {
        self.scopes.depth()
    }

    /// The type at a position of the table of types.
    pub fn type_node(&self, id: usize) -> (n: TypeNode)
        requires
            self.wf(),
            id < self@.types.len(),
        ensures
            n == self@.types[id as int],
            built_below(n, id as int),
    {
        self.types.get(id)
    }

    /// Adds a node and gives its position.
    pub fn push(&mut self, node: Node) -> (id: usize)
        requires
            old(self).wf(),
            node_ok(node, old(self)@.nodes.len() as int, old(self)@.types.len() as int),
            folded_here(
                old(self)@.nodes.push(node),
                old(self)@.nodes.len() as int,
                old(self)@.target.bits_of(IntRank::Int),
            ),
        ensures
            final(self).wf(),
            final(self)@ == old(self)@.push(node),
            id == old(self)@.next_id(),
            id == old(self)@.nodes.len(),
            id < final(self)@.nodes.len(),
            final(self)@.nodes.len() == old(self)@.nodes.len() + 1,
            final(self)@.nodes[id as int] == node,
            old(self)@.grows_to(final(self)@),
            final(self)@.pos == old(self)@.pos,
            final(self)@.types == old(self)@.types,
    {
        let id: usize = self.nodes.len();
        proof {
            if self@.folded() {
                lemma_folded_push(
                    self@.nodes,
                    node,
                    self@.types.len() as int,
                    self@.target.bits_of(IntRank::Int),
                );
            }
        }
        self.nodes.push(node);
        id
    }

    /// Interns a type and gives its position.
    pub fn intern(&mut self, node: TypeNode) -> (id: usize)
        requires
            old(self).wf(),
            built_below(node, old(self)@.types.len() as int),
        ensures
            final(self).wf(),
            final(self)@ == old(self)@.intern(node),
            id == old(self)@.type_id(node),
            id < final(self)@.types.len(),
            final(self)@.types[id as int] == node,
            old(self)@.grows_to(final(self)@),
            final(self)@.pos == old(self)@.pos,
            final(self)@.nodes == old(self)@.nodes,
    {
        self.types.intern(node)
    }

    /// Completes an incomplete structure or union.
    pub fn complete_record(&mut self, id: usize, fields: usize, size: u64, align: u8)
        requires
            old(self).wf(),
            id < old(self)@.types.len(),
            fields < old(self)@.types.len(),
            old(self)@.types[id as int] is Record,
            !settled(old(self)@.types[id as int]),
        ensures
            final(self).wf(),
            final(self)@ == old(self)@.complete_record(id, fields, size, align),
            old(self)@.grows_to(final(self)@),
            final(self)@.pos == old(self)@.pos,
            final(self)@.nodes == old(self)@.nodes,
            final(self)@.types.len() == old(self)@.types.len(),
    {
        self.types.complete(id, fields, size, align);
    }

    /// Consults the depth sentinel before a level of recursion is entered.
    /// Below the limit the result is the handle of the new level. At the
    /// limit there is none, and the failure is recorded if it is the
    /// first.
    pub fn enter(&mut self, guard: RecursionGuard) -> (r: Option<RecursionGuard>)
        requires
            old(self).wf(),
            guard.wf(),
        ensures
            final(self).wf(),
            final(self)@ == old(self)@.enter(guard@),
            old(self)@.grows_to(final(self)@),
            final(self)@.pos == old(self)@.pos,
            final(self)@.nodes == old(self)@.nodes,
            final(self)@.types == old(self)@.types,
            match r {
                Some(g) => guard@.may_enter() && g.wf() && g@ == guard@.deeper(),
                None => !guard@.may_enter(),
            },
    {
        if guard.current_depth() < guard.limit() {
            match guard.recursion_check(&mut self.handler) {
                Ok(g) => Some(g),
                Err(_) => None,
            }
        } else if self.fatal.is_none() {
            match guard.recursion_check(&mut self.handler) {
                Ok(_) => {},
                Err(report) => {
                    self.fatal = Some(report);
                },
            }
            None
        } else {
            None
        }
    }

    /// Enters a scope.
    pub fn open_scope(&mut self)
        requires
            old(self).wf(),
        ensures
            final(self).wf(),
            final(self)@ == old(self)@.open_scope(),
            old(self)@.grows_to(final(self)@),
            final(self)@.pos == old(self)@.pos,
    {
        self.scopes.enter();
    }

    /// Leaves the innermost scope.
    pub fn close_scope(&mut self)
        requires
            old(self).wf(),
        ensures
            final(self).wf(),
            final(self)@ == old(self)@.close_scope(),
            old(self)@.grows_to(final(self)@),
            final(self)@.pos == old(self)@.pos,
    {
        self.scopes.exit();
    }

    /// The symbol that a name denotes.
    pub fn resolve(&self, name: usize) -> (r: Option<Symbol>)
        requires
            self.wf(),
        ensures
            r == self@.scopes.resolve(name),
            r matches Some(s) ==> s.ty < self@.types.len(),
    {
        proof {
            crate::scope::lemma_last_index(
                self@.scopes.symbols,
                name,
                Space::Ordinary,
                0,
                self@.scopes.symbols.len() as int,
            );
        }
        self.scopes.resolve(name)
    }

    /// The tag that a name denotes.
    pub fn resolve_tag(&self, name: usize) -> (r: Option<Symbol>)
        requires
            self.wf(),
        ensures
            r == self@.scopes.find(name, Space::Tag),
            r matches Some(s) ==> s.ty < self@.types.len(),
    {
        proof {
            crate::scope::lemma_last_index(
                self@.scopes.symbols,
                name,
                Space::Tag,
                0,
                self@.scopes.symbols.len() as int,
            );
        }
        self.scopes.find(name, Space::Tag)
    }

    /// The tag that a name denotes in the innermost scope alone.
    pub fn local_tag(&self, name: usize) -> (r: Option<Symbol>)
        requires
            self.wf(),
        ensures
            r == self@.scopes.local(name, Space::Tag),
            r matches Some(s) ==> s.ty < self@.types.len(),
    {
        proof {
            crate::scope::lemma_last_index(
                self@.scopes.symbols,
                name,
                Space::Tag,
                self@.scopes.floor(),
                self@.scopes.symbols.len() as int,
            );
        }
        self.scopes.local(name, Space::Tag)
    }

    /// The number of types.
    pub fn type_count(&self) -> (n: usize)
        ensures
            n == self@.types.len(),
    {
        self.types.len()
    }

    /// Declares a symbol in the innermost scope.
    pub fn put(&mut self, sym: Symbol) -> (r: Declared)
        requires
            old(self).wf(),
            sym.ty < old(self)@.types.len(),
        ensures
            final(self).wf(),
            final(self)@ == old(self)@.put(sym),
            r == old(self)@.scopes.outcome(old(self)@.types, sym),
            old(self)@.grows_to(final(self)@),
            final(self)@.pos == old(self)@.pos,
            final(self)@.nodes == old(self)@.nodes,
            final(self)@.types == old(self)@.types,
    {
        proof {
            crate::scope::lemma_last_index(
                self@.scopes.symbols,
                sym.name,
                sym.space,
                self@.scopes.floor(),
                self@.scopes.symbols.len() as int,
            );
        }
        self.scopes.put(self.types.as_vec(), sym)
    }

    /// Declares a name in the innermost scope.
    pub fn declare(
        &mut self,
        name: usize,
        ty: usize,
        storage: Storage,
        location: Location,
        is_const: bool,
    ) -> (r: Declared)
        requires
            old(self).wf(),
            ty < old(self)@.types.len(),
        ensures
            final(self).wf(),
            final(self)@ == old(self)@.declare(name, ty, storage, location, is_const),
            r == old(self)@.scopes.declare_outcome(old(self)@.types, name, ty),
            old(self)@.grows_to(final(self)@),
            final(self)@.pos == old(self)@.pos,
    {
        proof {
            crate::scope::lemma_last_index(
                self@.scopes.symbols,
                name,
                Space::Ordinary,
                self@.scopes.floor(),
                self@.scopes.symbols.len() as int,
            );
        }
        self.scopes.declare(self.types.as_vec(), name, ty, storage, location, is_const)
    }
}

} // verus!
