//! Symbols and the stack of scopes in which they live.
//!
//! The stack is modelled as the sequence of all live symbols in the order
//! of their declaration, with one mark per open scope: the number of
//! symbols that were live when the scope was entered. The symbols from the
//! last mark on are those of the innermost scope.

use vstd::prelude::*;
use crate::error::Location;
use crate::types::TypeNode;

verus! {

/// The storage classes.
#[derive(Clone, Copy, Debug, PartialEq, Eq, Structural)]
pub enum Storage {
    Auto,
    Static,
    Extern,
    Register,
}

/// The name spaces: that of objects, functions and enumeration constants,
/// and that of the tags of structures, unions and enumerations.
#[derive(Clone, Copy, Debug, PartialEq, Eq, Structural)]
pub enum Space {
    Ordinary,
    Tag,
}

/// A declared name: its number in the table of names, its name space, its
/// type, its storage class, the depth of the scope that owns it (zero for
/// the file scope), the place of its declaration, whether it is `const`,
/// and for an enumeration constant its value.
#[derive(Clone, Copy, Debug, PartialEq, Eq, Structural)]
pub struct Symbol {
    pub name: usize,
    pub space: Space,
    pub ty: usize,
    pub storage: Storage,
    pub depth: usize,
    pub location: Location,
    pub is_const: bool,
    pub enumerator: bool,
    pub value: i128,
}

/// The symbol of an object or function that is being declared.
pub open spec fn ordinary(
    name: usize,
    ty: usize,
    storage: Storage,
    location: Location,
    is_const: bool,
) -> Symbol {
    Symbol {
        name,
        space: Space::Ordinary,
        ty,
        storage,
        depth: 0,
        location,
        is_const,
        enumerator: false,
        value: 0,
    }
}

/// What declaring a name did.
#[derive(Clone, Copy, Debug, PartialEq, Eq, Structural)]
pub enum Declared {
    /// The scope did not hold the name; it does now.
    New,
    /// The scope held the name with a compatible type; the two
    /// declarations are one symbol.
    Merged,
    /// The scope held the name with an incompatible type; nothing changed.
    Conflict,
}

/// The greatest position in `floor..top` at which `symbols` holds a symbol
/// of the given name in the given name space; -1 if there is none.
pub open spec fn last_index(
    symbols: Seq<Symbol>,
    name: usize,
    space: Space,
    floor: int,
    top: int,
) -> int
    decreases top - floor,
{
    if top <= floor || top > symbols.len() {
        -1
    } else if symbols[top - 1].name == name && symbols[top - 1].space == space {
        top - 1
    } else {
        last_index(symbols, name, space, floor, top - 1)
    }
}

/// Whether two declarations of one name agree: their types are the same,
/// or both are arrays of the same element type and one leaves the length
/// open.
pub open spec fn compatible(types: Seq<TypeNode>, a: usize, b: usize) -> bool {
    a == b || (a < types.len() && b < types.len() && match (types[a as int], types[b as int]) {
        (
            TypeNode::Array { of: of_a, known: known_a, .. },
            TypeNode::Array { of: of_b, known: known_b, .. },
        ) => of_a == of_b && (!known_a || !known_b),
        _ => false,
    })
}

/// The type of a name after two agreeing declarations: the array type with
/// the length, if the earlier declaration left it open, else the earlier
/// type.
pub open spec fn merged_type(types: Seq<TypeNode>, earlier: usize, later: usize) -> usize {
    if earlier < types.len() {
        match types[earlier as int] {
            TypeNode::Array { known, .. } => if !known {
                later
            } else {
                earlier
            },
            _ => earlier,
        }
    } else {
        earlier
    }
}

/// The stack of scopes as a value.
pub struct Scopes {
    pub symbols: Seq<Symbol>,
    pub marks: Seq<usize>,
}

impl Scopes {
    /// There is at least the file scope, whose mark is zero; the marks do
    /// not decrease, and none is beyond the live symbols. The symbols and
    /// the marks are no more than a machine can count.
    pub open spec fn wf(self) -> bool {
        &&& self.symbols.len() <= usize::MAX
        &&& self.marks.len() <= usize::MAX
        &&& self.marks.len() >= 1
        &&& self.marks[0] == 0
        &&& forall|i: int, j: int|
            0 <= i <= j < self.marks.len() ==> #[trigger] self.marks[i] <= #[trigger] self.marks[j]
        &&& self.marks[self.marks.len() - 1] <= self.symbols.len()
    }

    /// The depth of the innermost scope.
    pub open spec fn depth(self) -> int {
        self.marks.len() - 1
    }

    /// The mark of the innermost scope.
    pub open spec fn floor(self) -> int {
        self.marks[self.marks.len() - 1] as int
    }

    /// The symbol that a name denotes in a name space: the one declared
    /// last among the live symbols of that name and space, which is the
    /// one of the innermost scope that holds it.
    pub open spec fn find(self, name: usize, space: Space) -> Option<Symbol> {
        let i = last_index(self.symbols, name, space, 0, self.symbols.len() as int);
        if i >= 0 {
            Some(self.symbols[i])
        } else {
            None
        }
    }

    /// The symbol that a name denotes in a name space in the innermost
    /// scope alone.
    pub open spec fn local(self, name: usize, space: Space) -> Option<Symbol> {
        let i = last_index(self.symbols, name, space, self.floor(), self.symbols.len() as int);
        if i >= 0 {
            Some(self.symbols[i])
        } else {
            None
        }
    }

    /// The object, function or enumeration constant that a name denotes.
    pub open spec fn resolve(self, name: usize) -> Option<Symbol> {
        self.find(name, Space::Ordinary)
    }

    /// The stack after a scope was entered.
    pub open spec fn enter(self) -> Scopes {
        Scopes { symbols: self.symbols, marks: self.marks.push(self.symbols.len() as usize) }
    }

    /// The stack after the innermost scope was left: its symbols are gone.
    /// The file scope is never left.
    pub open spec fn exit(self) -> Scopes {
        if self.marks.len() > 1 {
            Scopes {
                symbols: self.symbols.subrange(0, self.floor()),
                marks: self.marks.subrange(0, self.marks.len() - 1),
            }
        } else {
            self
        }
    }

    /// What declaring a symbol in the innermost scope does. Two
    /// declarations of a name in one scope and one name space are one
    /// symbol if their types agree and neither is an enumeration
    /// constant.
    pub open spec fn outcome(self, types: Seq<TypeNode>, sym: Symbol) -> Declared {
        let i = last_index(
            self.symbols,
            sym.name,
            sym.space,
            self.floor(),
            self.symbols.len() as int,
        );
        if i < 0 {
            Declared::New
        } else if !self.symbols[i].enumerator && !sym.enumerator && compatible(
            types,
            self.symbols[i].ty,
            sym.ty,
        ) {
            Declared::Merged
        } else {
            Declared::Conflict
        }
    }

    /// The stack after a symbol was declared in the innermost scope. A
    /// new name becomes the last symbol, at the depth of the scope; a
    /// second agreeing declaration leaves the symbol in place and
    /// completes its type; a conflicting one changes nothing.
    pub open spec fn put(self, types: Seq<TypeNode>, sym: Symbol) -> Scopes {
        let i = last_index(
            self.symbols,
            sym.name,
            sym.space,
            self.floor(),
            self.symbols.len() as int,
        );
        match self.outcome(types, sym) {
            Declared::New => Scopes {
                symbols: self.symbols.push(Symbol { depth: self.depth() as usize, ..sym }),
                marks: self.marks,
            },
            Declared::Merged => Scopes {
                symbols: self.symbols.update(
                    i,
                    Symbol { ty: merged_type(types, self.symbols[i].ty, sym.ty), ..self.symbols[i] },
                ),
                marks: self.marks,
            },
            Declared::Conflict => self,
        }
    }

    /// What declaring an object or function in the innermost scope does.
    pub open spec fn declare_outcome(self, types: Seq<TypeNode>, name: usize, ty: usize) -> Declared {
        self.outcome(
            types,
            ordinary(
                name,
                ty,
                Storage::Auto,
                Location { file: 0, line: 0, column: 0, offset: 0 },
                false,
            ),
        )
    }

    /// The stack after an object or function was declared in the
    /// innermost scope.
    pub open spec fn declare(
        self,
        types: Seq<TypeNode>,
        name: usize,
        ty: usize,
        storage: Storage,
        location: Location,
        is_const: bool,
    ) -> Scopes {
        self.put(types, ordinary(name, ty, storage, location, is_const))
    }
}

/// A search finds a position in its range that holds the name, or nothing.
pub proof fn lemma_last_index(
    symbols: Seq<Symbol>,
    name: usize,
    space: Space,
    floor: int,
    top: int,
)
    requires
        0 <= floor,
        top <= symbols.len(),
    ensures
        last_index(symbols, name, space, floor, top) == -1 || (floor <= last_index(
            symbols,
            name,
            space,
            floor,
            top,
        ) < top && symbols[last_index(symbols, name, space, floor, top)].name == name
            && symbols[last_index(symbols, name, space, floor, top)].space == space),
        forall|i: int|
            last_index(symbols, name, space, floor, top) < i < top && floor <= i ==> !((
            #[trigger] symbols[i]).name == name && symbols[i].space == space),
    decreases top - floor,
{
    if top > floor && !(symbols[top - 1].name == name && symbols[top - 1].space == space) {
        lemma_last_index(symbols, name, space, floor, top - 1);
    }
}

/// Entering a scope and leaving it again changes nothing.
pub proof fn lemma_enter_exit(s: Scopes)
    requires
        s.wf(),
        s.marks.len() < usize::MAX,
    ensures
        s.enter().wf(),
        s.enter().exit() == s,
{
    let t = s.enter();
    assert(t.exit().symbols =~= s.symbols);
    assert(t.exit().marks =~= s.marks);
}

/// Declaring keeps the stack well formed, leaves the marks alone and
/// touches no symbol of an enclosing scope.
pub proof fn lemma_declare_is_local(
    s: Scopes,
    types: Seq<TypeNode>,
    name: usize,
    ty: usize,
    storage: Storage,
    location: Location,
    is_const: bool,
)
    requires
        s.wf(),
        s.symbols.len() < usize::MAX,
    ensures
        s.declare(types, name, ty, storage, location, is_const).wf(),
        s.declare(types, name, ty, storage, location, is_const).marks == s.marks,
        s.declare(types, name, ty, storage, location, is_const).symbols.len() >= s.symbols.len(),
        forall|i: int|
            0 <= i < s.floor() ==> s.declare(
                types,
                name,
                ty,
                storage,
                location,
                is_const,
            ).symbols[i] == s.symbols[i],
{
    lemma_last_index(s.symbols, name, Space::Ordinary, s.floor(), s.symbols.len() as int);
}

/// Scope discipline. A name declared in a nested scope denotes the new
/// symbol while the scope is open. Once the scope is left the stack is
/// what it was before the scope was entered: the name is no longer
/// resolvable through the nested declaration, and whatever it denoted in
/// the enclosing scopes it denotes again.
pub proof fn lemma_scope_discipline(
    s: Scopes,
    types: Seq<TypeNode>,
    name: usize,
    ty: usize,
    storage: Storage,
    location: Location,
    is_const: bool,
)
    requires
        s.wf(),
        s.marks.len() < usize::MAX,
        s.symbols.len() < usize::MAX,
    ensures
        ({
            let inner = s.enter().declare(types, name, ty, storage, location, is_const);
            &&& s.enter().declare_outcome(types, name, ty) == Declared::New
            &&& inner.resolve(name) == Some(
                Symbol {
                    depth: (s.depth() + 1) as usize,
                    ..ordinary(name, ty, storage, location, is_const)
                },
            )
            &&& inner.exit() == s
            &&& forall|other: usize| inner.exit().resolve(other) == s.resolve(other)
        }),
{
    let e = s.enter();
    let inner = e.declare(types, name, ty, storage, location, is_const);
    assert(e.floor() == s.symbols.len());
    assert(last_index(e.symbols, name, Space::Ordinary, e.floor(), e.symbols.len() as int) == -1);
    assert(inner.symbols == s.symbols.push(
        Symbol {
            depth: (s.depth() + 1) as usize,
            ..ordinary(name, ty, storage, location, is_const)
        },
    ));
    assert(inner.exit().symbols =~= s.symbols);
    assert(inner.exit().marks =~= s.marks);
}

/// Leaving a scope undoes every declaration made in it, however many: if
/// the marks are those after entering from `s` and the symbols below the
/// last mark are those of `s`, leaving gives `s` back.
pub proof fn lemma_exit_restores(s: Scopes, inner: Scopes)
    requires
        s.wf(),
        inner.marks == s.enter().marks,
        inner.symbols.len() >= s.symbols.len(),
        forall|i: int| 0 <= i < s.symbols.len() ==> inner.symbols[i] == s.symbols[i],
    ensures
        inner.exit() == s,
{
    assert(inner.exit().symbols =~= s.symbols);
    assert(inner.exit().marks =~= s.marks);
}

/// The stack of scopes of one compilation.
pub struct ScopeStack {
    symbols: Vec<Symbol>,
    marks: Vec<usize>,
}

impl View for ScopeStack {
    type V = Scopes;

    closed spec fn view(&self) -> Scopes {
        Scopes { symbols: self.symbols@, marks: self.marks@ }
    }
}

impl ScopeStack {
    /// The stack with the file scope alone, and nothing declared.
    pub fn new() -> (s: ScopeStack)
        ensures
            s@.wf(),
            s@.symbols == Seq::<Symbol>::empty(),
            s@.marks == seq![0usize],
    {
        let mut marks: Vec<usize> = Vec::new();
        marks.push(0);
        ScopeStack { symbols: Vec::new(), marks }
    }

    /// The depth of the innermost scope.
    pub fn depth(&self) -> (d: usize)
        requires
            self@.wf(),
        ensures
            d == self@.depth(),
    {
        self.marks.len() - 1
    }

    /// The number of live symbols.
    pub fn len(&self) -> (n: usize)
        ensures
            n == self@.symbols.len(),
    {
        self.symbols.len()
    }

    /// Enters a scope.
    pub fn enter(&mut self)
        requires
            old(self)@.wf(),
        ensures
            final(self)@ == old(self)@.enter(),
            final(self)@.wf(),
    {
        self.marks.push(self.symbols.len());
        let count: usize = self.marks.len();
    }

    /// Leaves the innermost scope, unless it is the file scope.
    pub fn exit(&mut self)
        requires
            old(self)@.wf(),
        ensures
            final(self)@ == old(self)@.exit(),
            final(self)@.wf(),
    {
        if self.marks.len() > 1 {
            let floor: usize = self.marks[self.marks.len() - 1];
            self.symbols.truncate(floor);
            self.marks.pop();
        }
    }

    fn search(&self, name: usize, space: Space, floor: usize) -> (r: Option<usize>)
        requires
            floor <= self.symbols@.len(),
        ensures
            match r {
                Some(i) => i == last_index(
                    self.symbols@,
                    name,
                    space,
                    floor as int,
                    self.symbols@.len() as int,
                ) && floor <= i < self.symbols@.len(),
                None => last_index(
                    self.symbols@,
                    name,
                    space,
                    floor as int,
                    self.symbols@.len() as int,
                ) == -1,
            },
    {
        let mut top: usize = self.symbols.len();
        while top > floor
            invariant
                floor <= top <= self.symbols@.len(),
                last_index(self.symbols@, name, space, floor as int, top as int) == last_index(
                    self.symbols@,
                    name,
                    space,
                    floor as int,
                    self.symbols@.len() as int,
                ),
            decreases top - floor,
        {
            let sym: Symbol = self.symbols[top - 1];
            if sym.name == name && sym.space == space {
                return Some(top - 1);
            }
            top = top - 1;
        }
        None
    }

    /// The symbol that a name denotes in a name space, if it is declared.
    pub fn find(&self, name: usize, space: Space) -> (r: Option<Symbol>)
        ensures
            r == self@.find(name, space),
    {
        match self.search(name, space, 0) {
            Some(i) => Some(self.symbols[i]),
            None => None,
        }
    }

    /// The symbol that a name denotes in a name space in the innermost
    /// scope alone, if it is declared there.
    pub fn local(&self, name: usize, space: Space) -> (r: Option<Symbol>)
        requires
            self@.wf(),
        ensures
            r == self@.local(name, space),
    {
        let floor: usize = self.marks[self.marks.len() - 1];
        match self.search(name, space, floor) {
            Some(i) => Some(self.symbols[i]),
            None => None,
        }
    }

    /// The object, function or enumeration constant that a name denotes,
    /// if it is declared.
    pub fn resolve(&self, name: usize) -> (r: Option<Symbol>)
        ensures
            r == self@.resolve(name),
    {
        self.find(name, Space::Ordinary)
    }

    /// Declares a symbol in the innermost scope.
    pub fn put(&mut self, types: &Vec<TypeNode>, sym: Symbol) -> (r: Declared)
        requires
            old(self)@.wf(),
        ensures
            r == old(self)@.outcome(types@, sym),
            final(self)@ == old(self)@.put(types@, sym),
            final(self)@.wf(),
    {
        let ghost before = self@;
        proof {
            lemma_last_index(
                before.symbols,
                sym.name,
                sym.space,
                before.floor(),
                before.symbols.len() as int,
            );
        }
        let floor: usize = self.marks[self.marks.len() - 1];
        match self.search(sym.name, sym.space, floor) {
            None => {
                let depth: usize = self.marks.len() - 1;
                self.symbols.push(
                    Symbol {
                        name: sym.name,
                        space: sym.space,
                        ty: sym.ty,
                        storage: sym.storage,
                        depth,
                        location: sym.location,
                        is_const: sym.is_const,
                        enumerator: sym.enumerator,
                        value: sym.value,
                    },
                );
                let count: usize = self.symbols.len();
                Declared::New
            },
            Some(i) => {
                let earlier: Symbol = self.symbols[i];
                if !earlier.enumerator && !sym.enumerator && types_agree(types, earlier.ty, sym.ty) {
                    let merged: usize = merge_types(types, earlier.ty, sym.ty);
                    self.symbols.set(
                        i,
                        Symbol {
                            name: earlier.name,
                            space: earlier.space,
                            ty: merged,
                            storage: earlier.storage,
                            depth: earlier.depth,
                            location: earlier.location,
                            is_const: earlier.is_const,
                            enumerator: earlier.enumerator,
                            value: earlier.value,
                        },
                    );
                    Declared::Merged
                } else {
                    Declared::Conflict
                }
            },
        }
    }

    /// Declares an object or function in the innermost scope.
    pub fn declare(
        &mut self,
        types: &Vec<TypeNode>,
        name: usize,
        ty: usize,
        storage: Storage,
        location: Location,
        is_const: bool,
    ) -> (r: Declared)
        requires
            old(self)@.wf(),
        ensures
            r == old(self)@.declare_outcome(types@, name, ty),
            final(self)@ == old(self)@.declare(types@, name, ty, storage, location, is_const),
            final(self)@.wf(),
    {
        self.put(
            types,
            Symbol {
                name,
                space: Space::Ordinary,
                ty,
                storage,
                depth: 0,
                location,
                is_const,
                enumerator: false,
                value: 0,
            },
        )
    }
}

/// Whether two declarations of one name agree.
pub fn types_agree(types: &Vec<TypeNode>, a: usize, b: usize) -> (r: bool)
    ensures
        r == compatible(types@, a, b),
{
    if a == b {
        return true;
    }
    if a < types.len() && b < types.len() {
        match (types[a], types[b]) {
            (
                TypeNode::Array { of: of_a, known: known_a, .. },
                TypeNode::Array { of: of_b, known: known_b, .. },
            ) => of_a == of_b && (!known_a || !known_b),
            _ => false,
        }
    } else {
        false
    }
}

/// The type of a name after two agreeing declarations.
pub fn merge_types(types: &Vec<TypeNode>, earlier: usize, later: usize) -> (r: usize)
    ensures
        r == merged_type(types@, earlier, later),
{
    if earlier < types.len() {
        match types[earlier] {
            TypeNode::Array { known, .. } => if !known {
                later
            } else {
                earlier
            },
            _ => earlier,
        }
    } else {
        earlier
    }
}

} // verus!
