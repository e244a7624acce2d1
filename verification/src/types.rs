//! The types of the language, kept in a table in which each type occurs
//! once and is named by its position.

use vstd::prelude::*;
use crate::target::IntRank;
use crate::target::Target;

verus! {

/// A type, with the types it is built from named by their positions in the
/// table. `Function` names the list of its parameter types, which is made
/// of `Params` cells and ends in `NoParams`.
#[derive(Clone, Copy, Debug, PartialEq, Eq, Structural)]
pub enum TypeNode {
    Error,
    Void,
    Int { rank: IntRank, signed: bool },
    Float { double: bool },
    Pointer { to: usize },
    Array { of: usize, known: bool, len: u64 },
    Function { ret: usize, params: usize, variadic: bool },
    Params { head: usize, tail: usize },
    NoParams,
    /// A structure or union. Its tag is its own position in the table.
    /// While it is incomplete its members are not known; once it is
    /// complete it names the list of its members, which is made of
    /// `Field` cells and ends in `NoParams`, and has a size and an
    /// alignment.
    Record { tag: usize, union: bool, complete: bool, fields: usize, size: u64, align: u8 },
    /// A member of a structure or union, at an offset from its start, and
    /// the members after it.
    Field { name: usize, ty: usize, offset: u64, tail: usize },
}

/// The sentinel type of an expression whose analysis failed.
pub const TY_ERROR: usize = 0;

pub const TY_VOID: usize = 1;

pub const TY_CHAR: usize = 2;

pub const TY_INT: usize = 6;

pub const TY_UINT: usize = 7;

pub const TY_LONG: usize = 8;

pub const TY_ULONG: usize = 9;

pub const TY_FLOAT: usize = 12;

pub const TY_DOUBLE: usize = 13;

pub const TY_NO_PARAMS: usize = 14;

/// The number of types that every table starts with.
pub const BASE_TYPES: usize = 15;

/// The position of an integer type in every table.
pub open spec fn int_type_id(rank: IntRank, signed: bool) -> int {
    2 + 2 * rank.level() + if signed {
        0int
    } else {
        1int
    }
}

/// The type at a position below `BASE_TYPES` in every table.
pub open spec fn base_type(i: int) -> TypeNode {
    if i == 0 {
        TypeNode::Error
    } else if i == 1 {
        TypeNode::Void
    } else if i == 2 {
        TypeNode::Int { rank: IntRank::Char, signed: true }
    } else if i == 3 {
        TypeNode::Int { rank: IntRank::Char, signed: false }
    } else if i == 4 {
        TypeNode::Int { rank: IntRank::Short, signed: true }
    } else if i == 5 {
        TypeNode::Int { rank: IntRank::Short, signed: false }
    } else if i == 6 {
        TypeNode::Int { rank: IntRank::Int, signed: true }
    } else if i == 7 {
        TypeNode::Int { rank: IntRank::Int, signed: false }
    } else if i == 8 {
        TypeNode::Int { rank: IntRank::Long, signed: true }
    } else if i == 9 {
        TypeNode::Int { rank: IntRank::Long, signed: false }
    } else if i == 10 {
        TypeNode::Int { rank: IntRank::LongLong, signed: true }
    } else if i == 11 {
        TypeNode::Int { rank: IntRank::LongLong, signed: false }
    } else if i == 12 {
        TypeNode::Float { double: false }
    } else if i == 13 {
        TypeNode::Float { double: true }
    } else {
        TypeNode::NoParams
    }
}

/// The table that every compilation starts with.
pub open spec fn base_table() -> Seq<TypeNode> {
    Seq::new(BASE_TYPES as nat, |i: int| base_type(i))
}

/// Whether every type that `node` is built from lies below position `n`.
pub open spec fn built_below(node: TypeNode, n: int) -> bool {
    match node {
        TypeNode::Pointer { to } => to < n,
        TypeNode::Array { of, .. } => of < n,
        TypeNode::Function { ret, params, .. } => ret < n && params < n,
        TypeNode::Params { head, tail } => head < n && tail < n,
        TypeNode::Record { tag, .. } => tag == n,
        TypeNode::Field { ty, tail, .. } => ty < n && tail < n,
        _ => true,
    }
}

/// Whether a type will never change: every type but an incomplete
/// structure or union.
pub open spec fn settled(node: TypeNode) -> bool {
    match node {
        TypeNode::Record { complete, .. } => complete,
        _ => true,
    }
}

/// The structure or union at a position once it is complete, with the
/// given members, size and alignment.
pub open spec fn completion(node: TypeNode, fields: usize, size: u64, align: u8) -> TypeNode {
    match node {
        TypeNode::Record { tag, union, .. } => TypeNode::Record {
            tag,
            union,
            complete: true,
            fields,
            size,
            align,
        },
        _ => node,
    }
}

/// The alignment in bytes of the objects of a type.
pub open spec fn align_of_type(nodes: Seq<TypeNode>, target: Target, id: int) -> u8
    decreases id,
{
    if id < 0 || id >= nodes.len() {
        1
    } else {
        match nodes[id] {
            TypeNode::Int { rank, .. } => target.align_of(target.bytes_of(rank)),
            TypeNode::Float { double } => target.align_of(
                if double {
                    8u8
                } else {
                    4u8
                },
            ),
            TypeNode::Pointer { .. } => target.align_of(target.pointer_bytes),
            TypeNode::Array { of, .. } => if of < id {
                align_of_type(nodes, target, of as int)
            } else {
                1
            },
            TypeNode::Record { align, .. } => align,
            _ => 1,
        }
    }
}

/// Completing an incomplete structure or union keeps a table well
/// formed: its position and tag stay, and no other entry changes.
pub proof fn lemma_completion(nodes: Seq<TypeNode>, id: int, fields: usize, size: u64, align: u8)
    requires
        table_wf(nodes),
        BASE_TYPES <= id < nodes.len(),
        nodes[id] is Record,
    ensures
        table_wf(nodes.update(id, completion(nodes[id], fields, size, align))),
{
    let after = nodes.update(id, completion(nodes[id], fields, size, align));
    assert forall|i: int, j: int| 0 <= i < j < after.len() implies #[trigger] after[i]
        != #[trigger] after[j] by {
        assert(built_below(nodes[i], i));
        assert(built_below(nodes[j], j));
        assert(nodes[i] != nodes[j]);
    }
    assert forall|i: int| 0 <= i < after.len() implies built_below(#[trigger] after[i], i) by {
        assert(built_below(nodes[i], i));
    }
    assert forall|i: int| 0 <= i < BASE_TYPES implies #[trigger] after[i] == base_type(i) by {
        assert(nodes[i] == base_type(i));
    }
}

/// A table is well formed if it starts with the base types, every type in
/// it is built from types before it, and no type occurs twice.
pub open spec fn table_wf(nodes: Seq<TypeNode>) -> bool {
    &&& nodes.len() >= BASE_TYPES
    &&& forall|i: int| 0 <= i < BASE_TYPES ==> #[trigger] nodes[i] == base_type(i)
    &&& forall|i: int| 0 <= i < nodes.len() ==> built_below(#[trigger] nodes[i], i)
    &&& forall|i: int, j: int| 0 <= i < j < nodes.len() ==> #[trigger] nodes[i] != #[trigger] nodes[j]
}

/// The first position at or after `from` at which the table holds `node`;
/// the length of the table if there is none.
pub open spec fn type_index(nodes: Seq<TypeNode>, node: TypeNode, from: int) -> int
    decreases nodes.len() - from,
{
    if from < 0 || from >= nodes.len() {
        nodes.len() as int
    } else if nodes[from] == node {
        from
    } else {
        type_index(nodes, node, from + 1)
    }
}

/// The position that a type has after interning: where it stands in the
/// table, or the end of the table.
pub open spec fn interned_type(nodes: Seq<TypeNode>, node: TypeNode) -> int {
    type_index(nodes, node, 0)
}

/// The table after interning a type: unchanged if it holds the type, else
/// with the type added at the end.
pub open spec fn interned_table(nodes: Seq<TypeNode>, node: TypeNode) -> Seq<TypeNode> {
    if type_index(nodes, node, 0) < nodes.len() {
        nodes
    } else {
        nodes.push(node)
    }
}

/// The size in bytes of the objects of a type; `None` for the types that
/// have no objects or whose size is not known: the sentinel, `void`,
/// functions, incomplete structures and unions, arrays of unknown length
/// or of such elements, and arrays whose size no 64-bit number holds.
pub open spec fn size_of(nodes: Seq<TypeNode>, target: Target, id: int) -> Option<u64>
    decreases id,
{
    if id < 0 || id >= nodes.len() {
        None
    } else {
        match nodes[id] {
            TypeNode::Int { rank, .. } => Some(target.bytes_of(rank) as u64),
            TypeNode::Float { double } => Some(
                if double {
                    8u64
                } else {
                    4u64
                },
            ),
            TypeNode::Pointer { .. } => Some(target.pointer_bytes as u64),
            TypeNode::Array { of, known, len } => if known && of < id {
                match size_of(nodes, target, of as int) {
                    Some(n) => if n * len <= u64::MAX {
                        Some((n * len) as u64)
                    } else {
                        None
                    },
                    None => None,
                }
            } else {
                None
            },
            TypeNode::Record { complete, size, .. } => if complete {
                Some(size)
            } else {
                None
            },
            _ => None,
        }
    }
}

/// Where the search for a type ends there is the type, and before it there
/// is not.
pub proof fn lemma_type_index(nodes: Seq<TypeNode>, node: TypeNode, from: int)
    requires
        0 <= from <= nodes.len(),
    ensures
        from <= type_index(nodes, node, from) <= nodes.len(),
        type_index(nodes, node, from) < nodes.len() ==> nodes[type_index(nodes, node, from)]
            == node,
        forall|i: int| from <= i < type_index(nodes, node, from) ==> #[trigger] nodes[i] != node,
    decreases nodes.len() - from,
{
    if from < nodes.len() && nodes[from] != node {
        lemma_type_index(nodes, node, from + 1);
    }
}

/// Interning keeps a table well formed and keeps every type at its
/// position; afterwards the table holds the type at its position.
pub proof fn lemma_interned(nodes: Seq<TypeNode>, node: TypeNode)
    requires
        table_wf(nodes),
        built_below(node, nodes.len() as int),
    ensures
        table_wf(interned_table(nodes, node)),
        nodes.len() <= interned_table(nodes, node).len(),
        forall|i: int| 0 <= i < nodes.len() ==> interned_table(nodes, node)[i] == nodes[i],
        0 <= interned_type(nodes, node) < interned_table(nodes, node).len(),
        interned_table(nodes, node)[interned_type(nodes, node)] == node,
{
    lemma_type_index(nodes, node, 0);
}

/// In a well-formed table two positions hold the same type only if they
/// are the same position.
pub proof fn lemma_types_are_unique(nodes: Seq<TypeNode>, a: int, b: int)
    requires
        table_wf(nodes),
        0 <= a < nodes.len(),
        0 <= b < nodes.len(),
        nodes[a] == nodes[b],
    ensures
        a == b,
{
    if a < b {
        assert(nodes[a] != nodes[b]);
    } else if b < a {
        assert(nodes[b] != nodes[a]);
    }
}

/// The table of the types of one compilation.
pub struct TypeTable {
    nodes: Vec<TypeNode>,
}

impl View for TypeTable {
    type V = Seq<TypeNode>;

    closed spec fn view(&self) -> Seq<TypeNode> {
        self.nodes@
    }
}

/// The position of an integer type.
pub fn int_type(rank: IntRank, signed: bool) -> (id: usize)
    ensures
        id == int_type_id(rank, signed),
        2 <= id < 12,
        base_type(id as int) == (TypeNode::Int { rank, signed }),
{
    let base: usize = 2 + 2 * (rank.index() as usize);
    if signed {
        base
    } else {
        base + 1
    }
}

impl TypeTable {
    /// The table of the base types.
    pub fn new() -> (t: TypeTable)
        ensures
            table_wf(t@),
            t@.len() == BASE_TYPES,
            t@ == base_table(),
    {
        let mut nodes: Vec<TypeNode> = Vec::new();
        nodes.push(TypeNode::Error);
        nodes.push(TypeNode::Void);
        nodes.push(TypeNode::Int { rank: IntRank::Char, signed: true });
        nodes.push(TypeNode::Int { rank: IntRank::Char, signed: false });
        nodes.push(TypeNode::Int { rank: IntRank::Short, signed: true });
        nodes.push(TypeNode::Int { rank: IntRank::Short, signed: false });
        nodes.push(TypeNode::Int { rank: IntRank::Int, signed: true });
        nodes.push(TypeNode::Int { rank: IntRank::Int, signed: false });
        nodes.push(TypeNode::Int { rank: IntRank::Long, signed: true });
        nodes.push(TypeNode::Int { rank: IntRank::Long, signed: false });
        nodes.push(TypeNode::Int { rank: IntRank::LongLong, signed: true });
        nodes.push(TypeNode::Int { rank: IntRank::LongLong, signed: false });
        nodes.push(TypeNode::Float { double: false });
        nodes.push(TypeNode::Float { double: true });
        nodes.push(TypeNode::NoParams);
        assert(nodes@ =~= base_table());
        TypeTable { nodes }
    }

    pub fn len(&self) -> (n: usize)
        ensures
            n == self@.len(),
    {
        self.nodes.len()
    }

    /// The table as a vector.
    pub fn as_vec(&self) -> (v: &Vec<TypeNode>)
        ensures
            v@ == self@,
    {
        &self.nodes
    }

    /// The type at a position.
    pub fn get(&self, id: usize) -> (node: TypeNode)
        requires
            id < self@.len(),
        ensures
            node == self@[id as int],
    {
        self.nodes[id]
    }

    /// The position of a type, adding the type if it is new.
    pub fn intern(&mut self, node: TypeNode) -> (id: usize)
        requires
            table_wf(old(self)@),
            built_below(node, old(self)@.len() as int),
        ensures
            id == interned_type(old(self)@, node),
            final(self)@ == interned_table(old(self)@, node),
            table_wf(final(self)@),
            id < final(self)@.len(),
            final(self)@[id as int] == node,
            old(self)@.len() <= final(self)@.len(),
            forall|i: int| 0 <= i < old(self)@.len() ==> final(self)@[i] == old(self)@[i],
    {
        proof {
            lemma_interned(self@, node);
        }
        let mut i: usize = 0;
        while i < self.nodes.len()
            invariant
                i <= self.nodes@.len(),
                self.nodes@ == old(self)@,
                table_wf(old(self)@),
                table_wf(interned_table(old(self)@, node)),
                type_index(self@, node, i as int) == type_index(self@, node, 0),
            decreases self.nodes@.len() - i,
        {
            if self.nodes[i] == node {
                return i;
            }
            i = i + 1;
        }
        self.nodes.push(node);
        i
    }

    /// The size in bytes of the objects of a type.
    pub fn size(&self, target: &Target, id: usize) -> (r: Option<u64>)
        requires
            table_wf(self@),
            id < self@.len(),
        ensures
            r == size_of(self@, *target, id as int),
        decreases id,
    {
        match self.nodes[id] {
            TypeNode::Int { rank, .. } => Some(target.bytes(rank) as u64),
            TypeNode::Float { double } => Some(
                if double {
                    8
                } else {
                    4
                },
            ),
            TypeNode::Pointer { .. } => Some(target.pointer_bytes as u64),
            TypeNode::Array { of, known, len } => {
                if !known {
                    return None;
                }
                assert(built_below(self@[id as int], id as int));
                match self.size(target, of) {
                    Some(n) => n.checked_mul(len),
                    None => None,
                }
            },
            TypeNode::Record { complete, size, .. } => if complete {
                Some(size)
            } else {
                None
            },
            _ => None,
        }
    }

    /// The alignment in bytes of the objects of a type.
    pub fn align(&self, target: &Target, id: usize) -> (r: u8)
        requires
            table_wf(self@),
            id < self@.len(),
        ensures
            r == align_of_type(self@, *target, id as int),
        decreases id,
    {
        match self.nodes[id] {
            TypeNode::Int { rank, .. } => target.align(target.bytes(rank)),
            TypeNode::Float { double } => target.align(
                if double {
                    8
                } else {
                    4
                },
            ),
            TypeNode::Pointer { .. } => target.align(target.pointer_bytes),
            TypeNode::Array { of, .. } => {
                assert(built_below(self@[id as int], id as int));
                self.align(target, of)
            },
            TypeNode::Record { align, .. } => align,
            _ => 1,
        }
    }

    /// Completes an incomplete structure or union: from now on it has the
    /// given members, size and alignment. Nothing else changes.
    pub fn complete(&mut self, id: usize, fields: usize, size: u64, align: u8)
        requires
            table_wf(old(self)@),
            id < old(self)@.len(),
            old(self)@[id as int] is Record,
            !settled(old(self)@[id as int]),
        ensures
            final(self)@ == old(self)@.update(
                id as int,
                completion(old(self)@[id as int], fields, size, align),
            ),
            table_wf(final(self)@),
            settled(final(self)@[id as int]),
    {
        proof {
            assert(old(self)@[id as int] != base_type(id as int)) by {
                assert(forall|i: int| 0 <= i < BASE_TYPES ==> !(base_type(i) is Record));
            }
            lemma_completion(self@, id as int, fields, size, align);
        }
        match self.nodes[id] {
            TypeNode::Record { tag, union, .. } => {
                self.nodes.set(
                    id,
                    TypeNode::Record { tag, union, complete: true, fields, size, align },
                );
            },
            _ => {},
        }
    }
}

} // verus!
