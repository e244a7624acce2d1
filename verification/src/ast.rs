//! The typed syntax tree, kept in one table in which each node is named by
//! its position and names its parts by theirs.

use vstd::prelude::*;
use crate::error::Location;
use crate::fold::conditional_value;
use crate::fold::fold_operand;
use crate::fold::fold_operands;
use crate::fold::folded_value;
use crate::fold::BinaryOp;
use crate::fold::Constant;
use crate::fold::UnaryOp;
use crate::scope::Storage;
use crate::types::TY_VOID;

verus! {

/// What an expression designates: a value, an object that can be assigned
/// to, or an object that cannot.
#[derive(Clone, Copy, Debug, PartialEq, Eq, Structural)]
pub enum Category {
    Value,
    Object,
    ConstObject,
}

/// The kinds of node. Position 0 of every table holds `Nil`, which stands
/// for an absent part and for the empty list; a list is a chain of `Cons`
/// nodes that ends in `Nil`.
#[derive(Clone, Copy, Debug, PartialEq, Eq, Structural)]
pub enum NodeKind {
    Nil,
    Cons { head: usize, tail: usize },
    /// An expression whose analysis failed.
    Error,
    /// An integer, character or floating literal; the node's constant is
    /// its value.
    Literal,
    /// A string literal that denotes `len` bytes.
    Str { len: usize },
    Ident { name: usize },
    Unary { op: UnaryOp, operand: usize },
    Binary { operator: BinaryOp, left: usize, right: usize },
    /// An assignment, simple or compound with the operator `with`.
    Assign { compound: bool, with: BinaryOp, target: usize, value: usize },
    Conditional { cond: usize, then_part: usize, else_part: usize },
    /// Two expressions with a comma between them; the node has the type
    /// of the right one.
    Comma { left: usize, right: usize },
    Call { callee: usize, args: usize },
    Index { base: usize, index: usize },
    /// The member `name` of a structure or union, reached with `.` or,
    /// through a pointer, with `->`.
    Member { operand: usize, name: usize, arrow: bool },
    /// A conversion that the source asks for; the node's type is the
    /// target.
    Cast { operand: usize },
    /// A conversion that the analysis inserted; the node's type is the
    /// target.
    Convert { operand: usize },
    SizeofType { of: usize },
    SizeofExpr { operand: usize },
    InitList { items: usize },
    Empty,
    ExprStmt { expr: usize },
    Compound { items: usize },
    If { cond: usize, then_part: usize, else_part: usize },
    While { cond: usize, body: usize },
    DoWhile { body: usize, cond: usize },
    For { init: usize, cond: usize, step: usize, body: usize },
    Return { value: usize },
    Break,
    Continue,
    Switch { cond: usize, body: usize },
    Case { label: i128, body: usize },
    Default { body: usize },
    /// The declaration of an object or of a function without a body; the
    /// node's type is the declared type.
    Declare { name: usize, storage: Storage, init: usize },
    /// The definition of a function; the node's type is the function type.
    Function { name: usize, storage: Storage, params: usize, body: usize },
    /// The declarations that one declaration statement makes.
    Group { items: usize },
    /// A parameter of a function; the node's type is its type after
    /// arrays and functions have become pointers.
    Param { name: usize, named: bool },
}

/// A node: its kind, the type of the expression or of the declared name
/// (`void` for statements), what an expression designates, the value of a
/// constant expression, and the place in the source.
#[derive(Clone, Copy, Debug, PartialEq, Eq)]
pub struct Node {
    pub kind: NodeKind,
    pub ty: usize,
    pub category: Category,
    pub constant: Option<Constant>,
    pub location: Location,
}

/// Whether every part that a node of this kind names lies below `n`.
pub open spec fn parts_below(kind: NodeKind, n: int) -> bool {
    match kind {
        NodeKind::Cons { head, tail } => head < n && tail < n,
        NodeKind::Unary { operand, .. } => operand < n,
        NodeKind::Binary { left, right, .. } => left < n && right < n,
        NodeKind::Assign { target, value, .. } => target < n && value < n,
        NodeKind::Conditional { cond, then_part, else_part } => cond < n && then_part < n
            && else_part < n,
        NodeKind::Comma { left, right } => left < n && right < n,
        NodeKind::Call { callee, args } => callee < n && args < n,
        NodeKind::Index { base, index } => base < n && index < n,
        NodeKind::Member { operand, .. } => operand < n,
        NodeKind::Cast { operand } => operand < n,
        NodeKind::Convert { operand } => operand < n,
        NodeKind::SizeofExpr { operand } => operand < n,
        NodeKind::InitList { items } => items < n,
        NodeKind::ExprStmt { expr } => expr < n,
        NodeKind::Compound { items } => items < n,
        NodeKind::If { cond, then_part, else_part } => cond < n && then_part < n && else_part < n,
        NodeKind::While { cond, body } => cond < n && body < n,
        NodeKind::DoWhile { body, cond } => cond < n && body < n,
        NodeKind::For { init, cond, step, body } => init < n && cond < n && step < n && body < n,
        NodeKind::Return { value } => value < n,
        NodeKind::Switch { cond, body } => cond < n && body < n,
        NodeKind::Case { body, .. } => body < n,
        NodeKind::Default { body } => body < n,
        NodeKind::Declare { init, .. } => init < n,
        NodeKind::Function { params, body, .. } => params < n && body < n,
        NodeKind::Group { items } => items < n,
        _ => true,
    }
}

/// Whether a node may stand at position `at` of a table beside `types`
/// types: its parts lie before it, or it is the node at position 0, its
/// type is in the table of types, and its constant, if it has one, is a
/// value of the constant's type.
pub open spec fn node_ok(node: Node, at: int, types: int) -> bool {
    &&& node.ty < types
    &&& if at == 0 {
        node.kind is Nil
    } else {
        parts_below(node.kind, at)
    }
    &&& node.kind matches NodeKind::SizeofType { of } ==> of < types
    &&& node.constant matches Some(c) ==> c.wf()
}

/// A table of nodes is well formed if it starts with `Nil` and every node
/// may stand where it stands.
pub open spec fn nodes_wf(nodes: Seq<Node>, types: int) -> bool {
    &&& nodes.len() >= 1
    &&& forall|i: int| 0 <= i < nodes.len() ==> node_ok(#[trigger] nodes[i], i, types)
}

/// Whether the node at a position carries the value that folding gives
/// it: a unary, binary or conditional operation carries the fold of the
/// values that its operands carry, with `int_width` as the width of
/// `int`.
pub open spec fn folded_here(nodes: Seq<Node>, at: int, int_width: u8) -> bool {
    let n = nodes[at];
    match n.kind {
        NodeKind::Unary { op, operand } => n.constant == folded_value(
            fold_operand(op, nodes[operand as int].constant, int_width),
        ),
        NodeKind::Binary { operator, left, right } => n.constant == folded_value(
            fold_operands(
                operator,
                nodes[left as int].constant,
                nodes[right as int].constant,
                int_width,
            ),
        ),
        NodeKind::Conditional { cond, then_part, else_part } => n.constant == conditional_value(
            nodes[cond as int].constant,
            nodes[then_part as int].constant,
            nodes[else_part as int].constant,
        ),
        _ => true,
    }
}

/// Whether every node of a table carries the value that folding gives
/// it.
#[verifier::opaque]
pub open spec fn folded(nodes: Seq<Node>, int_width: u8) -> bool {
    forall|i: int| 0 <= i < nodes.len() ==> folded_here(nodes, i, int_width)
}

/// The value of the expression at a node by evaluation of the tree below
/// it: an operation has the fold of the values of its operands, evaluated
/// in their turn; every other node has the value it carries.
pub open spec fn evaluate(nodes: Seq<Node>, e: int, int_width: u8) -> Option<Constant>
    decreases e,
{
    if e < 0 || e >= nodes.len() {
        None
    } else {
        match nodes[e].kind {
            NodeKind::Unary { op, operand } => if operand < e {
                folded_value(fold_operand(op, evaluate(nodes, operand as int, int_width), int_width))
            } else {
                None
            },
            NodeKind::Binary { operator, left, right } => if left < e && right < e {
                folded_value(
                    fold_operands(
                        operator,
                        evaluate(nodes, left as int, int_width),
                        evaluate(nodes, right as int, int_width),
                        int_width,
                    ),
                )
            } else {
                None
            },
            NodeKind::Conditional { cond, then_part, else_part } => if cond < e && then_part < e
                && else_part < e {
                conditional_value(
                    evaluate(nodes, cond as int, int_width),
                    evaluate(nodes, then_part as int, int_width),
                    evaluate(nodes, else_part as int, int_width),
                )
            } else {
                None
            },
            _ => nodes[e].constant,
        }
    }
}

/// A table with one node more is folded if the table was and the new node
/// carries the value that folding gives it.
pub proof fn lemma_folded_push(nodes: Seq<Node>, node: Node, types: int, int_width: u8)
    requires
        nodes_wf(nodes, types),
        node_ok(node, nodes.len() as int, types),
        folded(nodes, int_width),
        folded_here(nodes.push(node), nodes.len() as int, int_width),
    ensures
        folded(nodes.push(node), int_width),
{
    reveal(folded);
    let after = nodes.push(node);
    assert forall|i: int| 0 <= i < after.len() implies folded_here(after, i, int_width) by {
        if i < nodes.len() {
            assert(node_ok(nodes[i], i, types));
            assert(folded_here(nodes, i, int_width));
        }
    }
}

/// In a folded table every node carries the value that folding gives it.
pub proof fn lemma_folded_at(nodes: Seq<Node>, int_width: u8, e: int)
    requires
        folded(nodes, int_width),
        0 <= e < nodes.len(),
    ensures
        folded_here(nodes, e, int_width),
{
    reveal(folded);
}

/// Folding matches evaluation: in a well-formed and folded table the
/// value that a node carries, which was folded as the tree was built, is
/// the value that evaluating the tree below the node gives.
#[verifier::rlimit(100)]
pub proof fn lemma_folding_is_evaluation(nodes: Seq<Node>, types: int, int_width: u8, e: int)
    requires
        nodes_wf(nodes, types),
        folded(nodes, int_width),
        0 <= e < nodes.len(),
    ensures
        nodes[e].constant == evaluate(nodes, e, int_width),
    decreases e,
{
    lemma_folded_at(nodes, int_width, e);
    assert(node_ok(nodes[e], e, types));
    if e > 0 {
        match nodes[e].kind {
            NodeKind::Unary { op, operand } => {
                lemma_folding_is_evaluation(nodes, types, int_width, operand as int);
                assert(evaluate(nodes, e, int_width) == folded_value(
                    fold_operand(op, evaluate(nodes, operand as int, int_width), int_width),
                ));
            },
            NodeKind::Binary { operator, left, right } => {
                lemma_folding_is_evaluation(nodes, types, int_width, left as int);
                lemma_folding_is_evaluation(nodes, types, int_width, right as int);
                assert(evaluate(nodes, e, int_width) == folded_value(
                    fold_operands(
                        operator,
                        evaluate(nodes, left as int, int_width),
                        evaluate(nodes, right as int, int_width),
                        int_width,
                    ),
                ));
            },
            NodeKind::Conditional { cond, then_part, else_part } => {
                lemma_folding_is_evaluation(nodes, types, int_width, cond as int);
                lemma_folding_is_evaluation(nodes, types, int_width, then_part as int);
                lemma_folding_is_evaluation(nodes, types, int_width, else_part as int);
                assert(evaluate(nodes, e, int_width) == conditional_value(
                    evaluate(nodes, cond as int, int_width),
                    evaluate(nodes, then_part as int, int_width),
                    evaluate(nodes, else_part as int, int_width),
                ));
            },
            _ => {},
        }
    } else {
        assert(nodes[0].kind is Nil);
    }
}

/// The node of a statement, or of another part that has no type or value.
pub open spec fn plain_node(kind: NodeKind, location: Location) -> Node {
    Node { kind, ty: TY_VOID, category: Category::Value, constant: None, location }
}

/// The number of nodes in the list that starts at `list`.
pub open spec fn list_len(nodes: Seq<Node>, list: int) -> nat
    decreases list,
{
    if list <= 0 || list >= nodes.len() {
        0
    } else {
        match nodes[list].kind {
            NodeKind::Cons { tail, .. } => if tail < list {
                1 + list_len(nodes, tail as int)
            } else {
                0
            },
            _ => 0,
        }
    }
}

/// The members of the list that starts at `list`, first to last.
pub open spec fn list_items(nodes: Seq<Node>, list: int) -> Seq<usize>
    decreases list,
{
    if list <= 0 || list >= nodes.len() {
        Seq::empty()
    } else {
        match nodes[list].kind {
            NodeKind::Cons { head, tail } => if tail < list {
                seq![head] + list_items(nodes, tail as int)
            } else {
                Seq::empty()
            },
            _ => Seq::empty(),
        }
    }
}

/// A list has as many members as it has nodes.
pub proof fn lemma_list_len(nodes: Seq<Node>, list: int)
    ensures
        list_items(nodes, list).len() == list_len(nodes, list),
    decreases list,
{
    if !(list <= 0 || list >= nodes.len()) {
        match nodes[list].kind {
            NodeKind::Cons { head, tail } => {
                if tail < list {
                    lemma_list_len(nodes, tail as int);
                }
            },
            _ => {},
        }
    }
}

pub fn make_plain(kind: NodeKind, location: Location) -> (node: Node)
    ensures
        node == plain_node(kind, location),
{
    Node { kind, ty: TY_VOID, category: Category::Value, constant: None, location }
}

/// Reads the members of a list out of a table of nodes.
pub fn items_of(nodes: &Vec<Node>, list: usize) -> (items: Vec<usize>)
    ensures
        items@ == list_items(nodes@, list as int),
{
    let mut items: Vec<usize> = Vec::new();
    let mut at: usize = list;
    loop
        invariant
            items@ + list_items(nodes@, at as int) == list_items(nodes@, list as int),
        decreases at,
    {
        if at == 0 || at >= nodes.len() {
            assert(items@ + Seq::<usize>::empty() =~= items@);
            return items;
        }
        match nodes[at].kind {
            NodeKind::Cons { head, tail } => {
                if tail < at {
                    let ghost before = items@;
                    items.push(head);
                    assert(items@ + list_items(nodes@, tail as int) =~= before + (seq![head]
                        + list_items(nodes@, tail as int)));
                    at = tail;
                } else {
                    assert(items@ + Seq::<usize>::empty() =~= items@);
                    return items;
                }
            },
            _ => {
                assert(items@ + Seq::<usize>::empty() =~= items@);
                return items;
            },
        }
    }
}

} // verus!
