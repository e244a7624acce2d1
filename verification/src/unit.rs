//! The pipeline from the text of a translation unit to its typed syntax
//! tree and its diagnostics.

use vstd::prelude::*;
use crate::analyze::all_below;
use crate::ast::folded;
use crate::ast::nodes_wf;
use crate::ast::Node;
use crate::error::Diagnostic;
use crate::fold::Folded;
use crate::error::ErrorHandler;
use crate::guard::FatalReport;
use crate::guard::Level;
use crate::guard::RecursionGuard;
use crate::lex::lex;
use crate::lex::lex_spec;
use crate::names::NameTable;
use crate::state::initial_state;
use crate::state::tokens_ok;
use crate::state::Fatal;
use crate::state::Parser;
use crate::state::Parts;
use crate::state::State;
use crate::target::IntRank;
use crate::target::Target;
use crate::token::Token;
use crate::types::table_wf;
use crate::types::TypeTable;

verus! {

/// What parsing gives when the depth limit was not passed: the table of
/// nodes, the table of types, the external declarations in their order,
/// and the diagnostics.
pub struct Parsed {
    pub nodes: Vec<Node>,
    pub types: TypeTable,
    pub items: Vec<usize>,
    pub handler: ErrorHandler,
}

/// A translation unit after the whole pipeline: what parsing gives, and
/// the table of names.
pub struct Unit {
    pub nodes: Vec<Node>,
    pub types: TypeTable,
    pub names: NameTable,
    pub items: Vec<usize>,
    pub handler: ErrorHandler,
}

/// The level of the root handle of a compilation.
pub open spec fn root_level(max_depth: usize) -> Level {
    Level { depth: 1, max: max_depth as nat }
}

/// What parsing some tokens gives: the last state of the parse and the
/// external declarations.
pub open spec fn parse_spec(
    tokens: Seq<Token>,
    target: Target,
    max_depth: usize,
    errors: Seq<Diagnostic>,
    warnings: Seq<Diagnostic>,
) -> (State, Seq<usize>) {
    initial_state(tokens, target, errors, warnings).unit_items(
        root_level(max_depth),
        Seq::empty(),
    )
}

/// What the pipeline gives for a text: the names, the last state of the
/// parse, and the external declarations.
pub open spec fn compile_spec(src: Seq<u8>, file: u32, target: Target, max_depth: usize) -> (
    Seq<Seq<u8>>,
    State,
    Seq<usize>,
) {
    let lexed = lex_spec(src, file, Seq::empty());
    let parsed = parse_spec(lexed.tokens, target, max_depth, lexed.diags, Seq::empty());
    (lexed.names, parsed.0, parsed.1)
}

/// Whether a report is the record of a failure.
pub open spec fn reports(report: FatalReport, fatal: Option<Fatal>) -> bool {
    fatal == Some(
        Fatal {
            depth: report.depth,
            max_depth: report.max_depth,
            errors: report.errors@,
            warnings: report.warnings@,
        },
    )
}

/// Parses the tokens of a translation unit. The diagnostics that
/// `handler` holds come first among those of the result. If the depth
/// limit was passed the result is the report of the failure, which holds
/// the diagnostics that were pending when it happened; else it is the
/// tree, in which every node lies after its parts, has a type of the
/// table of types, and carries the value that folding gives it.
pub fn parse(tokens: Vec<Token>, target: Target, max_depth: usize, handler: ErrorHandler) -> (r:
    Result<Parsed, FatalReport>)
    requires
        tokens_ok(tokens@),
        target.wf(),
        1 <= max_depth < usize::MAX,
    ensures
        ({
            let (s, items) = parse_spec(
                tokens@,
                target,
                max_depth,
                handler.errors(),
                handler.warnings(),
            );
            match r {
                Ok(p) => {
                    &&& s.fatal is None
                    &&& table_wf(p.types@)
                    &&& nodes_wf(p.nodes@, p.types@.len() as int)
                    &&& folded(p.nodes@, target.bits_of(IntRank::Int))
                    &&& all_below(p.items@, p.nodes@.len() as int)
                    &&& p.nodes@ == s.nodes
                    &&& p.types@ == s.types
                    &&& p.items@ == items
                    &&& p.handler.errors() == s.errors
                    &&& p.handler.warnings() == s.warnings
                    &&& handler.errors().is_prefix_of(p.handler.errors())
                    &&& handler.warnings().is_prefix_of(p.handler.warnings())
                },
                Err(report) => reports(report, s.fatal) && report.depth == report.max_depth + 1,
            }
        }),
{
    let mut parser: Parser = Parser::new(tokens, target, handler);
    let guard: RecursionGuard = RecursionGuard::new(max_depth);
    let items: Vec<usize> = parser.unit_items(guard);
    let parts: Parts = parser.finish();
    match parts.fatal {
        Some(report) => Err(report),
        None => Ok(Parsed { nodes: parts.nodes, types: parts.types, items, handler: parts.handler }),
    }
}

/// Runs the pipeline on the text of a translation unit: the text is
/// lexed, and the tokens are parsed, analysed and folded.
pub fn compile(src: &[u8], file: u32, target: Target, max_depth: usize) -> (r: Result<
    Unit,
    FatalReport,
>)
    requires
        target.wf(),
        1 <= max_depth < usize::MAX,
    ensures
        ({
            let (names, s, items) = compile_spec(src@, file, target, max_depth);
            match r {
                Ok(u) => {
                    &&& s.fatal is None
                    &&& table_wf(u.types@)
                    &&& nodes_wf(u.nodes@, u.types@.len() as int)
                    &&& folded(u.nodes@, target.bits_of(IntRank::Int))
                    &&& all_below(u.items@, u.nodes@.len() as int)
                    &&& u.nodes@ == s.nodes
                    &&& u.types@ == s.types
                    &&& u.names@ == names
                    &&& u.items@ == items
                    &&& u.handler.errors() == s.errors
                    &&& u.handler.warnings() == s.warnings
                },
                Err(report) => reports(report, s.fatal) && report.depth == report.max_depth + 1,
            }
        }),
{
    let mut names: NameTable = NameTable::new();
    let mut handler: ErrorHandler = ErrorHandler::new();
    let tokens: Vec<Token> = lex(src, file, &mut names, &mut handler);
    assert(handler.errors() =~= lex_spec(src@, file, Seq::empty()).diags);
    match parse(tokens, target, max_depth, handler) {
        Ok(p) => Ok(
            Unit { nodes: p.nodes, types: p.types, names, items: p.items, handler: p.handler },
        ),
        Err(report) => Err(report),
    }
}

/// What folding gave for the expression at a node of a tree: its value if
/// it is a constant expression, else that it is none.
pub open spec fn fold_of(nodes: Seq<Node>, e: int) -> Folded {
    match nodes[e].constant {
        Some(c) => Folded::Value(c),
        None => Folded::NotConstant,
    }
}

/// Folds the expression at a node of a tree. Constants are folded as the
/// tree is built, so this reads the value off the node.
pub fn fold(nodes: &Vec<Node>, e: usize) -> (r: Folded)
    requires
        e < nodes@.len(),
    ensures
        r == fold_of(nodes@, e as int),
{
    match nodes[e].constant {
        Some(c) => Folded::Value(c),
        None => Folded::NotConstant,
    }
}

/// Determinism: the pipeline is a function of the text, the file number,
/// the target and the depth limit. Two runs on the same input have the
/// same names, the same last state, tree and diagnostics with it, and the
/// same external declarations.
pub proof fn lemma_compile_is_deterministic(
    src_a: Seq<u8>,
    src_b: Seq<u8>,
    file: u32,
    target: Target,
    max_depth: usize,
)
    requires
        src_a == src_b,
    ensures
        compile_spec(src_a, file, target, max_depth) == compile_spec(
            src_b,
            file,
            target,
            max_depth,
        ),
{
}

} // verus!
