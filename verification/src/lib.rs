//! The front end of a C compiler: the text of a translation unit is lexed,
//! parsed, analysed and folded in one pass, and comes out as a typed syntax
//! tree with the diagnostics that were recorded on the way.
//!
//! `unit::compile` runs the whole pipeline. The components can be used on
//! their own: `lex` turns text into tokens, `state::Parser` with `expr`,
//! `decl`, `tagged` and `stmt` parses them, `analyze` and `rules` type the
//! expressions, `fold` evaluates constants, `scope` and `types` hold the
//! symbols and the types, `guard` bounds the recursion, and `error` keeps
//! the diagnostics.

pub mod analyze;
pub mod ast;
pub mod decl;
pub mod error;
pub mod expr;
pub mod fold;
pub mod guard;
pub mod lex;
pub mod literal;
pub mod names;
pub mod rules;
pub mod scope;
pub mod state;
pub mod stmt;
pub mod tagged;
pub mod target;
pub mod text;
pub mod token;
pub mod typename;
pub mod types;
pub mod unit;
