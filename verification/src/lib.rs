//! A small scripting language: a tokenizer, a parser by operator precedence,
//! a scope-stack environment and a tree-walking evaluator.
//!
//! Every operation is stated as a contract over mathematical models and
//! proved. The grammar is the function [`parsers::grammar::parse_statement_spec`],
//! the meaning of a program is the function [`semantics::eval_spec`], and
//! the parser and the evaluator are proved to compute them. What holds of
//! the language as a whole stands in [`laws`].
//!
//! Numbers are exact rationals; their arithmetic is done by the `fraction`
//! crate behind the contracts of [`number`].

pub mod number;
pub mod search;
pub mod token;
pub mod error;
pub mod value;
pub mod ast;
pub mod environment;
pub mod scopes;
pub mod tables;
pub mod semantics;
pub mod evals;
pub mod tokenizer;
pub mod parsers;
pub mod session;
pub mod shape;
pub mod shape_eval;
pub mod unique;
pub mod unique_eval;
pub mod laws;
