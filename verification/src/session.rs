//! From source text to values: tokenizing, parsing and evaluating in one
//! environment.

use crate::ast::{clone_node, clone_nodes, nodes_view, ASTNode, NodeView};
use crate::environment::{Env, EnvView};
use crate::error::{ParseError, RuntimeError};
use crate::evals::{eval, evals, evals_spec};
use crate::parsers::grammar::{parse_lines_spec, parse_statement_spec, ParserView};
use crate::parsers::{DEFAULT_NESTING_LIMIT, Parser};
use crate::semantics::eval_spec;

use crate::token::{tokens_view, Token, TokenView};
use crate::tokenizer::{tokenize, tokenize_spec};
use crate::value::{values_view, Value, ValueView};
use vstd::prelude::*;

verus! {

/// Why a run of source text ended early.
#[derive(Clone, Copy, Debug, PartialEq, Eq)]
pub enum RunError {
    /// The text could not be tokenized.
    Lex(ParseError),
    /// The tokens could not be parsed.
    Parse(ParseError),
    /// A statement could not be evaluated.
    Runtime(RuntimeError),
}

/// What a run of a program leaves to show: the tokens of the text, the
/// statements that were parsed, the values of the statements that were
/// evaluated, and why the run ended early, if it did.
#[derive(Debug, PartialEq)]
pub struct ProgramRun {
    pub tokens: Vec<Token>,
    pub nodes: Vec<ASTNode>,
    pub values: Vec<Value>,
    pub error: Option<RunError>,
}

/// What a run of one line leaves to show: the tokens of the line, the
/// statement that was parsed, if one was, and its value or why there is
/// none.
#[derive(Debug, PartialEq)]
pub struct LineRun {
    pub tokens: Vec<Token>,
    pub node: Option<ASTNode>,
    pub result: Result<Value, RunError>,
}

/// The model of a run of a program, with the environment left behind.
pub struct RunOutcome {
    pub tokens: Seq<TokenView>,
    pub nodes: Seq<NodeView>,
    pub values: Seq<ValueView>,
    pub error: Option<RunError>,
    pub env: EnvView,
}

/// The model of a run of one line, with the environment left behind.
pub struct LineOutcome {
    pub tokens: Seq<TokenView>,
    pub node: Option<NodeView>,
    pub result: Result<ValueView, RunError>,
    pub env: EnvView,
}

/// The run of a program. Text that cannot be tokenized has no tokens and
/// is neither parsed nor evaluated. Tokens that cannot all be parsed give
/// the statements before the failure, and nothing is evaluated. Else the
/// statements are evaluated in order, up to the first that fails.
pub open spec fn run_program_spec(text: Seq<char>, env: EnvView) -> RunOutcome {
    match tokenize_spec(text, 0, (1, 1), Seq::empty()) {
        Err(e) => RunOutcome {
            tokens: Seq::empty(),
            nodes: Seq::empty(),
            values: Seq::empty(),
            error: Some(RunError::Lex(e)),
            env,
        },
        Ok(tokens) => {
            let parsed = parse_lines_spec(
                ParserView::start(tokens),
                Seq::empty(),
                DEFAULT_NESTING_LIMIT as nat,
            );
            match parsed.error {
                Some(e) => RunOutcome {
                    tokens,
                    nodes: parsed.nodes,
                    values: Seq::empty(),
                    error: Some(RunError::Parse(e)),
                    env,
                },
                None => {
                    let evaluated = evals_spec(parsed.nodes, 0, Seq::empty(), env);
                    RunOutcome {
                        tokens,
                        nodes: parsed.nodes,
                        values: evaluated.values,
                        error: match evaluated.error {
                            Some(e) => Some(RunError::Runtime(e)),
                            None => None,
                        },
                        env: evaluated.env,
                    }
                },
            }
        },
    }
}

/// The run of one line: the first statement of the text is parsed and
/// evaluated.
pub open spec fn run_line_spec(text: Seq<char>, env: EnvView) -> LineOutcome {
    match tokenize_spec(text, 0, (1, 1), Seq::empty()) {
        Err(e) => LineOutcome {
            tokens: Seq::empty(),
            node: None,
            result: Err(RunError::Lex(e)),
            env,
        },
        Ok(tokens) => {
            let parsed = parse_statement_spec(
                ParserView::start(tokens),
                DEFAULT_NESTING_LIMIT as nat,
            );
            match parsed.result {
                Err(e) => LineOutcome { tokens, node: None, result: Err(RunError::Parse(e)), env },
                Ok(node) => {
                    let evaluated = eval_spec(node, env, env.call_depth_limit as nat);
                    LineOutcome {
                        tokens,
                        node: Some(node),
                        result: match evaluated.result {
                            Ok(v) => Ok(v),
                            Err(e) => Err(RunError::Runtime(e)),
                        },
                        env: evaluated.env,
                    }
                },
            }
        },
    }
}

/// A copy of a sequence of tokens.
pub fn clone_tokens(tokens: &Vec<Token>) -> (r: Vec<Token>)
    ensures
        tokens_view(r@) == tokens_view(tokens@),
{
    let mut out: Vec<Token> = Vec::new();
    let mut i: usize = 0;
    while i < tokens.len()
        invariant
            i <= tokens.len(),
            out.len() == i,
            forall|j: int| 0 <= j < i ==> out[j] == tokens[j],
        decreases tokens.len() - i,
    {
        out.push(tokens[i].clone());
        i += 1;
    }
    assert(tokens_view(out@) =~= tokens_view(tokens@));
    out
}

/// Runs a program: tokenizes and parses the whole text, then evaluates its
/// statements in order in `env`.
///
/// Gives the tokens, the statements that were parsed, the values of the
/// statements up to the first that fails, and why the run ended early, if
/// it did. Text that cannot be tokenized or parsed to its end is not
/// evaluated at all.
pub fn run_program(text: &str, env: &mut Env) -> (r: ProgramRun)
    ensures
        (RunOutcome {
            tokens: tokens_view(r.tokens@),
            nodes: nodes_view(r.nodes),
            values: values_view(r.values),
            error: r.error,
            env: final(env)@,
        }) == run_program_spec(text@, old(env)@),
{
    let none: Vec<Value> = Vec::new();
    assert(values_view(none) =~= Seq::empty());
    let tokens = match tokenize(text) {
        Ok(tokens) => tokens,
        Err(e) => {
            let nodes: Vec<ASTNode> = Vec::new();
            let tokens: Vec<Token> = Vec::new();
            assert(nodes_view(nodes) =~= Seq::empty());
            assert(tokens_view(tokens@) =~= Seq::empty());
            return ProgramRun { tokens, nodes, values: none, error: Some(RunError::Lex(e)) };
        },
    };
    let mut parser = Parser::new(clone_tokens(&tokens));
    let (nodes, error) = parser.parse_lines();
    match error {
        Some(e) => ProgramRun { tokens, nodes, values: none, error: Some(RunError::Parse(e)) },
        None => {
            let (values, failure) = evals(clone_nodes(&nodes), env);
            let error = match failure {
                Some(e) => Some(RunError::Runtime(e)),
                None => None,
            };
            ProgramRun { tokens, nodes, values, error }
        },
    }
}

/// Runs one line: tokenizes the text, parses its first statement and
/// evaluates it in `env`. Gives the tokens, the statement, and its value
/// or why there is none.
pub fn run_line(text: &str, env: &mut Env) -> (r: LineRun)
    ensures
        (LineOutcome {
            tokens: tokens_view(r.tokens@),
            node: match r.node {
                Some(node) => Some(node@),
                None => None,
            },
            result: match r.result {
                Ok(v) => Ok(v@),
                Err(e) => Err(e),
            },
            env: final(env)@,
        }) == run_line_spec(text@, old(env)@),
{
    let tokens = match tokenize(text) {
        Ok(tokens) => tokens,
        Err(e) => {
            let tokens: Vec<Token> = Vec::new();
            assert(tokens_view(tokens@) =~= Seq::empty());
            return LineRun { tokens, node: None, result: Err(RunError::Lex(e)) };
        },
    };
    let mut parser = Parser::new(clone_tokens(&tokens));
    match parser.parse() {
        Err(e) => LineRun { tokens, node: None, result: Err(RunError::Parse(e)) },
        Ok(node) => {
            let result = match eval(clone_node(&node), env) {
                Ok(v) => Ok(v),
                Err(e) => Err(RunError::Runtime(e)),
            };
            LineRun { tokens, node: Some(node), result }
        },
    }
}

} // verus!
