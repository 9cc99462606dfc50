//! Programs: statements to the end of the input.

use crate::ast::{nodes_view, ASTNode};
use crate::error::ParseError;

use crate::parsers::grammar::{parse_lines_spec, parse_statement_spec, ParsedProgram};
use crate::parsers::{parsed_of, Parser};
use crate::token::TokenKind;

use vstd::prelude::*;

verus! {

impl Parser {
    /// Parses one statement.
    pub fn parse(&mut self) -> (r: Result<ASTNode, ParseError>)
        ensures
            parsed_of(r, *final(self)) == parse_statement_spec(old(self)@, old(self).depth as nat),
            final(self).depth == old(self).depth,
            final(self)@.scopes == old(self)@.scopes,
    {
        self.parse_statement()
    }

    /// Parses statements to the end of the input.
    ///
    /// Gives the statements before the first that fails, and that
    /// statement's error: a malformed statement ends the parse, and what
    /// follows it is not parsed.
    pub fn parse_lines(&mut self) -> (r: (Vec<ASTNode>, Option<ParseError>))
        ensures
            (ParsedProgram { nodes: nodes_view(r.0), error: r.1, state: final(self)@ })
                == parse_lines_spec(old(self)@, Seq::empty(), old(self).depth as nat),
            final(self).depth == old(self).depth,
            final(self)@.scopes == old(self)@.scopes,
    {
        let ghost goal = parse_lines_spec(self@, Seq::empty(), self.depth as nat);
        let mut nodes: Vec<ASTNode> = Vec::new();
        assert(nodes_view(nodes) =~= Seq::empty());
        loop
            invariant
                parse_lines_spec(self@, nodes_view(nodes), self.depth as nat) == goal,
                goal == parse_lines_spec(old(self)@, Seq::empty(), old(self).depth as nat),
                self.depth == old(self).depth,
                self@.scopes == old(self)@.scopes,
            decreases self@.remaining(),
        {
            proof {
                reveal(parse_lines_spec);
            }
            if let TokenKind::Eof = self.current_kind() {
                return (nodes, None);
            }
            match self.parse_statement() {
                Ok(node) => {
                    let ghost before = nodes_view(nodes);
                    let ghost node_view = node@;
                    nodes.push(node);
                    assert(nodes_view(nodes) =~= before.push(node_view));
                },
                Err(e) => {
                    return (nodes, Some(e));
                },
            }
        }
    }
}

} // verus!
