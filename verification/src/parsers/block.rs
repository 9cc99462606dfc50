//! Blocks.

use crate::ast::{nodes_view, ASTNode};
use crate::error::{ParseError, ParseErrorKind};
use crate::parsers::grammar::block_loop_spec;

use crate::parsers::{parsed_nodes_of, Parser};
use crate::token::TokenKind;

use vstd::prelude::*;

verus! {

impl Parser {
    /// Parses the statements of a block, from the cursor to the closing
    /// brace, and moves the cursor past it. Each statement stands one level
    /// of nesting deeper.
    ///
    /// Fails with `UnterminatedConstruct` where the input ends before the
    /// closing brace.
    pub fn parse_block_statements(&mut self) -> (r: Result<Vec<ASTNode>, ParseError>)
        ensures
            parsed_nodes_of(r, *final(self)) == block_loop_spec(
                old(self)@,
                Seq::empty(),
                old(self).depth as nat,
            ),
            final(self).depth == old(self).depth,
            final(self)@.scopes == old(self)@.scopes,
            final(self)@.remaining() <= old(self)@.remaining(),
        decreases old(self).depth, 8nat, old(self)@.remaining(),
    {
        let ghost goal = block_loop_spec(self@, Seq::empty(), self.depth as nat);
        let mut nodes: Vec<ASTNode> = Vec::new();
        assert(nodes_view(nodes) =~= Seq::empty());
        loop
            invariant
                block_loop_spec(self@, nodes_view(nodes), self.depth as nat) == goal,
                goal == block_loop_spec(old(self)@, Seq::empty(), old(self).depth as nat),
                self.depth == old(self).depth,
                self@.scopes == old(self)@.scopes,
                self@.remaining() <= old(self)@.remaining(),
            decreases self@.remaining(),
        {
            proof {
                reveal(block_loop_spec);
            }
            match self.current_kind() {
                TokenKind::RBrace => {
                    self.consume_token();
                    return Ok(nodes);
                },
                TokenKind::Eof => {
                    return Err(self.error_here(ParseErrorKind::UnterminatedConstruct));
                },
                _ => {},
            }
            match self.parse_nested_statement() {
                Ok(node) => {
                    let ghost before = nodes_view(nodes);
                    let ghost node_view = node@;
                    nodes.push(node);
                    assert(nodes_view(nodes) =~= before.push(node_view));
                },
                Err(e) => {
                    return Err(e);
                },
            }
        }
    }
}

} // verus!
