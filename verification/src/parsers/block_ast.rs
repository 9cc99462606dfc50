//! Blocks in braces.

use crate::ast::ASTNode;

use crate::error::ParseError;

use crate::parsers::grammar::parse_block_spec;

use crate::parsers::{parsed_of, Parser};
use crate::token::TokenKind;

use vstd::prelude::*;

verus! {

impl Parser {
    /// Parses a block: statements in braces. Fails with `ExpectedToken`
    /// where no opening brace stands under the cursor.
    pub fn parse_block(&mut self) -> (r: Result<ASTNode, ParseError>)
        ensures
            parsed_of(r, *final(self)) == parse_block_spec(old(self)@, old(self).depth as nat),
            final(self).depth == old(self).depth,
            final(self)@.scopes == old(self)@.scopes,
            final(self)@.remaining() <= old(self)@.remaining(),
            r is Ok ==> final(self)@.remaining() < old(self)@.remaining(),
        decreases old(self).depth, 9nat, old(self)@.remaining(),
    {
        proof {
            reveal(parse_block_spec);
        }
        let (line, column) = self.get_line_column();
        self.expect_token(TokenKind::LBrace)?;
        let nodes = self.parse_block_statements()?;
        Ok(ASTNode::Block { nodes, line, column })
    }
}

} // verus!
