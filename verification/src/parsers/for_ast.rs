//! `for`.

use crate::ast::ASTNode;

use crate::error::{ParseError, ParseErrorKind};
use crate::parsers::grammar::parse_for_spec;

use crate::parsers::{parsed_of, Parser};
use crate::token::TokenKind;

use vstd::prelude::*;

verus! {

impl Parser {
    /// Parses a `for`: the keyword, the loop variable, `in`, the expression
    /// for the list, and the block.
    pub fn parse_for(&mut self) -> (r: Result<ASTNode, ParseError>)
        ensures
            parsed_of(r, *final(self)) == parse_for_spec(old(self)@, old(self).depth as nat),
            final(self).depth == old(self).depth,
            final(self)@.scopes == old(self)@.scopes,
            final(self)@.remaining() <= old(self)@.remaining(),
            r is Ok ==> final(self)@.remaining() < old(self)@.remaining(),
        decreases old(self).depth, 10nat, old(self)@.remaining(),
    {
        proof {
            reveal(parse_for_spec);
        }
        let (line, column) = self.get_line_column();
        self.consume_token();
        match self.current_kind() {
            TokenKind::Identifier(variable) => {
                self.consume_token();
                self.expect_token(TokenKind::In)?;
                let iterable = self.parse_expression(0)?;
                let body = self.parse_block()?;
                Ok(
                    ASTNode::For {
                        variable,
                        iterable: Box::new(iterable),
                        body: Box::new(body),
                        line,
                        column,
                    },
                )
            },
            _ => Err(self.error_here(ParseErrorKind::ExpectedToken)),
        }
    }
}

} // verus!
