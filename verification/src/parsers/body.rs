//! Bodies of lambdas and functions.

use crate::ast::ASTNode;

use crate::error::ParseError;

use crate::parsers::grammar::parse_body_spec;

use crate::parsers::{parsed_of, Parser};
use crate::token::TokenKind;

use vstd::prelude::*;

verus! {

impl Parser {
    /// Parses the body of a lambda or a function: a block where a brace
    /// stands under the cursor, else one expression.
    pub fn parse_body(&mut self) -> (r: Result<ASTNode, ParseError>)
        ensures
            parsed_of(r, *final(self)) == parse_body_spec(old(self)@, old(self).depth as nat),
            final(self).depth == old(self).depth,
            final(self)@.scopes == old(self)@.scopes,
            final(self)@.remaining() <= old(self)@.remaining(),
            r is Ok ==> final(self)@.remaining() < old(self)@.remaining(),
        decreases old(self).depth, 10nat, old(self)@.remaining(),
    {
        proof {
            reveal(parse_body_spec);
        }
        match self.current_kind() {
            TokenKind::LBrace => self.parse_block(),
            _ => self.parse_expression(0),
        }
    }
}

} // verus!
