//! `impl`.

use crate::ast::ASTNode;

use crate::error::{ParseError, ParseErrorKind};
use crate::parsers::grammar::parse_impl_spec;

use crate::parsers::{parsed_of, Parser};
use crate::token::TokenKind;

use vstd::prelude::*;

verus! {

impl Parser {
    /// Parses an `impl`: the keyword, the struct's name, and the methods in
    /// braces.
    pub fn parse_impl(&mut self) -> (r: Result<ASTNode, ParseError>)
        ensures
            parsed_of(r, *final(self)) == parse_impl_spec(old(self)@, old(self).depth as nat),
            final(self).depth == old(self).depth,
            final(self)@.scopes == old(self)@.scopes,
            final(self)@.remaining() <= old(self)@.remaining(),
            r is Ok ==> final(self)@.remaining() < old(self)@.remaining(),
        decreases old(self).depth, 13nat, old(self)@.remaining(),
    {
        proof {
            reveal(parse_impl_spec);
        }
        let (line, column) = self.get_line_column();
        self.consume_token();
        match self.current_kind() {
            TokenKind::Identifier(name) => {
                self.consume_token();
                self.expect_token(TokenKind::LBrace)?;
                let methods = self.parse_impl_methods()?;
                Ok(ASTNode::Impl { base_struct: name, methods, line, column })
            },
            _ => Err(self.error_here(ParseErrorKind::ExpectedToken)),
        }
    }
}

} // verus!
