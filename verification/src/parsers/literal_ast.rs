//! Literals.

use crate::ast::ASTNode;

use crate::error::ParseError;

use crate::parsers::grammar::parse_literal_spec;

use crate::parsers::{parsed_of, Parser};
use crate::value::Value;

use vstd::prelude::*;

verus! {

impl Parser {
    /// Parses a literal whose value the caller has read from the token
    /// under the cursor: moves the cursor past that token. The node carries
    /// the position of the token after it.
    pub fn parse_literal(&mut self, value: Value) -> (r: Result<ASTNode, ParseError>)
        ensures
            parsed_of(r, *final(self)) == parse_literal_spec(old(self)@, value@),
            final(self).depth == old(self).depth,
            final(self)@.scopes == old(self)@.scopes,
    {
        self.consume_token();
        let (line, column) = self.get_line_column();
        Ok(ASTNode::Literal { value, line, column })
    }
}

} // verus!
