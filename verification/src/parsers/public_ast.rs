//! `pub`.

use crate::ast::ASTNode;

use crate::error::ParseError;

use crate::parsers::grammar::parse_public_spec;

use crate::parsers::{parsed_of, Parser};
use vstd::prelude::*;

verus! {

impl Parser {
    /// Parses `pub` and the statement after it, one level of nesting
    /// deeper, and wraps it in a `Public` node.
    pub fn parse_public(&mut self) -> (r: Result<ASTNode, ParseError>)
        ensures
            parsed_of(r, *final(self)) == parse_public_spec(old(self)@, old(self).depth as nat),
            final(self).depth == old(self).depth,
            final(self)@.scopes == old(self)@.scopes,
            final(self)@.remaining() <= old(self)@.remaining(),
            r is Ok ==> final(self)@.remaining() < old(self)@.remaining(),
        decreases old(self).depth, 13nat, old(self)@.remaining(),
    {
        proof {
            reveal(parse_public_spec);
        }
        let (line, column) = self.get_line_column();
        self.consume_token();
        let node = self.parse_nested_statement()?;
        Ok(ASTNode::Public { node: Box::new(node), line, column })
    }
}

} // verus!
