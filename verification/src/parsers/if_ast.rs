//! `if`.

use crate::ast::ASTNode;

use crate::error::ParseError;

use crate::parsers::grammar::parse_if_spec;

use crate::parsers::{parsed_of, Parser};
use crate::value::ValueType;

use vstd::prelude::*;

verus! {

impl Parser {
    /// Parses an `if`: the keyword, the condition, the block, and after
    /// `else` another `if` or a block.
    pub fn parse_if(&mut self) -> (r: Result<ASTNode, ParseError>)
        ensures
            parsed_of(r, *final(self)) == parse_if_spec(old(self)@, old(self).depth as nat),
            final(self).depth == old(self).depth,
            final(self)@.scopes == old(self)@.scopes,
            final(self)@.remaining() <= old(self)@.remaining(),
            r is Ok ==> final(self)@.remaining() < old(self)@.remaining(),
        decreases old(self).depth, 11nat, old(self)@.remaining(),
    {
        proof {
            reveal(parse_if_spec);
        }
        let (line, column) = self.get_line_column();
        self.consume_token();
        let condition = self.parse_expression(0)?;
        let then = self.parse_block()?;
        let else_ = match self.parse_else()? {
            Some(node) => Some(Box::new(node)),
            None => None,
        };
        Ok(
            ASTNode::If {
                condition: Box::new(condition),
                then: Box::new(then),
                else_,
                value_type: ValueType::Void,
                line,
                column,
            },
        )
    }
}

} // verus!
