//! `continue`.

use crate::ast::ASTNode;

use crate::error::ParseError;

use crate::parsers::grammar::parse_continue_spec;

use crate::parsers::{parsed_of, Parser};
use vstd::prelude::*;

verus! {

impl Parser {
    /// Parses `continue`: moves the cursor past its token. The node carries
    /// the position of the token after it.
    pub fn parse_continue(&mut self) -> (r: Result<ASTNode, ParseError>)
        ensures
            parsed_of(r, *final(self)) == parse_continue_spec(old(self)@),
            final(self).depth == old(self).depth,
            final(self)@.scopes == old(self)@.scopes,
    {
        self.consume_token();
        let (line, column) = self.get_line_column();
        Ok(ASTNode::Continue { line, column })
    }
}

} // verus!
