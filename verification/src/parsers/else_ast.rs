//! What follows the block of an `if`.

use crate::ast::{ASTNode, NodeView};
use crate::error::ParseError;

use crate::parsers::grammar::{parse_else_spec, Parsed};
use crate::parsers::Parser;

use crate::token::TokenKind;

use vstd::prelude::*;

verus! {

/// What an optional parsed node, or an error, and the parser left behind
/// stand for.
pub open spec fn parsed_option_of(r: Result<Option<ASTNode>, ParseError>, parser: Parser) -> Parsed<
    Option<NodeView>,
> {
    Parsed {
        result: match r {
            Ok(Some(node)) => Ok(Some(node@)),
            Ok(None) => Ok(None),
            Err(e) => Err(e),
        },
        state: parser@,
    }
}

impl Parser {
    /// Parses what follows the block of an `if`: after `else`, another
    /// `if`, one level of nesting deeper, or a block; else nothing.
    pub fn parse_else(&mut self) -> (r: Result<Option<ASTNode>, ParseError>)
        ensures
            parsed_option_of(r, *final(self)) == parse_else_spec(old(self)@, old(self).depth as nat),
            final(self).depth == old(self).depth,
            final(self)@.scopes == old(self)@.scopes,
            final(self)@.remaining() <= old(self)@.remaining(),
        decreases old(self).depth, 10nat, old(self)@.remaining(),
    {
        proof {
            reveal(parse_else_spec);
        }
        match self.current_kind() {
            TokenKind::Else => {
                self.consume_token();
                let otherwise = match self.current_kind() {
                    TokenKind::If => self.parse_nested_statement()?,
                    _ => self.parse_block()?,
                };
                Ok(Some(otherwise))
            },
            _ => Ok(None),
        }
    }
}

} // verus!
