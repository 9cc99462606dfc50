//! Prefix forms.

use crate::ast::ASTNode;

use crate::error::ParseError;

use crate::parsers::grammar::{parse_prefix_spec, PREFIX_POWER};
use crate::parsers::{parsed_of, Parser};
use crate::token::TokenKind;

use vstd::prelude::*;

verus! {

impl Parser {
    /// Parses a prefix form: `-` before an expression that binds as tightly
    /// as a prefix operator, or a primary form with the postfix forms after
    /// it.
    pub fn parse_prefix_form(&mut self) -> (r: Result<ASTNode, ParseError>)
        ensures
            parsed_of(r, *final(self)) == parse_prefix_spec(old(self)@, old(self).depth as nat),
            final(self).depth == old(self).depth,
            final(self)@.scopes == old(self)@.scopes,
            final(self)@.remaining() <= old(self)@.remaining(),
            r is Ok ==> final(self)@.remaining() < old(self)@.remaining(),
        decreases old(self).depth, 5nat, old(self)@.remaining(),
    {
        proof {
            reveal(parse_prefix_spec);
        }
        match self.current_kind() {
            TokenKind::Minus => {
                let (line, column) = self.get_line_column();
                self.consume_token();
                let operand = self.parse_nested_expression(PREFIX_POWER);
                match operand {
                    Ok(expr) => Ok(
                        ASTNode::PrefixOp {
                            op: TokenKind::Minus,
                            expr: Box::new(expr),
                            line,
                            column,
                        },
                    ),
                    Err(e) => Err(e),
                }
            },
            _ => {
                let primary = self.parse_primary()?;
                self.parse_postfix_forms(primary)
            },
        }
    }
}

} // verus!
