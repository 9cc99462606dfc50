//! Primary forms.

use crate::ast::ASTNode;

use crate::error::{ParseError, ParseErrorKind};
use crate::parsers::grammar::parse_primary_spec;

use crate::parsers::{parsed_of, Parser};
use crate::token::TokenKind;

use crate::value::Value;

use vstd::prelude::*;

verus! {

impl Parser {
    /// Parses a primary form: a literal, `self`, a name, a parenthesised
    /// sequence, a list of literals in brackets, or a lambda. Fails with
    /// `UnexpectedToken` at any other token.
    pub fn parse_primary(&mut self) -> (r: Result<ASTNode, ParseError>)
        ensures
            parsed_of(r, *final(self)) == parse_primary_spec(old(self)@, old(self).depth as nat),
            final(self).depth == old(self).depth,
            final(self)@.scopes == old(self)@.scopes,
            final(self)@.remaining() <= old(self)@.remaining(),
            r is Ok ==> final(self)@.remaining() < old(self)@.remaining(),
        decreases old(self).depth, 3nat, old(self)@.remaining(),
    {
        proof {
            reveal(parse_primary_spec);
        }
        match self.current_kind() {
            TokenKind::Number(n) => self.parse_literal(Value::Number(n)),
            TokenKind::String(text) => self.parse_literal(Value::String(text)),
            TokenKind::True => self.parse_literal(Value::Bool(true)),
            TokenKind::False => self.parse_literal(Value::Bool(false)),
            TokenKind::Void => self.parse_literal(Value::Void),
            TokenKind::SelfValue => {
                let (line, column) = self.get_line_column();
                self.consume_token();
                Ok(ASTNode::Variable { name: "self".to_string(), value_type: None, line, column })
            },
            TokenKind::Identifier(name) => self.parse_name(name),
            TokenKind::LParen => self.parse_group(),
            TokenKind::LBrancket => self.parse_list(),
            TokenKind::BackSlash => self.parse_lambda(),
            _ => Err(self.error_here(ParseErrorKind::UnexpectedToken)),
        }
    }
}

} // verus!
