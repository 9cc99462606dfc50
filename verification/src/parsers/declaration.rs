//! Declarations of variables.

use crate::ast::ASTNode;

use crate::environment::EnvVariableType;

use crate::error::{ParseError, ParseErrorKind};
use crate::parsers::grammar::{annotation_spec, parse_declaration_spec, Parsed};
use crate::parsers::{parsed_of, string_to_value_type, Parser};
use crate::token::TokenKind;

use crate::value::{ValueType, ValueTypeView};
use vstd::prelude::*;

verus! {

/// What a parsed type, or an error, and the parser left behind stand for.
pub open spec fn parsed_type_of(r: Result<ValueType, ParseError>, parser: Parser) -> Parsed<
    ValueTypeView,
> {
    Parsed {
        result: match r {
            Ok(t) => Ok(t@),
            Err(e) => Err(e),
        },
        state: parser@,
    }
}

impl Parser {
    /// Parses the type of a declaration: the type name after a colon, where
    /// a colon stands under the cursor, else `Any`. Fails with
    /// `ExpectedToken` where no type name follows the colon.
    pub fn parse_annotation(&mut self) -> (r: Result<ValueType, ParseError>)
        ensures
            parsed_type_of(r, *final(self)) == annotation_spec(old(self)@),
            final(self).depth == old(self).depth,
            final(self)@.scopes == old(self)@.scopes,
            final(self)@.remaining() <= old(self)@.remaining(),
    {
        match self.current_kind() {
            TokenKind::Colon => {
                self.consume_token();
                match self.current_kind() {
                    TokenKind::Identifier(type_text) => {
                        self.consume_token();
                        Ok(string_to_value_type(&type_text))
                    },
                    _ => Err(self.error_here(ParseErrorKind::ExpectedToken)),
                }
            },
            _ => Ok(ValueType::Any),
        }
    }

    /// Parses a declaration: the mutability keyword, the name, an optional
    /// type after a colon, `=`, and the expression. The node declares: its
    /// `is_new` is true.
    pub fn parse_declaration(&mut self) -> (r: Result<ASTNode, ParseError>)
        ensures
            parsed_of(r, *final(self)) == parse_declaration_spec(
                old(self)@,
                old(self).depth as nat,
            ),
            final(self).depth == old(self).depth,
            final(self)@.scopes == old(self)@.scopes,
            final(self)@.remaining() <= old(self)@.remaining(),
            r is Ok ==> final(self)@.remaining() < old(self)@.remaining(),
        decreases old(self).depth, 10nat, old(self)@.remaining(),
    {
        proof {
            reveal(parse_declaration_spec);
        }
        let (line, column) = self.get_line_column();
        let variable_type = match self.current_kind() {
            TokenKind::Mutable => EnvVariableType::Mutable,
            _ => EnvVariableType::Immutable,
        };
        self.consume_token();
        match self.current_kind() {
            TokenKind::Identifier(name) => {
                self.consume_token();
                let value_type = self.parse_annotation()?;
                self.expect_token(TokenKind::Equal)?;
                let value = self.parse_expression(0)?;
                Ok(
                    ASTNode::Assign {
                        name,
                        value: Box::new(value),
                        variable_type,
                        value_type,
                        is_new: true,
                        line,
                        column,
                    },
                )
            },
            _ => Err(self.error_here(ParseErrorKind::ExpectedToken)),
        }
    }
}

} // verus!
