//! `return`, and return types.

use crate::ast::ASTNode;

use crate::error::ParseError;

use crate::parsers::grammar::{
    inner_type_spec, one_parameter_spec, parse_return_spec, parse_return_type_spec,
    two_parameters_spec,
};
use crate::parsers::{parsed_of, string_to_value_type, Parser};
use crate::token::TokenKind;

use crate::value::{ValueType, ValueTypeView};
use vstd::prelude::*;

verus! {

/// The model of an optional type.
pub open spec fn option_type_view(t: Option<ValueType>) -> Option<ValueTypeView> {
    match t {
        Some(t) => Some(t@),
        None => None,
    }
}

impl Parser {
    /// Parses `return` and the expression after it. The node carries the
    /// position of the token after the expression.
    pub fn parse_return(&mut self) -> (r: Result<ASTNode, ParseError>)
        ensures
            parsed_of(r, *final(self)) == parse_return_spec(old(self)@, old(self).depth as nat),
            final(self).depth == old(self).depth,
            final(self)@.scopes == old(self)@.scopes,
            final(self)@.remaining() <= old(self)@.remaining(),
            r is Ok ==> final(self)@.remaining() < old(self)@.remaining(),
        decreases old(self).depth, 10nat, old(self)@.remaining(),
    {
        proof {
            reveal(parse_return_spec);
        }
        self.consume_token();
        let value = self.parse_expression(0)?;
        let (line, column) = self.get_line_column();
        Ok(ASTNode::Return { expr: Box::new(value), line, column })
    }

    /// The type name under the cursor inside the angle brackets of a
    /// parametrised type, past which the cursor moves; nothing, and the
    /// cursor stays, where no name stands there.
    pub fn parse_inner_type(&mut self) -> (r: Option<ValueType>)
        ensures
            (option_type_view(r), final(self)@) == inner_type_spec(old(self)@),
            final(self).depth == old(self).depth,
            final(self)@.scopes == old(self)@.scopes,
            final(self)@.remaining() <= old(self)@.remaining(),
    {
        match self.current_kind() {
            TokenKind::Identifier(type_text) => {
                self.consume_token();
                Some(string_to_value_type(&type_text))
            },
            _ => None,
        }
    }

    /// Parses what follows the keyword of a type with one parameter: `<`, a
    /// type name, `>`. Each is passed over where it stands there; the type
    /// is given only where all three do.
    pub fn parse_one_parameter(&mut self) -> (r: Option<ValueType>)
        ensures
            (option_type_view(r), final(self)@) == one_parameter_spec(old(self)@),
            final(self).depth == old(self).depth,
            final(self)@.scopes == old(self)@.scopes,
            final(self)@.remaining() <= old(self)@.remaining(),
    {
        let opened = self.extract_token(TokenKind::Lt);
        let inner = self.parse_inner_type();
        let closed = self.extract_token(TokenKind::Gt);
        if opened && closed {
            inner
        } else {
            None
        }
    }

    /// Parses what follows the keyword of a type with two parameters: `<`,
    /// a type name, a comma, a type name, `>`. Each is passed over where it
    /// stands there; the types are given only where all five do.
    pub fn parse_two_parameters(&mut self) -> (r: Option<(ValueType, ValueType)>)
        ensures
            (
                match r {
                    Some((a, b)) => Some((a@, b@)),
                    None => None,
                },
                final(self)@,
            ) == two_parameters_spec(old(self)@),
            final(self).depth == old(self).depth,
            final(self)@.scopes == old(self)@.scopes,
            final(self)@.remaining() <= old(self)@.remaining(),
    {
        let opened = self.extract_token(TokenKind::Lt);
        let first = self.parse_inner_type();
        let separated = self.extract_token(TokenKind::Comma);
        let second = self.parse_inner_type();
        let closed = self.extract_token(TokenKind::Gt);
        if opened && separated && closed {
            match (first, second) {
                (Some(a), Some(b)) => Some((a, b)),
                _ => None,
            }
        } else {
            None
        }
    }

    /// Parses a return type.
    ///
    /// Without a colon under the cursor there is none, which means `Void`,
    /// and the cursor stays. After the colon stands `void`, a type name,
    /// `Option<T>`, `Result<T, E>` or `List<T>`. The grammar is permissive
    /// and never fails: a parametrised type that lacks a bracket, a type
    /// name or its comma means `Void`, and so does anything else after the
    /// colon. The cursor never moves back, and never past the end of the
    /// input.
    pub fn parse_return_type(&mut self) -> (r: ValueType)
        ensures
            (r@, final(self)@) == parse_return_type_spec(old(self)@),
            final(self).depth == old(self).depth,
            final(self)@.scopes == old(self)@.scopes,
            final(self)@.remaining() <= old(self)@.remaining(),
            old(self).pos <= old(self).tokens.len() ==> old(self).pos <= final(self).pos
                <= final(self).tokens.len(),
    {
        proof {
            reveal(parse_return_type_spec);
        }
        match self.current_kind() {
            TokenKind::Colon => {
                self.consume_token();
                match self.current_kind() {
                    TokenKind::Identifier(type_text) => {
                        self.consume_token();
                        string_to_value_type(&type_text)
                    },
                    TokenKind::Void => {
                        self.consume_token();
                        ValueType::Void
                    },
                    TokenKind::Option => {
                        self.consume_token();
                        match self.parse_one_parameter() {
                            Some(some) => ValueType::OptionType(Box::new(some)),
                            None => ValueType::Void,
                        }
                    },
                    TokenKind::Result => {
                        self.consume_token();
                        match self.parse_two_parameters() {
                            Some((success, failure)) => ValueType::ResultType {
                                success: Box::new(success),
                                failure: Box::new(failure),
                            },
                            None => ValueType::Void,
                        }
                    },
                    TokenKind::List => {
                        self.consume_token();
                        match self.parse_one_parameter() {
                            Some(element) => ValueType::List(Box::new(element)),
                            None => ValueType::Void,
                        }
                    },
                    _ => ValueType::Void,
                }
            },
            _ => ValueType::Void,
        }
    }
}

} // verus!
