//! Function declarations.

use crate::ast::{nodes_view, ASTNode};
use crate::environment::EnvVariableType;

use crate::error::{ParseError, ParseErrorKind};
use crate::parsers::grammar::{function_params_spec, outer_scopes_kept, parse_function_spec};
use crate::parsers::{parsed_nodes_of, parsed_of, string_to_value_type, Parser};
use crate::token::TokenKind;

use vstd::prelude::*;

verus! {

impl Parser {
    /// Parses the parameters of a function, from the cursor to the closing
    /// parenthesis, and moves the cursor past it: names with optional
    /// types, separated by commas. Those with a type are recorded in the
    /// innermost scope, immutable.
    pub fn parse_function_params(&mut self) -> (r: Result<Vec<ASTNode>, ParseError>)
        ensures
            parsed_nodes_of(r, *final(self)) == function_params_spec(old(self)@, Seq::empty()),
            final(self).depth == old(self).depth,
            outer_scopes_kept(old(self)@, final(self)@),
            final(self)@.remaining() <= old(self)@.remaining(),
    {
        let ghost goal = function_params_spec(self@, Seq::empty());
        let mut arguments: Vec<ASTNode> = Vec::new();
        assert(nodes_view(arguments) =~= Seq::empty());
        loop
            invariant
                function_params_spec(self@, nodes_view(arguments)) == goal,
                goal == function_params_spec(old(self)@, Seq::empty()),
                self.depth == old(self).depth,
                outer_scopes_kept(old(self)@, self@),
                self@.remaining() <= old(self)@.remaining(),
            decreases self@.remaining(),
        {
            proof {
                reveal(function_params_spec);
            }
            let (line, column) = self.get_line_column();
            match self.current_kind() {
                TokenKind::RParen => {
                    self.consume_token();
                    return Ok(arguments);
                },
                TokenKind::Comma => {
                    self.consume_token();
                },
                TokenKind::Identifier(argument) => {
                    self.consume_token();
                    let ghost before = nodes_view(arguments);
                    match self.current_kind() {
                        TokenKind::Colon => {
                            self.consume_token();
                            match self.current_kind() {
                                TokenKind::Identifier(type_text) => {
                                    let value_type = string_to_value_type(&type_text);
                                    self.register_variables(
                                        &argument,
                                        &value_type,
                                        &EnvVariableType::Immutable,
                                    );
                                    let node = ASTNode::Variable {
                                        name: argument,
                                        value_type: Some(value_type),
                                        line,
                                        column,
                                    };
                                    let ghost node_view = node@;
                                    arguments.push(node);
                                    assert(nodes_view(arguments) =~= before.push(node_view));
                                    self.consume_token();
                                },
                                _ => {
                                    return Err(self.error_here(ParseErrorKind::ExpectedToken));
                                },
                            }
                        },
                        _ => {
                            let node = ASTNode::Variable {
                                name: argument,
                                value_type: None,
                                line,
                                column,
                            };
                            let ghost node_view = node@;
                            arguments.push(node);
                            assert(nodes_view(arguments) =~= before.push(node_view));
                        },
                    }
                },
                TokenKind::Eof => {
                    return Err(self.error_here(ParseErrorKind::UnterminatedConstruct));
                },
                _ => {
                    return Err(self.error_here(ParseErrorKind::UnexpectedToken));
                },
            }
        }
    }

    /// Parses a function declaration: the keyword, the name, the parameters
    /// in parentheses, an optional return type, and the body, which is a
    /// block where a brace follows and else one expression.
    ///
    /// The typed parameters are recorded in a scope of the parser labelled
    /// with the function's name, which lasts while the function is parsed
    /// and is dropped on every way out, so that the parser's scopes are then
    /// what they were before.
    pub fn parse_function(&mut self) -> (r: Result<ASTNode, ParseError>)
        ensures
            parsed_of(r, *final(self)) == parse_function_spec(old(self)@, old(self).depth as nat),
            final(self).depth == old(self).depth,
            final(self)@.scopes == old(self)@.scopes,
            final(self)@.remaining() <= old(self)@.remaining(),
            r is Ok ==> final(self)@.remaining() < old(self)@.remaining(),
        decreases old(self).depth, 11nat, old(self)@.remaining(),
    {
        proof {
            reveal(parse_function_spec);
        }
        let (line, column) = self.get_line_column();
        self.consume_token();
        match self.current_kind() {
            TokenKind::Identifier(name) => {
                self.consume_token();
                self.expect_token(TokenKind::LParen)?;
                self.enter_scope(name.clone());
                let arguments = match self.parse_function_params() {
                    Ok(arguments) => arguments,
                    Err(e) => {
                        self.leave_scope();
                        return Err(e);
                    },
                };
                let return_type = self.parse_return_type();
                match self.parse_body() {
                    Ok(statement) => {
                        self.leave_scope();
                        Ok(
                            ASTNode::Function {
                                name,
                                arguments,
                                body: Box::new(statement),
                                return_type,
                                line,
                                column,
                            },
                        )
                    },
                    Err(e) => {
                        self.leave_scope();
                        Err(e)
                    },
                }
            },
            _ => Err(self.error_here(ParseErrorKind::ExpectedToken)),
        }
    }
}

} // verus!
