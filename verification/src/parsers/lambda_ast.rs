//! Lambdas.

use crate::ast::{nodes_view, ASTNode};
use crate::environment::EnvVariableType;

use crate::error::{ParseError, ParseErrorKind};
use crate::parsers::grammar::{
    lambda_params_spec, outer_scopes_kept, parse_lambda_spec, pipe_params_spec,
};
use crate::parsers::{parsed_nodes_of, parsed_of, string_to_value_type, Parser};
use crate::token::TokenKind;

use vstd::prelude::*;

verus! {

impl Parser {
    /// Parses the parameters of a lambda between pipes, from the cursor to
    /// the closing pipe: names with their types, separated by commas. Each
    /// is recorded in the innermost scope, immutable.
    ///
    /// Fails with `UnterminatedConstruct` where the input ends before the
    /// closing pipe, with `ExpectedToken` where a name has no colon or no
    /// type, and with `UnexpectedToken` at any other token.
    pub fn parse_pipe_params(&mut self) -> (r: Result<Vec<ASTNode>, ParseError>)
        ensures
            parsed_nodes_of(r, *final(self)) == pipe_params_spec(old(self)@, Seq::empty()),
            final(self).depth == old(self).depth,
            outer_scopes_kept(old(self)@, final(self)@),
            final(self)@.remaining() <= old(self)@.remaining(),
    {
        let ghost goal = pipe_params_spec(self@, Seq::empty());
        let mut arguments: Vec<ASTNode> = Vec::new();
        assert(nodes_view(arguments) =~= Seq::empty());
        loop
            invariant
                pipe_params_spec(self@, nodes_view(arguments)) == goal,
                goal == pipe_params_spec(old(self)@, Seq::empty()),
                self.depth == old(self).depth,
                outer_scopes_kept(old(self)@, self@),
                self@.remaining() <= old(self)@.remaining(),
            decreases self@.remaining(),
        {
            proof {
                reveal(pipe_params_spec);
            }
            match self.current_kind() {
                TokenKind::Pipe => {
                    self.consume_token();
                    return Ok(arguments);
                },
                TokenKind::Comma => {
                    self.consume_token();
                },
                TokenKind::Identifier(argument) => {
                    self.consume_token();
                    self.expect_token(TokenKind::Colon)?;
                    match self.current_kind() {
                        TokenKind::Identifier(type_text) => {
                            let value_type = string_to_value_type(&type_text);
                            let (line, column) = self.get_line_column();
                            self.register_variables(
                                &argument,
                                &value_type,
                                &EnvVariableType::Immutable,
                            );
                            let ghost before = nodes_view(arguments);
                            let node = ASTNode::Variable {
                                name: argument,
                                value_type: Some(value_type),
                                line,
                                column,
                            };
                            let ghost node_view = node@;
                            arguments.push(node);
                            assert(nodes_view(arguments) =~= before.push(node_view));
                            self.consume_token();
                        },
                        _ => {
                            return Err(self.error_here(ParseErrorKind::ExpectedToken));
                        },
                    }
                },
                TokenKind::Eof => {
                    return Err(self.error_here(ParseErrorKind::UnterminatedConstruct));
                },
                _ => {
                    return Err(self.error_here(ParseErrorKind::UnexpectedToken));
                },
            }
        }
    }

    /// Parses the parameters of a lambda: between pipes, or one bare name
    /// with an optional type, or none.
    pub fn parse_lambda_params(&mut self) -> (r: Result<Vec<ASTNode>, ParseError>)
        ensures
            parsed_nodes_of(r, *final(self)) == lambda_params_spec(old(self)@),
            final(self).depth == old(self).depth,
            outer_scopes_kept(old(self)@, final(self)@),
            final(self)@.remaining() <= old(self)@.remaining(),
    {
        proof {
            reveal(lambda_params_spec);
        }
        match self.current_kind() {
            TokenKind::Pipe => {
                self.consume_token();
                self.parse_pipe_params()
            },
            TokenKind::Identifier(argument) => {
                self.consume_token();
                let mut arguments: Vec<ASTNode> = Vec::new();
                match self.current_kind() {
                    TokenKind::Colon => {
                        self.consume_token();
                        match self.current_kind() {
                            TokenKind::Identifier(type_text) => {
                                let value_type = string_to_value_type(&type_text);
                                let (line, column) = self.get_line_column();
                                let node = ASTNode::Variable {
                                    name: argument,
                                    value_type: Some(value_type),
                                    line,
                                    column,
                                };
                                let ghost node_view = node@;
                                arguments.push(node);
                                assert(nodes_view(arguments) =~= seq![node_view]);
                                self.consume_token();
                                Ok(arguments)
                            },
                            _ => Err(self.error_here(ParseErrorKind::ExpectedToken)),
                        }
                    },
                    _ => {
                        let (line, column) = self.get_line_column();
                        let node = ASTNode::Variable { name: argument, value_type: None, line, column };
                        let ghost node_view = node@;
                        arguments.push(node);
                        assert(nodes_view(arguments) =~= seq![node_view]);
                        Ok(arguments)
                    },
                }
            },
            _ => {
                let arguments: Vec<ASTNode> = Vec::new();
                assert(nodes_view(arguments) =~= Seq::empty());
                Ok(arguments)
            },
        }
    }

    /// Parses a lambda: `\`, the parameters, `=>`, and the body, which is a
    /// block where a brace follows and else one expression.
    ///
    /// The parameters stand between pipes, each with its type, or are one
    /// bare name with an optional type, or are absent. Those between pipes
    /// are recorded in a scope of the parser labelled `lambda`, which lasts
    /// while the lambda is parsed and is dropped on every way out. The body
    /// stands one level of nesting deeper. The node carries the position of
    /// the token after the body. However it ends, the parser's scopes are
    /// then what they were before. Fails with `ExpectedToken` where `=>` is
    /// absent, with `UnterminatedConstruct` where the closing pipe is, and
    /// with `NestingLimit` where the parser may nest no deeper.
    pub fn parse_lambda(&mut self) -> (r: Result<ASTNode, ParseError>)
        ensures
            parsed_of(r, *final(self)) == parse_lambda_spec(old(self)@, old(self).depth as nat),
            final(self).depth == old(self).depth,
            final(self)@.scopes == old(self)@.scopes,
            final(self)@.remaining() <= old(self)@.remaining(),
            r is Ok ==> final(self)@.remaining() < old(self)@.remaining(),
        decreases old(self).depth, 1nat, old(self)@.remaining(),
    {
        proof {
            reveal(parse_lambda_spec);
        }
        self.consume_token();
        self.enter_scope("lambda".to_string());
        let arguments = match self.parse_lambda_params() {
            Ok(arguments) => arguments,
            Err(e) => {
                self.leave_scope();
                return Err(e);
            },
        };
        match self.expect_token(TokenKind::RRocket) {
            Ok(_) => {},
            Err(e) => {
                self.leave_scope();
                return Err(e);
            },
        }
        let body = self.parse_nested_body();
        match body {
            Ok(statement) => {
                let (line, column) = self.get_line_column();
                self.leave_scope();
                Ok(ASTNode::Lambda { arguments, body: Box::new(statement), line, column })
            },
            Err(e) => {
                self.leave_scope();
                Err(e)
            },
        }
    }
}

} // verus!
