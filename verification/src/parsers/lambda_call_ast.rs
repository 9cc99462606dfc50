//! Calls of a lambda written after an arrow.

use crate::ast::{nodes_view, ASTNode};
use crate::error::ParseError;

use crate::parsers::grammar::{is_lambda_call_spec, lambda_call_arguments, parse_lambda_call_spec};
use crate::parsers::{parsed_of, Parser};
use crate::token::TokenKind;

use vstd::prelude::*;

verus! {

impl Parser {
    /// The arguments that a lambda is called with where `left` stands
    /// before the arrow: the arguments of a parenthesised sequence, else
    /// `left` alone.
    pub fn arguments_of(left: ASTNode) -> (r: Vec<ASTNode>)
        ensures
            nodes_view(r) == lambda_call_arguments(left@),
    {
        match left {
            ASTNode::FunctionCallArgs { args, .. } => args,
            other => {
                let ghost other_view = other@;
                let mut arguments: Vec<ASTNode> = Vec::new();
                arguments.push(other);
                assert(nodes_view(arguments) =~= seq![other_view]);
                arguments
            },
        }
    }

    /// Parses a call of a lambda written after an arrow: moves the cursor
    /// past the arrow and parses the lambda. What stood before the arrow is
    /// what the lambda is called with: the arguments of a parenthesised
    /// sequence, else `left` alone. The node carries the position of the
    /// token after the lambda.
    pub fn parse_lambda_call(&mut self, left: ASTNode) -> (r: Result<ASTNode, ParseError>)
        ensures
            parsed_of(r, *final(self)) == parse_lambda_call_spec(
                old(self)@,
                left@,
                old(self).depth as nat,
            ),
            final(self).depth == old(self).depth,
            final(self)@.scopes == old(self)@.scopes,
            final(self)@.remaining() <= old(self)@.remaining(),
            r is Ok ==> final(self)@.remaining() < old(self)@.remaining(),
        decreases old(self).depth, 2nat, old(self)@.remaining(),
    {
        proof {
            reveal(parse_lambda_call_spec);
        }
        self.consume_token();
        let lambda = self.parse_lambda()?;
        let arguments = Parser::arguments_of(left);
        let (line, column) = self.get_line_column();
        Ok(ASTNode::LambdaCall { lambda: Box::new(lambda), arguments, line, column })
    }

    /// Whether the token after the one under the cursor introduces a
    /// lambda. The cursor stays.
    pub fn is_lambda_call(&mut self) -> (r: bool)
        ensures
            r == is_lambda_call_spec(old(self)@),
            *final(self) == *old(self),
    {
        match self.peek_kind() {
            TokenKind::BackSlash => true,
            _ => false,
        }
    }
}

} // verus!
