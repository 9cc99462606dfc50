//! Calls in parentheses, and what follows a dot: field accesses, field
//! assignments and method calls.

use crate::ast::{node_view, nodes_view, ASTNode};
use crate::error::ParseError;

use crate::parsers::grammar::{call_node, call_step_spec, member_step_spec, Parsed, Postfix};
use crate::parsers::Parser;

use crate::token::TokenKind;

use vstd::prelude::*;

verus! {

/// What a call of `callee` with `args` stands for: a call by name where the
/// callee is a name, else a call of a lambda expression.
pub fn make_call(callee: ASTNode, args: Vec<ASTNode>, line: usize, column: usize) -> (r: ASTNode)
    ensures
        r@ == call_node(callee@, nodes_view(args), line, column),
{
    proof {
        reveal_with_fuel(node_view, 2);
    }
    match callee {
        ASTNode::Variable { name, .. } => ASTNode::FunctionCall {
            name,
            arguments: Box::new(ASTNode::FunctionCallArgs { args, line, column }),
            line,
            column,
        },
        other => ASTNode::LambdaCall { lambda: Box::new(other), arguments: args, line, column },
    }
}

/// What a postfix step, or an error, and the parser left behind stand for.
pub open spec fn parsed_step_of(r: Result<(ASTNode, bool), ParseError>, parser: Parser) -> Parsed<
    Postfix,
> {
    Parsed {
        result: match r {
            Ok(step) => Ok(Postfix { node: step.0@, more: step.1 }),
            Err(e) => Err(e),
        },
        state: parser@,
    }
}

impl Parser {
    /// Parses a call in parentheses after `left`, with the cursor on the
    /// opening parenthesis: a call by name where `left` is a name, else a
    /// call of a lambda expression.
    pub fn parse_call_step(&mut self, left: ASTNode) -> (r: Result<(ASTNode, bool), ParseError>)
        ensures
            parsed_step_of(r, *final(self)) == call_step_spec(
                old(self)@,
                left@,
                old(self).depth as nat,
            ),
            final(self).depth == old(self).depth,
            final(self)@.scopes == old(self)@.scopes,
            final(self)@.remaining() <= old(self)@.remaining(),
            old(self)@.at_token() ==> final(self)@.remaining() < old(self)@.remaining(),
        decreases old(self).depth, 2nat, old(self)@.remaining(),
    {
        proof {
            reveal(call_step_spec);
        }
        let (line, column) = self.get_line_column();
        self.consume_token();
        let args = self.parse_sequence(TokenKind::RParen)?;
        Ok((make_call(left, args, line, column), true))
    }

    /// Parses what follows a dot and a name after `left`, with the cursor
    /// after the name: the arguments of a method call, the value of a
    /// field assignment, or nothing, which makes a field access.
    pub fn parse_member_step(
        &mut self,
        left: ASTNode,
        name: String,
        builtin: bool,
        line: usize,
        column: usize,
    ) -> (r: Result<(ASTNode, bool), ParseError>)
        ensures
            parsed_step_of(r, *final(self)) == member_step_spec(
                old(self)@,
                left@,
                name@,
                builtin,
                line,
                column,
                old(self).depth as nat,
            ),
            final(self).depth == old(self).depth,
            final(self)@.scopes == old(self)@.scopes,
            final(self)@.remaining() <= old(self)@.remaining(),
        decreases old(self).depth, 2nat, old(self)@.remaining(),
    {
        proof {
            reveal(member_step_spec);
        }
        match self.current_kind() {
            TokenKind::LParen => {
                self.consume_token();
                let args = self.parse_sequence(TokenKind::RParen)?;
                Ok(
                    (
                        ASTNode::MethodCall {
                            method_name: name,
                            caller: Box::new(left),
                            arguments: args,
                            builtin,
                            line,
                            column,
                        },
                        true,
                    ),
                )
            },
            TokenKind::Equal => {
                self.consume_token();
                let value = self.parse_nested_expression(0);
                match value {
                    Ok(assigned) => Ok(
                        (
                            ASTNode::StructFieldAssign {
                                instance: Box::new(left),
                                field_name: name,
                                value: Box::new(assigned),
                                line,
                                column,
                            },
                            false,
                        ),
                    ),
                    Err(e) => Err(e),
                }
            },
            _ => Ok(
                (
                    ASTNode::StructFieldAccess {
                        instance: Box::new(left),
                        field_name: name,
                        line,
                        column,
                    },
                    true,
                ),
            ),
        }
    }
}

} // verus!
