//! Expressions: infix operators by binding powers.

use crate::ast::ASTNode;

use crate::error::ParseError;

use crate::parsers::grammar::{infix_loop_spec, infix_node, infix_power, parse_expression_spec};
use crate::parsers::{parsed_of, Parser};
use crate::token::TokenKind;

use vstd::prelude::*;

verus! {

/// How tightly an infix operator binds on its left and on its right.
pub fn binding_power(kind: &TokenKind) -> (r: Option<(u8, u8)>)
    ensures
        r == infix_power(kind@),
{
    match kind {
        TokenKind::Eq => Some((1, 2)),
        TokenKind::Lt => Some((1, 2)),
        TokenKind::Lte => Some((1, 2)),
        TokenKind::Gt => Some((1, 2)),
        TokenKind::Gte => Some((1, 2)),
        TokenKind::Plus => Some((3, 4)),
        TokenKind::Minus => Some((3, 4)),
        TokenKind::Mul => Some((5, 6)),
        TokenKind::Div => Some((5, 6)),
        _ => None,
    }
}

/// The node of an infix operator between two operands: a comparison node
/// for a comparison, else a `BinaryOp`.
pub fn make_infix(op: TokenKind, left: ASTNode, right: ASTNode, line: usize, column: usize) -> (r:
    ASTNode)
    ensures
        r@ == infix_node(op@, left@, right@, line, column),
{
    match op {
        TokenKind::Eq => ASTNode::Eq { left: Box::new(left), right: Box::new(right), line, column },
        TokenKind::Lt => ASTNode::Lt { left: Box::new(left), right: Box::new(right), line, column },
        TokenKind::Lte => ASTNode::Lte { left: Box::new(left), right: Box::new(right), line, column },
        TokenKind::Gt => ASTNode::Gt { left: Box::new(left), right: Box::new(right), line, column },
        TokenKind::Gte => ASTNode::Gte { left: Box::new(left), right: Box::new(right), line, column },
        other => ASTNode::BinaryOp {
            left: Box::new(left),
            op: other,
            right: Box::new(right),
            line,
            column,
        },
    }
}

impl Parser {
    /// Parses an expression whose infix operators bind at least as tightly
    /// as `min_power`. With `0` it parses a whole expression.
    ///
    /// The operators, from the loosest to the tightest: comparisons, `+`
    /// and `-`, `*` and `/`, the prefix `-`, and the postfix forms. Those
    /// of one level group to the left. An operator that binds less tightly
    /// than `min_power`, the end of the input or a closing delimiter ends
    /// the expression, and the cursor stays on it.
    #[verifier::loop_isolation(false)]
    pub fn parse_expression(&mut self, min_power: u8) -> (r: Result<ASTNode, ParseError>)
        ensures
            parsed_of(r, *final(self)) == parse_expression_spec(
                old(self)@,
                min_power,
                old(self).depth as nat,
            ),
            final(self).depth == old(self).depth,
            final(self)@.scopes == old(self)@.scopes,
            final(self)@.remaining() <= old(self)@.remaining(),
            r is Ok ==> final(self)@.remaining() < old(self)@.remaining(),
        decreases old(self).depth, 7nat, old(self)@.remaining(),
    {
        proof {
            reveal(parse_expression_spec);
            reveal(infix_loop_spec);
        }
        let mut left = self.parse_prefix_form()?;
        let ghost goal = infix_loop_spec(self@, left@, min_power, self.depth as nat);
        loop
            invariant
                infix_loop_spec(self@, left@, min_power, self.depth as nat) == goal,
                goal == parse_expression_spec(old(self)@, min_power, old(self).depth as nat),
                self.depth == old(self).depth,
                self@.scopes == old(self)@.scopes,
                self@.remaining() < old(self)@.remaining(),
            decreases self@.remaining(),
        {
            let op = self.current_kind();
            let (left_power, right_power) = match binding_power(&op) {
                Some(powers) => powers,
                None => {
                    return Ok(left);
                },
            };
            if left_power < min_power {
                return Ok(left);
            }
            let (line, column) = self.get_line_column();
            self.consume_token();
            let right = self.parse_nested_expression(right_power);
            match right {
                Ok(operand) => {
                    left = make_infix(op, left, operand, line, column);
                },
                Err(e) => {
                    return Err(e);
                },
            }
        }
    }
}

} // verus!
