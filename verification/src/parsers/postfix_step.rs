//! One postfix form.

use crate::ast::ASTNode;

use crate::error::{ParseError, ParseErrorKind};
use crate::parsers::grammar::postfix_step_spec;

use crate::parsers::member::parsed_step_of;

use crate::parsers::Parser;

use crate::token::TokenKind;

use vstd::prelude::*;

verus! {

impl Parser {
    /// Parses one postfix form after `left`, if one stands under the
    /// cursor, and says whether it did: a call in parentheses, a dot with a
    /// field access, a field assignment or a method call, or an arrow
    /// before a lambda. A method call is a builtin's where the method has
    /// the name of a builtin that the parser knows.
    pub fn parse_postfix_step(&mut self, left: ASTNode) -> (r: Result<(ASTNode, bool), ParseError>)
        ensures
            parsed_step_of(r, *final(self)) == postfix_step_spec(
                old(self)@,
                left@,
                old(self).depth as nat,
            ),
            final(self).depth == old(self).depth,
            final(self)@.scopes == old(self)@.scopes,
            final(self)@.remaining() <= old(self)@.remaining(),
            r matches Ok(step) ==> (step.1 ==> final(self)@.remaining() < old(self)@.remaining()),
        decreases old(self).depth, 3nat, old(self)@.remaining(),
    {
        proof {
            reveal(postfix_step_spec);
        }
        match self.current_kind() {
            TokenKind::LParen => self.parse_call_step(left),
            TokenKind::Dot => {
                let (line, column) = self.get_line_column();
                self.consume_token();
                match self.current_kind() {
                    TokenKind::Identifier(name) => {
                        self.consume_token();
                        let builtin = self.is_builtin_name(&name);
                        self.parse_member_step(left, name, builtin, line, column)
                    },
                    _ => Err(self.error_here(ParseErrorKind::ExpectedToken)),
                }
            },
            TokenKind::RArrow => {
                if self.is_lambda_call() {
                    let node = self.parse_lambda_call(left)?;
                    Ok((node, true))
                } else {
                    Ok((left, false))
                }
            },
            _ => Ok((left, false)),
        }
    }
}

} // verus!
