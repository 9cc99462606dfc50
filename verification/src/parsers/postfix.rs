//! Postfix forms, one after another.

use crate::ast::ASTNode;

use crate::error::ParseError;

use crate::parsers::grammar::postfix_loop_spec;

use crate::parsers::{parsed_of, Parser};
use vstd::prelude::*;

verus! {

impl Parser {
    /// Parses the postfix forms after `left`, one after another.
    #[verifier::loop_isolation(false)]
    pub fn parse_postfix_forms(&mut self, left: ASTNode) -> (r: Result<ASTNode, ParseError>)
        ensures
            parsed_of(r, *final(self)) == postfix_loop_spec(
                old(self)@,
                left@,
                old(self).depth as nat,
            ),
            final(self).depth == old(self).depth,
            final(self)@.scopes == old(self)@.scopes,
            final(self)@.remaining() <= old(self)@.remaining(),
        decreases old(self).depth, 4nat, old(self)@.remaining(),
    {
        let ghost first = left@;
        let ghost goal = postfix_loop_spec(self@, first, self.depth as nat);
        let mut left = left;
        loop
            invariant
                postfix_loop_spec(self@, left@, self.depth as nat) == goal,
                goal == postfix_loop_spec(old(self)@, first, old(self).depth as nat),
                self.depth == old(self).depth,
                self@.scopes == old(self)@.scopes,
                self@.remaining() <= old(self)@.remaining(),
            decreases self@.remaining(),
        {
            proof {
                reveal(postfix_loop_spec);
            }
            let (node, more) = self.parse_postfix_step(left)?;
            if !more {
                return Ok(node);
            }
            left = node;
        }
    }
}

} // verus!
