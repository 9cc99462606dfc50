//! The methods of an `impl`.

use crate::ast::{nodes_view, ASTNode};
use crate::error::{ParseError, ParseErrorKind};
use crate::parsers::grammar::impl_methods_spec;

use crate::parsers::{parsed_nodes_of, Parser};
use crate::token::TokenKind;

use vstd::prelude::*;

verus! {

impl Parser {
    /// Parses the methods of an `impl`, from the cursor to the closing
    /// brace, and moves the cursor past it: function declarations.
    pub fn parse_impl_methods(&mut self) -> (r: Result<Vec<ASTNode>, ParseError>)
        ensures
            parsed_nodes_of(r, *final(self)) == impl_methods_spec(
                old(self)@,
                Seq::empty(),
                old(self).depth as nat,
            ),
            final(self).depth == old(self).depth,
            final(self)@.scopes == old(self)@.scopes,
            final(self)@.remaining() <= old(self)@.remaining(),
        decreases old(self).depth, 12nat, old(self)@.remaining(),
    {
        let ghost goal = impl_methods_spec(self@, Seq::empty(), self.depth as nat);
        let mut methods: Vec<ASTNode> = Vec::new();
        assert(nodes_view(methods) =~= Seq::empty());
        loop
            invariant
                impl_methods_spec(self@, nodes_view(methods), self.depth as nat) == goal,
                goal == impl_methods_spec(old(self)@, Seq::empty(), old(self).depth as nat),
                self.depth == old(self).depth,
                self@.scopes == old(self)@.scopes,
                self@.remaining() <= old(self)@.remaining(),
            decreases self@.remaining(),
        {
            proof {
                reveal(impl_methods_spec);
            }
            match self.current_kind() {
                TokenKind::RBrace => {
                    self.consume_token();
                    return Ok(methods);
                },
                TokenKind::Function => match self.parse_function() {
                    Ok(node) => {
                        let ghost before = nodes_view(methods);
                        let ghost node_view = node@;
                        methods.push(node);
                        assert(nodes_view(methods) =~= before.push(node_view));
                    },
                    Err(e) => {
                        return Err(e);
                    },
                },
                TokenKind::Eof => {
                    return Err(self.error_here(ParseErrorKind::UnterminatedConstruct));
                },
                _ => {
                    return Err(self.error_here(ParseErrorKind::UnexpectedToken));
                },
            }
        }
    }
}

} // verus!
