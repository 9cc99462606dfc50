//! Sequences of expressions, and field initialisers.

use crate::ast::{field_inits_view, nodes_view, ASTNode, FieldInit};
use crate::error::{ParseError, ParseErrorKind};
use crate::parsers::grammar::{parse_inits_spec, parse_sequence_spec};
use crate::parsers::{parsed_inits_of, parsed_nodes_of, Parser};
use crate::token::TokenKind;

use vstd::prelude::*;

verus! {

impl Parser {
    /// Parses expressions separated by commas, from the cursor to the token
    /// `closer`, and moves the cursor past it.
    ///
    /// Fails with `UnterminatedConstruct` where the input ends before the
    /// closer, and with `NestingLimit` where the parser may nest no deeper.
    pub fn parse_sequence(&mut self, closer: TokenKind) -> (r: Result<Vec<ASTNode>, ParseError>)
        ensures
            parsed_nodes_of(r, *final(self)) == parse_sequence_spec(
                old(self)@,
                closer@,
                Seq::empty(),
                old(self).depth as nat,
            ),
            final(self).depth == old(self).depth,
            final(self)@.scopes == old(self)@.scopes,
            final(self)@.remaining() <= old(self)@.remaining(),
        decreases old(self).depth, 1nat, old(self)@.remaining(),
    {
        let ghost goal = parse_sequence_spec(self@, closer@, Seq::empty(), self.depth as nat);
        let mut items: Vec<ASTNode> = Vec::new();
        assert(nodes_view(items) =~= Seq::empty());
        loop
            invariant
                parse_sequence_spec(self@, closer@, nodes_view(items), self.depth as nat) == goal,
                goal == parse_sequence_spec(
                    old(self)@,
                    closer@,
                    Seq::empty(),
                    old(self).depth as nat,
                ),
                self.depth == old(self).depth,
                self@.scopes == old(self)@.scopes,
                self@.remaining() <= old(self)@.remaining(),
            decreases self@.remaining(),
        {
            proof {
                reveal(parse_sequence_spec);
            }
            let kind = self.current_kind();
            if kind.same(&closer) {
                self.consume_token();
                return Ok(items);
            }
            if let TokenKind::Eof = kind {
                return Err(self.error_here(ParseErrorKind::UnterminatedConstruct));
            }
            let item = self.parse_nested_expression(0);
            match item {
                Ok(node) => {
                    let ghost before = nodes_view(items);
                    let ghost node_view = node@;
                    items.push(node);
                    assert(nodes_view(items) =~= before.push(node_view));
                    self.extract_token(TokenKind::Comma);
                },
                Err(e) => {
                    return Err(e);
                },
            }
        }
    }

    /// Parses the field initialisers of an instantiation, from the cursor
    /// to the closing brace, and moves the cursor past it: names with their
    /// expressions after a colon, separated by commas.
    pub fn parse_inits(&mut self) -> (r: Result<Vec<FieldInit>, ParseError>)
        ensures
            parsed_inits_of(r, *final(self)) == parse_inits_spec(
                old(self)@,
                Seq::empty(),
                old(self).depth as nat,
            ),
            final(self).depth == old(self).depth,
            final(self)@.scopes == old(self)@.scopes,
            final(self)@.remaining() <= old(self)@.remaining(),
        decreases old(self).depth, 1nat, old(self)@.remaining(),
    {
        let ghost goal = parse_inits_spec(self@, Seq::empty(), self.depth as nat);
        let mut fields: Vec<FieldInit> = Vec::new();
        assert(field_inits_view(fields) =~= Seq::empty());
        loop
            invariant
                parse_inits_spec(self@, field_inits_view(fields), self.depth as nat) == goal,
                goal == parse_inits_spec(old(self)@, Seq::empty(), old(self).depth as nat),
                self.depth == old(self).depth,
                self@.scopes == old(self)@.scopes,
                self@.remaining() <= old(self)@.remaining(),
            decreases self@.remaining(),
        {
            proof {
                reveal(parse_inits_spec);
            }
            match self.current_kind() {
                TokenKind::RBrace => {
                    self.consume_token();
                    return Ok(fields);
                },
                TokenKind::Identifier(name) => {
                    self.consume_token();
                    self.expect_token(TokenKind::Colon)?;
                    let value = self.parse_nested_expression(0);
                    match value {
                        Ok(node) => {
                            let ghost before = field_inits_view(fields);
                            let field = FieldInit { name, value: node };
                            let ghost field_view = field@;
                            fields.push(field);
                            assert(field_inits_view(fields) =~= before.push(field_view));
                            self.extract_token(TokenKind::Comma);
                        },
                        Err(e) => {
                            return Err(e);
                        },
                    }
                },
                TokenKind::Eof => {
                    return Err(self.error_here(ParseErrorKind::UnterminatedConstruct));
                },
                _ => {
                    return Err(self.error_here(ParseErrorKind::UnexpectedToken));
                },
            }
        }
    }
}

} // verus!
