//! One level of nesting deeper.

use crate::ast::ASTNode;

use crate::error::{ParseError, ParseErrorKind};
use crate::parsers::grammar::{nested_body_spec, nested_expression_spec, nested_statement_spec};
use crate::parsers::{parsed_of, Parser};
use vstd::prelude::*;

verus! {

impl Parser {
    /// Parses an expression one level of nesting deeper. Fails with
    /// `NestingLimit`, and leaves the cursor where it is, where the parser
    /// may nest no deeper.
    pub fn parse_nested_expression(&mut self, min_power: u8) -> (r: Result<ASTNode, ParseError>)
        ensures
            parsed_of(r, *final(self)) == nested_expression_spec(
                old(self)@,
                min_power,
                old(self).depth as nat,
            ),
            final(self).depth == old(self).depth,
            final(self)@.scopes == old(self)@.scopes,
            final(self)@.remaining() <= old(self)@.remaining(),
            r is Ok ==> final(self)@.remaining() < old(self)@.remaining(),
        decreases old(self).depth, 0nat, old(self)@.remaining(),
    {
        proof {
            reveal(nested_expression_spec);
        }
        if self.depth == 0 {
            return Err(self.error_here(ParseErrorKind::NestingLimit));
        }
        self.depth -= 1;
        let r = self.parse_expression(min_power);
        self.depth += 1;
        r
    }

    /// Parses a statement one level of nesting deeper. Fails with
    /// `NestingLimit`, and leaves the cursor where it is, where the parser
    /// may nest no deeper.
    pub fn parse_nested_statement(&mut self) -> (r: Result<ASTNode, ParseError>)
        ensures
            parsed_of(r, *final(self)) == nested_statement_spec(old(self)@, old(self).depth as nat),
            final(self).depth == old(self).depth,
            final(self)@.scopes == old(self)@.scopes,
            final(self)@.remaining() <= old(self)@.remaining(),
            r is Ok ==> final(self)@.remaining() < old(self)@.remaining(),
        decreases old(self).depth, 0nat, old(self)@.remaining(),
    {
        proof {
            reveal(nested_statement_spec);
        }
        if self.depth == 0 {
            return Err(self.error_here(ParseErrorKind::NestingLimit));
        }
        self.depth -= 1;
        let r = self.parse_statement();
        self.depth += 1;
        r
    }

    /// Parses a body one level of nesting deeper. Fails with
    /// `NestingLimit`, and leaves the cursor where it is, where the parser
    /// may nest no deeper.
    pub fn parse_nested_body(&mut self) -> (r: Result<ASTNode, ParseError>)
        ensures
            parsed_of(r, *final(self)) == nested_body_spec(old(self)@, old(self).depth as nat),
            final(self).depth == old(self).depth,
            final(self)@.scopes == old(self)@.scopes,
            final(self)@.remaining() <= old(self)@.remaining(),
            r is Ok ==> final(self)@.remaining() < old(self)@.remaining(),
        decreases old(self).depth, 0nat, old(self)@.remaining(),
    {
        proof {
            reveal(nested_body_spec);
        }
        if self.depth == 0 {
            return Err(self.error_here(ParseErrorKind::NestingLimit));
        }
        self.depth -= 1;
        let r = self.parse_body();
        self.depth += 1;
        r
    }
}

} // verus!
