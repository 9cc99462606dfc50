//! Statements.

use crate::ast::{ASTNode, NodeView};
use crate::error::ParseError;

use crate::parsers::grammar::{parse_simple_statement_spec, parse_statement_spec, Parsed};
use crate::parsers::{parsed_of, Parser};
use crate::token::TokenKind;

use vstd::prelude::*;

verus! {

/// What an optional parse, and the parser left behind, stand for.
pub open spec fn parsed_simple_of(r: Option<Result<ASTNode, ParseError>>, parser: Parser) -> Option<
    Parsed<NodeView>,
> {
    match r {
        Some(parse) => Some(parsed_of(parse, parser)),
        None => None,
    }
}

impl Parser {
    /// Parses a struct declaration, an `import`, a `continue` or a comment,
    /// where one of them stands under the cursor; else gives nothing and
    /// leaves the parser as it is.
    pub fn parse_simple_statement(&mut self) -> (r: Option<Result<ASTNode, ParseError>>)
        ensures
            parsed_simple_of(r, *final(self)) == parse_simple_statement_spec(old(self)@),
            r is None ==> *final(self) == *old(self),
            final(self).depth == old(self).depth,
            final(self)@.scopes == old(self)@.scopes,
            final(self)@.remaining() <= old(self)@.remaining(),
            r matches Some(Ok(_)) ==> final(self)@.remaining() < old(self)@.remaining(),
    {
        let (line, column) = self.get_line_column();
        match self.current_kind() {
            TokenKind::PublicStruct => Some(self.parse_struct()),
            TokenKind::PrivateStruct => Some(self.parse_struct()),
            TokenKind::Import => Some(self.parse_import()),
            TokenKind::Continue => Some(self.parse_continue()),
            TokenKind::CommentBlock(comment) => {
                self.consume_token();
                Some(Ok(ASTNode::CommentBlock { comment, line, column }))
            },
            TokenKind::CommentLine(comment) => {
                self.consume_token();
                Some(Ok(ASTNode::CommentBlock { comment, line, column }))
            },
            _ => None,
        }
    }

    /// Parses a statement: a declaration, a function, a struct, an `impl`,
    /// an `if`, a `for`, a `return`, an `import`, a `continue`, a comment,
    /// a public statement, a block, or an expression.
    pub fn parse_statement(&mut self) -> (r: Result<ASTNode, ParseError>)
        ensures
            parsed_of(r, *final(self)) == parse_statement_spec(old(self)@, old(self).depth as nat),
            final(self).depth == old(self).depth,
            final(self)@.scopes == old(self)@.scopes,
            final(self)@.remaining() <= old(self)@.remaining(),
            r is Ok ==> final(self)@.remaining() < old(self)@.remaining(),
        decreases old(self).depth, 14nat, old(self)@.remaining(),
    {
        proof {
            reveal(parse_statement_spec);
        }
        match self.parse_simple_statement() {
            Some(simple) => {
                return simple;
            },
            None => {},
        }
        match self.current_kind() {
            TokenKind::Immutable => self.parse_declaration(),
            TokenKind::Mutable => self.parse_declaration(),
            TokenKind::Function => self.parse_function(),
            TokenKind::Impl => self.parse_impl(),
            TokenKind::If => self.parse_if(),
            TokenKind::For => self.parse_for(),
            TokenKind::Return => self.parse_return(),
            TokenKind::Pub => self.parse_public(),
            TokenKind::LBrace => self.parse_block(),
            _ => self.parse_expression(0),
        }
    }
}

} // verus!
