//! Struct declarations.

use crate::ast::{field_defs_view, node_view, ASTNode, FieldDef, FieldDefView};
use crate::error::{ParseError, ParseErrorKind};
use crate::parsers::grammar::{parse_struct_spec, struct_fields_spec, Parsed};
use crate::parsers::{parsed_of, string_to_value_type, Parser};
use crate::token::TokenKind;

use vstd::prelude::*;

verus! {

/// What parsed field definitions, or an error, and the parser left behind
/// stand for.
pub open spec fn parsed_defs_of(r: Result<Vec<FieldDef>, ParseError>, parser: Parser) -> Parsed<
    Seq<FieldDefView>,
> {
    Parsed {
        result: match r {
            Ok(fields) => Ok(field_defs_view(fields)),
            Err(e) => Err(e),
        },
        state: parser@,
    }
}

impl Parser {
    /// Parses the fields of a struct declaration, from the cursor to the
    /// closing brace, and moves the cursor past it: names with their types
    /// after a colon, separated by commas.
    pub fn parse_struct_fields(&mut self) -> (r: Result<Vec<FieldDef>, ParseError>)
        ensures
            parsed_defs_of(r, *final(self)) == struct_fields_spec(old(self)@, Seq::empty()),
            final(self).depth == old(self).depth,
            final(self)@.scopes == old(self)@.scopes,
            final(self)@.remaining() <= old(self)@.remaining(),
    {
        let ghost goal = struct_fields_spec(self@, Seq::empty());
        let mut fields: Vec<FieldDef> = Vec::new();
        assert(field_defs_view(fields) =~= Seq::empty());
        loop
            invariant
                struct_fields_spec(self@, field_defs_view(fields)) == goal,
                goal == struct_fields_spec(old(self)@, Seq::empty()),
                self.depth == old(self).depth,
                self@.scopes == old(self)@.scopes,
                self@.remaining() <= old(self)@.remaining(),
            decreases self@.remaining(),
        {
            proof {
                reveal(struct_fields_spec);
            }
            match self.current_kind() {
                TokenKind::RBrace => {
                    self.consume_token();
                    return Ok(fields);
                },
                TokenKind::Comma => {
                    self.consume_token();
                },
                TokenKind::Identifier(name) => {
                    self.consume_token();
                    self.expect_token(TokenKind::Colon)?;
                    match self.current_kind() {
                        TokenKind::Identifier(type_text) => {
                            let ghost before = field_defs_view(fields);
                            let field = FieldDef { name, value_type: string_to_value_type(&type_text) };
                            let ghost field_view = field@;
                            fields.push(field);
                            assert(field_defs_view(fields) =~= before.push(field_view));
                            self.consume_token();
                        },
                        _ => {
                            return Err(self.error_here(ParseErrorKind::ExpectedToken));
                        },
                    }
                },
                TokenKind::Eof => {
                    return Err(self.error_here(ParseErrorKind::UnterminatedConstruct));
                },
                _ => {
                    return Err(self.error_here(ParseErrorKind::UnexpectedToken));
                },
            }
        }
    }

    /// Parses a struct declaration: the keyword, the name, and the fields
    /// in braces. The name is recorded as one that may be instantiated. A
    /// public struct is wrapped in a `Public` node.
    pub fn parse_struct(&mut self) -> (r: Result<ASTNode, ParseError>)
        ensures
            parsed_of(r, *final(self)) == parse_struct_spec(old(self)@),
            final(self).depth == old(self).depth,
            final(self)@.scopes == old(self)@.scopes,
            final(self)@.remaining() <= old(self)@.remaining(),
            r is Ok ==> final(self)@.remaining() < old(self)@.remaining(),
    {
        proof {
            reveal(parse_struct_spec);
            reveal_with_fuel(node_view, 2);
        }
        let (line, column) = self.get_line_column();
        let public = match self.current_kind() {
            TokenKind::PublicStruct => true,
            _ => false,
        };
        self.consume_token();
        match self.current_kind() {
            TokenKind::Identifier(name) => {
                self.consume_token();
                self.expect_token(TokenKind::LBrace)?;
                let fields = self.parse_struct_fields()?;
                self.register_struct_name(&name);
                let node = ASTNode::Struct { name, fields, line, column };
                if public {
                    Ok(ASTNode::Public { node: Box::new(node), line, column })
                } else {
                    Ok(node)
                }
            },
            _ => Err(self.error_here(ParseErrorKind::ExpectedToken)),
        }
    }
}

} // verus!
