//! `import`.

use crate::ast::{strings_view, ASTNode};
use crate::error::{ParseError, ParseErrorKind};
use crate::parsers::grammar::{import_symbols_spec, parse_import_spec, Parsed};
use crate::parsers::{parsed_of, Parser};
use crate::token::TokenKind;

use vstd::prelude::*;

verus! {

/// What parsed names, or an error, and the parser left behind stand for.
pub open spec fn parsed_names_of(r: Result<Vec<String>, ParseError>, parser: Parser) -> Parsed<
    Seq<Seq<char>>,
> {
    Parsed {
        result: match r {
            Ok(names) => Ok(strings_view(names)),
            Err(e) => Err(e),
        },
        state: parser@,
    }
}

impl Parser {
    /// Parses the symbols of an import, from the cursor to `from`, and
    /// moves the cursor past it: names separated by commas. Each is
    /// recorded as a name that may be instantiated.
    pub fn parse_import_symbols(&mut self) -> (r: Result<Vec<String>, ParseError>)
        ensures
            parsed_names_of(r, *final(self)) == import_symbols_spec(old(self)@, Seq::empty()),
            final(self).depth == old(self).depth,
            final(self)@.scopes == old(self)@.scopes,
            final(self)@.remaining() <= old(self)@.remaining(),
    {
        let ghost goal = import_symbols_spec(self@, Seq::empty());
        let mut symbols: Vec<String> = Vec::new();
        assert(strings_view(symbols) =~= Seq::empty());
        loop
            invariant
                import_symbols_spec(self@, strings_view(symbols)) == goal,
                goal == import_symbols_spec(old(self)@, Seq::empty()),
                self.depth == old(self).depth,
                self@.scopes == old(self)@.scopes,
                self@.remaining() <= old(self)@.remaining(),
            decreases self@.remaining(),
        {
            proof {
                reveal(import_symbols_spec);
            }
            match self.current_kind() {
                TokenKind::From => {
                    self.consume_token();
                    return Ok(symbols);
                },
                TokenKind::Comma => {
                    self.consume_token();
                },
                TokenKind::Identifier(name) => {
                    self.register_struct_name(&name);
                    let ghost before = strings_view(symbols);
                    let ghost name_view = name@;
                    symbols.push(name);
                    assert(strings_view(symbols) =~= before.push(name_view));
                    self.consume_token();
                },
                _ => {
                    return Err(self.error_here(ParseErrorKind::ExpectedToken));
                },
            }
        }
    }

    /// Parses `import a, b from m`.
    pub fn parse_import(&mut self) -> (r: Result<ASTNode, ParseError>)
        ensures
            parsed_of(r, *final(self)) == parse_import_spec(old(self)@),
            final(self).depth == old(self).depth,
            final(self)@.scopes == old(self)@.scopes,
            final(self)@.remaining() <= old(self)@.remaining(),
            r is Ok ==> final(self)@.remaining() < old(self)@.remaining(),
    {
        proof {
            reveal(parse_import_spec);
        }
        let (line, column) = self.get_line_column();
        self.consume_token();
        let symbols = self.parse_import_symbols()?;
        match self.current_kind() {
            TokenKind::Identifier(module_name) => {
                self.consume_token();
                Ok(ASTNode::Import { module_name, symbols, line, column })
            },
            _ => Err(self.error_here(ParseErrorKind::ExpectedToken)),
        }
    }
}

} // verus!
