//! The parser: a cursor over a token sequence, and the bookkeeping that
//! parsing needs.
//!
//! Every parsing function is proved to compute the function of the same
//! name in [`grammar`], which is the definition of the language's syntax.

pub mod block;
pub mod block_ast;
pub mod body;
pub mod continue_ast;
pub mod declaration;
pub mod else_ast;
pub mod expression;
pub mod for_ast;
pub mod forms;
pub mod function_ast;
pub mod grammar;
pub mod if_ast;
pub mod impl_ast;
pub mod impl_methods;
pub mod import_ast;
pub mod lambda_ast;
pub mod lambda_call_ast;
pub mod literal_ast;
pub mod member;
pub mod nested;
pub mod postfix;
pub mod postfix_step;
pub mod prefix;
pub mod primary;
pub mod program;
pub mod public_ast;
pub mod return_ast;
pub mod sequence;
pub mod statement;
pub mod struct_ast;

use crate::ast::{
    field_inits_view, nodes_view, strings_view, ASTNode, FieldInit, FieldInitView, NodeView,
};
use crate::environment::EnvVariableType;

use crate::error::{ParseError, ParseErrorKind};
use crate::parsers::grammar::{
    type_named, variable_named_in, Parsed, ParserScopeView, ParserVariableView, ParserView,
};
use crate::search::{lemma_last_index, lemma_last_index_none};
use crate::token::{same_text, tokens_view, Token, TokenKind};
use crate::value::ValueType;

use vstd::prelude::*;

verus! {

/// A name that the parser has seen declared with a type.
#[derive(Debug, PartialEq)]
pub struct ParserVariable {
    pub name: String,
    pub value_type: ValueType,
    pub variable_type: EnvVariableType,
}

/// One level of the parser's own scopes.
#[derive(Debug, PartialEq)]
pub struct ParserScope {
    pub label: String,
    pub variables: Vec<ParserVariable>,
}

/// A cursor over a token sequence.
///
/// `scopes` hold the declared types of parameters while the body that sees
/// them is parsed; they are bookkeeping of the parser and never reach the
/// evaluator. `depth` is how many more levels of nesting the parser may
/// enter.
#[derive(Debug, PartialEq)]
pub struct Parser {
    pub tokens: Vec<Token>,
    pub pos: usize,
    pub scopes: Vec<ParserScope>,
    pub struct_names: Vec<String>,
    pub builtin_names: Vec<String>,
    pub depth: usize,
}

impl View for ParserVariable {
    type V = ParserVariableView;

    open spec fn view(&self) -> ParserVariableView {
        ParserVariableView {
            name: self.name@,
            value_type: self.value_type@,
            variable_type: self.variable_type,
        }
    }
}

/// The models of the variables of a scope, in order.
pub open spec fn parser_variables_view(variables: Vec<ParserVariable>) -> Seq<ParserVariableView> {
    Seq::new(variables.len() as nat, |i: int| variables[i]@)
}

impl View for ParserScope {
    type V = ParserScopeView;

    open spec fn view(&self) -> ParserScopeView {
        ParserScopeView { label: self.label@, variables: parser_variables_view(self.variables) }
    }
}

/// The models of the scopes of a parser, in order.
pub open spec fn parser_scopes_view(scopes: Vec<ParserScope>) -> Seq<ParserScopeView> {
    Seq::new(scopes.len() as nat, |i: int| scopes[i]@)
}

impl View for Parser {
    type V = ParserView;

    open spec fn view(&self) -> ParserView {
        ParserView {
            tokens: tokens_view(self.tokens@),
            pos: self.pos,
            scopes: parser_scopes_view(self.scopes),
            struct_names: strings_view(self.struct_names),
            builtin_names: strings_view(self.builtin_names),
        }
    }
}

/// What a parsed node, or an error, and the parser left behind stand for.
pub open spec fn parsed_of(r: Result<ASTNode, ParseError>, parser: Parser) -> Parsed<NodeView> {
    Parsed {
        result: match r {
            Ok(node) => Ok(node@),
            Err(e) => Err(e),
        },
        state: parser@,
    }
}

/// What parsed nodes, or an error, and the parser left behind stand for.
pub open spec fn parsed_nodes_of(r: Result<Vec<ASTNode>, ParseError>, parser: Parser) -> Parsed<
    Seq<NodeView>,
> {
    Parsed {
        result: match r {
            Ok(nodes) => Ok(nodes_view(nodes)),
            Err(e) => Err(e),
        },
        state: parser@,
    }
}

/// What parsed field initialisers, or an error, and the parser left behind
/// stand for.
pub open spec fn parsed_inits_of(r: Result<Vec<FieldInit>, ParseError>, parser: Parser) -> Parsed<
    Seq<FieldInitView>,
> {
    Parsed {
        result: match r {
            Ok(fields) => Ok(field_inits_view(fields)),
            Err(e) => Err(e),
        },
        state: parser@,
    }
}

/// How deep the syntax may nest for a new parser. The limit stands for the
/// stack of the machine: it lies far beyond what source text nests, and
/// text that passes it fails with `NestingLimit` where the stack would have
/// run out. A parser's own allowance can be set higher where the stack
/// allows it.
pub const DEFAULT_NESTING_LIMIT: usize = 1000;

/// Whether a string holds the text of a literal.
pub fn is_text(s: &String, literal: &str) -> (r: bool)
    ensures
        r == (s@ == literal@),
{
    let other = literal.to_string();
    same_text(s, &other)
}

/// The type that a type name stands for: one of the built-in types, or the
/// struct of that name.
pub fn string_to_value_type(type_text: &String) -> (r: ValueType)
    ensures
        r@ == type_named(type_text@),
{
    if is_text(type_text, "number") {
        ValueType::Number
    } else if is_text(type_text, "string") {
        ValueType::String
    } else if is_text(type_text, "bool") {
        ValueType::Bool
    } else if is_text(type_text, "void") {
        ValueType::Void
    } else if is_text(type_text, "any") {
        ValueType::Any
    } else {
        ValueType::Struct(type_text.clone())
    }
}

/// The position of the first string with the given text.
pub fn find_name(names: &Vec<String>, name: &String) -> (r: bool)
    ensures
        r == strings_view(*names).contains(name@),
{
    let mut i: usize = 0;
    while i < names.len()
        invariant
            i <= names.len(),
            forall|j: int| 0 <= j < i ==> strings_view(*names)[j] != name@,
        decreases names.len() - i,
    {
        if same_text(&names[i], name) {
            assert(strings_view(*names)[i as int] == name@);
            return true;
        }
        i += 1;
    }
    false
}

impl Parser {
    /// A parser at the start of `tokens`, with no scopes, no struct names,
    /// the standard builtin names and the default nesting limit.
    pub fn new(tokens: Vec<Token>) -> (r: Parser)
        ensures
            r@ == ParserView::start(tokens_view(tokens@)),
            r.depth == DEFAULT_NESTING_LIMIT,
    {
        let mut builtin_names: Vec<String> = Vec::new();
        builtin_names.push("print".to_string());
        builtin_names.push("len".to_string());
        builtin_names.push("push".to_string());
        let parser = Parser {
            tokens,
            pos: 0,
            scopes: Vec::new(),
            struct_names: Vec::new(),
            builtin_names,
            depth: DEFAULT_NESTING_LIMIT,
        };
        assert(parser@.scopes =~= Seq::empty());
        assert(parser@.struct_names =~= Seq::empty());
        assert(parser@.builtin_names =~= seq!["print"@, "len"@, "push"@]);
        parser
    }

    /// The token under the cursor, or nothing at the end of the input.
    pub fn get_current_token(&self) -> (r: Option<&Token>)
        ensures
            match r {
                Some(token) => self@.current() == Some(token@),
                None => self@.current() is None,
            },
    {
        if self.pos < self.tokens.len() {
            Some(&self.tokens[self.pos])
        } else {
            None
        }
    }

    /// The kind of the token under the cursor; the end of the input counts
    /// as an `Eof` token.
    pub fn current_kind(&self) -> (r: TokenKind)
        ensures
            r@ == self@.kind(),
    {
        if self.pos < self.tokens.len() {
            self.tokens[self.pos].kind.clone()
        } else {
            TokenKind::Eof
        }
    }

    /// The kind of the token after the one under the cursor.
    pub fn peek_kind(&self) -> (r: TokenKind)
        ensures
            r@ == self@.peek_kind(),
    {
        if self.pos < self.tokens.len() && self.pos + 1 < self.tokens.len() {
            assert(self@.advance().pos == self.pos + 1);
            self.tokens[self.pos + 1].kind.clone()
        } else {
            TokenKind::Eof
        }
    }

    /// Moves the cursor past the token under it. At the end of the input
    /// the cursor stays.
    pub fn consume_token(&mut self)
        ensures
            final(self)@ == old(self)@.advance(),
            final(self).depth == old(self).depth,
    {
        if self.pos < self.tokens.len() {
            self.pos += 1;
        }
    }

    /// The source position of the token under the cursor; at the end of the
    /// input, that of the last token; with no tokens, line and column zero.
    pub fn get_line_column(&self) -> (r: (usize, usize))
        ensures
            r == self@.line_column(),
    {
        if self.pos < self.tokens.len() {
            (self.tokens[self.pos].line, self.tokens[self.pos].column)
        } else if self.tokens.len() > 0 {
            let last = self.tokens.len() - 1;
            (self.tokens[last].line, self.tokens[last].column)
        } else {
            (0, 0)
        }
    }

    /// An error of the given kind at the cursor.
    pub fn error_here(&self, kind: ParseErrorKind) -> (r: ParseError)
        ensures
            r == self@.error(kind),
    {
        let (line, column) = self.get_line_column();
        ParseError::new(kind, line, column)
    }

    /// Moves the cursor past the token under it if that token is of the
    /// given kind, and says whether it was.
    pub fn extract_token(&mut self, kind: TokenKind) -> (r: bool)
        ensures
            r == (old(self)@.kind() == kind@),
            final(self)@ == old(self)@.accept(kind@),
            final(self).depth == old(self).depth,
    {
        if self.current_kind().same(&kind) {
            self.consume_token();
            true
        } else {
            false
        }
    }

    /// Moves the cursor past the token under it if that token is of the
    /// given kind, and fails with `ExpectedToken` if it is not.
    pub fn expect_token(&mut self, kind: TokenKind) -> (r: Result<(), ParseError>)
        ensures
            match old(self)@.expect(kind@) {
                Ok(after) => r is Ok && final(self)@ == after,
                Err(e) => r == Err::<(), ParseError>(e) && final(self)@ == old(self)@,
            },
            final(self).depth == old(self).depth,
    {
        if self.extract_token(kind) {
            Ok(())
        } else {
            Err(self.error_here(ParseErrorKind::ExpectedToken))
        }
    }

    /// Pushes an empty scope with the given label.
    pub fn enter_scope(&mut self, label: String)
        ensures
            final(self)@ == old(self)@.enter_scope(label@),
            final(self).depth == old(self).depth,
    {
        let ghost before = self@;
        self.scopes.push(ParserScope { label, variables: Vec::new() });
        assert(parser_variables_view(self.scopes[self.scopes.len() - 1].variables) =~= Seq::empty());
        assert(self@.scopes =~= before.enter_scope(label@).scopes);
    }

    /// Pops the innermost scope, if there is one.
    pub fn leave_scope(&mut self)
        ensures
            final(self)@ == old(self)@.leave_scope(),
            final(self).depth == old(self).depth,
    {
        let ghost before = self@;
        if self.scopes.len() > 0 {
            self.scopes.pop();
            assert(self@.scopes =~= before.leave_scope().scopes);
        }
    }

    /// Records a name with its declared type and mutability in the
    /// innermost scope. With no scope, nothing is recorded.
    pub fn register_variables(
        &mut self,
        name: &String,
        value_type: &ValueType,
        variable_type: &EnvVariableType,
    )
        ensures
            final(self)@ == old(self)@.register_variable(name@, value_type@, *variable_type),
            final(self).depth == old(self).depth,
    {
        let ghost before = self@;
        match self.scopes.pop() {
            None => {},
            Some(top) => {
                let mut top = top;
                let ghost vars = parser_variables_view(top.variables);
                let variable = ParserVariable {
                    name: name.clone(),
                    value_type: value_type.clone(),
                    variable_type: *variable_type,
                };
                let ghost variable_view = variable@;
                top.variables.push(variable);
                assert(parser_variables_view(top.variables) =~= vars.push(variable_view));
                self.scopes.push(top);
                assert(self@.scopes =~= before.register_variable(
                    name@,
                    value_type@,
                    *variable_type,
                ).scopes);
            },
        }
    }

    /// The declared type of a name: that of its last record in the
    /// innermost scope that has one.
    pub fn find_type(&self, name: &String) -> (r: Option<ValueType>)
        ensures
            match r {
                Some(t) => self@.find_type(name@) == Some(t@),
                None => self@.find_type(name@) is None,
            },
    {
        let mut k: usize = self.scopes.len();
        while k > 0
            invariant
                k <= self.scopes.len(),
                forall|j: int|
                    k <= j < self.scopes.len() ==> !grammar::scope_records(name@)(
                        #[trigger] parser_scopes_view(self.scopes)[j],
                    ),
            decreases k,
        {
            k -= 1;
            let scope = &self.scopes[k];
            let mut i: usize = scope.variables.len();
            while i > 0
                invariant
                    i <= scope.variables.len(),
                    k < self.scopes.len(),
                    *scope == self.scopes[k as int],
                    forall|j: int|
                        i <= j < scope.variables.len() ==> !variable_named_in(name@)(
                            #[trigger] parser_variables_view(scope.variables)[j],
                        ),
                    forall|j: int|
                        k < j < self.scopes.len() ==> !grammar::scope_records(name@)(
                            #[trigger] parser_scopes_view(self.scopes)[j],
                        ),
                decreases i,
            {
                i -= 1;
                if same_text(&scope.variables[i].name, name) {
                    proof {
                        lemma_last_index(
                            parser_variables_view(scope.variables),
                            variable_named_in(name@),
                            i as int,
                        );
                        assert(parser_scopes_view(self.scopes)[k as int] == scope@);
                        lemma_last_index(
                            parser_scopes_view(self.scopes),
                            grammar::scope_records(name@),
                            k as int,
                        );
                    }
                    return Some(scope.variables[i].value_type.clone());
                }
            }
            proof {
                lemma_last_index_none(
                    parser_variables_view(scope.variables),
                    variable_named_in(name@),
                );
                assert(parser_scopes_view(self.scopes)[k as int] == scope@);
            }
        }
        proof {
            lemma_last_index_none(parser_scopes_view(self.scopes), grammar::scope_records(name@));
        }
        None
    }

    /// Whether a struct of that name was declared or imported so far.
    pub fn is_struct_name(&self, name: &String) -> (r: bool)
        ensures
            r == self@.struct_names.contains(name@),
    {
        find_name(&self.struct_names, name)
    }

    /// Whether a builtin of that name can be called as a method.
    pub fn is_builtin_name(&self, name: &String) -> (r: bool)
        ensures
            r == self@.builtin_names.contains(name@),
    {
        find_name(&self.builtin_names, name)
    }

    /// Records the name of a struct.
    pub fn register_struct_name(&mut self, name: &String)
        ensures
            final(self)@ == old(self)@.register_struct_name(name@),
            final(self).depth == old(self).depth,
    {
        let ghost before = self@;
        self.struct_names.push(name.clone());
        assert(self@.struct_names =~= before.struct_names.push(name@));
    }
}

} // verus!
