//! The syntax of the language, as functions from a parser state to a
//! result and the state after it.

use crate::ast::{FieldDefView, FieldInitView, NodeView};
use crate::environment::EnvVariableType;

use crate::error::{ParseError, ParseErrorKind};
use crate::search::last_index;

use crate::token::{TokenKindView, TokenView};
use crate::value::{ValueTypeView, ValueView};
use vstd::prelude::*;

verus! {

/// The mathematical model of a recorded parser variable.
pub struct ParserVariableView {
    pub name: Seq<char>,
    pub value_type: ValueTypeView,
    pub variable_type: EnvVariableType,
}

/// The mathematical model of a parser scope.
pub struct ParserScopeView {
    pub label: Seq<char>,
    pub variables: Seq<ParserVariableView>,
}

/// The mathematical model of a parser, but for its nesting allowance, which
/// the functions of the grammar take beside it.
pub struct ParserView {
    pub tokens: Seq<TokenView>,
    pub pos: usize,
    pub scopes: Seq<ParserScopeView>,
    pub struct_names: Seq<Seq<char>>,
    pub builtin_names: Seq<Seq<char>>,
}

/// What a parsing function gives: a result, and the state of the parser
/// after it.
pub struct Parsed<T> {
    pub result: Result<T, ParseError>,
    pub state: ParserView,
}

/// The records of the given name.
pub open spec fn variable_named_in(name: Seq<char>) -> spec_fn(ParserVariableView) -> bool {
    |v: ParserVariableView| v.name == name
}

/// The scopes that have a record of the given name.
pub open spec fn scope_records(name: Seq<char>) -> spec_fn(ParserScopeView) -> bool {
    |s: ParserScopeView| last_index(s.variables, variable_named_in(name)) is Some
}

/// The type that a type name stands for: one of the built-in types, or the
/// struct of that name.
pub open spec fn type_named(name: Seq<char>) -> ValueTypeView {
    if name == "number"@ {
        ValueTypeView::Number
    } else if name == "string"@ {
        ValueTypeView::String
    } else if name == "bool"@ {
        ValueTypeView::Bool
    } else if name == "void"@ {
        ValueTypeView::Void
    } else if name == "any"@ {
        ValueTypeView::Any
    } else {
        ValueTypeView::Struct(name)
    }
}

impl ParserView {
    /// The state of a new parser at the start of `tokens`.
    pub open spec fn start(tokens: Seq<TokenView>) -> ParserView {
        ParserView {
            tokens,
            pos: 0,
            scopes: Seq::empty(),
            struct_names: Seq::empty(),
            builtin_names: seq!["print"@, "len"@, "push"@],
        }
    }

    /// Whether a token stands under the cursor.
    pub open spec fn at_token(self) -> bool {
        self.pos < self.tokens.len() && self.pos < usize::MAX
    }

    /// The token under the cursor.
    pub open spec fn current(self) -> Option<TokenView> {
        if self.at_token() {
            Some(self.tokens[self.pos as int])
        } else {
            None
        }
    }

    /// The kind of the token under the cursor; the end of the input counts
    /// as an `Eof` token.
    pub open spec fn kind(self) -> TokenKindView {
        if self.at_token() {
            self.tokens[self.pos as int].kind
        } else {
            TokenKindView::Eof
        }
    }

    /// The kind of the token after the one under the cursor.
    pub open spec fn peek_kind(self) -> TokenKindView {
        self.advance().kind_after(self)
    }

    /// The kind of the token under the cursor, where the cursor stands
    /// after that of `before`; else `Eof`.
    pub open spec fn kind_after(self, before: ParserView) -> TokenKindView {
        if self.pos > before.pos {
            self.kind()
        } else {
            TokenKindView::Eof
        }
    }

    /// How many tokens are left, the one under the cursor included.
    pub open spec fn remaining(self) -> nat {
        if self.at_token() {
            (self.tokens.len() - self.pos) as nat
        } else {
            0
        }
    }

    /// The state with the cursor past the token under it.
    pub open spec fn advance(self) -> ParserView {
        if self.at_token() {
            ParserView { pos: (self.pos + 1) as usize, ..self }
        } else {
            self
        }
    }

    /// The source position of the token under the cursor; at the end of the
    /// input, that of the last token.
    pub open spec fn line_column(self) -> (usize, usize) {
        if self.at_token() {
            (self.tokens[self.pos as int].line, self.tokens[self.pos as int].column)
        } else if self.tokens.len() > 0 {
            (self.tokens.last().line, self.tokens.last().column)
        } else {
            (0, 0)
        }
    }

    /// The error of the given kind at the cursor.
    pub open spec fn error(self, kind: ParseErrorKind) -> ParseError {
        ParseError { kind, line: self.line_column().0, column: self.line_column().1 }
    }

    /// The state with the cursor past the token under it, if that token is
    /// of the given kind; else the state itself.
    pub open spec fn accept(self, kind: TokenKindView) -> ParserView {
        if self.kind() == kind {
            self.advance()
        } else {
            self
        }
    }

    /// The state with the cursor past the token under it, if that token is
    /// of the given kind; else the error `ExpectedToken`.
    pub open spec fn expect(self, kind: TokenKindView) -> Result<ParserView, ParseError> {
        if self.kind() == kind {
            Ok(self.advance())
        } else {
            Err(self.error(ParseErrorKind::ExpectedToken))
        }
    }

    /// The state with an empty scope pushed.
    pub open spec fn enter_scope(self, label: Seq<char>) -> ParserView {
        ParserView {
            scopes: self.scopes.push(ParserScopeView { label, variables: Seq::empty() }),
            ..self
        }
    }

    /// The state with the innermost scope popped.
    pub open spec fn leave_scope(self) -> ParserView {
        if self.scopes.len() > 0 {
            ParserView { scopes: self.scopes.drop_last(), ..self }
        } else {
            self
        }
    }

    /// The state with a name recorded in the innermost scope.
    pub open spec fn register_variable(
        self,
        name: Seq<char>,
        value_type: ValueTypeView,
        variable_type: EnvVariableType,
    ) -> ParserView {
        if self.scopes.len() > 0 {
            ParserView {
                scopes: self.scopes.update(
                    self.scopes.len() - 1,
                    ParserScopeView {
                        variables: self.scopes.last().variables.push(
                            ParserVariableView { name, value_type, variable_type },
                        ),
                        ..self.scopes.last()
                    },
                ),
                ..self
            }
        } else {
            self
        }
    }

    /// The declared type of a name: that of its last record in the
    /// innermost scope that has one.
    pub open spec fn find_type(self, name: Seq<char>) -> Option<ValueTypeView> {
        match last_index(self.scopes, scope_records(name)) {
            Some(k) => match last_index(self.scopes[k].variables, variable_named_in(name)) {
                Some(i) => Some(self.scopes[k].variables[i].value_type),
                None => None,
            },
            None => None,
        }
    }

    /// The state with the name of a struct recorded.
    pub open spec fn register_struct_name(self, name: Seq<char>) -> ParserView {
        ParserView { struct_names: self.struct_names.push(name), ..self }
    }
}

/// Two parser states have as many scopes, and all but the innermost are
/// the same.
pub open spec fn outer_scopes_kept(a: ParserView, b: ParserView) -> bool {
    &&& a.scopes.len() == b.scopes.len()
    &&& forall|i: int| 0 <= i < a.scopes.len() - 1 ==> a.scopes[i] == b.scopes[i]
}

/// How tightly a prefix operator binds its operand.
pub const PREFIX_POWER: u8 = 7;

/// How tightly an infix operator binds on its left and on its right, from
/// the loosest to the tightest: comparison, additive, multiplicative. Each
/// binds tighter on its right, so that operators of one level group to the
/// left.
pub open spec fn infix_power(kind: TokenKindView) -> Option<(u8, u8)> {
    match kind {
        TokenKindView::Eq => Some((1u8, 2u8)),
        TokenKindView::Lt => Some((1u8, 2u8)),
        TokenKindView::Lte => Some((1u8, 2u8)),
        TokenKindView::Gt => Some((1u8, 2u8)),
        TokenKindView::Gte => Some((1u8, 2u8)),
        TokenKindView::Plus => Some((3u8, 4u8)),
        TokenKindView::Minus => Some((3u8, 4u8)),
        TokenKindView::Mul => Some((5u8, 6u8)),
        TokenKindView::Div => Some((5u8, 6u8)),
        _ => None,
    }
}

/// The node of an infix operator between two operands.
pub open spec fn infix_node(
    op: TokenKindView,
    left: NodeView,
    right: NodeView,
    line: usize,
    column: usize,
) -> NodeView {
    match op {
        TokenKindView::Eq => NodeView::Eq { left: Box::new(left), right: Box::new(right), line, column },
        TokenKindView::Lt => NodeView::Lt { left: Box::new(left), right: Box::new(right), line, column },
        TokenKindView::Lte => NodeView::Lte {
            left: Box::new(left),
            right: Box::new(right),
            line,
            column,
        },
        TokenKindView::Gt => NodeView::Gt { left: Box::new(left), right: Box::new(right), line, column },
        TokenKindView::Gte => NodeView::Gte {
            left: Box::new(left),
            right: Box::new(right),
            line,
            column,
        },
        _ => NodeView::BinaryOp { left: Box::new(left), op, right: Box::new(right), line, column },
    }
}

/// A failure at the cursor of `state`.
pub open spec fn failed<T>(state: ParserView, kind: ParseErrorKind) -> Parsed<T> {
    Parsed { result: Err(state.error(kind)), state }
}

/// A success that leaves `state`.
pub open spec fn parsed<T>(value: T, state: ParserView) -> Parsed<T> {
    Parsed { result: Ok(value), state }
}

/// A literal: the cursor moves past its token, and the node carries the
/// position of the token after it.
pub open spec fn parse_literal_spec(s: ParserView, value: ValueView) -> Parsed<NodeView> {
    let after = s.advance();
    parsed(
        NodeView::Literal { value, line: after.line_column().0, column: after.line_column().1 },
        after,
    )
}

/// `continue`: the cursor moves past its token.
pub open spec fn parse_continue_spec(s: ParserView) -> Parsed<NodeView> {
    let after = s.advance();
    parsed(
        NodeView::Continue { line: after.line_column().0, column: after.line_column().1 },
        after,
    )
}

/// Whether the token after the one under the cursor introduces a lambda.
pub open spec fn is_lambda_call_spec(s: ParserView) -> bool {
    s.peek_kind() is BackSlash
}

/// The type name that stands at the cursor inside the angle brackets of a
/// parametrised type, past which the cursor moves; nothing, and the cursor
/// stays, where no name stands there.
pub open spec fn inner_type_spec(s: ParserView) -> (Option<ValueTypeView>, ParserView) {
    match s.kind() {
        TokenKindView::Identifier(name) => (Some(type_named(name)), s.advance()),
        _ => (None, s),
    }
}

/// What follows the keyword of a type with one parameter: `<`, a type
/// name, `>`. Each is passed over where it stands there. The type name is
/// given only where all three stand there.
pub open spec fn one_parameter_spec(s: ParserView) -> (Option<ValueTypeView>, ParserView) {
    let (inner, s2) = inner_type_spec(s.accept(TokenKindView::Lt));
    (
        if s.kind() is Lt && s2.kind() is Gt {
            inner
        } else {
            None
        },
        s2.accept(TokenKindView::Gt),
    )
}

/// What follows the keyword of a type with two parameters: `<`, a type
/// name, a comma, a type name, `>`. Each is passed over where it stands
/// there. The type names are given only where all five stand there.
pub open spec fn two_parameters_spec(s: ParserView) -> (
    Option<(ValueTypeView, ValueTypeView)>,
    ParserView,
) {
    let (first, s2) = inner_type_spec(s.accept(TokenKindView::Lt));
    let (second, s3) = inner_type_spec(s2.accept(TokenKindView::Comma));
    (
        if s.kind() is Lt && s2.kind() is Comma && s3.kind() is Gt {
            match (first, second) {
                (Some(a), Some(b)) => Some((a, b)),
                _ => None,
            }
        } else {
            None
        },
        s3.accept(TokenKindView::Gt),
    )
}

/// A return type. Without a colon at the cursor there is none, which means
/// `Void`, and the cursor stays. After the colon stands `void`, a type
/// name, `Option<T>`, `Result<T, E>` or `List<T>`. The grammar never fails:
/// a parametrised type that lacks a bracket, a type name or its comma means
/// `Void`, with the cursor past those of its tokens that stand where they
/// belong, and anything else after the colon means `Void`, with the cursor
/// on it.
#[verifier::opaque]
pub open spec fn parse_return_type_spec(s: ParserView) -> (ValueTypeView, ParserView) {
    if s.kind() is Colon {
        let s1 = s.advance();
        match s1.kind() {
            TokenKindView::Identifier(name) => (type_named(name), s1.advance()),
            TokenKindView::Void => (ValueTypeView::Void, s1.advance()),
            TokenKindView::Option => {
                let (inner, s2) = one_parameter_spec(s1.advance());
                (
                    match inner {
                        Some(some) => ValueTypeView::OptionType(Box::new(some)),
                        None => ValueTypeView::Void,
                    },
                    s2,
                )
            },
            TokenKindView::Result => {
                let (inner, s2) = two_parameters_spec(s1.advance());
                (
                    match inner {
                        Some((success, failure)) => ValueTypeView::ResultType {
                            success: Box::new(success),
                            failure: Box::new(failure),
                        },
                        None => ValueTypeView::Void,
                    },
                    s2,
                )
            },
            TokenKindView::List => {
                let (inner, s2) = one_parameter_spec(s1.advance());
                (
                    match inner {
                        Some(element) => ValueTypeView::List(Box::new(element)),
                        None => ValueTypeView::Void,
                    },
                    s2,
                )
            },
            _ => (ValueTypeView::Void, s1),
        }
    } else {
        (ValueTypeView::Void, s)
    }
}

/// The parameters of a lambda between pipes, from the cursor to the closing
/// pipe: names with their types, separated by commas. Each is recorded in
/// the innermost scope.
#[verifier::opaque]
pub open spec fn pipe_params_spec(s: ParserView, acc: Seq<NodeView>) -> Parsed<Seq<NodeView>>
    decreases s.remaining(),
{
    match s.kind() {
        TokenKindView::Pipe => parsed(acc, s.advance()),
        TokenKindView::Comma => pipe_params_spec(s.advance(), acc),
        TokenKindView::Identifier(name) => match s.advance().expect(TokenKindView::Colon) {
            Err(e) => Parsed { result: Err(e), state: s.advance() },
            Ok(s2) => match s2.kind() {
                TokenKindView::Identifier(type_text) => pipe_params_spec(
                    s2.register_variable(
                        name,
                        type_named(type_text),
                        EnvVariableType::Immutable,
                    ).advance(),
                    acc.push(
                        NodeView::Variable {
                            name,
                            value_type: Some(type_named(type_text)),
                            line: s2.line_column().0,
                            column: s2.line_column().1,
                        },
                    ),
                ),
                _ => failed(s2, ParseErrorKind::ExpectedToken),
            },
        },
        TokenKindView::Eof => failed(s, ParseErrorKind::UnterminatedConstruct),
        _ => failed(s, ParseErrorKind::UnexpectedToken),
    }
}

/// The parameters of a lambda: between pipes, or one bare name with an
/// optional type, or none.
#[verifier::opaque]
pub open spec fn lambda_params_spec(s: ParserView) -> Parsed<Seq<NodeView>> {
    match s.kind() {
        TokenKindView::Pipe => pipe_params_spec(s.advance(), Seq::empty()),
        TokenKindView::Identifier(name) => {
            let s1 = s.advance();
            if s1.kind() is Colon {
                let s2 = s1.advance();
                match s2.kind() {
                    TokenKindView::Identifier(type_text) => parsed(
                        seq![
                            NodeView::Variable {
                                name,
                                value_type: Some(type_named(type_text)),
                                line: s2.line_column().0,
                                column: s2.line_column().1,
                            },
                        ],
                        s2.advance(),
                    ),
                    _ => failed(s2, ParseErrorKind::ExpectedToken),
                }
            } else {
                parsed(
                    seq![
                        NodeView::Variable {
                            name,
                            value_type: None,
                            line: s1.line_column().0,
                            column: s1.line_column().1,
                        },
                    ],
                    s1,
                )
            }
        },
        _ => parsed(Seq::empty(), s),
    }
}

/// The parameters of a function, from the cursor to the closing
/// parenthesis: names with optional types, separated by commas. Those with
/// a type are recorded in the innermost scope.
#[verifier::opaque]
pub open spec fn function_params_spec(s: ParserView, acc: Seq<NodeView>) -> Parsed<Seq<NodeView>>
    decreases s.remaining(),
{
    match s.kind() {
        TokenKindView::RParen => parsed(acc, s.advance()),
        TokenKindView::Comma => function_params_spec(s.advance(), acc),
        TokenKindView::Identifier(name) => {
            let s1 = s.advance();
            if s1.kind() is Colon {
                let s2 = s1.advance();
                match s2.kind() {
                    TokenKindView::Identifier(type_text) => function_params_spec(
                        s2.register_variable(
                            name,
                            type_named(type_text),
                            EnvVariableType::Immutable,
                        ).advance(),
                        acc.push(
                            NodeView::Variable {
                                name,
                                value_type: Some(type_named(type_text)),
                                line: s.line_column().0,
                                column: s.line_column().1,
                            },
                        ),
                    ),
                    _ => failed(s2, ParseErrorKind::ExpectedToken),
                }
            } else {
                function_params_spec(
                    s1,
                    acc.push(
                        NodeView::Variable {
                            name,
                            value_type: None,
                            line: s.line_column().0,
                            column: s.line_column().1,
                        },
                    ),
                )
            }
        },
        TokenKindView::Eof => failed(s, ParseErrorKind::UnterminatedConstruct),
        _ => failed(s, ParseErrorKind::UnexpectedToken),
    }
}

/// The fields of a struct declaration, from the cursor to the closing
/// brace: names with their types, separated by commas.
#[verifier::opaque]
pub open spec fn struct_fields_spec(s: ParserView, acc: Seq<FieldDefView>) -> Parsed<
    Seq<FieldDefView>,
>
    decreases s.remaining(),
{
    match s.kind() {
        TokenKindView::RBrace => parsed(acc, s.advance()),
        TokenKindView::Comma => struct_fields_spec(s.advance(), acc),
        TokenKindView::Identifier(name) => match s.advance().expect(TokenKindView::Colon) {
            Err(e) => Parsed { result: Err(e), state: s.advance() },
            Ok(s2) => match s2.kind() {
                TokenKindView::Identifier(type_text) => struct_fields_spec(
                    s2.advance(),
                    acc.push(FieldDefView { name, value_type: type_named(type_text) }),
                ),
                _ => failed(s2, ParseErrorKind::ExpectedToken),
            },
        },
        TokenKindView::Eof => failed(s, ParseErrorKind::UnterminatedConstruct),
        _ => failed(s, ParseErrorKind::UnexpectedToken),
    }
}

/// The symbols of an import, from the cursor to `from`: names separated by
/// commas.
#[verifier::opaque]
pub open spec fn import_symbols_spec(s: ParserView, acc: Seq<Seq<char>>) -> Parsed<Seq<Seq<char>>>
    decreases s.remaining(),
{
    match s.kind() {
        TokenKindView::From => parsed(acc, s.advance()),
        TokenKindView::Comma => import_symbols_spec(s.advance(), acc),
        TokenKindView::Identifier(name) => import_symbols_spec(
            s.register_struct_name(name).advance(),
            acc.push(name),
        ),
        _ => failed(s, ParseErrorKind::ExpectedToken),
    }
}

/// `import a, b from m`. The symbols are recorded as names that may be
/// instantiated.
#[verifier::opaque]
pub open spec fn parse_import_spec(s: ParserView) -> Parsed<NodeView> {
    let symbols = import_symbols_spec(s.advance(), Seq::empty());
    match symbols.result {
        Err(e) => Parsed { result: Err(e), state: symbols.state },
        Ok(names) => match symbols.state.kind() {
            TokenKindView::Identifier(module_name) => parsed(
                NodeView::Import {
                    module_name,
                    symbols: names,
                    line: s.line_column().0,
                    column: s.line_column().1,
                },
                symbols.state.advance(),
            ),
            _ => failed(symbols.state, ParseErrorKind::ExpectedToken),
        },
    }
}

/// A struct declaration: the keyword, the name, and the fields in braces.
/// The name is recorded as one that may be instantiated. A public struct is
/// wrapped in a `Public` node.
#[verifier::opaque]
pub open spec fn parse_struct_spec(s: ParserView) -> Parsed<NodeView> {
    let public = s.kind() is PublicStruct;
    let s1 = s.advance();
    match s1.kind() {
        TokenKindView::Identifier(name) => match s1.advance().expect(TokenKindView::LBrace) {
            Err(e) => Parsed { result: Err(e), state: s1.advance() },
            Ok(s2) => {
                let fields = struct_fields_spec(s2, Seq::empty());
                match fields.result {
                    Err(e) => Parsed { result: Err(e), state: fields.state },
                    Ok(defs) => {
                        let node = NodeView::Struct {
                            name,
                            fields: defs,
                            line: s.line_column().0,
                            column: s.line_column().1,
                        };
                        parsed(
                            if public {
                                NodeView::Public {
                                    node: Box::new(node),
                                    line: s.line_column().0,
                                    column: s.line_column().1,
                                }
                            } else {
                                node
                            },
                            fields.state.register_struct_name(name),
                        )
                    },
                }
            },
        },
        _ => failed(s1, ParseErrorKind::ExpectedToken),
    }
}

/// The value of a literal node, if the node is one.
pub open spec fn literal_value(node: NodeView) -> Option<ValueView> {
    match node {
        NodeView::Literal { value, .. } => Some(value),
        _ => None,
    }
}

/// Whether every node is a literal.
pub open spec fn all_literals(nodes: Seq<NodeView>) -> bool {
    forall|i: int| 0 <= i < nodes.len() ==> #[trigger] literal_value(nodes[i]) is Some
}

/// The values of literal nodes, in order.
pub open spec fn literal_values(nodes: Seq<NodeView>) -> Seq<ValueView> {
    Seq::new(
        nodes.len(),
        |i: int|
            match literal_value(nodes[i]) {
                Some(v) => v,
                None => ValueView::Void,
            },
    )
}

/// What a parenthesised sequence of expressions stands for: the expression
/// itself where there is one, else the arguments of a call.
pub open spec fn group_node(items: Seq<NodeView>, line: usize, column: usize) -> NodeView {
    if items.len() == 1 {
        items[0]
    } else {
        NodeView::FunctionCallArgs { args: items, line, column }
    }
}

/// What a call of `callee` with `args` stands for: a call by name where the
/// callee is a name, else a call of a lambda expression.
pub open spec fn call_node(callee: NodeView, args: Seq<NodeView>, line: usize, column: usize) -> NodeView {
    match callee {
        NodeView::Variable { name, .. } => NodeView::FunctionCall {
            name,
            arguments: Box::new(NodeView::FunctionCallArgs { args, line, column }),
            line,
            column,
        },
        _ => NodeView::LambdaCall { lambda: Box::new(callee), arguments: args, line, column },
    }
}

/// The arguments that a lambda is called with where `left` stands before
/// the arrow: the arguments of a parenthesised sequence, else `left` alone.
pub open spec fn lambda_call_arguments(left: NodeView) -> Seq<NodeView> {
    match left {
        NodeView::FunctionCallArgs { args, .. } => args,
        _ => seq![left],
    }
}

/// An expression one level of nesting deeper. Fails with `NestingLimit`
/// where no deeper level is left.
#[verifier::opaque]
pub open spec fn nested_expression_spec(s: ParserView, min_power: u8, depth: nat) -> Parsed<NodeView>
    decreases depth, 0nat, s.remaining(),
{
    if depth == 0 {
        failed(s, ParseErrorKind::NestingLimit)
    } else {
        parse_expression_spec(s, min_power, (depth - 1) as nat)
    }
}

/// A statement one level of nesting deeper. Fails with `NestingLimit` where
/// no deeper level is left.
#[verifier::opaque]
pub open spec fn nested_statement_spec(s: ParserView, depth: nat) -> Parsed<NodeView>
    decreases depth, 0nat, s.remaining(),
{
    if depth == 0 {
        failed(s, ParseErrorKind::NestingLimit)
    } else {
        parse_statement_spec(s, (depth - 1) as nat)
    }
}

/// A body one level of nesting deeper. Fails with `NestingLimit` where no
/// deeper level is left.
#[verifier::opaque]
pub open spec fn nested_body_spec(s: ParserView, depth: nat) -> Parsed<NodeView>
    decreases depth, 0nat, s.remaining(),
{
    if depth == 0 {
        failed(s, ParseErrorKind::NestingLimit)
    } else {
        parse_body_spec(s, (depth - 1) as nat)
    }
}

/// An expression: a prefix form, then infix operators that bind at least
/// as tightly as `min_power`.
#[verifier::opaque]
pub open spec fn parse_expression_spec(s: ParserView, min_power: u8, depth: nat) -> Parsed<NodeView>
    decreases depth, 7nat, s.remaining(),
{
    let left = parse_prefix_spec(s, depth);
    match left.result {
        Err(_) => left,
        Ok(node) => infix_loop_spec(left.state, node, min_power, depth),
    }
}

/// The infix operators after `left`. An operator that binds less tightly
/// than `min_power` on its left ends the expression; else its right operand
/// is the expression, one level deeper, that binds at least as tightly as
/// the operator does on its right.
#[verifier::opaque]
pub open spec fn infix_loop_spec(s: ParserView, left: NodeView, min_power: u8, depth: nat) -> Parsed<
    NodeView,
>
    decreases depth, 6nat, s.remaining(),
{
    match infix_power(s.kind()) {
        None => parsed(left, s),
        Some((left_power, right_power)) => if left_power < min_power {
            parsed(left, s)
        } else {
            let right = nested_expression_spec(s.advance(), right_power, depth);
            match right.result {
                Err(_) => right,
                Ok(operand) => {
                    let node = infix_node(
                        s.kind(),
                        left,
                        operand,
                        s.line_column().0,
                        s.line_column().1,
                    );
                    if right.state.remaining() < s.remaining() {
                        infix_loop_spec(right.state, node, min_power, depth)
                    } else {
                        parsed(node, right.state)
                    }
                },
            }
        },
    }
}

/// A prefix form: `-` before an expression, one level deeper, that binds as
/// tightly as a prefix operator; or a primary form with the postfix forms
/// after it.
#[verifier::opaque]
pub open spec fn parse_prefix_spec(s: ParserView, depth: nat) -> Parsed<NodeView>
    decreases depth, 5nat, s.remaining(),
{
    if s.kind() is Minus {
        let operand = nested_expression_spec(s.advance(), PREFIX_POWER, depth);
        match operand.result {
            Err(_) => operand,
            Ok(expr) => parsed(
                NodeView::PrefixOp {
                    op: TokenKindView::Minus,
                    expr: Box::new(expr),
                    line: s.line_column().0,
                    column: s.line_column().1,
                },
                operand.state,
            ),
        }
    } else {
        let primary = parse_primary_spec(s, depth);
        match primary.result {
            Err(_) => primary,
            Ok(node) => postfix_loop_spec(primary.state, node, depth),
        }
    }
}

/// What one postfix form gives: the node so far, and whether a form was
/// parsed, so that another may follow.
pub struct Postfix {
    pub node: NodeView,
    pub more: bool,
}

/// A call in parentheses after `left`, with the cursor on the opening
/// parenthesis.
#[verifier::opaque]
pub open spec fn call_step_spec(s: ParserView, left: NodeView, depth: nat) -> Parsed<Postfix>
    decreases depth, 2nat, s.remaining(),
{
    let args = parse_sequence_spec(s.advance(), TokenKindView::RParen, Seq::empty(), depth);
    match args.result {
        Err(e) => Parsed { result: Err(e), state: args.state },
        Ok(items) => parsed(
            Postfix {
                node: call_node(left, items, s.line_column().0, s.line_column().1),
                more: true,
            },
            args.state,
        ),
    }
}

/// What follows a dot and a name after `left`, with the cursor after the
/// name: the arguments of a method call, the value of a field assignment,
/// which ends the postfix forms, or nothing, which makes a field access.
/// `line` and `column` are the position of the dot, `builtin` is whether
/// the name is that of a builtin.
#[verifier::opaque]
pub open spec fn member_step_spec(
    s: ParserView,
    left: NodeView,
    name: Seq<char>,
    builtin: bool,
    line: usize,
    column: usize,
    depth: nat,
) -> Parsed<Postfix>
    decreases depth, 2nat, s.remaining(),
{
    match s.kind() {
        TokenKindView::LParen => {
            let args = parse_sequence_spec(s.advance(), TokenKindView::RParen, Seq::empty(), depth);
            match args.result {
                Err(e) => Parsed { result: Err(e), state: args.state },
                Ok(items) => parsed(
                    Postfix {
                        node: NodeView::MethodCall {
                            method_name: name,
                            caller: Box::new(left),
                            arguments: items,
                            builtin,
                            line,
                            column,
                        },
                        more: true,
                    },
                    args.state,
                ),
            }
        },
        TokenKindView::Equal => {
            let value = nested_expression_spec(s.advance(), 0, depth);
            match value.result {
                Err(e) => Parsed { result: Err(e), state: value.state },
                Ok(assigned) => parsed(
                    Postfix {
                        node: NodeView::StructFieldAssign {
                            instance: Box::new(left),
                            field_name: name,
                            value: Box::new(assigned),
                            line,
                            column,
                        },
                        more: false,
                    },
                    value.state,
                ),
            }
        },
        _ => parsed(
            Postfix {
                node: NodeView::StructFieldAccess {
                    instance: Box::new(left),
                    field_name: name,
                    line,
                    column,
                },
                more: true,
            },
            s,
        ),
    }
}

/// One postfix form after `left`, if one stands at the cursor: a call in
/// parentheses, a dot with a field access, a field assignment or a method
/// call, or an arrow before a lambda.
#[verifier::opaque]
pub open spec fn postfix_step_spec(s: ParserView, left: NodeView, depth: nat) -> Parsed<Postfix>
    decreases depth, 3nat, s.remaining(),
{
    match s.kind() {
        TokenKindView::LParen => call_step_spec(s, left, depth),
        TokenKindView::Dot => match s.advance().kind() {
            TokenKindView::Identifier(name) => member_step_spec(
                s.advance().advance(),
                left,
                name,
                s.builtin_names.contains(name),
                s.line_column().0,
                s.line_column().1,
                depth,
            ),
            _ => failed(s.advance(), ParseErrorKind::ExpectedToken),
        },
        TokenKindView::RArrow => if is_lambda_call_spec(s) {
            let call = parse_lambda_call_spec(s, left, depth);
            match call.result {
                Err(e) => Parsed { result: Err(e), state: call.state },
                Ok(node) => parsed(Postfix { node, more: true }, call.state),
            }
        } else {
            parsed(Postfix { node: left, more: false }, s)
        },
        _ => parsed(Postfix { node: left, more: false }, s),
    }
}

/// The postfix forms after `left`, one after another.
#[verifier::opaque]
pub open spec fn postfix_loop_spec(s: ParserView, left: NodeView, depth: nat) -> Parsed<NodeView>
    decreases depth, 4nat, s.remaining(),
{
    let step = postfix_step_spec(s, left, depth);
    match step.result {
        Err(e) => Parsed { result: Err(e), state: step.state },
        Ok(form) => if form.more && step.state.remaining() < s.remaining() {
            postfix_loop_spec(step.state, form.node, depth)
        } else {
            parsed(form.node, step.state)
        },
    }
}

/// A name as a primary form, with the cursor on it: a reassignment where
/// `=` follows, an instantiation where a brace follows and the name is
/// that of a struct, else a variable with the type that the scopes record
/// for it.
#[verifier::opaque]
pub open spec fn parse_name_spec(s: ParserView, name: Seq<char>, depth: nat) -> Parsed<NodeView>
    decreases depth, 2nat, s.remaining(),
{
    let variable = parsed(
        NodeView::Variable {
            name,
            value_type: s.find_type(name),
            line: s.line_column().0,
            column: s.line_column().1,
        },
        s.advance(),
    );
    match s.peek_kind() {
        TokenKindView::Equal => {
            let value = nested_expression_spec(s.advance().advance(), 0, depth);
            match value.result {
                Err(_) => value,
                Ok(assigned) => parsed(
                    NodeView::Assign {
                        name,
                        value: Box::new(assigned),
                        variable_type: EnvVariableType::Mutable,
                        value_type: ValueTypeView::Any,
                        is_new: false,
                        line: s.line_column().0,
                        column: s.line_column().1,
                    },
                    value.state,
                ),
            }
        },
        TokenKindView::LBrace => if s.struct_names.contains(name) {
            let fields = parse_inits_spec(s.advance().advance(), Seq::empty(), depth);
            match fields.result {
                Err(e) => Parsed { result: Err(e), state: fields.state },
                Ok(inits) => parsed(
                    NodeView::StructInstance {
                        name,
                        fields: inits,
                        line: s.line_column().0,
                        column: s.line_column().1,
                    },
                    fields.state,
                ),
            }
        } else {
            variable
        },
        _ => variable,
    }
}

/// A parenthesised sequence, with the cursor on the opening parenthesis.
#[verifier::opaque]
pub open spec fn parse_group_spec(s: ParserView, depth: nat) -> Parsed<NodeView>
    decreases depth, 2nat, s.remaining(),
{
    let items = parse_sequence_spec(s.advance(), TokenKindView::RParen, Seq::empty(), depth);
    match items.result {
        Err(e) => Parsed { result: Err(e), state: items.state },
        Ok(nodes) => parsed(group_node(nodes, s.line_column().0, s.line_column().1), items.state),
    }
}

/// A list of literals in brackets, with the cursor on the opening bracket.
#[verifier::opaque]
pub open spec fn parse_list_spec(s: ParserView, depth: nat) -> Parsed<NodeView>
    decreases depth, 2nat, s.remaining(),
{
    let items = parse_sequence_spec(s.advance(), TokenKindView::RBrancket, Seq::empty(), depth);
    match items.result {
        Err(e) => Parsed { result: Err(e), state: items.state },
        Ok(nodes) => if all_literals(nodes) {
            parsed(
                NodeView::Literal {
                    value: ValueView::List(literal_values(nodes)),
                    line: s.line_column().0,
                    column: s.line_column().1,
                },
                items.state,
            )
        } else {
            failed(items.state, ParseErrorKind::UnexpectedToken)
        },
    }
}

/// A primary form: a literal, `self`, a name, a parenthesised sequence, a
/// list of literals in brackets, or a lambda.
#[verifier::opaque]
pub open spec fn parse_primary_spec(s: ParserView, depth: nat) -> Parsed<NodeView>
    decreases depth, 3nat, s.remaining(),
{
    match s.kind() {
        TokenKindView::Number(n) => parse_literal_spec(s, ValueView::Number(n)),
        TokenKindView::String(text) => parse_literal_spec(s, ValueView::String(text)),
        TokenKindView::True => parse_literal_spec(s, ValueView::Bool(true)),
        TokenKindView::False => parse_literal_spec(s, ValueView::Bool(false)),
        TokenKindView::Void => parse_literal_spec(s, ValueView::Void),
        TokenKindView::SelfValue => parsed(
            NodeView::Variable {
                name: "self"@,
                value_type: None,
                line: s.line_column().0,
                column: s.line_column().1,
            },
            s.advance(),
        ),
        TokenKindView::Identifier(name) => parse_name_spec(s, name, depth),
        TokenKindView::LParen => parse_group_spec(s, depth),
        TokenKindView::LBrancket => parse_list_spec(s, depth),
        TokenKindView::BackSlash => parse_lambda_spec(s, depth),
        _ => failed(s, ParseErrorKind::UnexpectedToken),
    }
}

/// Expressions separated by commas, from the cursor to the token `closer`,
/// past which the cursor moves, added to `acc`. Each expression stands one
/// level deeper.
#[verifier::opaque]
pub open spec fn parse_sequence_spec(
    s: ParserView,
    closer: TokenKindView,
    acc: Seq<NodeView>,
    depth: nat,
) -> Parsed<Seq<NodeView>>
    decreases depth, 1nat, s.remaining(),
{
    if s.kind() == closer {
        parsed(acc, s.advance())
    } else if s.kind() is Eof {
        failed(s, ParseErrorKind::UnterminatedConstruct)
    } else {
        let item = nested_expression_spec(s, 0, depth);
        match item.result {
            Err(e) => Parsed { result: Err(e), state: item.state },
            Ok(node) => {
                let next = item.state.accept(TokenKindView::Comma);
                if next.remaining() < s.remaining() {
                    parse_sequence_spec(next, closer, acc.push(node), depth)
                } else {
                    failed(next, ParseErrorKind::UnexpectedToken)
                }
            },
        }
    }
}

/// The field initialisers of an instantiation, from the cursor to the
/// closing brace: names with their expressions, separated by commas. Each
/// expression stands one level deeper.
#[verifier::opaque]
pub open spec fn parse_inits_spec(s: ParserView, acc: Seq<FieldInitView>, depth: nat) -> Parsed<
    Seq<FieldInitView>,
>
    decreases depth, 1nat, s.remaining(),
{
    match s.kind() {
        TokenKindView::RBrace => parsed(acc, s.advance()),
        TokenKindView::Identifier(name) => match s.advance().expect(TokenKindView::Colon) {
            Err(e) => Parsed { result: Err(e), state: s.advance() },
            Ok(s2) => {
                let value = nested_expression_spec(s2, 0, depth);
                match value.result {
                    Err(e) => Parsed { result: Err(e), state: value.state },
                    Ok(node) => {
                        let next = value.state.accept(TokenKindView::Comma);
                        if next.remaining() < s.remaining() {
                            parse_inits_spec(
                                next,
                                acc.push(FieldInitView { name, value: node }),
                                depth,
                            )
                        } else {
                            failed(next, ParseErrorKind::UnexpectedToken)
                        }
                    },
                }
            },
        },
        TokenKindView::Eof => failed(s, ParseErrorKind::UnterminatedConstruct),
        _ => failed(s, ParseErrorKind::UnexpectedToken),
    }
}

/// The body of a lambda or a function: a block where a brace stands at the
/// cursor, else one expression.
#[verifier::opaque]
pub open spec fn parse_body_spec(s: ParserView, depth: nat) -> Parsed<NodeView>
    decreases depth, 10nat, s.remaining(),
{
    if s.kind() is LBrace {
        parse_block_spec(s, depth)
    } else {
        parse_expression_spec(s, 0, depth)
    }
}

/// A lambda: `\`, the parameters, `=>`, and the body, one level deeper. The
/// parameters are recorded in a scope of the parser that lasts for the
/// lambda and is dropped on every way out.
#[verifier::opaque]
pub open spec fn parse_lambda_spec(s: ParserView, depth: nat) -> Parsed<NodeView>
    decreases depth, 1nat, s.remaining(),
{
    let params = lambda_params_spec(s.advance().enter_scope("lambda"@));
    match params.result {
        Err(e) => Parsed { result: Err(e), state: params.state.leave_scope() },
        Ok(arguments) => match params.state.expect(TokenKindView::RRocket) {
            Err(e) => Parsed { result: Err(e), state: params.state.leave_scope() },
            Ok(s2) => {
                let body = nested_body_spec(s2, depth);
                match body.result {
                    Err(e) => Parsed { result: Err(e), state: body.state.leave_scope() },
                    Ok(statement) => parsed(
                        NodeView::Lambda {
                            arguments,
                            body: Box::new(statement),
                            line: body.state.line_column().0,
                            column: body.state.line_column().1,
                        },
                        body.state.leave_scope(),
                    ),
                }
            },
        },
    }
}

/// A call of a lambda written after an arrow: the cursor moves past the
/// arrow, the lambda follows, and what stood before the arrow is what it is
/// called with.
#[verifier::opaque]
pub open spec fn parse_lambda_call_spec(s: ParserView, left: NodeView, depth: nat) -> Parsed<NodeView>
    decreases depth, 2nat, s.remaining(),
{
    let lambda = parse_lambda_spec(s.advance(), depth);
    match lambda.result {
        Err(_) => lambda,
        Ok(node) => parsed(
            NodeView::LambdaCall {
                lambda: Box::new(node),
                arguments: lambda_call_arguments(left),
                line: lambda.state.line_column().0,
                column: lambda.state.line_column().1,
            },
            lambda.state,
        ),
    }
}

/// `return` and the expression after it.
#[verifier::opaque]
pub open spec fn parse_return_spec(s: ParserView, depth: nat) -> Parsed<NodeView>
    decreases depth, 10nat, s.remaining(),
{
    let value = parse_expression_spec(s.advance(), 0, depth);
    match value.result {
        Err(_) => value,
        Ok(expr) => parsed(
            NodeView::Return {
                expr: Box::new(expr),
                line: value.state.line_column().0,
                column: value.state.line_column().1,
            },
            value.state,
        ),
    }
}

/// A block: statements in braces.
#[verifier::opaque]
pub open spec fn parse_block_spec(s: ParserView, depth: nat) -> Parsed<NodeView>
    decreases depth, 9nat, s.remaining(),
{
    match s.expect(TokenKindView::LBrace) {
        Err(e) => Parsed { result: Err(e), state: s },
        Ok(s1) => {
            let statements = block_loop_spec(s1, Seq::empty(), depth);
            match statements.result {
                Err(e) => Parsed { result: Err(e), state: statements.state },
                Ok(nodes) => parsed(
                    NodeView::Block {
                        nodes,
                        line: s.line_column().0,
                        column: s.line_column().1,
                    },
                    statements.state,
                ),
            }
        },
    }
}

/// The statements of a block, from the cursor to the closing brace. Each
/// stands one level deeper.
#[verifier::opaque]
pub open spec fn block_loop_spec(s: ParserView, acc: Seq<NodeView>, depth: nat) -> Parsed<
    Seq<NodeView>,
>
    decreases depth, 8nat, s.remaining(),
{
    if s.kind() is RBrace {
        parsed(acc, s.advance())
    } else if s.kind() is Eof {
        failed(s, ParseErrorKind::UnterminatedConstruct)
    } else {
        let statement = nested_statement_spec(s, depth);
        match statement.result {
            Err(e) => Parsed { result: Err(e), state: statement.state },
            Ok(node) => if statement.state.remaining() < s.remaining() {
                block_loop_spec(statement.state, acc.push(node), depth)
            } else {
                failed(statement.state, ParseErrorKind::UnexpectedToken)
            },
        }
    }
}

/// The type of a declaration: the type name after a colon, where a colon
/// stands at the cursor, else `Any`.
pub open spec fn annotation_spec(s: ParserView) -> Parsed<ValueTypeView> {
    if s.kind() is Colon {
        match s.advance().kind() {
            TokenKindView::Identifier(type_text) => parsed(
                type_named(type_text),
                s.advance().advance(),
            ),
            _ => failed(s.advance(), ParseErrorKind::ExpectedToken),
        }
    } else {
        parsed(ValueTypeView::Any, s)
    }
}

/// A declaration: the mutability keyword, the name, an optional type after
/// a colon, `=`, and the expression.
#[verifier::opaque]
pub open spec fn parse_declaration_spec(s: ParserView, depth: nat) -> Parsed<NodeView>
    decreases depth, 10nat, s.remaining(),
{
    let variable_type = if s.kind() is Mutable {
        EnvVariableType::Mutable
    } else {
        EnvVariableType::Immutable
    };
    let s1 = s.advance();
    match s1.kind() {
        TokenKindView::Identifier(name) => {
            let annotated = annotation_spec(s1.advance());
            match annotated.result {
                Err(e) => Parsed { result: Err(e), state: annotated.state },
                Ok(value_type) => match annotated.state.expect(TokenKindView::Equal) {
                    Err(e) => Parsed { result: Err(e), state: annotated.state },
                    Ok(s4) => {
                        let value = parse_expression_spec(s4, 0, depth);
                        match value.result {
                            Err(_) => value,
                            Ok(expr) => parsed(
                                NodeView::Assign {
                                    name,
                                    value: Box::new(expr),
                                    variable_type,
                                    value_type,
                                    is_new: true,
                                    line: s.line_column().0,
                                    column: s.line_column().1,
                                },
                                value.state,
                            ),
                        }
                    },
                },
            }
        },
        _ => failed(s1, ParseErrorKind::ExpectedToken),
    }
}

/// A function declaration: the keyword, the name, the parameters in
/// parentheses, an optional return type, and the body. The typed
/// parameters are recorded in a scope of the parser that lasts for the
/// function and is dropped on every way out.
#[verifier::opaque]
pub open spec fn parse_function_spec(s: ParserView, depth: nat) -> Parsed<NodeView>
    decreases depth, 11nat, s.remaining(),
{
    let s1 = s.advance();
    match s1.kind() {
        TokenKindView::Identifier(name) => match s1.advance().expect(TokenKindView::LParen) {
            Err(e) => Parsed { result: Err(e), state: s1.advance() },
            Ok(s2) => {
                let params = function_params_spec(s2.enter_scope(name), Seq::empty());
                match params.result {
                    Err(e) => Parsed { result: Err(e), state: params.state.leave_scope() },
                    Ok(arguments) => {
                        let (return_type, s3) = parse_return_type_spec(params.state);
                        let body = parse_body_spec(s3, depth);
                        match body.result {
                            Err(e) => Parsed { result: Err(e), state: body.state.leave_scope() },
                            Ok(statement) => parsed(
                                NodeView::Function {
                                    name,
                                    arguments,
                                    body: Box::new(statement),
                                    return_type,
                                    line: s.line_column().0,
                                    column: s.line_column().1,
                                },
                                body.state.leave_scope(),
                            ),
                        }
                    },
                }
            },
        },
        _ => failed(s1, ParseErrorKind::ExpectedToken),
    }
}

/// The methods of an `impl`, from the cursor to the closing brace: function
/// declarations.
#[verifier::opaque]
pub open spec fn impl_methods_spec(s: ParserView, acc: Seq<NodeView>, depth: nat) -> Parsed<
    Seq<NodeView>,
>
    decreases depth, 12nat, s.remaining(),
{
    match s.kind() {
        TokenKindView::RBrace => parsed(acc, s.advance()),
        TokenKindView::Function => {
            let method = parse_function_spec(s, depth);
            match method.result {
                Err(e) => Parsed { result: Err(e), state: method.state },
                Ok(node) => if method.state.remaining() < s.remaining() {
                    impl_methods_spec(method.state, acc.push(node), depth)
                } else {
                    failed(method.state, ParseErrorKind::UnexpectedToken)
                },
            }
        },
        TokenKindView::Eof => failed(s, ParseErrorKind::UnterminatedConstruct),
        _ => failed(s, ParseErrorKind::UnexpectedToken),
    }
}

/// An `impl`: the keyword, the struct's name, and the methods in braces.
#[verifier::opaque]
pub open spec fn parse_impl_spec(s: ParserView, depth: nat) -> Parsed<NodeView>
    decreases depth, 13nat, s.remaining(),
{
    let s1 = s.advance();
    match s1.kind() {
        TokenKindView::Identifier(name) => match s1.advance().expect(TokenKindView::LBrace) {
            Err(e) => Parsed { result: Err(e), state: s1.advance() },
            Ok(s2) => {
                let methods = impl_methods_spec(s2, Seq::empty(), depth);
                match methods.result {
                    Err(e) => Parsed { result: Err(e), state: methods.state },
                    Ok(nodes) => parsed(
                        NodeView::Impl {
                            base_struct: name,
                            methods: nodes,
                            line: s.line_column().0,
                            column: s.line_column().1,
                        },
                        methods.state,
                    ),
                }
            },
        },
        _ => failed(s1, ParseErrorKind::ExpectedToken),
    }
}

/// What follows the block of an `if`: after `else`, another `if`, one level
/// deeper, or a block; else nothing.
#[verifier::opaque]
pub open spec fn parse_else_spec(s: ParserView, depth: nat) -> Parsed<Option<NodeView>>
    decreases depth, 10nat, s.remaining(),
{
    if s.kind() is Else {
        let s2 = s.advance();
        let otherwise = if s2.kind() is If {
            nested_statement_spec(s2, depth)
        } else {
            parse_block_spec(s2, depth)
        };
        match otherwise.result {
            Err(e) => Parsed { result: Err(e), state: otherwise.state },
            Ok(alternative) => parsed(Some(alternative), otherwise.state),
        }
    } else {
        parsed(None, s)
    }
}

/// An `if`: the keyword, the condition, the block, and what follows it.
#[verifier::opaque]
pub open spec fn parse_if_spec(s: ParserView, depth: nat) -> Parsed<NodeView>
    decreases depth, 11nat, s.remaining(),
{
    let condition = parse_expression_spec(s.advance(), 0, depth);
    match condition.result {
        Err(_) => condition,
        Ok(test) => {
            let then = parse_block_spec(condition.state, depth);
            match then.result {
                Err(_) => then,
                Ok(block) => {
                    let otherwise = parse_else_spec(then.state, depth);
                    match otherwise.result {
                        Err(e) => Parsed { result: Err(e), state: otherwise.state },
                        Ok(alternative) => parsed(
                            NodeView::If {
                                condition: Box::new(test),
                                then: Box::new(block),
                                else_: match alternative {
                                    Some(node) => Some(Box::new(node)),
                                    None => None,
                                },
                                value_type: ValueTypeView::Void,
                                line: s.line_column().0,
                                column: s.line_column().1,
                            },
                            otherwise.state,
                        ),
                    }
                },
            }
        },
    }
}

/// A `for`: the keyword, the loop variable, `in`, the expression for the
/// list, and the block.
#[verifier::opaque]
pub open spec fn parse_for_spec(s: ParserView, depth: nat) -> Parsed<NodeView>
    decreases depth, 10nat, s.remaining(),
{
    let s1 = s.advance();
    match s1.kind() {
        TokenKindView::Identifier(variable) => match s1.advance().expect(TokenKindView::In) {
            Err(e) => Parsed { result: Err(e), state: s1.advance() },
            Ok(s2) => {
                let iterable = parse_expression_spec(s2, 0, depth);
                match iterable.result {
                    Err(_) => iterable,
                    Ok(list) => {
                        let body = parse_block_spec(iterable.state, depth);
                        match body.result {
                            Err(_) => body,
                            Ok(block) => parsed(
                                NodeView::For {
                                    variable,
                                    iterable: Box::new(list),
                                    body: Box::new(block),
                                    line: s.line_column().0,
                                    column: s.line_column().1,
                                },
                                body.state,
                            ),
                        }
                    },
                }
            },
        },
        _ => failed(s1, ParseErrorKind::ExpectedToken),
    }
}

/// A comment, a `continue`, an `import` or a struct declaration, where one
/// of them stands at the cursor.
pub open spec fn parse_simple_statement_spec(s: ParserView) -> Option<Parsed<NodeView>> {
    match s.kind() {
        TokenKindView::PublicStruct => Some(parse_struct_spec(s)),
        TokenKindView::PrivateStruct => Some(parse_struct_spec(s)),
        TokenKindView::Import => Some(parse_import_spec(s)),
        TokenKindView::Continue => Some(parse_continue_spec(s)),
        TokenKindView::CommentBlock(comment) => Some(
            parsed(
                NodeView::CommentBlock {
                    comment,
                    line: s.line_column().0,
                    column: s.line_column().1,
                },
                s.advance(),
            ),
        ),
        TokenKindView::CommentLine(comment) => Some(
            parsed(
                NodeView::CommentBlock {
                    comment,
                    line: s.line_column().0,
                    column: s.line_column().1,
                },
                s.advance(),
            ),
        ),
        _ => None,
    }
}

/// A statement after `pub`, one level deeper, wrapped in a `Public` node.
#[verifier::opaque]
pub open spec fn parse_public_spec(s: ParserView, depth: nat) -> Parsed<NodeView>
    decreases depth, 13nat, s.remaining(),
{
    let inner = nested_statement_spec(s.advance(), depth);
    match inner.result {
        Err(_) => inner,
        Ok(node) => parsed(
            NodeView::Public {
                node: Box::new(node),
                line: s.line_column().0,
                column: s.line_column().1,
            },
            inner.state,
        ),
    }
}

/// A statement: a declaration, a function, a struct, an `impl`, an `if`, a
/// `for`, a `return`, an `import`, a `continue`, a comment, a public
/// statement, a block, or an expression.
#[verifier::opaque]
pub open spec fn parse_statement_spec(s: ParserView, depth: nat) -> Parsed<NodeView>
    decreases depth, 14nat, s.remaining(),
{
    match parse_simple_statement_spec(s) {
        Some(simple) => simple,
        None => match s.kind() {
            TokenKindView::Immutable => parse_declaration_spec(s, depth),
            TokenKindView::Mutable => parse_declaration_spec(s, depth),
            TokenKindView::Function => parse_function_spec(s, depth),
            TokenKindView::Impl => parse_impl_spec(s, depth),
            TokenKindView::If => parse_if_spec(s, depth),
            TokenKindView::For => parse_for_spec(s, depth),
            TokenKindView::Return => parse_return_spec(s, depth),
            TokenKindView::Pub => parse_public_spec(s, depth),
            TokenKindView::LBrace => parse_block_spec(s, depth),
            _ => parse_expression_spec(s, 0, depth),
        },
    }
}

/// What parsing a program gives: the statements before the first that
/// failed, the error of that one, if one failed, and the state after.
pub struct ParsedProgram {
    pub nodes: Seq<NodeView>,
    pub error: Option<ParseError>,
    pub state: ParserView,
}

/// The statements of a program, from the cursor to the end of the input.
/// The first statement that fails ends the parse.
#[verifier::opaque]
pub open spec fn parse_lines_spec(s: ParserView, acc: Seq<NodeView>, depth: nat) -> ParsedProgram
    decreases s.remaining(),
{
    if s.kind() is Eof {
        ParsedProgram { nodes: acc, error: None, state: s }
    } else {
        let statement = parse_statement_spec(s, depth);
        match statement.result {
            Err(e) => ParsedProgram { nodes: acc, error: Some(e), state: statement.state },
            Ok(node) => if statement.state.remaining() < s.remaining() {
                parse_lines_spec(statement.state, acc.push(node), depth)
            } else {
                ParsedProgram {
                    nodes: acc.push(node),
                    error: Some(statement.state.error(ParseErrorKind::UnexpectedToken)),
                    state: statement.state,
                }
            },
        }
    }
}

} // verus!
