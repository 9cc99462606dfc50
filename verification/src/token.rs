//! Tokens: what the parser reads.

use crate::number::Number;

use vstd::prelude::*;

verus! {

/// Whether two strings hold the same text.
pub fn same_text(a: &String, b: &String) -> (r: bool)
    ensures
        r == (a@ == b@),
{
    *a == *b
}

/// The kind of a token, with its payload where it has one.
#[derive(Debug, PartialEq)]
pub enum TokenKind {
    /// An identifier.
    Identifier(String),
    /// A string literal.
    String(String),
    /// A number literal.
    Number(Number),
    /// A block comment.
    CommentBlock(String),
    /// A line comment.
    CommentLine(String),
    /// The keyword that declares an immutable variable.
    Immutable,
    /// The keyword that declares a mutable variable.
    Mutable,
    /// `:`
    Colon,
    /// The keyword `void`.
    Void,
    /// `=`
    Equal,
    /// `+`
    Plus,
    /// `-`
    Minus,
    /// `*`
    Mul,
    /// `/`
    Div,
    /// `(`
    LParen,
    /// `)`
    RParen,
    /// `{`
    LBrace,
    /// `}`
    RBrace,
    /// The end of the input.
    Eof,
    /// The keyword that introduces a function.
    Function,
    /// `\\`, which introduces a lambda.
    BackSlash,
    /// `|`
    Pipe,
    /// The keyword `return`.
    Return,
    /// `,`
    Comma,
    /// `->`
    RArrow,
    /// The keyword `match`.
    Match,
    /// `[`
    LBrancket,
    /// `]`
    RBrancket,
    /// `=>`
    RRocket,
    /// The keyword `if`.
    If,
    /// The keyword `else`.
    Else,
    /// `==`
    Eq,
    /// `<=`
    Lte,
    /// `<`
    Lt,
    /// `>=`
    Gte,
    /// `>`
    Gt,
    /// The keywords that introduce a public struct.
    PublicStruct,
    /// The keyword that introduces a private struct.
    PrivateStruct,
    /// The keyword `pub`.
    Pub,
    /// `.`
    Dot,
    /// The keyword `impl`.
    Impl,
    /// The keyword `for`.
    For,
    /// The keyword `in`.
    In,
    /// The keyword `import`.
    Import,
    /// The keyword `from`.
    From,
    /// The keyword `continue`.
    Continue,
    /// The literal `true`.
    True,
    /// The literal `false`.
    False,
    /// The type constructor `Option`.
    Option,
    /// The type constructor `Result`.
    Result,
    /// The type constructor `List`.
    List,
    /// The keyword `self`.
    SelfValue,
}

/// The mathematical model of a [`TokenKind`]: text is a sequence of
/// characters.
pub enum TokenKindView {
    Identifier(Seq<char>),
    String(Seq<char>),
    Number(Number),
    CommentBlock(Seq<char>),
    CommentLine(Seq<char>),
    Immutable,
    Mutable,
    Colon,
    Void,
    Equal,
    Plus,
    Minus,
    Mul,
    Div,
    LParen,
    RParen,
    LBrace,
    RBrace,
    Eof,
    Function,
    BackSlash,
    Pipe,
    Return,
    Comma,
    RArrow,
    Match,
    LBrancket,
    RBrancket,
    RRocket,
    If,
    Else,
    Eq,
    Lte,
    Lt,
    Gte,
    Gt,
    PublicStruct,
    PrivateStruct,
    Pub,
    Dot,
    Impl,
    For,
    In,
    Import,
    From,
    Continue,
    True,
    False,
    Option,
    Result,
    List,
    SelfValue,
}

impl View for TokenKind {
    type V = TokenKindView;

    open spec fn view(&self) -> TokenKindView {
        match *self {
            TokenKind::Identifier(s) => TokenKindView::Identifier(s@),
            TokenKind::String(s) => TokenKindView::String(s@),
            TokenKind::CommentBlock(s) => TokenKindView::CommentBlock(s@),
            TokenKind::CommentLine(s) => TokenKindView::CommentLine(s@),
            TokenKind::Number(n) => TokenKindView::Number(n),
            TokenKind::Immutable => TokenKindView::Immutable,
            TokenKind::Mutable => TokenKindView::Mutable,
            TokenKind::Colon => TokenKindView::Colon,
            TokenKind::Void => TokenKindView::Void,
            TokenKind::Equal => TokenKindView::Equal,
            TokenKind::Plus => TokenKindView::Plus,
            TokenKind::Minus => TokenKindView::Minus,
            TokenKind::Mul => TokenKindView::Mul,
            TokenKind::Div => TokenKindView::Div,
            TokenKind::LParen => TokenKindView::LParen,
            TokenKind::RParen => TokenKindView::RParen,
            TokenKind::LBrace => TokenKindView::LBrace,
            TokenKind::RBrace => TokenKindView::RBrace,
            TokenKind::Eof => TokenKindView::Eof,
            TokenKind::Function => TokenKindView::Function,
            TokenKind::BackSlash => TokenKindView::BackSlash,
            TokenKind::Pipe => TokenKindView::Pipe,
            TokenKind::Return => TokenKindView::Return,
            TokenKind::Comma => TokenKindView::Comma,
            TokenKind::RArrow => TokenKindView::RArrow,
            TokenKind::Match => TokenKindView::Match,
            TokenKind::LBrancket => TokenKindView::LBrancket,
            TokenKind::RBrancket => TokenKindView::RBrancket,
            TokenKind::RRocket => TokenKindView::RRocket,
            TokenKind::If => TokenKindView::If,
            TokenKind::Else => TokenKindView::Else,
            TokenKind::Eq => TokenKindView::Eq,
            TokenKind::Lte => TokenKindView::Lte,
            TokenKind::Lt => TokenKindView::Lt,
            TokenKind::Gte => TokenKindView::Gte,
            TokenKind::Gt => TokenKindView::Gt,
            TokenKind::PublicStruct => TokenKindView::PublicStruct,
            TokenKind::PrivateStruct => TokenKindView::PrivateStruct,
            TokenKind::Pub => TokenKindView::Pub,
            TokenKind::Dot => TokenKindView::Dot,
            TokenKind::Impl => TokenKindView::Impl,
            TokenKind::For => TokenKindView::For,
            TokenKind::In => TokenKindView::In,
            TokenKind::Import => TokenKindView::Import,
            TokenKind::From => TokenKindView::From,
            TokenKind::Continue => TokenKindView::Continue,
            TokenKind::True => TokenKindView::True,
            TokenKind::False => TokenKindView::False,
            TokenKind::Option => TokenKindView::Option,
            TokenKind::Result => TokenKindView::Result,
            TokenKind::List => TokenKindView::List,
            TokenKind::SelfValue => TokenKindView::SelfValue,
        }
    }
}

impl Clone for TokenKind {
    fn clone(&self) -> (r: Self)
        ensures
            r == *self,
    {
        match self {
            TokenKind::Identifier(s) => TokenKind::Identifier(s.clone()),
            TokenKind::String(s) => TokenKind::String(s.clone()),
            TokenKind::CommentBlock(s) => TokenKind::CommentBlock(s.clone()),
            TokenKind::CommentLine(s) => TokenKind::CommentLine(s.clone()),
            TokenKind::Number(n) => TokenKind::Number(*n),
            TokenKind::Immutable => TokenKind::Immutable,
            TokenKind::Mutable => TokenKind::Mutable,
            TokenKind::Colon => TokenKind::Colon,
            TokenKind::Void => TokenKind::Void,
            TokenKind::Equal => TokenKind::Equal,
            TokenKind::Plus => TokenKind::Plus,
            TokenKind::Minus => TokenKind::Minus,
            TokenKind::Mul => TokenKind::Mul,
            TokenKind::Div => TokenKind::Div,
            TokenKind::LParen => TokenKind::LParen,
            TokenKind::RParen => TokenKind::RParen,
            TokenKind::LBrace => TokenKind::LBrace,
            TokenKind::RBrace => TokenKind::RBrace,
            TokenKind::Eof => TokenKind::Eof,
            TokenKind::Function => TokenKind::Function,
            TokenKind::BackSlash => TokenKind::BackSlash,
            TokenKind::Pipe => TokenKind::Pipe,
            TokenKind::Return => TokenKind::Return,
            TokenKind::Comma => TokenKind::Comma,
            TokenKind::RArrow => TokenKind::RArrow,
            TokenKind::Match => TokenKind::Match,
            TokenKind::LBrancket => TokenKind::LBrancket,
            TokenKind::RBrancket => TokenKind::RBrancket,
            TokenKind::RRocket => TokenKind::RRocket,
            TokenKind::If => TokenKind::If,
            TokenKind::Else => TokenKind::Else,
            TokenKind::Eq => TokenKind::Eq,
            TokenKind::Lte => TokenKind::Lte,
            TokenKind::Lt => TokenKind::Lt,
            TokenKind::Gte => TokenKind::Gte,
            TokenKind::Gt => TokenKind::Gt,
            TokenKind::PublicStruct => TokenKind::PublicStruct,
            TokenKind::PrivateStruct => TokenKind::PrivateStruct,
            TokenKind::Pub => TokenKind::Pub,
            TokenKind::Dot => TokenKind::Dot,
            TokenKind::Impl => TokenKind::Impl,
            TokenKind::For => TokenKind::For,
            TokenKind::In => TokenKind::In,
            TokenKind::Import => TokenKind::Import,
            TokenKind::From => TokenKind::From,
            TokenKind::Continue => TokenKind::Continue,
            TokenKind::True => TokenKind::True,
            TokenKind::False => TokenKind::False,
            TokenKind::Option => TokenKind::Option,
            TokenKind::Result => TokenKind::Result,
            TokenKind::List => TokenKind::List,
            TokenKind::SelfValue => TokenKind::SelfValue,
        }
    }
}

impl TokenKind {
    /// Whether two kinds are the same, payload included.
    pub fn same(&self, other: &TokenKind) -> (r: bool)
        ensures
            r == (self@ == other@),
    {
        match (self, other) {
            (TokenKind::Identifier(a), TokenKind::Identifier(b)) => same_text(a, b),
            (TokenKind::String(a), TokenKind::String(b)) => same_text(a, b),
            (TokenKind::CommentBlock(a), TokenKind::CommentBlock(b)) => same_text(a, b),
            (TokenKind::CommentLine(a), TokenKind::CommentLine(b)) => same_text(a, b),
            (TokenKind::Number(a), TokenKind::Number(b)) => a.negative == b.negative
                && a.numer == b.numer && a.denom == b.denom,
            (TokenKind::Immutable, TokenKind::Immutable) => true,
            (TokenKind::Mutable, TokenKind::Mutable) => true,
            (TokenKind::Colon, TokenKind::Colon) => true,
            (TokenKind::Void, TokenKind::Void) => true,
            (TokenKind::Equal, TokenKind::Equal) => true,
            (TokenKind::Plus, TokenKind::Plus) => true,
            (TokenKind::Minus, TokenKind::Minus) => true,
            (TokenKind::Mul, TokenKind::Mul) => true,
            (TokenKind::Div, TokenKind::Div) => true,
            (TokenKind::LParen, TokenKind::LParen) => true,
            (TokenKind::RParen, TokenKind::RParen) => true,
            (TokenKind::LBrace, TokenKind::LBrace) => true,
            (TokenKind::RBrace, TokenKind::RBrace) => true,
            (TokenKind::Eof, TokenKind::Eof) => true,
            (TokenKind::Function, TokenKind::Function) => true,
            (TokenKind::BackSlash, TokenKind::BackSlash) => true,
            (TokenKind::Pipe, TokenKind::Pipe) => true,
            (TokenKind::Return, TokenKind::Return) => true,
            (TokenKind::Comma, TokenKind::Comma) => true,
            (TokenKind::RArrow, TokenKind::RArrow) => true,
            (TokenKind::Match, TokenKind::Match) => true,
            (TokenKind::LBrancket, TokenKind::LBrancket) => true,
            (TokenKind::RBrancket, TokenKind::RBrancket) => true,
            (TokenKind::RRocket, TokenKind::RRocket) => true,
            (TokenKind::If, TokenKind::If) => true,
            (TokenKind::Else, TokenKind::Else) => true,
            (TokenKind::Eq, TokenKind::Eq) => true,
            (TokenKind::Lte, TokenKind::Lte) => true,
            (TokenKind::Lt, TokenKind::Lt) => true,
            (TokenKind::Gte, TokenKind::Gte) => true,
            (TokenKind::Gt, TokenKind::Gt) => true,
            (TokenKind::PublicStruct, TokenKind::PublicStruct) => true,
            (TokenKind::PrivateStruct, TokenKind::PrivateStruct) => true,
            (TokenKind::Pub, TokenKind::Pub) => true,
            (TokenKind::Dot, TokenKind::Dot) => true,
            (TokenKind::Impl, TokenKind::Impl) => true,
            (TokenKind::For, TokenKind::For) => true,
            (TokenKind::In, TokenKind::In) => true,
            (TokenKind::Import, TokenKind::Import) => true,
            (TokenKind::From, TokenKind::From) => true,
            (TokenKind::Continue, TokenKind::Continue) => true,
            (TokenKind::True, TokenKind::True) => true,
            (TokenKind::False, TokenKind::False) => true,
            (TokenKind::Option, TokenKind::Option) => true,
            (TokenKind::Result, TokenKind::Result) => true,
            (TokenKind::List, TokenKind::List) => true,
            (TokenKind::SelfValue, TokenKind::SelfValue) => true,
            _ => false,
        }
    }
}

/// A token: its kind and where it starts in the source text.
#[derive(Debug, PartialEq)]
pub struct Token {
    pub kind: TokenKind,
    pub line: usize,
    pub column: usize,
}

/// The mathematical model of a [`Token`].
pub struct TokenView {
    pub kind: TokenKindView,
    pub line: usize,
    pub column: usize,
}

impl View for Token {
    type V = TokenView;

    open spec fn view(&self) -> TokenView {
        TokenView { kind: self.kind@, line: self.line, column: self.column }
    }
}

impl Clone for Token {
    fn clone(&self) -> (r: Self)
        ensures
            r == *self,
    {
        Token { kind: self.kind.clone(), line: self.line, column: self.column }
    }
}

impl Token {
    /// A token of the given kind at the given place.
    pub fn new(kind: TokenKind, line: usize, column: usize) -> (r: Token)
        ensures
            r == (Token { kind, line, column }),
    {
        Token { kind, line, column }
    }
}

/// The models of a sequence of tokens, in order.
pub open spec fn tokens_view(tokens: Seq<Token>) -> Seq<TokenView> {
    Seq::new(tokens.len(), |i: int| tokens[i]@)
}

} // verus!
