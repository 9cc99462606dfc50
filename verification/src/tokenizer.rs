//! The tokenizer: from source text to tokens.
//!
//! The lexical grammar is the function [`tokenize_spec`]; [`tokenize`] is
//! proved to compute it.

use crate::error::{ParseError, ParseErrorKind};
use crate::number::{reduced, Number};
use crate::token::{tokens_view, Token, TokenKind, TokenKindView, TokenView};
use vstd::prelude::*;
use vstd::string::StrSliceExecFns;

verus! {

/// A decimal digit.
pub open spec fn is_digit(c: char) -> bool {
    '0' <= c && c <= '9'
}

/// A character that can start a word: a letter or an underscore.
pub open spec fn is_word_start(c: char) -> bool {
    ('a' <= c && c <= 'z') || ('A' <= c && c <= 'Z') || c == '_'
}

/// A character that can continue a word.
pub open spec fn is_word_part(c: char) -> bool {
    is_word_start(c) || is_digit(c)
}

/// White space.
pub open spec fn is_space(c: char) -> bool {
    c == ' ' || c == '\t' || c == '\r' || c == '\n'
}

/// The classes of characters that a run can be made of.
#[derive(Clone, Copy, Debug, PartialEq, Eq)]
pub enum CharClass {
    /// Letters, digits and underscores.
    Word,
    /// Decimal digits.
    Digit,
    /// White space.
    Space,
    /// Everything but a double quote.
    InString,
    /// Everything but a line feed.
    InLine,
}

/// Whether a character belongs to a class.
pub open spec fn in_class(class: CharClass, c: char) -> bool {
    match class {
        CharClass::Word => is_word_part(c),
        CharClass::Digit => is_digit(c),
        CharClass::Space => is_space(c),
        CharClass::InString => c != '"',
        CharClass::InLine => c != '\n',
    }
}

/// Where the run of characters of a class that starts at `i` ends.
pub open spec fn run_end(chars: Seq<char>, i: int, class: CharClass) -> int
    decreases chars.len() - i,
{
    if 0 <= i < chars.len() && in_class(class, chars[i]) {
        run_end(chars, i + 1, class)
    } else {
        i
    }
}

/// The value of a decimal digit.
pub open spec fn digit_value(c: char) -> nat {
    (c as nat - '0' as nat) as nat
}

/// The number that the digits from `i` to `to` denote, read after the
/// number `acc`.
pub open spec fn digits_fold(chars: Seq<char>, i: int, to: int, acc: nat) -> nat
    decreases to - i,
{
    if i >= to {
        acc
    } else {
        digits_fold(chars, i + 1, to, acc * 10 + digit_value(chars[i]))
    }
}

/// Ten to the power of `n`, times `acc`.
pub open spec fn scale_fold(n: nat, acc: nat) -> nat
    decreases n,
{
    if n == 0 {
        acc
    } else {
        scale_fold((n - 1) as nat, acc * 10)
    }
}

/// The source position after one character.
pub open spec fn position_step(c: char, position: (usize, usize)) -> (usize, usize) {
    if c == '\n' {
        (
            if position.0 < usize::MAX {
                (position.0 + 1) as usize
            } else {
                position.0
            },
            1,
        )
    } else {
        (
            position.0,
            if position.1 < usize::MAX {
                (position.1 + 1) as usize
            } else {
                position.1
            },
        )
    }
}

/// The source position after the characters from `i` to `to`.
pub open spec fn position_after(chars: Seq<char>, i: int, to: int, position: (usize, usize)) -> (
    usize,
    usize,
)
    decreases to - i,
{
    if i >= to || i >= chars.len() || i < 0 {
        position
    } else {
        position_after(chars, i + 1, to, position_step(chars[i], position))
    }
}

/// What stands at a place of the text.
pub enum Lexeme {
    /// A token that ends at `end`.
    Token { kind: TokenKindView, end: int },
    /// White space that ends at `end`.
    Space { end: int },
    /// Nothing that the language knows.
    Error { kind: ParseErrorKind },
}

/// The keyword that a word is, if it is one.
pub open spec fn keyword(word: Seq<char>) -> Option<TokenKindView> {
    if word == "val"@ {
        Some(TokenKindView::Immutable)
    } else if word == "var"@ {
        Some(TokenKindView::Mutable)
    } else if word == "fun"@ {
        Some(TokenKindView::Function)
    } else if word == "return"@ {
        Some(TokenKindView::Return)
    } else if word == "match"@ {
        Some(TokenKindView::Match)
    } else if word == "if"@ {
        Some(TokenKindView::If)
    } else if word == "else"@ {
        Some(TokenKindView::Else)
    } else if word == "struct"@ {
        Some(TokenKindView::PrivateStruct)
    } else if word == "pub"@ {
        Some(TokenKindView::Pub)
    } else if word == "impl"@ {
        Some(TokenKindView::Impl)
    } else if word == "for"@ {
        Some(TokenKindView::For)
    } else if word == "in"@ {
        Some(TokenKindView::In)
    } else if word == "import"@ {
        Some(TokenKindView::Import)
    } else if word == "from"@ {
        Some(TokenKindView::From)
    } else if word == "continue"@ {
        Some(TokenKindView::Continue)
    } else if word == "true"@ {
        Some(TokenKindView::True)
    } else if word == "false"@ {
        Some(TokenKindView::False)
    } else if word == "Option"@ {
        Some(TokenKindView::Option)
    } else if word == "Result"@ {
        Some(TokenKindView::Result)
    } else if word == "List"@ {
        Some(TokenKindView::List)
    } else if word == "self"@ {
        Some(TokenKindView::SelfValue)
    } else if word == "void"@ {
        Some(TokenKindView::Void)
    } else {
        None
    }
}

/// The word that starts at `i`: a keyword or an identifier.
pub open spec fn word_at(chars: Seq<char>, i: int) -> Lexeme {
    let end = run_end(chars, i, CharClass::Word);
    let word = chars.subrange(i, end);
    Lexeme::Token {
        kind: match keyword(word) {
            Some(kind) => kind,
            None => TokenKindView::Identifier(word),
        },
        end,
    }
}

/// The number that starts at `i`: digits, and after a point that a digit
/// follows, more digits. It denotes the digits over the power of ten of
/// the count of digits after the point, in lowest terms. A number whose
/// digits do not fit in 64 bits is an error.
pub open spec fn number_at(chars: Seq<char>, i: int) -> Lexeme {
    let whole_end = run_end(chars, i, CharClass::Digit);
    let whole = digits_fold(chars, i, whole_end, 0);
    if whole_end + 1 < chars.len() && chars[whole_end] == '.' && is_digit(
        chars[whole_end + 1],
    ) {
        let end = run_end(chars, whole_end + 1, CharClass::Digit);
        let numer = digits_fold(chars, whole_end + 1, end, whole);
        let denom = scale_fold((end - whole_end - 1) as nat, 1);
        if numer <= u64::MAX && denom <= u64::MAX {
            Lexeme::Token {
                kind: TokenKindView::Number(
                    reduced(Number { negative: false, numer: numer as u64, denom: denom as u64 }),
                ),
                end,
            }
        } else {
            Lexeme::Error { kind: ParseErrorKind::UnexpectedToken }
        }
    } else if whole <= u64::MAX {
        Lexeme::Token {
            kind: TokenKindView::Number(Number { negative: false, numer: whole as u64, denom: 1 }),
            end: whole_end,
        }
    } else {
        Lexeme::Error { kind: ParseErrorKind::UnexpectedToken }
    }
}

/// The string that starts at the double quote at `i`: the characters up to
/// the next double quote. There are no escapes.
pub open spec fn string_at(chars: Seq<char>, i: int) -> Lexeme {
    let end = run_end(chars, i + 1, CharClass::InString);
    if end < chars.len() {
        Lexeme::Token {
            kind: TokenKindView::String(chars.subrange(i + 1, end)),
            end: end + 1,
        }
    } else {
        Lexeme::Error { kind: ParseErrorKind::UnterminatedConstruct }
    }
}

/// Where the `*/` that closes a block comment starts, searched from `i`.
pub open spec fn comment_close(chars: Seq<char>, i: int) -> Option<int>
    decreases chars.len() - i,
{
    if i + 1 >= chars.len() || i < 0 {
        None
    } else if chars[i] == '*' && chars[i + 1] == '/' {
        Some(i)
    } else {
        comment_close(chars, i + 1)
    }
}

/// What starts with the slash at `i`: a line comment, a block comment, or
/// the division operator.
pub open spec fn slash_at(chars: Seq<char>, i: int) -> Lexeme {
    if i + 1 < chars.len() && chars[i + 1] == '/' {
        let end = run_end(chars, i + 2, CharClass::InLine);
        Lexeme::Token { kind: TokenKindView::CommentLine(chars.subrange(i + 2, end)), end }
    } else if i + 1 < chars.len() && chars[i + 1] == '*' {
        match comment_close(chars, i + 2) {
            Some(close) => Lexeme::Token {
                kind: TokenKindView::CommentBlock(chars.subrange(i + 2, close)),
                end: close + 2,
            },
            None => Lexeme::Error { kind: ParseErrorKind::UnterminatedConstruct },
        }
    } else {
        Lexeme::Token { kind: TokenKindView::Div, end: i + 1 }
    }
}

/// The token of one or two characters that starts at `i`, where `c` is the
/// character at `i` and `next` the one after it, if there is one.
pub open spec fn symbol_kind(c: char, next: Option<char>) -> Option<(TokenKindView, int)> {
    if c == '=' {
        if next == Some('=') {
            Some((TokenKindView::Eq, 2int))
        } else if next == Some('>') {
            Some((TokenKindView::RRocket, 2int))
        } else {
            Some((TokenKindView::Equal, 1int))
        }
    } else if c == '-' {
        if next == Some('>') {
            Some((TokenKindView::RArrow, 2int))
        } else {
            Some((TokenKindView::Minus, 1int))
        }
    } else if c == '<' {
        if next == Some('=') {
            Some((TokenKindView::Lte, 2int))
        } else {
            Some((TokenKindView::Lt, 1int))
        }
    } else if c == '>' {
        if next == Some('=') {
            Some((TokenKindView::Gte, 2int))
        } else {
            Some((TokenKindView::Gt, 1int))
        }
    } else if c == '+' {
        Some((TokenKindView::Plus, 1int))
    } else if c == '*' {
        Some((TokenKindView::Mul, 1int))
    } else if c == '(' {
        Some((TokenKindView::LParen, 1int))
    } else if c == ')' {
        Some((TokenKindView::RParen, 1int))
    } else if c == '{' {
        Some((TokenKindView::LBrace, 1int))
    } else if c == '}' {
        Some((TokenKindView::RBrace, 1int))
    } else if c == '[' {
        Some((TokenKindView::LBrancket, 1int))
    } else if c == ']' {
        Some((TokenKindView::RBrancket, 1int))
    } else if c == ',' {
        Some((TokenKindView::Comma, 1int))
    } else if c == ':' {
        Some((TokenKindView::Colon, 1int))
    } else if c == '.' {
        Some((TokenKindView::Dot, 1int))
    } else if c == '|' {
        Some((TokenKindView::Pipe, 1int))
    } else if c == '\\' {
        Some((TokenKindView::BackSlash, 1int))
    } else {
        None
    }
}

/// The character after the one at `i`, if there is one.
pub open spec fn char_after(chars: Seq<char>, i: int) -> Option<char> {
    if i + 1 < chars.len() {
        Some(chars[i + 1])
    } else {
        None
    }
}

/// What stands at `i`, a place inside the text.
pub open spec fn lexeme_at(chars: Seq<char>, i: int) -> Lexeme {
    let c = chars[i];
    if is_space(c) {
        Lexeme::Space { end: run_end(chars, i, CharClass::Space) }
    } else if is_word_start(c) {
        word_at(chars, i)
    } else if is_digit(c) {
        number_at(chars, i)
    } else if c == '"' {
        string_at(chars, i)
    } else if c == '/' {
        slash_at(chars, i)
    } else {
        match symbol_kind(c, char_after(chars, i)) {
            Some((kind, width)) => Lexeme::Token { kind, end: i + width },
            None => Lexeme::Error { kind: ParseErrorKind::UnexpectedToken },
        }
    }
}

/// The tokens of the text from `i` on, added to `acc`, where `position` is
/// the line and column of `i`. The last token is `Eof`. The first place
/// where nothing stands that the language knows ends the tokenizing with an
/// error at that place.
pub open spec fn tokenize_spec(
    chars: Seq<char>,
    i: int,
    position: (usize, usize),
    acc: Seq<TokenView>,
) -> Result<Seq<TokenView>, ParseError>
    decreases chars.len() - i,
{
    if i >= chars.len() || i < 0 {
        Ok(acc.push(TokenView { kind: TokenKindView::Eof, line: position.0, column: position.1 }))
    } else {
        match lexeme_at(chars, i) {
            Lexeme::Error { kind } => Err(
                ParseError { kind, line: position.0, column: position.1 },
            ),
            Lexeme::Space { end } => if i < end && end <= chars.len() {
                tokenize_spec(chars, end, position_after(chars, i, end, position), acc)
            } else {
                Err(
                    ParseError {
                        kind: ParseErrorKind::UnexpectedToken,
                        line: position.0,
                        column: position.1,
                    },
                )
            },
            Lexeme::Token { kind, end } => if i < end && end <= chars.len() {
                tokenize_spec(
                    chars,
                    end,
                    position_after(chars, i, end, position),
                    acc.push(TokenView { kind, line: position.0, column: position.1 }),
                )
            } else {
                Err(
                    ParseError {
                        kind: ParseErrorKind::UnexpectedToken,
                        line: position.0,
                        column: position.1,
                    },
                )
            },
        }
    }
}

/// What stands at a place of the text, as the tokenizer reads it.
pub enum Lexed {
    Token { kind: TokenKind, end: usize },
    Space { end: usize },
    Error { kind: ParseErrorKind },
}

impl View for Lexed {
    type V = Lexeme;

    open spec fn view(&self) -> Lexeme {
        match *self {
            Lexed::Token { kind, end } => Lexeme::Token { kind: kind@, end: end as int },
            Lexed::Space { end } => Lexeme::Space { end: end as int },
            Lexed::Error { kind } => Lexeme::Error { kind },
        }
    }
}

/// The characters of a text.
pub fn chars_of(text: &str) -> (r: Vec<char>)
    ensures
        r@ == text@,
{
    let n = text.unicode_len();
    let mut chars: Vec<char> = Vec::new();
    let mut i: usize = 0;
    while i < n
        invariant
            i <= n,
            n == text@.len(),
            chars@ == text@.subrange(0, i as int),
        decreases n - i,
    {
        let c = text.get_char(i);
        chars.push(c);
        assert(chars@ =~= text@.subrange(0, i + 1));
        i += 1;
    }
    assert(text@.subrange(0, n as int) =~= text@);
    chars
}

/// Whether a character belongs to a class.
pub fn char_in_class(class: CharClass, c: char) -> (r: bool)
    ensures
        r == in_class(class, c),
{
    match class {
        CharClass::Word => (c >= 'a' && c <= 'z') || (c >= 'A' && c <= 'Z') || c == '_' || (c >= '0'
            && c <= '9'),
        CharClass::Digit => c >= '0' && c <= '9',
        CharClass::Space => c == ' ' || c == '\t' || c == '\r' || c == '\n',
        CharClass::InString => c != '"',
        CharClass::InLine => c != '\n',
    }
}

/// Where the run of characters of a class that starts at `i` ends.
fn scan(chars: &Vec<char>, i: usize, class: CharClass) -> (r: usize)
    requires
        i <= chars.len(),
    ensures
        r == run_end(chars@, i as int, class),
        i <= r <= chars.len(),
        forall|k: int| i <= k < r ==> in_class(class, #[trigger] chars@[k]),
{
    let mut end = i;
    while end < chars.len() && char_in_class(class, chars[end])
        invariant
            i <= end <= chars.len(),
            run_end(chars@, end as int, class) == run_end(chars@, i as int, class),
            forall|k: int| i <= k < end ==> in_class(class, #[trigger] chars@[k]),
        decreases chars.len() - end,
    {
        end += 1;
    }
    end
}

/// The value of a decimal digit.
fn digit_of(c: char) -> (r: u64)
    requires
        is_digit(c),
    ensures
        r == digit_value(c),
        r <= 9,
{
    (c as u32 - '0' as u32) as u64
}

/// Reading more digits never makes the number smaller.
pub proof fn lemma_digits_grow(chars: Seq<char>, i: int, to: int, acc: nat)
    ensures
        digits_fold(chars, i, to, acc) >= acc,
    decreases to - i,
{
    if i < to {
        lemma_digits_grow(chars, i + 1, to, acc * 10 + digit_value(chars[i]));
    }
}

/// Scaling never makes the number smaller.
pub proof fn lemma_scale_grows(n: nat, acc: nat)
    ensures
        scale_fold(n, acc) >= acc,
    decreases n,
{
    if n > 0 {
        lemma_scale_grows((n - 1) as nat, acc * 10);
    }
}

/// The number that the digits from `from` to `to` denote, read after the
/// number `acc`; nothing where it does not fit in 64 bits.
fn read_digits(chars: &Vec<char>, from: usize, to: usize, acc: u64) -> (r: Option<u64>)
    requires
        from <= to <= chars.len(),
        forall|k: int| from <= k < to ==> is_digit(#[trigger] chars@[k]),
    ensures
        match r {
            Some(v) => v == digits_fold(chars@, from as int, to as int, acc as nat),
            None => digits_fold(chars@, from as int, to as int, acc as nat) > u64::MAX,
        },
{
    let mut value = acc;
    let mut i = from;
    while i < to
        invariant
            from <= i <= to <= chars.len(),
            forall|k: int| from <= k < to ==> is_digit(#[trigger] chars@[k]),
            digits_fold(chars@, i as int, to as int, value as nat) == digits_fold(
                chars@,
                from as int,
                to as int,
                acc as nat,
            ),
        decreases to - i,
    {
        let digit = digit_of(chars[i]);
        let next = match value.checked_mul(10) {
            Some(scaled) => scaled.checked_add(digit),
            None => None,
        };
        match next {
            Some(v) => {
                value = v;
            },
            None => {
                proof {
                    lemma_digits_grow(
                        chars@,
                        i + 1,
                        to as int,
                        (value * 10 + digit_value(chars@[i as int])) as nat,
                    );
                }
                return None;
            },
        }
        i += 1;
    }
    Some(value)
}

/// Ten to the power of `n`; nothing where it does not fit in 64 bits.
pub fn power_of_ten(n: usize) -> (r: Option<u64>)
    ensures
        match r {
            Some(v) => v == scale_fold(n as nat, 1),
            None => scale_fold(n as nat, 1) > u64::MAX,
        },
{
    let mut value: u64 = 1;
    let mut left = n;
    while left > 0
        invariant
            scale_fold(left as nat, value as nat) == scale_fold(n as nat, 1),
        decreases left,
    {
        match value.checked_mul(10) {
            Some(v) => {
                value = v;
            },
            None => {
                proof {
                    lemma_scale_grows((left - 1) as nat, (value * 10) as nat);
                }
                return None;
            },
        }
        left -= 1;
    }
    Some(value)
}

/// The source position after one character.
pub fn step_position(c: char, line: usize, column: usize) -> (r: (usize, usize))
    ensures
        r == position_step(c, (line, column)),
{
    if c == '\n' {
        (
            if line < usize::MAX {
                line + 1
            } else {
                line
            },
            1,
        )
    } else {
        (
            line,
            if column < usize::MAX {
                column + 1
            } else {
                column
            },
        )
    }
}

/// The source position after the characters from `from` to `to`.
fn advance_position(chars: &Vec<char>, from: usize, to: usize, line: usize, column: usize) -> (r:
    (usize, usize))
    requires
        from <= to <= chars.len(),
    ensures
        r == position_after(chars@, from as int, to as int, (line, column)),
{
    let mut position = (line, column);
    let mut i = from;
    while i < to
        invariant
            from <= i <= to <= chars.len(),
            position_after(chars@, i as int, to as int, position) == position_after(
                chars@,
                from as int,
                to as int,
                (line, column),
            ),
        decreases to - i,
    {
        position = step_position(chars[i], position.0, position.1);
        i += 1;
    }
    position
}

/// Whether a string holds the text of a literal.
fn word_is(word: &String, literal: &str) -> (r: bool)
    ensures
        r == (word@ == literal@),
{
    crate::parsers::is_text(word, literal)
}

/// The keyword that a word is, if it is one.
pub fn keyword_of(word: &String) -> (r: Option<TokenKind>)
    ensures
        match r {
            Some(kind) => keyword(word@) == Some(kind@),
            None => keyword(word@) is None,
        },
{
    if word_is(word, "val") {
        Some(TokenKind::Immutable)
    } else if word_is(word, "var") {
        Some(TokenKind::Mutable)
    } else if word_is(word, "fun") {
        Some(TokenKind::Function)
    } else if word_is(word, "return") {
        Some(TokenKind::Return)
    } else if word_is(word, "match") {
        Some(TokenKind::Match)
    } else if word_is(word, "if") {
        Some(TokenKind::If)
    } else if word_is(word, "else") {
        Some(TokenKind::Else)
    } else if word_is(word, "struct") {
        Some(TokenKind::PrivateStruct)
    } else if word_is(word, "pub") {
        Some(TokenKind::Pub)
    } else if word_is(word, "impl") {
        Some(TokenKind::Impl)
    } else if word_is(word, "for") {
        Some(TokenKind::For)
    } else if word_is(word, "in") {
        Some(TokenKind::In)
    } else if word_is(word, "import") {
        Some(TokenKind::Import)
    } else if word_is(word, "from") {
        Some(TokenKind::From)
    } else if word_is(word, "continue") {
        Some(TokenKind::Continue)
    } else if word_is(word, "true") {
        Some(TokenKind::True)
    } else if word_is(word, "false") {
        Some(TokenKind::False)
    } else if word_is(word, "Option") {
        Some(TokenKind::Option)
    } else if word_is(word, "Result") {
        Some(TokenKind::Result)
    } else if word_is(word, "List") {
        Some(TokenKind::List)
    } else if word_is(word, "self") {
        Some(TokenKind::SelfValue)
    } else if word_is(word, "void") {
        Some(TokenKind::Void)
    } else {
        None
    }
}

/// The text between two places.
fn text_between(text: &str, from: usize, to: usize) -> (r: String)
    requires
        from <= to <= text@.len(),
    ensures
        r@ == text@.subrange(from as int, to as int),
{
    text.substring_char(from, to).to_string()
}

/// Reads the word that starts at `i`.
fn read_word(text: &str, chars: &Vec<char>, i: usize) -> (r: Lexed)
    requires
        chars@ == text@,
        i < chars.len(),
        is_word_start(chars@[i as int]),
    ensures
        r@ == word_at(chars@, i as int),
        r matches Lexed::Token { end, .. } && i < end <= chars.len(),
{
    let end = scan(chars, i, CharClass::Word);
    assert(run_end(chars@, i as int, CharClass::Word) == run_end(
        chars@,
        i + 1,
        CharClass::Word,
    ));
    let ghost tail = run_end(chars@, i + 1, CharClass::Word);
    proof {
        lemma_run_end_bounds(chars@, i + 1, CharClass::Word);
    }
    let word = text_between(text, i, end);
    match keyword_of(&word) {
        Some(kind) => Lexed::Token { kind, end },
        None => Lexed::Token { kind: TokenKind::Identifier(word), end },
    }
}

/// A run ends at or after its start, inside the text.
pub proof fn lemma_run_end_bounds(chars: Seq<char>, i: int, class: CharClass)
    requires
        0 <= i <= chars.len(),
    ensures
        i <= run_end(chars, i, class) <= chars.len(),
    decreases chars.len() - i,
{
    if i < chars.len() && in_class(class, chars[i]) {
        lemma_run_end_bounds(chars, i + 1, class);
    }
}

/// Reads the number that starts at `i`.
fn read_number(chars: &Vec<char>, i: usize) -> (r: Lexed)
    requires
        i < chars.len(),
        is_digit(chars@[i as int]),
    ensures
        r@ == number_at(chars@, i as int),
        r matches Lexed::Token { end, .. } ==> i < end <= chars.len(),
        r !is Space,
{
    let whole_end = scan(chars, i, CharClass::Digit);
    assert(run_end(chars@, i as int, CharClass::Digit) == run_end(
        chars@,
        i + 1,
        CharClass::Digit,
    ));
    proof {
        lemma_run_end_bounds(chars@, i + 1, CharClass::Digit);
    }
    let whole = read_digits(chars, i, whole_end, 0);
    if whole_end < chars.len() && whole_end + 1 < chars.len() && chars[whole_end] == '.'
        && char_in_class(CharClass::Digit, chars[whole_end + 1]) {
        let end = scan(chars, whole_end + 1, CharClass::Digit);
        let ghost whole_value = digits_fold(chars@, i as int, whole_end as int, 0);
        match whole {
            None => {
                proof {
                    lemma_digits_grow(chars@, whole_end + 1, end as int, whole_value);
                }
                Lexed::Error { kind: ParseErrorKind::UnexpectedToken }
            },
            Some(w) => {
                let numer = read_digits(chars, whole_end + 1, end, w);
                let denom = power_of_ten(end - whole_end - 1);
                match (numer, denom) {
                    (Some(n), Some(d)) => {
                        proof {
                            lemma_scale_grows((end - whole_end - 1) as nat, 1);
                        }
                        Lexed::Token {
                            kind: TokenKind::Number(
                                Number { negative: false, numer: n, denom: d }.reduce(),
                            ),
                            end,
                        }
                    },
                    _ => Lexed::Error { kind: ParseErrorKind::UnexpectedToken },
                }
            },
        }
    } else {
        match whole {
            Some(w) => Lexed::Token {
                kind: TokenKind::Number(Number { negative: false, numer: w, denom: 1 }),
                end: whole_end,
            },
            None => Lexed::Error { kind: ParseErrorKind::UnexpectedToken },
        }
    }
}

/// Reads the string that starts at the double quote at `i`.
fn read_string(text: &str, chars: &Vec<char>, i: usize) -> (r: Lexed)
    requires
        chars@ == text@,
        i < chars.len(),
    ensures
        r@ == string_at(chars@, i as int),
        r matches Lexed::Token { end, .. } ==> i < end <= chars.len(),
        r !is Space,
{
    let end = scan(chars, i + 1, CharClass::InString);
    if end < chars.len() {
        Lexed::Token { kind: TokenKind::String(text_between(text, i + 1, end)), end: end + 1 }
    } else {
        Lexed::Error { kind: ParseErrorKind::UnterminatedConstruct }
    }
}

/// Where the `*/` that closes a block comment starts, searched from `i`.
fn find_comment_close(chars: &Vec<char>, i: usize) -> (r: Option<usize>)
    requires
        i <= chars.len(),
    ensures
        match r {
            Some(close) => comment_close(chars@, i as int) == Some(close as int) && i <= close
                && close + 1 < chars.len(),
            None => comment_close(chars@, i as int) is None,
        },
{
    let mut j = i;
    while j < chars.len() && j + 1 < chars.len()
        invariant
            i <= j <= chars.len(),
            comment_close(chars@, j as int) == comment_close(chars@, i as int),
        decreases chars.len() - j,
    {
        if chars[j] == '*' && chars[j + 1] == '/' {
            return Some(j);
        }
        j += 1;
    }
    None
}

/// Reads what starts with the slash at `i`: a line comment, a block
/// comment, or the division operator.
fn read_slash(text: &str, chars: &Vec<char>, i: usize) -> (r: Lexed)
    requires
        chars@ == text@,
        i < chars.len(),
    ensures
        r@ == slash_at(chars@, i as int),
        r matches Lexed::Token { end, .. } ==> i < end <= chars.len(),
        r !is Space,
{
    if i + 1 < chars.len() && chars[i + 1] == '/' {
        let end = scan(chars, i + 2, CharClass::InLine);
        Lexed::Token { kind: TokenKind::CommentLine(text_between(text, i + 2, end)), end }
    } else if i + 1 < chars.len() && chars[i + 1] == '*' {
        match find_comment_close(chars, i + 2) {
            Some(close) => Lexed::Token {
                kind: TokenKind::CommentBlock(text_between(text, i + 2, close)),
                end: close + 2,
            },
            None => Lexed::Error { kind: ParseErrorKind::UnterminatedConstruct },
        }
    } else {
        Lexed::Token { kind: TokenKind::Div, end: i + 1 }
    }
}

/// The token of one or two characters that `c` starts, where `next` is the
/// character after it, if there is one; with its width.
pub fn read_symbol(c: char, next: Option<char>) -> (r: Option<(TokenKind, usize)>)
    ensures
        match r {
            Some((kind, width)) => symbol_kind(c, next) == Some((kind@, width as int)) && 1 <= width
                <= 2 && (width == 2 ==> next is Some),
            None => symbol_kind(c, next) is None,
        },
{
    let follows = |wanted: char| -> (b: bool)
        ensures
            b == (next == Some(wanted)),
        {
            match next {
                Some(n) => n == wanted,
                None => false,
            }
        };
    if c == '=' {
        if follows('=') {
            Some((TokenKind::Eq, 2))
        } else if follows('>') {
            Some((TokenKind::RRocket, 2))
        } else {
            Some((TokenKind::Equal, 1))
        }
    } else if c == '-' {
        if follows('>') {
            Some((TokenKind::RArrow, 2))
        } else {
            Some((TokenKind::Minus, 1))
        }
    } else if c == '<' {
        if follows('=') {
            Some((TokenKind::Lte, 2))
        } else {
            Some((TokenKind::Lt, 1))
        }
    } else if c == '>' {
        if follows('=') {
            Some((TokenKind::Gte, 2))
        } else {
            Some((TokenKind::Gt, 1))
        }
    } else if c == '+' {
        Some((TokenKind::Plus, 1))
    } else if c == '*' {
        Some((TokenKind::Mul, 1))
    } else if c == '(' {
        Some((TokenKind::LParen, 1))
    } else if c == ')' {
        Some((TokenKind::RParen, 1))
    } else if c == '{' {
        Some((TokenKind::LBrace, 1))
    } else if c == '}' {
        Some((TokenKind::RBrace, 1))
    } else if c == '[' {
        Some((TokenKind::LBrancket, 1))
    } else if c == ']' {
        Some((TokenKind::RBrancket, 1))
    } else if c == ',' {
        Some((TokenKind::Comma, 1))
    } else if c == ':' {
        Some((TokenKind::Colon, 1))
    } else if c == '.' {
        Some((TokenKind::Dot, 1))
    } else if c == '|' {
        Some((TokenKind::Pipe, 1))
    } else if c == '\\' {
        Some((TokenKind::BackSlash, 1))
    } else {
        None
    }
}

/// Reads what stands at `i`, a place inside the text.
fn read_lexeme(text: &str, chars: &Vec<char>, i: usize) -> (r: Lexed)
    requires
        chars@ == text@,
        i < chars.len(),
    ensures
        r@ == lexeme_at(chars@, i as int),
        r matches Lexed::Token { end, .. } ==> i < end <= chars.len(),
        r matches Lexed::Space { end } ==> i < end <= chars.len(),
{
    let c = chars[i];
    if char_in_class(CharClass::Space, c) {
        let end = scan(chars, i, CharClass::Space);
        assert(run_end(chars@, i as int, CharClass::Space) == run_end(
            chars@,
            i + 1,
            CharClass::Space,
        ));
        proof {
            lemma_run_end_bounds(chars@, i + 1, CharClass::Space);
        }
        Lexed::Space { end }
    } else if (c >= 'a' && c <= 'z') || (c >= 'A' && c <= 'Z') || c == '_' {
        read_word(text, chars, i)
    } else if c >= '0' && c <= '9' {
        read_number(chars, i)
    } else if c == '"' {
        read_string(text, chars, i)
    } else if c == '/' {
        read_slash(text, chars, i)
    } else {
        let next = if i + 1 < chars.len() {
            Some(chars[i + 1])
        } else {
            None
        };
        match read_symbol(c, next) {
            Some((kind, width)) => Lexed::Token { kind, end: i + width },
            None => Lexed::Error { kind: ParseErrorKind::UnexpectedToken },
        }
    }
}

/// The model of tokens or an error.
pub open spec fn tokenized_view(r: Result<Vec<Token>, ParseError>) -> Result<
    Seq<TokenView>,
    ParseError,
> {
    match r {
        Ok(tokens) => Ok(tokens_view(tokens@)),
        Err(e) => Err(e),
    }
}

/// Turns source text into tokens, each with the line and column where it
/// starts, counted from one. The last token is `Eof`.
///
/// Words are keywords or identifiers; numbers are digits with an optional
/// decimal part and denote exact rationals; strings stand between double
/// quotes, without escapes; `//` starts a comment to the end of the line
/// and `/*` one to the next `*/`. Fails with `UnexpectedToken` at a
/// character that starts no token and at a number whose digits do not fit
/// in 64 bits, and with `UnterminatedConstruct` at a string or a block
/// comment that is not closed.
pub fn tokenize(text: &str) -> (r: Result<Vec<Token>, ParseError>)
    ensures
        tokenized_view(r) == tokenize_spec(text@, 0, (1, 1), Seq::empty()),
{
    let chars = chars_of(text);
    let ghost goal = tokenize_spec(chars@, 0, (1, 1), Seq::empty());
    let mut tokens: Vec<Token> = Vec::new();
    assert(tokens_view(tokens@) =~= Seq::empty());
    let mut i: usize = 0;
    let mut line: usize = 1;
    let mut column: usize = 1;
    while i < chars.len()
        invariant
            i <= chars.len(),
            chars@ == text@,
            tokenize_spec(chars@, i as int, (line, column), tokens_view(tokens@)) == goal,
            goal == tokenize_spec(text@, 0, (1, 1), Seq::empty()),
        decreases chars.len() - i,
    {
        match read_lexeme(text, &chars, i) {
            Lexed::Error { kind } => {
                return Err(ParseError::new(kind, line, column));
            },
            Lexed::Space { end } => {
                let position = advance_position(&chars, i, end, line, column);
                line = position.0;
                column = position.1;
                i = end;
            },
            Lexed::Token { kind, end } => {
                let ghost before = tokens_view(tokens@);
                let token = Token::new(kind, line, column);
                let ghost token_view = token@;
                tokens.push(token);
                assert(tokens_view(tokens@) =~= before.push(token_view));
                let position = advance_position(&chars, i, end, line, column);
                line = position.0;
                column = position.1;
                i = end;
            },
        }
    }
    let ghost before = tokens_view(tokens@);
    let token = Token::new(TokenKind::Eof, line, column);
    let ghost token_view = token@;
    tokens.push(token);
    assert(tokens_view(tokens@) =~= before.push(token_view));
    Ok(tokens)
}

} // verus!
