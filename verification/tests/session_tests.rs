use scriptling::environment::Env;
use scriptling::error::{ParseErrorKind, RuntimeErrorKind};
use scriptling::evals::builtin::register_builtins;
use scriptling::number::Number;
use scriptling::session::{run_line, run_program, ProgramRun, RunError};
use scriptling::token::TokenKind;
use scriptling::tokenizer::tokenize;
use scriptling::value::Value;

fn number(n: i64) -> Value {
    Value::Number(Number::from_i64(n))
}

fn kinds(text: &str) -> Vec<TokenKind> {
    tokenize(text).unwrap().into_iter().map(|t| t.kind).collect()
}

fn id(name: &str) -> TokenKind {
    TokenKind::Identifier(name.to_string())
}

#[test]
fn tokenizes_words_numbers_and_symbols() {
    assert_eq!(
        kinds("var x1: number = 12 + foo_bar"),
        vec![
            TokenKind::Mutable,
            id("x1"),
            TokenKind::Colon,
            id("number"),
            TokenKind::Equal,
            TokenKind::Number(Number::from_u64(12)),
            TokenKind::Plus,
            id("foo_bar"),
            TokenKind::Eof,
        ]
    );
}

#[test]
fn tokenizes_every_keyword() {
    assert_eq!(
        kinds("val var fun return match if else struct pub impl for in import from continue true false Option Result List self void"),
        vec![
            TokenKind::Immutable,
            TokenKind::Mutable,
            TokenKind::Function,
            TokenKind::Return,
            TokenKind::Match,
            TokenKind::If,
            TokenKind::Else,
            TokenKind::PrivateStruct,
            TokenKind::Pub,
            TokenKind::Impl,
            TokenKind::For,
            TokenKind::In,
            TokenKind::Import,
            TokenKind::From,
            TokenKind::Continue,
            TokenKind::True,
            TokenKind::False,
            TokenKind::Option,
            TokenKind::Result,
            TokenKind::List,
            TokenKind::SelfValue,
            TokenKind::Void,
            TokenKind::Eof,
        ]
    );
}

#[test]
fn tokenizes_every_symbol() {
    assert_eq!(
        kinds("= == => + - -> * / ( ) { } [ ] , : . | \\ < <= > >="),
        vec![
            TokenKind::Equal,
            TokenKind::Eq,
            TokenKind::RRocket,
            TokenKind::Plus,
            TokenKind::Minus,
            TokenKind::RArrow,
            TokenKind::Mul,
            TokenKind::Div,
            TokenKind::LParen,
            TokenKind::RParen,
            TokenKind::LBrace,
            TokenKind::RBrace,
            TokenKind::LBrancket,
            TokenKind::RBrancket,
            TokenKind::Comma,
            TokenKind::Colon,
            TokenKind::Dot,
            TokenKind::Pipe,
            TokenKind::BackSlash,
            TokenKind::Lt,
            TokenKind::Lte,
            TokenKind::Gt,
            TokenKind::Gte,
            TokenKind::Eof,
        ]
    );
}

#[test]
fn decimal_literals_are_exact_rationals_in_lowest_terms() {
    let tokens = kinds("1.5 0.25 3. 7 2.0");
    let parts: Vec<(bool, u64, u64)> = tokens
        .iter()
        .filter_map(|kind| match kind {
            TokenKind::Number(n) => Some((n.negative, n.numer, n.denom)),
            _ => None,
        })
        .collect();
    assert_eq!(parts, vec![(false, 3, 2), (false, 1, 4), (false, 3, 1), (false, 7, 1), (false, 2, 1)]);
    assert_eq!(tokens[3], TokenKind::Dot);
    assert_eq!(tokens.len(), 7);
}

#[test]
fn literal_that_does_not_fit_is_an_error() {
    assert_eq!(
        kinds("18446744073709551615"),
        vec![TokenKind::Number(Number::from_u64(u64::MAX)), TokenKind::Eof]
    );
    let error = tokenize("  18446744073709551616").unwrap_err();
    assert_eq!(error.kind, ParseErrorKind::UnexpectedToken);
    assert_eq!((error.line, error.column), (1, 3));
    assert!(tokenize("0.00000000000000000001").is_err());
}

#[test]
fn strings_and_comments_keep_their_text() {
    assert_eq!(
        kinds("\"a b\" // rest of line\n/* block\n*/ 1"),
        vec![
            TokenKind::String("a b".to_string()),
            TokenKind::CommentLine(" rest of line".to_string()),
            TokenKind::CommentBlock(" block\n".to_string()),
            TokenKind::Number(Number::from_u64(1)),
            TokenKind::Eof,
        ]
    );
    assert_eq!(kinds("\"héllo\""), vec![TokenKind::String("héllo".to_string()), TokenKind::Eof]);
}

#[test]
fn unterminated_string_and_comment() {
    assert_eq!(tokenize("\"abc").unwrap_err().kind, ParseErrorKind::UnterminatedConstruct);
    assert_eq!(tokenize("/* abc").unwrap_err().kind, ParseErrorKind::UnterminatedConstruct);
    assert_eq!(tokenize("/*/").unwrap_err().kind, ParseErrorKind::UnterminatedConstruct);
}

#[test]
fn unknown_character_is_an_error_at_its_place() {
    let error = tokenize("val x\n  = #").unwrap_err();
    assert_eq!(error.kind, ParseErrorKind::UnexpectedToken);
    assert_eq!((error.line, error.column), (2, 5));
}

#[test]
fn tokens_carry_line_and_column() {
    let tokens = tokenize("a\n  bc d").unwrap();
    let places: Vec<(usize, usize)> = tokens.iter().map(|t| (t.line, t.column)).collect();
    assert_eq!(places, vec![(1, 1), (2, 3), (2, 6), (2, 7)]);
}

#[test]
fn empty_text_is_one_eof() {
    assert_eq!(kinds(""), vec![TokenKind::Eof]);
    assert_eq!(kinds(" \n\t"), vec![TokenKind::Eof]);
}

#[test]
fn arithmetic_is_exact() {
    let mut env = Env::new();
    assert_eq!(run_line("-1 + 2 * 3", &mut env).result, Ok(number(5)));
    assert_eq!(run_line("0.1 + 0.2 == 0.3", &mut env).result, Ok(Value::Bool(true)));
    assert_eq!(run_line("1 / 3 * 3", &mut env).result, Ok(number(1)));
}

#[test]
fn leak_back_scenario() {
    let mut env = Env::new();
    let source = "
        var z = 3
        fun f1(x, y) {
            z = 2
            var d = 3
            z = (d = 4)
            return x + y + z
        }
        f1(2, 0)
        z
    ";
    let ProgramRun { values, error, .. } = run_program(source, &mut env);
    assert_eq!(error, None);
    assert_eq!(values, vec![number(3), Value::Function, number(6), number(4)]);
    assert_eq!(env.get(&"z".to_string(), None).unwrap().value, number(4));
    assert!(env.get(&"d".to_string(), None).is_none());
}

#[test]
fn struct_field_round_trip_from_source() {
    let mut env = Env::new();
    let source = "
        struct Point { x: number, y: number }
        var instance = Point { x: 1, y: 2 }
        instance.x = 10
        instance.x
        instance.y
    ";
    let ProgramRun { values, error, .. } = run_program(source, &mut env);
    assert_eq!(error, None);
    assert_eq!(values[3], number(10));
    assert_eq!(values[4], number(2));
}

#[test]
fn methods_dispatch_by_struct_from_source() {
    let mut env = Env::new();
    let source = "
        struct Cat { lives: number }
        struct Dog { legs: number }
        impl Cat { fun count() { return self.lives } }
        impl Dog { fun count() { return self.legs } }
        Cat { lives: 9 }.count()
        Dog { legs: 4 }.count()
    ";
    let ProgramRun { values, error, .. } = run_program(source, &mut env);
    assert_eq!(error, None);
    assert_eq!(values[4], number(9));
    assert_eq!(values[5], number(4));
}

#[test]
fn lambda_capture_from_source() {
    let mut env = Env::new();
    let source = "
        var n = 1
        val add = \\|a: number| => a + n
        n = 50
        add(1)
    ";
    let ProgramRun { values, error, .. } = run_program(source, &mut env);
    assert_eq!(error, None);
    assert_eq!(values[3], number(2));
    assert_eq!(run_line("(2, 3) -> \\|a: number, b: number| => a * b", &mut env).result, Ok(number(6)));
}

#[test]
fn loops_and_builtins_from_source() {
    let mut env = Env::new();
    register_builtins(&mut env);
    let source = "
        var total = 0
        for x in push([1, 2], 3) { total = total + x }
        print(total)
        [1, 2, 3].len()
    ";
    let ProgramRun { values, error, .. } = run_program(source, &mut env);
    assert_eq!(error, None);
    assert_eq!(values, vec![number(0), Value::Void, Value::Void, number(3)]);
    assert_eq!(env.output, vec![number(6)]);
}

#[test]
fn program_that_does_not_parse_is_not_evaluated() {
    let mut env = Env::new();
    let ProgramRun { values, error, .. } = run_program("var a = 1\nvar = 2", &mut env);
    assert!(values.is_empty());
    assert!(matches!(error, Some(RunError::Parse(e)) if e.kind == ParseErrorKind::ExpectedToken));
    assert!(env.get(&"a".to_string(), None).is_none());
    let ProgramRun { values, error, .. } = run_program("var a = #", &mut env);
    assert!(values.is_empty());
    assert!(matches!(error, Some(RunError::Lex(_))));
}

#[test]
fn program_stops_at_the_first_runtime_failure() {
    let mut env = Env::new();
    let ProgramRun { values, error, .. } = run_program("val a = 1\na = 2\nval b = 3", &mut env);
    assert_eq!(values, vec![number(1)]);
    assert!(
        matches!(error, Some(RunError::Runtime(e)) if e.kind == RuntimeErrorKind::ReassignImmutable && e.line == 2)
    );
    assert!(env.get(&"b".to_string(), None).is_none());
}

#[test]
fn lines_share_one_environment() {
    let mut env = Env::new();
    assert_eq!(run_line("var a = 1", &mut env).result, Ok(number(1)));
    assert_eq!(run_line("a = a + 1", &mut env).result, Ok(number(2)));
    assert_eq!(run_line("a", &mut env).result, Ok(number(2)));
    assert!(matches!(run_line("b", &mut env).result, Err(RunError::Runtime(_))));
    assert!(matches!(run_line(")", &mut env).result, Err(RunError::Parse(_))));
    assert!(matches!(run_line("\"", &mut env).result, Err(RunError::Lex(_))));
}

#[test]
fn runs_hand_back_tokens_and_statements() {
    let mut env = Env::new();
    let run = run_program("var a = 1\na + 1", &mut env);
    assert_eq!(run.tokens.len(), 8);
    assert_eq!(run.nodes.len(), 2);
    assert_eq!(run.values, vec![number(1), number(2)]);
    assert_eq!(run.error, None);
    let run = run_program("var a = 1\nvar = 2", &mut env);
    assert_eq!(run.tokens.len(), 8);
    assert_eq!(run.nodes.len(), 1);
    assert!(run.values.is_empty());
    let line = run_line("a * 2", &mut env);
    assert_eq!(line.tokens.len(), 4);
    assert!(line.node.is_some());
    assert_eq!(line.result, Ok(number(2)));
    let line = run_line("a *", &mut env);
    assert_eq!(line.tokens.len(), 3);
    assert!(line.node.is_none());
}
