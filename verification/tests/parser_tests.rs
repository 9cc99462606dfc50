use scriptling::ast::ASTNode;
use scriptling::environment::{Env, EnvVariableType};
use scriptling::error::{ParseErrorKind, RuntimeErrorKind};
use scriptling::evals::builtin::register_builtins;
use scriptling::evals::{eval, evals};
use scriptling::number::Number;
use scriptling::parsers::Parser;
use scriptling::token::{Token, TokenKind};
use scriptling::value::{Value, ValueType};

fn tokens(kinds: Vec<TokenKind>) -> Vec<Token> {
    kinds.into_iter().enumerate().map(|(i, kind)| Token::new(kind, 1, i + 1)).collect()
}

fn id(name: &str) -> TokenKind {
    TokenKind::Identifier(name.to_string())
}

fn num(n: u64) -> TokenKind {
    TokenKind::Number(Number::from_u64(n))
}

fn number(n: i64) -> Value {
    Value::Number(Number::from_i64(n))
}

fn run(kinds: Vec<TokenKind>) -> (Vec<Value>, Env) {
    let mut parser = Parser::new(tokens(kinds));
    let (nodes, error) = parser.parse_lines();
    assert_eq!(error, None);
    let mut env = Env::new();
    register_builtins(&mut env);
    let (values, failure) = evals(nodes, &mut env);
    assert_eq!(failure, None);
    (values, env)
}

#[test]
fn multiplication_binds_tighter_than_addition() {
    let mut parser =
        Parser::new(tokens(vec![num(1), TokenKind::Plus, num(2), TokenKind::Mul, num(3)]));
    let node = parser.parse_expression(0).unwrap();
    match &node {
        ASTNode::BinaryOp { left, op, right, .. } => {
            assert_eq!(*op, TokenKind::Plus);
            assert!(matches!(**left, ASTNode::Literal { .. }));
            assert!(matches!(**right, ASTNode::BinaryOp { op: TokenKind::Mul, .. }));
        }
        _ => panic!("no binary node"),
    }
    assert_eq!(parser.pos, 5);
    assert_eq!(eval(node, &mut Env::new()), Ok(number(7)));
}

#[test]
fn operators_of_one_level_group_to_the_left() {
    let mut parser =
        Parser::new(tokens(vec![num(10), TokenKind::Minus, num(2), TokenKind::Minus, num(3)]));
    let node = parser.parse_expression(0).unwrap();
    match &node {
        ASTNode::BinaryOp { left, right, .. } => {
            assert!(matches!(**left, ASTNode::BinaryOp { op: TokenKind::Minus, .. }));
            assert!(matches!(**right, ASTNode::Literal { .. }));
        }
        _ => panic!("no binary node"),
    }
    assert_eq!(eval(node, &mut Env::new()), Ok(number(5)));
}

#[test]
fn comparison_binds_looser_than_addition() {
    let mut parser =
        Parser::new(tokens(vec![num(1), TokenKind::Plus, num(2), TokenKind::Lt, num(4)]));
    let node = parser.parse_expression(0).unwrap();
    assert!(matches!(node, ASTNode::Lt { .. }));
    assert_eq!(eval(node, &mut Env::new()), Ok(Value::Bool(true)));
}

#[test]
fn prefix_minus_binds_tighter_than_multiplication() {
    let mut parser = Parser::new(tokens(vec![TokenKind::Minus, num(2), TokenKind::Mul, num(3)]));
    let node = parser.parse_expression(0).unwrap();
    assert!(matches!(node, ASTNode::BinaryOp { op: TokenKind::Mul, .. }));
    assert_eq!(eval(node, &mut Env::new()), Ok(number(-6)));
}

#[test]
fn min_power_ends_the_expression_at_a_looser_operator() {
    let mut parser = Parser::new(tokens(vec![num(1), TokenKind::Plus, num(2)]));
    let node = parser.parse_expression(5).unwrap();
    assert!(matches!(node, ASTNode::Literal { .. }));
    assert_eq!(parser.pos, 1);
}

#[test]
fn parenthesised_expression_stands_for_itself() {
    let mut parser = Parser::new(tokens(vec![
        TokenKind::LParen,
        num(1),
        TokenKind::Plus,
        num(2),
        TokenKind::RParen,
        TokenKind::Mul,
        num(3),
    ]));
    let node = parser.parse_expression(0).unwrap();
    assert_eq!(eval(node, &mut Env::new()), Ok(number(9)));
}

#[test]
fn missing_closing_parenthesis_is_unterminated() {
    let mut parser = Parser::new(tokens(vec![TokenKind::LParen, num(1)]));
    let error = parser.parse_expression(0).unwrap_err();
    assert_eq!(error.kind, ParseErrorKind::UnterminatedConstruct);
}

#[test]
fn stray_token_is_unexpected() {
    let mut parser = Parser::new(tokens(vec![TokenKind::RParen]));
    let error = parser.parse_expression(0).unwrap_err();
    assert_eq!(error.kind, ParseErrorKind::UnexpectedToken);
    assert_eq!((error.line, error.column), (1, 1));
    assert_eq!(error.message(), "Unexpected token");
}

#[test]
fn parse_literal_moves_past_one_token() {
    let mut parser = Parser::new(tokens(vec![num(7), TokenKind::Plus]));
    let node = parser.parse_literal(number(7)).unwrap();
    assert_eq!(node, ASTNode::Literal { value: number(7), line: 1, column: 2 });
    assert_eq!(parser.pos, 1);
}

#[test]
fn parse_continue_moves_past_one_token() {
    let mut parser = Parser::new(tokens(vec![TokenKind::Continue, num(1)]));
    let node = parser.parse_continue().unwrap();
    assert_eq!(node, ASTNode::Continue { line: 1, column: 2 });
    assert_eq!(parser.pos, 1);
}

#[test]
fn parse_return_wraps_the_expression() {
    let mut parser = Parser::new(tokens(vec![TokenKind::Return, num(1), TokenKind::Plus, num(2)]));
    let node = parser.parse_return().unwrap();
    match node {
        ASTNode::Return { expr, .. } => {
            assert!(matches!(*expr, ASTNode::BinaryOp { op: TokenKind::Plus, .. }))
        }
        _ => panic!("no return node"),
    }
    assert_eq!(parser.pos, 4);
}

#[test]
fn parse_return_type_reads_every_form() {
    let mut parser = Parser::new(tokens(vec![TokenKind::Colon, id("number")]));
    assert_eq!(parser.parse_return_type(), ValueType::Number);
    assert_eq!(parser.pos, 2);

    let mut parser = Parser::new(tokens(vec![TokenKind::Colon, id("Point")]));
    assert_eq!(parser.parse_return_type(), ValueType::Struct("Point".to_string()));

    let mut parser = Parser::new(tokens(vec![TokenKind::Colon, TokenKind::Void]));
    assert_eq!(parser.parse_return_type(), ValueType::Void);
    assert_eq!(parser.pos, 2);

    let mut parser = Parser::new(tokens(vec![
        TokenKind::Colon,
        TokenKind::Option,
        TokenKind::Lt,
        id("string"),
        TokenKind::Gt,
    ]));
    assert_eq!(parser.parse_return_type(), ValueType::OptionType(Box::new(ValueType::String)));
    assert_eq!(parser.pos, 5);

    let mut parser = Parser::new(tokens(vec![
        TokenKind::Colon,
        TokenKind::Result,
        TokenKind::Lt,
        id("number"),
        TokenKind::Comma,
        id("string"),
        TokenKind::Gt,
    ]));
    assert_eq!(
        parser.parse_return_type(),
        ValueType::ResultType {
            success: Box::new(ValueType::Number),
            failure: Box::new(ValueType::String)
        }
    );
    assert_eq!(parser.pos, 7);

    let mut parser = Parser::new(tokens(vec![
        TokenKind::Colon,
        TokenKind::List,
        TokenKind::Lt,
        id("bool"),
        TokenKind::Gt,
    ]));
    assert_eq!(parser.parse_return_type(), ValueType::List(Box::new(ValueType::Bool)));
}

#[test]
fn parse_return_type_without_colon_is_void_and_stays() {
    let mut parser = Parser::new(tokens(vec![TokenKind::LBrace]));
    assert_eq!(parser.parse_return_type(), ValueType::Void);
    assert_eq!(parser.pos, 0);
}

#[test]
fn malformed_parametrised_return_type_falls_back_to_void() {
    let mut parser =
        Parser::new(tokens(vec![TokenKind::Colon, TokenKind::Option, TokenKind::LBrace]));
    assert_eq!(parser.parse_return_type(), ValueType::Void);
    assert_eq!(parser.pos, 2);

    let mut parser = Parser::new(tokens(vec![
        TokenKind::Colon,
        TokenKind::Option,
        TokenKind::Lt,
        id("number"),
        TokenKind::LBrace,
    ]));
    assert_eq!(parser.parse_return_type(), ValueType::Void);
    assert_eq!(parser.pos, 4);

    let mut parser = Parser::new(tokens(vec![
        TokenKind::Colon,
        TokenKind::List,
        TokenKind::Lt,
        TokenKind::Gt,
    ]));
    assert_eq!(parser.parse_return_type(), ValueType::Void);
    assert_eq!(parser.pos, 4);

    let mut parser = Parser::new(tokens(vec![
        TokenKind::Colon,
        TokenKind::List,
        id("number"),
        TokenKind::Gt,
    ]));
    assert_eq!(parser.parse_return_type(), ValueType::Void);
    assert_eq!(parser.pos, 4);

    let mut parser = Parser::new(tokens(vec![
        TokenKind::Colon,
        TokenKind::Result,
        TokenKind::Lt,
        id("number"),
        id("string"),
        TokenKind::Gt,
    ]));
    assert_eq!(parser.parse_return_type(), ValueType::Void);
    assert_eq!(parser.pos, 6);

    let mut parser = Parser::new(tokens(vec![
        TokenKind::Colon,
        TokenKind::Result,
        TokenKind::Lt,
        id("number"),
        TokenKind::Comma,
        id("string"),
        TokenKind::LBrace,
    ]));
    assert_eq!(parser.parse_return_type(), ValueType::Void);
    assert_eq!(parser.pos, 6);

    let mut parser = Parser::new(tokens(vec![TokenKind::Colon, TokenKind::Result]));
    assert_eq!(parser.parse_return_type(), ValueType::Void);
    assert_eq!(parser.pos, 2);

    let mut parser = Parser::new(tokens(vec![TokenKind::Colon, TokenKind::Plus]));
    assert_eq!(parser.parse_return_type(), ValueType::Void);
    assert_eq!(parser.pos, 1);
}

#[test]
fn lambda_with_a_bare_parameter() {
    let mut parser = Parser::new(tokens(vec![
        TokenKind::BackSlash,
        id("x"),
        TokenKind::RRocket,
        id("x"),
        TokenKind::Plus,
        num(1),
    ]));
    let node = parser.parse_lambda().unwrap();
    match &node {
        ASTNode::Lambda { arguments, body, .. } => {
            assert_eq!(arguments.len(), 1);
            assert!(matches!(&arguments[0], ASTNode::Variable { name, value_type: None, .. } if name == "x"));
            assert!(matches!(**body, ASTNode::BinaryOp { .. }));
        }
        _ => panic!("no lambda node"),
    }
    assert_eq!(parser.pos, 6);
    assert!(parser.scopes.is_empty());
}

#[test]
fn lambda_with_typed_parameters_between_pipes() {
    let mut parser = Parser::new(tokens(vec![
        TokenKind::BackSlash,
        TokenKind::Pipe,
        id("a"),
        TokenKind::Colon,
        id("number"),
        TokenKind::Comma,
        id("b"),
        TokenKind::Colon,
        id("number"),
        TokenKind::Pipe,
        TokenKind::RRocket,
        id("a"),
        TokenKind::Plus,
        id("b"),
    ]));
    let node = parser.parse_lambda().unwrap();
    match &node {
        ASTNode::Lambda { arguments, body, .. } => {
            assert_eq!(arguments.len(), 2);
            assert!(matches!(
                &arguments[1],
                ASTNode::Variable { name, value_type: Some(ValueType::Number), .. } if name == "b"
            ));
            match &**body {
                ASTNode::BinaryOp { left, .. } => assert!(matches!(
                    &**left,
                    ASTNode::Variable { value_type: Some(ValueType::Number), .. }
                )),
                _ => panic!("no binary body"),
            }
        }
        _ => panic!("no lambda node"),
    }
    assert!(parser.scopes.is_empty());
}

#[test]
fn lambda_with_a_block_body() {
    let mut parser = Parser::new(tokens(vec![
        TokenKind::BackSlash,
        id("x"),
        TokenKind::RRocket,
        TokenKind::LBrace,
        TokenKind::Return,
        id("x"),
        TokenKind::RBrace,
    ]));
    let node = parser.parse_lambda().unwrap();
    assert!(matches!(node, ASTNode::Lambda { ref body, .. } if matches!(**body, ASTNode::Block { .. })));
}

#[test]
fn lambda_without_rocket_fails_and_drops_its_scope() {
    let mut parser = Parser::new(tokens(vec![TokenKind::BackSlash, id("x"), id("y")]));
    let error = parser.parse_lambda().unwrap_err();
    assert_eq!(error.kind, ParseErrorKind::ExpectedToken);
    assert!(parser.scopes.is_empty());
}

#[test]
fn lambda_without_closing_pipe_is_unterminated() {
    let mut parser = Parser::new(tokens(vec![
        TokenKind::BackSlash,
        TokenKind::Pipe,
        id("a"),
        TokenKind::Colon,
        id("number"),
    ]));
    let error = parser.parse_lambda().unwrap_err();
    assert_eq!(error.kind, ParseErrorKind::UnterminatedConstruct);
    assert!(parser.scopes.is_empty());
}

#[test]
fn is_lambda_call_looks_one_token_ahead_and_stays() {
    let mut parser = Parser::new(tokens(vec![TokenKind::RArrow, TokenKind::BackSlash]));
    assert!(parser.is_lambda_call());
    assert_eq!(parser.pos, 0);
    let mut parser = Parser::new(tokens(vec![TokenKind::RArrow, id("x")]));
    assert!(!parser.is_lambda_call());
    let mut parser = Parser::new(tokens(vec![TokenKind::RArrow]));
    assert!(!parser.is_lambda_call());
}

#[test]
fn parse_lambda_call_takes_what_stood_before_the_arrow() {
    let mut parser = Parser::new(tokens(vec![
        TokenKind::RArrow,
        TokenKind::BackSlash,
        id("x"),
        TokenKind::RRocket,
        id("x"),
    ]));
    let left = ASTNode::Literal { value: number(5), line: 1, column: 0 };
    let node = parser.parse_lambda_call(left).unwrap();
    match node {
        ASTNode::LambdaCall { lambda, arguments, .. } => {
            assert!(matches!(*lambda, ASTNode::Lambda { .. }));
            assert_eq!(arguments.len(), 1);
        }
        _ => panic!("no lambda call"),
    }

    let mut parser = Parser::new(tokens(vec![
        TokenKind::RArrow,
        TokenKind::BackSlash,
        id("x"),
        TokenKind::RRocket,
        id("x"),
    ]));
    let left = ASTNode::FunctionCallArgs {
        args: vec![
            ASTNode::Literal { value: number(1), line: 1, column: 0 },
            ASTNode::Literal { value: number(2), line: 1, column: 0 },
        ],
        line: 1,
        column: 0,
    };
    match parser.parse_lambda_call(left).unwrap() {
        ASTNode::LambdaCall { arguments, .. } => assert_eq!(arguments.len(), 2),
        _ => panic!("no lambda call"),
    }
}

#[test]
fn lambda_after_arrow_is_called_with_the_left_operand() {
    let (values, _) = run(vec![
        num(5),
        TokenKind::RArrow,
        TokenKind::BackSlash,
        id("x"),
        TokenKind::RRocket,
        id("x"),
        TokenKind::Mul,
        num(2),
    ]);
    assert_eq!(values, vec![number(10)]);
}

#[test]
fn declaration_and_reassignment() {
    let (values, env) = run(vec![
        TokenKind::Mutable,
        id("x"),
        TokenKind::Colon,
        id("number"),
        TokenKind::Equal,
        num(1),
        id("x"),
        TokenKind::Equal,
        id("x"),
        TokenKind::Plus,
        num(2),
    ]);
    assert_eq!(values, vec![number(1), number(3)]);
    let slot = env.get(&"x".to_string(), None).unwrap();
    assert_eq!(slot.value, number(3));
    assert_eq!(slot.variable_type, EnvVariableType::Mutable);
    assert_eq!(slot.value_type, ValueType::Number);
}

#[test]
fn reassigning_an_immutable_declaration_fails() {
    let mut parser = Parser::new(tokens(vec![
        TokenKind::Immutable,
        id("x"),
        TokenKind::Equal,
        num(1),
        id("x"),
        TokenKind::Equal,
        num(2),
    ]));
    let (nodes, error) = parser.parse_lines();
    assert_eq!(error, None);
    let mut env = Env::new();
    let (values, failure) = evals(nodes, &mut env);
    assert_eq!(values, vec![number(1)]);
    assert_eq!(failure.unwrap().kind, RuntimeErrorKind::ReassignImmutable);
    assert_eq!(env.get(&"x".to_string(), None).unwrap().value, number(1));
}

#[test]
fn function_declaration_and_call() {
    let (values, env) = run(vec![
        TokenKind::Function,
        id("add"),
        TokenKind::LParen,
        id("a"),
        TokenKind::Colon,
        id("number"),
        TokenKind::Comma,
        id("b"),
        TokenKind::Colon,
        id("number"),
        TokenKind::RParen,
        TokenKind::Colon,
        id("number"),
        TokenKind::LBrace,
        TokenKind::Return,
        id("a"),
        TokenKind::Plus,
        id("b"),
        TokenKind::RBrace,
        id("add"),
        TokenKind::LParen,
        num(2),
        TokenKind::Comma,
        num(3),
        TokenKind::RParen,
    ]);
    assert_eq!(values, vec![Value::Function, number(5)]);
    assert_eq!(env.frames.len(), 1);
    assert!(env.get(&"a".to_string(), None).is_none());
}

#[test]
fn function_with_an_expression_body() {
    let (values, _) = run(vec![
        TokenKind::Function,
        id("twice"),
        TokenKind::LParen,
        id("a"),
        TokenKind::RParen,
        id("a"),
        TokenKind::Mul,
        num(2),
        id("twice"),
        TokenKind::LParen,
        num(4),
        TokenKind::RParen,
    ]);
    assert_eq!(values, vec![Value::Function, number(8)]);
}

#[test]
fn struct_field_assignment_round_trips() {
    let (values, _) = run(vec![
        TokenKind::PrivateStruct,
        id("Point"),
        TokenKind::LBrace,
        id("x"),
        TokenKind::Colon,
        id("number"),
        TokenKind::Comma,
        id("y"),
        TokenKind::Colon,
        id("number"),
        TokenKind::RBrace,
        TokenKind::Mutable,
        id("p"),
        TokenKind::Equal,
        id("Point"),
        TokenKind::LBrace,
        id("x"),
        TokenKind::Colon,
        num(1),
        TokenKind::Comma,
        id("y"),
        TokenKind::Colon,
        num(2),
        TokenKind::RBrace,
        id("p"),
        TokenKind::Dot,
        id("x"),
        TokenKind::Equal,
        num(10),
        id("p"),
        TokenKind::Dot,
        id("x"),
        id("p"),
        TokenKind::Dot,
        id("y"),
    ]);
    assert_eq!(values.len(), 5);
    assert_eq!(values[0], Value::Void);
    assert_eq!(values[2], number(10));
    assert_eq!(values[3], number(10));
    assert_eq!(values[4], number(2));
}

#[test]
fn methods_are_found_by_the_receivers_struct() {
    let mut kinds = vec![];
    for (name, result) in [("A", 1u64), ("B", 2u64)] {
        kinds.extend(vec![
            TokenKind::PrivateStruct,
            id(name),
            TokenKind::LBrace,
            id("v"),
            TokenKind::Colon,
            id("number"),
            TokenKind::RBrace,
            TokenKind::Impl,
            id(name),
            TokenKind::LBrace,
            TokenKind::Function,
            id("tag"),
            TokenKind::LParen,
            TokenKind::RParen,
            TokenKind::LBrace,
            TokenKind::Return,
            TokenKind::SelfValue,
            TokenKind::Dot,
            id("v"),
            TokenKind::Plus,
            num(result),
            TokenKind::RBrace,
            TokenKind::RBrace,
        ]);
    }
    for name in ["A", "B"] {
        kinds.extend(vec![
            id(name),
            TokenKind::LBrace,
            id("v"),
            TokenKind::Colon,
            num(10),
            TokenKind::RBrace,
            TokenKind::Dot,
            id("tag"),
            TokenKind::LParen,
            TokenKind::RParen,
        ]);
    }
    let (values, _) = run(kinds);
    assert_eq!(values[4], number(11));
    assert_eq!(values[5], number(12));
}

#[test]
fn if_else_picks_one_branch() {
    let program = |condition: TokenKind| {
        vec![
            TokenKind::If,
            condition,
            TokenKind::LBrace,
            num(1),
            TokenKind::RBrace,
            TokenKind::Else,
            TokenKind::LBrace,
            num(2),
            TokenKind::RBrace,
        ]
    };
    let (values, _) = run(program(TokenKind::True));
    assert_eq!(values, vec![Value::Void]);
    let mut parser = Parser::new(tokens(program(TokenKind::False)));
    let node = parser.parse().unwrap();
    assert!(matches!(node, ASTNode::If { else_: Some(_), .. }));
}

#[test]
fn if_with_a_return_in_a_function() {
    let (values, _) = run(vec![
        TokenKind::Function,
        id("pick"),
        TokenKind::LParen,
        id("c"),
        TokenKind::RParen,
        TokenKind::LBrace,
        TokenKind::If,
        id("c"),
        TokenKind::LBrace,
        TokenKind::Return,
        num(1),
        TokenKind::RBrace,
        TokenKind::Else,
        TokenKind::If,
        TokenKind::False,
        TokenKind::LBrace,
        TokenKind::Return,
        num(2),
        TokenKind::RBrace,
        TokenKind::Else,
        TokenKind::LBrace,
        TokenKind::Return,
        num(3),
        TokenKind::RBrace,
        TokenKind::RBrace,
        id("pick"),
        TokenKind::LParen,
        TokenKind::True,
        TokenKind::RParen,
        id("pick"),
        TokenKind::LParen,
        TokenKind::False,
        TokenKind::RParen,
    ]);
    assert_eq!(values, vec![Value::Function, number(1), number(3)]);
}

#[test]
fn for_sums_a_list_into_an_outer_variable() {
    let (values, env) = run(vec![
        TokenKind::Mutable,
        id("total"),
        TokenKind::Equal,
        num(0),
        TokenKind::For,
        id("x"),
        TokenKind::In,
        TokenKind::LBrancket,
        num(1),
        TokenKind::Comma,
        num(2),
        TokenKind::Comma,
        num(3),
        TokenKind::RBrancket,
        TokenKind::LBrace,
        id("total"),
        TokenKind::Equal,
        id("total"),
        TokenKind::Plus,
        id("x"),
        TokenKind::RBrace,
        id("total"),
    ]);
    assert_eq!(values, vec![number(0), Value::Void, number(6)]);
    assert!(env.get(&"x".to_string(), None).is_none());
    assert_eq!(env.frames.len(), 1);
}

#[test]
fn builtin_method_call_on_a_list() {
    let (values, _) = run(vec![
        TokenKind::LBrancket,
        num(1),
        TokenKind::Comma,
        num(2),
        TokenKind::RBrancket,
        TokenKind::Dot,
        id("len"),
        TokenKind::LParen,
        TokenKind::RParen,
    ]);
    assert_eq!(values, vec![number(2)]);
}

#[test]
fn import_is_parsed_with_its_symbols() {
    let mut parser = Parser::new(tokens(vec![
        TokenKind::Import,
        id("a"),
        TokenKind::Comma,
        id("b"),
        TokenKind::From,
        id("m"),
    ]));
    let node = parser.parse().unwrap();
    assert_eq!(
        node,
        ASTNode::Import {
            module_name: "m".to_string(),
            symbols: vec!["a".to_string(), "b".to_string()],
            line: 1,
            column: 1
        }
    );
    assert_eq!(parser.struct_names, vec!["a".to_string(), "b".to_string()]);
}

#[test]
fn public_struct_is_wrapped() {
    let mut parser = Parser::new(tokens(vec![
        TokenKind::PublicStruct,
        id("P"),
        TokenKind::LBrace,
        TokenKind::RBrace,
    ]));
    let node = parser.parse().unwrap();
    assert!(matches!(node, ASTNode::Public { ref node, .. } if matches!(**node, ASTNode::Struct { .. })));
    assert_eq!(eval(node, &mut Env::new()), Ok(Value::Void));
}

#[test]
fn parse_lines_stops_at_the_first_malformed_statement() {
    let mut parser = Parser::new(tokens(vec![
        num(1),
        TokenKind::Immutable,
        TokenKind::Equal,
        num(2),
    ]));
    let (nodes, error) = parser.parse_lines();
    assert_eq!(nodes.len(), 1);
    assert_eq!(error.unwrap().kind, ParseErrorKind::ExpectedToken);
}

#[test]
fn unterminated_block_is_reported() {
    let mut parser = Parser::new(tokens(vec![TokenKind::LBrace, num(1)]));
    let error = parser.parse().unwrap_err();
    assert_eq!(error.kind, ParseErrorKind::UnterminatedConstruct);
}

#[test]
fn nesting_deeper_than_the_limit_fails() {
    let mut parser = Parser::new(tokens(vec![num(1), TokenKind::Plus, num(2)]));
    parser.depth = 0;
    let error = parser.parse_expression(0).unwrap_err();
    assert_eq!(error.kind, ParseErrorKind::NestingLimit);
    assert_eq!(parser.depth, 0);

    let mut kinds = vec![];
    for _ in 0..2000 {
        kinds.push(TokenKind::LParen);
    }
    kinds.push(num(1));
    for _ in 0..2000 {
        kinds.push(TokenKind::RParen);
    }
    let mut parser = Parser::new(tokens(kinds));
    let error = parser.parse_expression(0).unwrap_err();
    assert_eq!(error.kind, ParseErrorKind::NestingLimit);
}

#[test]
fn end_of_input_counts_as_eof() {
    let mut parser = Parser::new(vec![]);
    assert!(parser.get_current_token().is_none());
    assert_eq!(parser.current_kind(), TokenKind::Eof);
    assert_eq!(parser.get_line_column(), (0, 0));
    parser.consume_token();
    assert_eq!(parser.pos, 0);
    let (nodes, error) = parser.parse_lines();
    assert!(nodes.is_empty());
    assert_eq!(error, None);
}
