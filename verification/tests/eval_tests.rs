use scriptling::ast::ASTNode;
use scriptling::environment::{Env, EnvVariableType};
use scriptling::evals::{eval, evals};
use scriptling::number::Number;
use scriptling::token::TokenKind;
use scriptling::value::{Value, ValueType};

fn number(n: i64) -> Value {
    Value::Number(Number::from_i64(n))
}

fn literal(n: i64) -> ASTNode {
    ASTNode::Literal { value: number(n), line: 0, column: 0 }
}

fn variable(name: &str) -> ASTNode {
    ASTNode::Variable {
        name: name.into(),
        value_type: Some(ValueType::Number),
        line: 0,
        column: 0,
    }
}

fn binary(left: ASTNode, op: TokenKind, right: ASTNode) -> ASTNode {
    ASTNode::BinaryOp { left: Box::new(left), op, right: Box::new(right), line: 0, column: 0 }
}

fn assign(name: &str, value: ASTNode, variable_type: EnvVariableType, is_new: bool) -> ASTNode {
    ASTNode::Assign {
        name: name.to_string(),
        value: Box::new(value),
        variable_type,
        value_type: ValueType::Number,
        is_new,
        line: 0,
        column: 0,
    }
}

fn function(name: &str, params: Vec<&str>, body: ASTNode) -> ASTNode {
    ASTNode::Function {
        name: name.into(),
        arguments: params.into_iter().map(variable).collect(),
        body: Box::new(body),
        return_type: ValueType::Number,
        line: 0,
        column: 0,
    }
}

fn block(nodes: Vec<ASTNode>) -> ASTNode {
    ASTNode::Block { nodes, line: 0, column: 0 }
}

fn ret(expr: ASTNode) -> ASTNode {
    ASTNode::Return { expr: Box::new(expr), line: 0, column: 0 }
}

fn call(name: &str, args: Vec<ASTNode>) -> ASTNode {
    ASTNode::FunctionCall {
        name: name.into(),
        arguments: Box::new(ASTNode::FunctionCallArgs { args, line: 0, column: 0 }),
        line: 0,
        column: 0,
    }
}

fn f1() -> ASTNode {
    function(
        "f1",
        vec!["x", "y"],
        block(vec![
            assign("z", literal(2), EnvVariableType::Mutable, false),
            assign("d", literal(3), EnvVariableType::Mutable, true),
            assign(
                "z",
                assign("d", literal(4), EnvVariableType::Mutable, false),
                EnvVariableType::Mutable,
                false,
            ),
            ret(binary(
                binary(variable("x"), TokenKind::Plus, variable("y")),
                TokenKind::Plus,
                variable("z"),
            )),
        ]),
    )
}

#[test]
fn test_four_basic_arithmetic_operations() {
    let mut env = Env::new();
    let ast = binary(
        ASTNode::PrefixOp { op: TokenKind::Minus, expr: Box::new(literal(1)), line: 0, column: 0 },
        TokenKind::Plus,
        binary(literal(2), TokenKind::Mul, literal(3)),
    );
    assert_eq!(Ok(number(5)), eval(ast, &mut env));
}

#[test]
fn test_assign() {
    let mut env = Env::new();
    let ast = assign("x", literal(5), EnvVariableType::Mutable, true);
    assert_eq!(Ok(number(5)), eval(ast, &mut env));
    assert_eq!(number(5), env.get(&"x".to_string(), None).unwrap().value);
    assert_eq!(EnvVariableType::Mutable, env.get(&"x".to_string(), None).unwrap().variable_type);
    let mut env = Env::new();
    let ast = assign("x", literal(5), EnvVariableType::Immutable, false);
    assert_eq!(Ok(number(5)), eval(ast, &mut env));
    assert_eq!(number(5), env.get(&"x".to_string(), None).unwrap().value);
    assert_eq!(EnvVariableType::Immutable, env.get(&"x".to_string(), None).unwrap().variable_type);
}

#[test]
fn test_assign_expression_value() {
    let mut env = Env::new();
    let ast = assign(
        "y",
        binary(literal(10), TokenKind::Plus, literal(20)),
        EnvVariableType::Mutable,
        true,
    );
    assert_eq!(Ok(number(30)), eval(ast, &mut env));
    assert_eq!(env.get(&"y".to_string(), None).unwrap().value, number(30));
}

#[test]
fn test_assign_overwrite_mutable_variable() {
    let mut env = Env::new();
    let ast1 = assign("z", literal(50), EnvVariableType::Mutable, true);
    eval(ast1, &mut env).unwrap();
    let ast2 = assign("z", literal(100), EnvVariableType::Mutable, false);
    assert_eq!(eval(ast2, &mut env), Ok(number(100)));
    assert_eq!(env.get(&"z".to_string(), None).unwrap().value, number(100));
}

#[test]
#[should_panic(expected = "Cannot reassign to immutable variable")]
fn test_assign_to_immutable_variable() {
    let mut env = Env::new();
    let ast1 = assign("w", literal(200), EnvVariableType::Immutable, true);
    eval(ast1, &mut env).unwrap();
    let ast2 = assign("w", literal(300), EnvVariableType::Immutable, false);
    if let Err(e) = eval(ast2, &mut env) {
        panic!("{}", e.message());
    }
}

#[test]
fn test_register_function_and_function_call() {
    let mut env = Env::new();
    let ast = function(
        "foo",
        vec!["x", "y"],
        block(vec![ret(binary(variable("x"), TokenKind::Plus, variable("y")))]),
    );
    eval(ast, &mut env).unwrap();
    let ast = call("foo", vec![literal(1), literal(2)]);
    let result = eval(ast, &mut env);
    assert_eq!(result, Ok(number(3)));
}

#[test]
#[should_panic(expected = "Unexpected prefix op: Plus")]
fn test_unsupported_prefix_operation() {
    let mut env = Env::new();
    let ast =
        ASTNode::PrefixOp { op: TokenKind::Plus, expr: Box::new(literal(5)), line: 0, column: 0 };
    if let Err(e) = eval(ast, &mut env) {
        panic!("{}", e.message());
    }
}

#[test]
#[should_panic(expected = "Unsupported operation")]
fn test_unsupported_binary_operation() {
    let mut env = Env::new();
    let ast = binary(
        ASTNode::Literal { value: Value::String("hello".to_string()), line: 0, column: 0 },
        TokenKind::Mul,
        literal(5),
    );
    if let Err(e) = eval(ast, &mut env) {
        panic!("{}", e.message());
    }
}

#[test]
fn test_list() {
    let mut env = Env::new();
    let ast = ASTNode::Assign {
        name: "x".to_string(),
        value: Box::new(ASTNode::Literal {
            value: Value::List(vec![number(1), number(2), number(3)]),
            line: 0,
            column: 0,
        }),
        variable_type: EnvVariableType::Mutable,
        value_type: ValueType::List(Box::new(ValueType::Number)),
        is_new: true,
        line: 0,
        column: 0,
    };
    assert_eq!(Ok(Value::List(vec![number(1), number(2), number(3)])), eval(ast, &mut env));
    assert_eq!(
        Value::List(vec![number(1), number(2), number(3)]),
        env.get(&"x".to_string(), None).unwrap().value
    );
}

#[test]
#[should_panic(expected = "does not match arguments length")]
fn test_function_call_argument_mismatch() {
    let mut env = Env::new();
    let ast_function = function("bar", vec!["x"], ret(variable("x")));
    eval(ast_function, &mut env).unwrap();
    let ast_call = call("bar", vec![literal(5), literal(10)]);
    if let Err(e) = eval(ast_call, &mut env) {
        panic!("{}", e.message());
    }
}

#[test]
fn test_scope_management_in_function() {
    let mut env = Env::new();
    let ast_function = function(
        "add_and_return",
        vec!["a"],
        block(vec![
            assign("local_var", literal(10), EnvVariableType::Mutable, true),
            ret(binary(variable("a"), TokenKind::Plus, variable("local_var"))),
        ]),
    );
    eval(ast_function, &mut env).unwrap();
    let ast_call = call("add_and_return", vec![literal(5)]);
    let result = eval(ast_call, &mut env);
    assert_eq!(result, Ok(number(15)));
    let local_var_check = env.get(&"local_var".to_string(), None);
    assert!(local_var_check.is_none());
}

#[test]
fn test_scope_and_global_variable() {
    let mut env = Env::new();
    eval(assign("z", literal(3), EnvVariableType::Mutable, true), &mut env).unwrap();
    eval(f1(), &mut env).unwrap();
    let f2 = function(
        "f2",
        vec!["x", "y"],
        ret(binary(
            binary(variable("x"), TokenKind::Plus, variable("y")),
            TokenKind::Plus,
            variable("z"),
        )),
    );
    eval(f2, &mut env).unwrap();
    let f3 = function("f3", vec![], ret(literal(1)));
    eval(f3, &mut env).unwrap();

    let result_f1 = eval(call("f1", vec![literal(2), literal(0)]), &mut env);
    assert_eq!(result_f1, Ok(number(6)));
    let result_f2 = eval(call("f2", vec![literal(2), literal(0)]), &mut env);
    assert_eq!(result_f2, Ok(number(6)));
    let result_f3 = eval(call("f3", vec![]), &mut env);
    assert_eq!(result_f3, Ok(number(1)));
}

#[test]
fn test_global_variable_and_functions() {
    let mut env = Env::new();
    eval(assign("z", literal(3), EnvVariableType::Mutable, true), &mut env).unwrap();
    eval(f1(), &mut env).unwrap();
    let result = eval(call("f1", vec![literal(2), literal(0)]), &mut env);
    assert_eq!(result, Ok(number(6)));
}

#[test]
fn test_comparison_operations() {
    let mut env = Env::new();
    let ast = ASTNode::Eq {
        left: Box::new(literal(1)),
        right: Box::new(literal(1)),
        line: 0,
        column: 0,
    };
    assert_eq!(Ok(Value::Bool(true)), eval(ast, &mut env));
    let ast = ASTNode::Gte {
        left: Box::new(literal(1)),
        right: Box::new(literal(1)),
        line: 0,
        column: 0,
    };
    assert_eq!(Ok(Value::Bool(true)), eval(ast, &mut env));
    let ast = ASTNode::Gt {
        left: Box::new(literal(1)),
        right: Box::new(literal(1)),
        line: 0,
        column: 0,
    };
    assert_eq!(Ok(Value::Bool(false)), eval(ast, &mut env));
    let ast = ASTNode::Lte {
        left: Box::new(literal(1)),
        right: Box::new(literal(1)),
        line: 0,
        column: 0,
    };
    assert_eq!(Ok(Value::Bool(true)), eval(ast, &mut env));
    let ast = ASTNode::Lt {
        left: Box::new(literal(1)),
        right: Box::new(literal(1)),
        line: 0,
        column: 0,
    };
    assert_eq!(Ok(Value::Bool(false)), eval(ast, &mut env));
}

#[test]
fn leak_back_leaves_new_locals_behind() {
    let mut env = Env::new();
    eval(assign("z", literal(3), EnvVariableType::Mutable, true), &mut env).unwrap();
    eval(f1(), &mut env).unwrap();
    let result = eval(call("f1", vec![literal(2), literal(0)]), &mut env);
    assert_eq!(result, Ok(number(6)));
    assert_eq!(env.get(&"z".to_string(), None).unwrap().value, number(4));
    assert!(env.get(&"d".to_string(), None).is_none());
    assert!(env.get(&"x".to_string(), None).is_none());
    assert_eq!(env.frames.len(), 1);
}

#[test]
fn evals_stops_at_the_first_failure() {
    let mut env = Env::new();
    let program = vec![
        assign("a", literal(1), EnvVariableType::Immutable, true),
        assign("a", literal(2), EnvVariableType::Immutable, false),
        assign("b", literal(3), EnvVariableType::Immutable, true),
    ];
    let (values, error) = evals(program, &mut env);
    assert_eq!(values, vec![number(1)]);
    assert!(error.is_some());
    assert!(env.get(&"b".to_string(), None).is_none());
}
