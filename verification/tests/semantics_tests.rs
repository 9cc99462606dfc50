use scriptling::ast::{ASTNode, FieldDef, FieldInit};
use scriptling::environment::{
    Builtin, Env, EnvVariableType, Frame, FunctionInfo, Module, NamedFunction, StructInfo,
    VariableSlot,
};
use scriptling::error::{OperatorKind, RuntimeError, RuntimeErrorKind, ValueKind};
use scriptling::evals::builtin::{apply_builtin, register_builtins};
use scriptling::evals::function_node::{block_node, function_call_node, function_node};
use scriptling::evals::{eval, eval_node};
use scriptling::number::Number;
use scriptling::token::TokenKind;
use scriptling::value::{FieldValue, Value, ValueType};

fn number(n: i64) -> Value {
    Value::Number(Number::from_i64(n))
}

fn at(value: Value) -> ASTNode {
    ASTNode::Literal { value, line: 3, column: 4 }
}

fn lit(n: i64) -> ASTNode {
    at(number(n))
}

fn var(name: &str) -> ASTNode {
    ASTNode::Variable { name: name.to_string(), value_type: None, line: 3, column: 4 }
}

fn declare(name: &str, value: ASTNode, variable_type: EnvVariableType) -> ASTNode {
    ASTNode::Assign {
        name: name.to_string(),
        value: Box::new(value),
        variable_type,
        value_type: ValueType::Any,
        is_new: true,
        line: 3,
        column: 4,
    }
}

fn reassign(name: &str, value: ASTNode) -> ASTNode {
    ASTNode::Assign {
        name: name.to_string(),
        value: Box::new(value),
        variable_type: EnvVariableType::Mutable,
        value_type: ValueType::Any,
        is_new: false,
        line: 3,
        column: 4,
    }
}

fn plus(left: ASTNode, right: ASTNode) -> ASTNode {
    ASTNode::BinaryOp {
        left: Box::new(left),
        op: TokenKind::Plus,
        right: Box::new(right),
        line: 3,
        column: 4,
    }
}

fn block(nodes: Vec<ASTNode>) -> ASTNode {
    ASTNode::Block { nodes, line: 3, column: 4 }
}

fn ret(expr: ASTNode) -> ASTNode {
    ASTNode::Return { expr: Box::new(expr), line: 3, column: 4 }
}

fn param(name: &str) -> ASTNode {
    var(name)
}

fn function(name: &str, params: Vec<&str>, body: ASTNode) -> ASTNode {
    ASTNode::Function {
        name: name.to_string(),
        arguments: params.into_iter().map(param).collect(),
        body: Box::new(body),
        return_type: ValueType::Any,
        line: 3,
        column: 4,
    }
}

fn args(nodes: Vec<ASTNode>) -> Box<ASTNode> {
    Box::new(ASTNode::FunctionCallArgs { args: nodes, line: 3, column: 4 })
}

fn call(name: &str, nodes: Vec<ASTNode>) -> ASTNode {
    ASTNode::FunctionCall { name: name.to_string(), arguments: args(nodes), line: 3, column: 4 }
}

fn lambda(params: Vec<&str>, body: ASTNode) -> ASTNode {
    ASTNode::Lambda {
        arguments: params.into_iter().map(param).collect(),
        body: Box::new(body),
        line: 3,
        column: 4,
    }
}

fn for_loop(variable: &str, iterable: ASTNode, body: ASTNode) -> ASTNode {
    ASTNode::For {
        variable: variable.to_string(),
        iterable: Box::new(iterable),
        body: Box::new(body),
        line: 3,
        column: 4,
    }
}

fn point_schema() -> ASTNode {
    ASTNode::Struct {
        name: "Point".to_string(),
        fields: vec![
            FieldDef { name: "x".to_string(), value_type: ValueType::Number },
            FieldDef { name: "y".to_string(), value_type: ValueType::Number },
        ],
        line: 3,
        column: 4,
    }
}

fn point(fields: Vec<(&str, i64)>) -> ASTNode {
    ASTNode::StructInstance {
        name: "Point".to_string(),
        fields: fields
            .into_iter()
            .map(|(name, value)| FieldInit { name: name.to_string(), value: lit(value) })
            .collect(),
        line: 3,
        column: 4,
    }
}

fn field(instance: ASTNode, name: &str) -> ASTNode {
    ASTNode::StructFieldAccess {
        instance: Box::new(instance),
        field_name: name.to_string(),
        line: 3,
        column: 4,
    }
}

fn kind_of(result: Result<Value, RuntimeError>) -> RuntimeErrorKind {
    let error = result.unwrap_err();
    assert_eq!((error.line, error.column), (3, 4));
    error.kind
}

#[test]
fn undefined_variable() {
    assert_eq!(kind_of(eval(var("nope"), &mut Env::new())), RuntimeErrorKind::UndefinedVariable);
}

#[test]
fn variable_of_another_type_counts_as_undefined() {
    let mut env = Env::new();
    eval(declare("s", at(Value::String("a".to_string())), EnvVariableType::Immutable), &mut env)
        .unwrap();
    let typed = ASTNode::Variable {
        name: "s".to_string(),
        value_type: Some(ValueType::Number),
        line: 3,
        column: 4,
    };
    assert_eq!(kind_of(eval(typed, &mut env)), RuntimeErrorKind::UndefinedVariable);
    assert!(env.get(&"s".to_string(), Some(&ValueType::String)).is_some());
    assert!(env.get(&"s".to_string(), Some(&ValueType::Any)).is_some());
    assert!(env.get(&"s".to_string(), Some(&ValueType::Lambda)).is_none());
}

#[test]
fn undefined_function() {
    assert_eq!(
        kind_of(eval(call("nope", vec![]), &mut Env::new())),
        RuntimeErrorKind::UndefinedFunction
    );
}

#[test]
fn wrong_argument_count_is_an_arity_mismatch_whatever_the_arguments() {
    let mut env = Env::new();
    eval(function("one", vec!["a"], var("a")), &mut env).unwrap();
    for arguments in [vec![], vec![lit(1), lit(2)], vec![var("unbound"), var("unbound")]] {
        let found = arguments.len();
        assert_eq!(
            kind_of(eval(call("one", arguments), &mut env)),
            RuntimeErrorKind::ArityMismatch { expected: 1, found }
        );
    }
    assert_eq!(env.frames.len(), 1);
}

#[test]
fn lambda_and_builtin_arity_are_checked_too() {
    let mut env = Env::new();
    register_builtins(&mut env);
    eval(declare("f", lambda(vec!["a"], var("a")), EnvVariableType::Immutable), &mut env).unwrap();
    assert_eq!(
        kind_of(eval(call("f", vec![]), &mut env)),
        RuntimeErrorKind::ArityMismatch { expected: 1, found: 0 }
    );
    assert_eq!(
        kind_of(eval(call("len", vec![lit(1), lit(2)]), &mut env)),
        RuntimeErrorKind::ArityMismatch { expected: 1, found: 2 }
    );
}

#[test]
fn type_mismatch_in_if_and_for() {
    let node = ASTNode::If {
        condition: Box::new(lit(1)),
        then: Box::new(block(vec![])),
        else_: None,
        value_type: ValueType::Void,
        line: 3,
        column: 4,
    };
    assert_eq!(kind_of(eval(node, &mut Env::new())), RuntimeErrorKind::TypeMismatch);
    let mut env = Env::new();
    assert_eq!(
        kind_of(eval(for_loop("x", lit(1), block(vec![])), &mut env)),
        RuntimeErrorKind::TypeMismatch
    );
    assert_eq!(env.frames.len(), 1);
}

#[test]
fn unsupported_operation_names_operator_and_operands() {
    let node = ASTNode::BinaryOp {
        left: Box::new(at(Value::String("hello".to_string()))),
        op: TokenKind::Mul,
        right: Box::new(lit(5)),
        line: 3,
        column: 4,
    };
    let error = eval(node, &mut Env::new()).unwrap_err();
    assert_eq!(
        error.kind,
        RuntimeErrorKind::UnsupportedOperation {
            op: OperatorKind::Mul,
            left: Some(ValueKind::String),
            right: ValueKind::Number
        }
    );
    assert_eq!(error.message(), "Unsupported operation: Mul on String and Number");
    let node = ASTNode::Lt {
        left: Box::new(at(Value::Bool(true))),
        right: Box::new(at(Value::Bool(false))),
        line: 3,
        column: 4,
    };
    assert_eq!(
        kind_of(eval(node, &mut Env::new())),
        RuntimeErrorKind::UnsupportedOperation {
            op: OperatorKind::Lt,
            left: Some(ValueKind::Bool),
            right: ValueKind::Bool
        }
    );
}

#[test]
fn strings_are_joined_and_compared() {
    let a = || at(Value::String("ab".to_string()));
    let b = || at(Value::String("cd".to_string()));
    assert_eq!(eval(plus(a(), b()), &mut Env::new()), Ok(Value::String("abcd".to_string())));
    let node = ASTNode::Eq { left: Box::new(a()), right: Box::new(b()), line: 3, column: 4 };
    assert_eq!(eval(node, &mut Env::new()), Ok(Value::Bool(false)));
    let node = ASTNode::Eq { left: Box::new(a()), right: Box::new(a()), line: 3, column: 4 };
    assert_eq!(eval(node, &mut Env::new()), Ok(Value::Bool(true)));
}

#[test]
fn division_by_zero_and_overflow_are_errors() {
    let node = ASTNode::BinaryOp {
        left: Box::new(lit(1)),
        op: TokenKind::Div,
        right: Box::new(lit(0)),
        line: 3,
        column: 4,
    };
    assert_eq!(kind_of(eval(node, &mut Env::new())), RuntimeErrorKind::DivisionByZero);
    let node = ASTNode::BinaryOp {
        left: Box::new(at(Value::Number(Number::from_u64(u64::MAX)))),
        op: TokenKind::Mul,
        right: Box::new(lit(2)),
        line: 3,
        column: 4,
    };
    assert_eq!(kind_of(eval(node, &mut Env::new())), RuntimeErrorKind::NumericOverflow);
}

#[test]
fn struct_errors() {
    let mut env = Env::new();
    assert_eq!(
        kind_of(eval(point(vec![("x", 1), ("y", 2)]), &mut env)),
        RuntimeErrorKind::UnknownStruct
    );
    eval(point_schema(), &mut env).unwrap();
    assert_eq!(kind_of(eval(point(vec![("x", 1)]), &mut env)), RuntimeErrorKind::MissingField);
    assert_eq!(
        kind_of(eval(point(vec![("x", 1), ("y", 2), ("z", 3)]), &mut env)),
        RuntimeErrorKind::UnexpectedField
    );
    assert_eq!(
        kind_of(eval(field(point(vec![("x", 1), ("y", 2)]), "z"), &mut env)),
        RuntimeErrorKind::UnknownField
    );
    assert_eq!(kind_of(eval(field(lit(1), "x"), &mut env)), RuntimeErrorKind::TypeMismatch);
}

#[test]
fn instance_fields_come_in_schema_order() {
    let mut env = Env::new();
    eval(point_schema(), &mut env).unwrap();
    let value = eval(point(vec![("y", 2), ("x", 1)]), &mut env).unwrap();
    assert_eq!(
        value,
        Value::StructInstance {
            name: "Point".to_string(),
            fields: vec![
                FieldValue { name: "x".to_string(), value: number(1) },
                FieldValue { name: "y".to_string(), value: number(2) },
            ],
        }
    );
}

#[test]
fn field_assignment_round_trips() {
    let mut env = Env::new();
    eval(point_schema(), &mut env).unwrap();
    eval(declare("p", point(vec![("x", 1), ("y", 2)]), EnvVariableType::Mutable), &mut env).unwrap();
    let assign = ASTNode::StructFieldAssign {
        instance: Box::new(var("p")),
        field_name: "x".to_string(),
        value: Box::new(lit(10)),
        line: 3,
        column: 4,
    };
    assert_eq!(eval(assign, &mut env), Ok(number(10)));
    assert_eq!(eval(field(var("p"), "x"), &mut env), Ok(number(10)));
    assert_eq!(eval(field(var("p"), "y"), &mut env), Ok(number(2)));
}

#[test]
fn field_assignment_on_an_immutable_binding_fails() {
    let mut env = Env::new();
    eval(point_schema(), &mut env).unwrap();
    eval(declare("p", point(vec![("x", 1), ("y", 2)]), EnvVariableType::Immutable), &mut env)
        .unwrap();
    let assign = ASTNode::StructFieldAssign {
        instance: Box::new(var("p")),
        field_name: "x".to_string(),
        value: Box::new(lit(10)),
        line: 3,
        column: 4,
    };
    assert_eq!(kind_of(eval(assign, &mut env)), RuntimeErrorKind::ReassignImmutable);
    assert_eq!(eval(field(var("p"), "x"), &mut env), Ok(number(1)));
}

#[test]
fn instances_are_copied_on_assignment() {
    let mut env = Env::new();
    eval(point_schema(), &mut env).unwrap();
    eval(declare("p", point(vec![("x", 1), ("y", 2)]), EnvVariableType::Mutable), &mut env).unwrap();
    eval(declare("q", var("p"), EnvVariableType::Mutable), &mut env).unwrap();
    let assign = ASTNode::StructFieldAssign {
        instance: Box::new(var("q")),
        field_name: "x".to_string(),
        value: Box::new(lit(10)),
        line: 3,
        column: 4,
    };
    eval(assign, &mut env).unwrap();
    assert_eq!(eval(field(var("q"), "x"), &mut env), Ok(number(10)));
    assert_eq!(eval(field(var("p"), "x"), &mut env), Ok(number(1)));
}

#[test]
fn method_dispatch_goes_by_the_receivers_struct() {
    let mut env = Env::new();
    for (name, result) in [("A", 1), ("B", 2)] {
        eval(
            ASTNode::Struct { name: name.to_string(), fields: vec![], line: 3, column: 4 },
            &mut env,
        )
        .unwrap();
        eval(
            ASTNode::Impl {
                base_struct: name.to_string(),
                methods: vec![function("tag", vec![], ret(lit(result)))],
                line: 3,
                column: 4,
            },
            &mut env,
        )
        .unwrap();
    }
    let call_on = |name: &str| ASTNode::MethodCall {
        method_name: "tag".to_string(),
        caller: Box::new(ASTNode::StructInstance {
            name: name.to_string(),
            fields: vec![],
            line: 3,
            column: 4,
        }),
        arguments: vec![],
        builtin: false,
        line: 3,
        column: 4,
    };
    assert_eq!(eval(call_on("A"), &mut env), Ok(number(1)));
    assert_eq!(eval(call_on("B"), &mut env), Ok(number(2)));
    assert_eq!(env.frames.len(), 1);
    let missing = ASTNode::MethodCall {
        method_name: "other".to_string(),
        caller: Box::new(ASTNode::StructInstance {
            name: "A".to_string(),
            fields: vec![],
            line: 3,
            column: 4,
        }),
        arguments: vec![],
        builtin: false,
        line: 3,
        column: 4,
    };
    assert_eq!(kind_of(eval(missing, &mut env)), RuntimeErrorKind::UndefinedFunction);
}

#[test]
fn impl_with_a_method_that_is_no_function_registers_nothing() {
    let mut env = Env::new();
    let node = ASTNode::Impl {
        base_struct: "A".to_string(),
        methods: vec![function("ok", vec![], lit(1)), lit(2)],
        line: 3,
        column: 4,
    };
    assert_eq!(kind_of(eval(node, &mut env)), RuntimeErrorKind::Unsupported);
    assert!(env.methods.is_empty());
}

#[test]
fn unsupported_nodes() {
    assert_eq!(
        kind_of(eval(ASTNode::Continue { line: 3, column: 4 }, &mut Env::new())),
        RuntimeErrorKind::Unsupported
    );
    assert_eq!(kind_of(eval(*args(vec![]), &mut Env::new())), RuntimeErrorKind::Unsupported);
    let bad_call = ASTNode::FunctionCall {
        name: "f".to_string(),
        arguments: Box::new(lit(1)),
        line: 3,
        column: 4,
    };
    assert_eq!(kind_of(eval(bad_call, &mut Env::new())), RuntimeErrorKind::Unsupported);
}

#[test]
fn comment_evaluates_to_void() {
    let node = ASTNode::CommentBlock { comment: "note".to_string(), line: 3, column: 4 };
    assert_eq!(eval(node, &mut Env::new()), Ok(Value::Void));
}

#[test]
fn recursion_stops_at_the_call_depth_limit() {
    let mut env = Env::new();
    eval(function("forever", vec![], call("forever", vec![])), &mut env).unwrap();
    assert_eq!(kind_of(eval(call("forever", vec![]), &mut env)), RuntimeErrorKind::RecursionLimit);
    assert_eq!(env.frames.len(), 1);
    let mut env = Env::new();
    eval(function("one", vec![], lit(1)), &mut env).unwrap();
    assert_eq!(
        kind_of(eval_node(&call("one", vec![]), &mut env, 0)),
        RuntimeErrorKind::RecursionLimit
    );
    assert_eq!(eval_node(&call("one", vec![]), &mut env, 1), Ok(number(1)));
}

#[test]
fn block_passes_the_return_sentinel_on() {
    let mut env = Env::new();
    let result = block_node(
        vec![
            declare("a", lit(1), EnvVariableType::Immutable),
            ret(lit(2)),
            declare("b", lit(3), EnvVariableType::Immutable),
        ],
        3,
        4,
        &mut env,
    );
    assert_eq!(result, Ok(Value::Return(Box::new(number(2)))));
    assert!(env.get(&"a".to_string(), None).is_some());
    assert!(env.get(&"b".to_string(), None).is_none());
    assert_eq!(block_node(vec![lit(1)], 3, 4, &mut env), Ok(Value::Void));
    assert_eq!(block_node(vec![], 3, 4, &mut env), Ok(Value::Void));
}

#[test]
fn function_node_registers_without_running_the_body() {
    let mut env = Env::new();
    let result = function_node(
        "f".to_string(),
        vec![param("a")],
        Box::new(var("unbound")),
        ValueType::Number,
        3,
        4,
        &mut env,
    );
    assert_eq!(result, Ok(Value::Function));
    let info = env.get_function(&"f".to_string()).unwrap();
    assert_eq!(info.arguments.len(), 1);
    assert_eq!(info.return_type, ValueType::Number);
    assert_eq!(info.builtin, None);
}

#[test]
fn function_call_node_calls_by_name() {
    let mut env = Env::new();
    eval(function("inc", vec!["a"], plus(var("a"), lit(1))), &mut env).unwrap();
    assert_eq!(
        function_call_node("inc".to_string(), args(vec![lit(4)]), 3, 4, &mut env),
        Ok(number(5))
    );
    assert_eq!(
        kind_of(function_call_node("inc".to_string(), Box::new(lit(4)), 3, 4, &mut env)),
        RuntimeErrorKind::Unsupported
    );
}

#[test]
fn later_function_declaration_replaces_the_earlier() {
    let mut env = Env::new();
    eval(function("f", vec![], lit(1)), &mut env).unwrap();
    eval(function("f", vec![], lit(2)), &mut env).unwrap();
    assert_eq!(env.functions.len(), 1);
    assert_eq!(eval(call("f", vec![]), &mut env), Ok(number(2)));
}

#[test]
fn functions_resolve_before_builtins_before_lambdas() {
    let mut env = Env::new();
    register_builtins(&mut env);
    eval(declare("len", lambda(vec!["a"], lit(7)), EnvVariableType::Immutable), &mut env).unwrap();
    let list = || at(Value::List(vec![number(1), number(2)]));
    assert_eq!(eval(call("len", vec![list()]), &mut env), Ok(number(2)));
    eval(function("len", vec!["a"], lit(9)), &mut env).unwrap();
    assert_eq!(eval(call("len", vec![list()]), &mut env), Ok(number(9)));
}

#[test]
fn for_over_nothing_yields_void_and_runs_no_body() {
    let mut env = Env::new();
    let node = for_loop("x", at(Value::List(vec![])), block(vec![var("unbound")]));
    let before = env.clone();
    assert_eq!(eval(node, &mut env), Ok(Value::Void));
    assert_eq!(env, before);
}

#[test]
fn for_with_return_leaves_at_once() {
    let mut env = Env::new();
    eval(declare("seen", lit(0), EnvVariableType::Mutable), &mut env).unwrap();
    let node = for_loop(
        "x",
        at(Value::List(vec![number(1), number(2), number(3)])),
        block(vec![reassign("seen", plus(var("seen"), lit(1))), ret(var("x"))]),
    );
    assert_eq!(eval(node, &mut env), Ok(Value::Return(Box::new(number(1)))));
    assert_eq!(env.get(&"seen".to_string(), None).unwrap().value, number(1));
    assert_eq!(env.frames.len(), 1);
}

#[test]
fn for_inside_a_function_returns_from_the_function() {
    let mut env = Env::new();
    eval(
        function(
            "first",
            vec!["items"],
            block(vec![for_loop("x", var("items"), block(vec![ret(var("x"))])), ret(lit(0))]),
        ),
        &mut env,
    )
    .unwrap();
    let list = at(Value::List(vec![number(7), number(8)]));
    assert_eq!(eval(call("first", vec![list]), &mut env), Ok(number(7)));
    assert_eq!(eval(call("first", vec![at(Value::List(vec![]))]), &mut env), Ok(number(0)));
}

#[test]
fn loop_variable_is_immutable() {
    let mut env = Env::new();
    let node = for_loop(
        "x",
        at(Value::List(vec![number(1)])),
        block(vec![reassign("x", lit(2))]),
    );
    assert_eq!(kind_of(eval(node, &mut env)), RuntimeErrorKind::ReassignImmutable);
    assert_eq!(env.frames.len(), 1);
}

#[test]
fn parameters_are_immutable() {
    let mut env = Env::new();
    eval(function("f", vec!["a"], reassign("a", lit(2))), &mut env).unwrap();
    assert_eq!(kind_of(eval(call("f", vec![lit(1)]), &mut env)), RuntimeErrorKind::ReassignImmutable);
    assert_eq!(env.frames.len(), 1);
}

#[test]
fn lambda_observes_its_captured_environment() {
    let mut env = Env::new();
    eval(declare("n", lit(1), EnvVariableType::Mutable), &mut env).unwrap();
    eval(declare("f", lambda(vec!["a"], plus(var("a"), var("n"))), EnvVariableType::Immutable), &mut env)
        .unwrap();
    assert_eq!(eval(call("f", vec![lit(10)]), &mut env), Ok(number(11)));
    eval(reassign("n", lit(100)), &mut env).unwrap();
    assert_eq!(eval(call("f", vec![lit(10)]), &mut env), Ok(number(11)));
    assert_eq!(env.get(&"n".to_string(), None).unwrap().value, number(100));
}

#[test]
fn lambda_merges_back_into_bindings_of_the_caller() {
    let mut env = Env::new();
    eval(declare("n", lit(1), EnvVariableType::Mutable), &mut env).unwrap();
    eval(
        declare(
            "bump",
            lambda(
                vec![],
                block(vec![
                    reassign("n", plus(var("n"), lit(1))),
                    declare("fresh", lit(5), EnvVariableType::Immutable),
                    ret(var("n")),
                ]),
            ),
            EnvVariableType::Immutable,
        ),
        &mut env,
    )
    .unwrap();
    assert_eq!(eval(call("bump", vec![]), &mut env), Ok(number(2)));
    assert_eq!(env.get(&"n".to_string(), None).unwrap().value, number(2));
    assert!(env.get(&"fresh".to_string(), None).is_none());
    assert_eq!(eval(call("bump", vec![]), &mut env), Ok(number(2)));
}

#[test]
fn lambda_call_node_calls_a_lambda_expression() {
    let node = ASTNode::LambdaCall {
        lambda: Box::new(lambda(vec!["a", "b"], plus(var("a"), var("b")))),
        arguments: vec![lit(1), lit(2)],
        line: 3,
        column: 4,
    };
    assert_eq!(eval(node, &mut Env::new()), Ok(number(3)));
    let node = ASTNode::LambdaCall {
        lambda: Box::new(lit(1)),
        arguments: vec![],
        line: 3,
        column: 4,
    };
    assert_eq!(kind_of(eval(node, &mut Env::new())), RuntimeErrorKind::TypeMismatch);
}

#[test]
fn builtins_print_len_push() {
    let mut env = Env::new();
    register_builtins(&mut env);
    assert_eq!(eval(call("print", vec![lit(1)]), &mut env), Ok(Value::Void));
    assert_eq!(eval(call("print", vec![at(Value::Bool(true))]), &mut env), Ok(Value::Void));
    assert_eq!(env.output, vec![number(1), Value::Bool(true)]);
    assert_eq!(
        eval(call("len", vec![at(Value::String("héllo".to_string()))]), &mut env),
        Ok(number(5))
    );
    assert_eq!(
        eval(call("push", vec![at(Value::List(vec![number(1)])), lit(2)]), &mut env),
        Ok(Value::List(vec![number(1), number(2)]))
    );
    assert_eq!(kind_of(eval(call("len", vec![lit(1)]), &mut env)), RuntimeErrorKind::TypeMismatch);
    assert_eq!(
        kind_of(eval(call("push", vec![lit(1), lit(2)]), &mut env)),
        RuntimeErrorKind::TypeMismatch
    );
    assert_eq!(
        apply_builtin(Builtin::Push, &vec![number(1)], 3, 4, &mut env).unwrap_err().kind,
        RuntimeErrorKind::ArityMismatch { expected: 2, found: 1 }
    );
    assert_eq!(Builtin::Push.arity(), 2);
}

#[test]
fn builtin_method_call_puts_the_receiver_first() {
    let mut env = Env::new();
    register_builtins(&mut env);
    let node = ASTNode::MethodCall {
        method_name: "push".to_string(),
        caller: Box::new(at(Value::List(vec![]))),
        arguments: vec![lit(1)],
        builtin: true,
        line: 3,
        column: 4,
    };
    assert_eq!(eval(node, &mut env), Ok(Value::List(vec![number(1)])));
    let node = ASTNode::MethodCall {
        method_name: "nope".to_string(),
        caller: Box::new(lit(1)),
        arguments: vec![],
        builtin: true,
        line: 3,
        column: 4,
    };
    assert_eq!(kind_of(eval(node, &mut env)), RuntimeErrorKind::UndefinedFunction);
}

#[test]
fn import_loads_functions_and_structs() {
    let mut env = Env::new();
    env.register_module(Module {
        name: "m".to_string(),
        functions: vec![NamedFunction {
            name: "one".to_string(),
            info: FunctionInfo {
                arguments: vec![],
                body: Some(lit(1)),
                return_type: ValueType::Number,
                builtin: None,
            },
        }],
        structs: vec![StructInfo { name: "Empty".to_string(), fields: vec![] }],
    });
    let import = |module: &str, symbols: Vec<&str>| ASTNode::Import {
        module_name: module.to_string(),
        symbols: symbols.into_iter().map(|s| s.to_string()).collect(),
        line: 3,
        column: 4,
    };
    assert_eq!(kind_of(eval(import("x", vec![]), &mut env)), RuntimeErrorKind::UnknownModule);
    assert_eq!(
        kind_of(eval(import("m", vec!["one", "two", "Empty"]), &mut env)),
        RuntimeErrorKind::UnknownSymbol
    );
    assert!(env.get_function(&"one".to_string()).is_some());
    assert!(env.get_struct(&"Empty".to_string()).is_none());
    assert_eq!(eval(import("m", vec!["Empty"]), &mut env), Ok(Value::Void));
    assert!(env.get_struct(&"Empty".to_string()).is_some());
    assert_eq!(eval(call("one", vec![]), &mut env), Ok(number(1)));
}

#[test]
fn scopes_shadow_and_merge_back() {
    let mut env = Env::new();
    env.set("a".to_string(), number(1), EnvVariableType::Mutable, ValueType::Number, true).unwrap();
    env.set("c".to_string(), number(1), EnvVariableType::Immutable, ValueType::Any, true).unwrap();
    env.enter_scope("call".to_string());
    env.set("a".to_string(), number(2), EnvVariableType::Immutable, ValueType::Any, false).unwrap();
    env.set("b".to_string(), number(3), EnvVariableType::Mutable, ValueType::Any, true).unwrap();
    assert_eq!(env.frames.len(), 2);
    assert_eq!(env.frames[0].variables[0].value, number(1));
    let slot = env.get(&"a".to_string(), None).unwrap();
    assert_eq!(slot.value, number(2));
    assert_eq!(slot.variable_type, EnvVariableType::Mutable);
    assert_eq!(slot.value_type, ValueType::Number);
    assert_eq!(
        env.set("c".to_string(), number(9), EnvVariableType::Mutable, ValueType::Any, false),
        Err(RuntimeError { kind: RuntimeErrorKind::ReassignImmutable, line: 0, column: 0 })
    );
    env.leave_scope_merging();
    assert_eq!(env.frames.len(), 1);
    assert_eq!(env.get(&"a".to_string(), None).unwrap().value, number(2));
    assert!(env.get(&"b".to_string(), None).is_none());
    assert_eq!(env.get(&"c".to_string(), None).unwrap().value, number(1));
}

#[test]
fn leave_scope_drops_without_merging_and_keeps_the_global_frame() {
    let mut env = Env::new();
    env.set("a".to_string(), number(1), EnvVariableType::Mutable, ValueType::Any, true).unwrap();
    env.enter_scope("inner".to_string());
    env.set("a".to_string(), number(2), EnvVariableType::Mutable, ValueType::Any, false).unwrap();
    env.leave_scope();
    assert_eq!(env.get(&"a".to_string(), None).unwrap().value, number(1));
    env.leave_scope();
    env.leave_scope_merging();
    assert_eq!(env.frames.len(), 1);
}

#[test]
fn update_global_env_hands_down_only_known_names() {
    let mut env = Env::new();
    env.set("a".to_string(), number(1), EnvVariableType::Immutable, ValueType::Number, true)
        .unwrap();
    let child = Env {
        frames: vec![
            Frame { label: "global".to_string(), variables: vec![] },
            Frame {
                label: "call".to_string(),
                variables: vec![
                    VariableSlot {
                        name: "a".to_string(),
                        value: number(5),
                        variable_type: EnvVariableType::Mutable,
                        value_type: ValueType::Any,
                    },
                    VariableSlot {
                        name: "b".to_string(),
                        value: number(6),
                        variable_type: EnvVariableType::Mutable,
                        value_type: ValueType::Any,
                    },
                ],
            },
        ],
        ..Env::new()
    };
    env.update_global_env(&child);
    let slot = env.get(&"a".to_string(), None).unwrap();
    assert_eq!(slot.value, number(5));
    assert_eq!(slot.variable_type, EnvVariableType::Immutable);
    assert_eq!(slot.value_type, ValueType::Number);
    assert!(env.get(&"b".to_string(), None).is_none());
}

#[test]
fn redeclaring_in_one_frame_replaces_the_binding() {
    let mut env = Env::new();
    env.set("a".to_string(), number(1), EnvVariableType::Immutable, ValueType::Any, true).unwrap();
    env.set("a".to_string(), number(2), EnvVariableType::Mutable, ValueType::Any, true).unwrap();
    assert_eq!(env.frames[0].variables.len(), 1);
    assert_eq!(env.get(&"a".to_string(), None).unwrap().value, number(2));
}

#[test]
fn declaring_in_an_environment_without_frames_makes_one() {
    let mut env = Env { frames: vec![], ..Env::new() };
    assert!(env.get(&"a".to_string(), None).is_none());
    env.set("a".to_string(), number(1), EnvVariableType::Immutable, ValueType::Any, true).unwrap();
    assert_eq!(env.frames.len(), 1);
    assert_eq!(env.get(&"a".to_string(), None).unwrap().value, number(1));
}

#[test]
fn deep_copies_are_equal() {
    let mut env = Env::new();
    register_builtins(&mut env);
    eval(point_schema(), &mut env).unwrap();
    eval(function("f", vec!["a"], block(vec![ret(var("a"))])), &mut env).unwrap();
    eval(declare("g", lambda(vec!["a"], var("a")), EnvVariableType::Immutable), &mut env).unwrap();
    eval(declare("p", point(vec![("x", 1), ("y", 2)]), EnvVariableType::Mutable), &mut env).unwrap();
    let copy = env.clone();
    assert_eq!(copy, env);
    let node = function("f", vec!["a"], block(vec![ret(var("a"))]));
    assert_eq!(node.clone(), node);
    assert_eq!(node.position(), (3, 4));
}

#[test]
fn call_hands_down_every_binding_whose_name_is_bound_outside() {
    let mut env = Env::new();
    eval(declare("a", lit(1), EnvVariableType::Mutable), &mut env).unwrap();
    eval(declare("keep", lit(7), EnvVariableType::Mutable), &mut env).unwrap();
    eval(
        function(
            "f",
            vec!["a"],
            block(vec![declare("keep", lit(8), EnvVariableType::Immutable), ret(var("a"))]),
        ),
        &mut env,
    )
    .unwrap();
    assert_eq!(eval(call("f", vec![lit(5)]), &mut env), Ok(number(5)));
    let a = env.get(&"a".to_string(), None).unwrap();
    assert_eq!(a.value, number(5));
    assert_eq!(a.variable_type, EnvVariableType::Mutable);
    let keep = env.get(&"keep".to_string(), None).unwrap();
    assert_eq!(keep.value, number(8));
    assert_eq!(keep.variable_type, EnvVariableType::Mutable);
    assert_eq!(env.frames[0].variables.len(), 2);
}

#[test]
fn nested_calls_merge_through_every_level() {
    let mut env = Env::new();
    eval(declare("z", lit(0), EnvVariableType::Mutable), &mut env).unwrap();
    eval(function("inner", vec![], block(vec![reassign("z", plus(var("z"), lit(1)))])), &mut env)
        .unwrap();
    eval(
        function(
            "outer",
            vec![],
            block(vec![call("inner", vec![]), call("inner", vec![]), ret(var("z"))]),
        ),
        &mut env,
    )
    .unwrap();
    assert_eq!(eval(call("outer", vec![]), &mut env), Ok(number(2)));
    assert_eq!(env.get(&"z".to_string(), None).unwrap().value, number(2));
    assert_eq!(env.frames.len(), 1);
}

#[test]
fn failure_inside_a_call_still_ends_its_scope() {
    let mut env = Env::new();
    eval(declare("z", lit(0), EnvVariableType::Mutable), &mut env).unwrap();
    eval(
        function("f", vec![], block(vec![reassign("z", lit(9)), var("unbound")])),
        &mut env,
    )
    .unwrap();
    assert_eq!(kind_of(eval(call("f", vec![]), &mut env)), RuntimeErrorKind::UndefinedVariable);
    assert_eq!(env.frames.len(), 1);
    assert_eq!(env.get(&"z".to_string(), None).unwrap().value, number(9));
}

#[test]
fn name_declared_by_an_argument_stays_in_the_call() {
    let mut env = Env::new();
    eval(declare("seen", lit(0), EnvVariableType::Mutable), &mut env).unwrap();
    eval(function("f", vec!["a"], var("a")), &mut env).unwrap();
    eval(declare("g", lambda(vec!["a"], var("a")), EnvVariableType::Immutable), &mut env).unwrap();
    for callee in ["f", "g"] {
        let argument = block(vec![
            declare("n", lit(1), EnvVariableType::Mutable),
            reassign("seen", plus(var("seen"), lit(1))),
            ret(var("n")),
        ]);
        let result = eval(call(callee, vec![argument]), &mut env);
        assert_eq!(result, Ok(number(1)));
        assert!(env.get(&"n".to_string(), None).is_none());
        assert!(env.get(&"a".to_string(), None).is_none());
        assert_eq!(env.frames.len(), 1);
    }
    assert_eq!(env.get(&"seen".to_string(), None).unwrap().value, number(2));
    assert_eq!(
        eval(call("f", vec![declare("n", lit(1), EnvVariableType::Mutable)]), &mut env),
        Ok(number(1))
    );
    assert!(env.get(&"n".to_string(), None).is_none());
}

#[test]
fn later_argument_sees_the_parameters_bound_before_it() {
    let mut env = Env::new();
    eval(function("second", vec!["a", "b"], var("b")), &mut env).unwrap();
    assert_eq!(
        eval(call("second", vec![lit(4), plus(var("a"), lit(1))]), &mut env),
        Ok(number(5))
    );
    assert!(env.get(&"a".to_string(), None).is_none());
}

#[test]
fn failing_argument_ends_the_scope_of_the_call() {
    let mut env = Env::new();
    eval(function("f", vec!["a", "b"], var("a")), &mut env).unwrap();
    assert_eq!(
        kind_of(eval(call("f", vec![lit(1), var("unbound")]), &mut env)),
        RuntimeErrorKind::UndefinedVariable
    );
    assert_eq!(env.frames.len(), 1);
    assert!(env.get(&"a".to_string(), None).is_none());
}

#[test]
fn ordinary_recursion_runs_far_below_the_limit() {
    let mut env = Env::new();
    let countdown = function(
        "countdown",
        vec!["n"],
        block(vec![
            ASTNode::If {
                condition: Box::new(ASTNode::Eq {
                    left: Box::new(var("n")),
                    right: Box::new(lit(0)),
                    line: 3,
                    column: 4,
                }),
                then: Box::new(block(vec![ret(lit(0))])),
                else_: None,
                value_type: ValueType::Void,
                line: 3,
                column: 4,
            },
            ret(call(
                "countdown",
                vec![ASTNode::BinaryOp {
                    left: Box::new(var("n")),
                    op: TokenKind::Minus,
                    right: Box::new(lit(1)),
                    line: 3,
                    column: 4,
                }],
            )),
        ]),
    );
    eval(countdown, &mut env).unwrap();
    assert_eq!(eval(call("countdown", vec![lit(300)]), &mut env), Ok(number(0)));
    assert_eq!(env.frames.len(), 1);
}
