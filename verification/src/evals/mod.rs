//! The evaluator: a walk over the syntax tree that threads one environment
//! through every step.

pub mod assign_node;
pub mod binary_op;
pub mod builtin;
pub mod comparison_op;
pub mod for_node;
pub mod function_node;
pub mod if_node;
pub mod import_node;
pub mod lambda_node;
pub mod method_call_node;
pub mod prefix_op;
pub mod struct_node;
pub mod variable_node;

use crate::ast::{clone_node, clone_nodes, node_view, nodes_view, ASTNode, NodeView};
use crate::environment::{Env, EnvView, FunctionInfo};
use crate::error::{RuntimeError, RuntimeErrorKind};
use crate::number::Comparison;

use crate::semantics::{eval_spec, Outcome};
use crate::value::{clone_value, values_view, Value, ValueView};
use vstd::prelude::*;

verus! {

/// The outcome that a result and the environment left behind stand for.
pub open spec fn outcome_of(r: Result<Value, RuntimeError>, env: Env) -> Outcome {
    Outcome {
        result: match r {
            Ok(v) => Ok(v@),
            Err(e) => Err(e),
        },
        env: env@,
    }
}

/// What the evaluation of a program gives: the values of the statements
/// that succeeded, the error of the first that failed, if one did, and the
/// environment left behind.
pub struct ProgramOutcome {
    pub values: Seq<ValueView>,
    pub error: Option<RuntimeError>,
    pub env: EnvView,
}

/// The evaluation of the statements of a program from position `i` on, each
/// at the environment's call depth limit, added to the values in `acc`.
/// The first failure ends it.
pub open spec fn evals_spec(nodes: Seq<NodeView>, i: nat, acc: Seq<ValueView>, env: EnvView) -> ProgramOutcome
    decreases nodes.len() - i,
{
    if i >= nodes.len() {
        ProgramOutcome { values: acc, error: None, env }
    } else {
        let s = eval_spec(nodes[i as int], env, env.call_depth_limit as nat);
        match s.result {
            Err(e) => ProgramOutcome { values: acc, error: Some(e), env: s.env },
            Ok(v) => evals_spec(nodes, i + 1, acc.push(v), s.env),
        }
    }
}

/// Evaluates the statements of a program in order, in one environment.
///
/// Gives the values of the statements up to the first that fails, and that
/// statement's error; the statements after it are not evaluated.
pub fn evals(asts: Vec<ASTNode>, env: &mut Env) -> (r: (Vec<Value>, Option<RuntimeError>))
    ensures
        (ProgramOutcome { values: values_view(r.0), error: r.1, env: final(env)@ }) == evals_spec(
            nodes_view(asts),
            0,
            Seq::empty(),
            old(env)@,
        ),
{
    let ghost goal = evals_spec(nodes_view(asts), 0, Seq::empty(), env@);
    let mut values: Vec<Value> = Vec::new();
    assert(values_view(values) =~= Seq::empty());
    let mut i: usize = 0;
    while i < asts.len()
        invariant
            i <= asts.len(),
            evals_spec(nodes_view(asts), i as nat, values_view(values), env@) == goal,
            goal == evals_spec(nodes_view(asts), 0, Seq::empty(), old(env)@),
        decreases asts.len() - i,
    {
        assert(nodes_view(asts)[i as int] == asts[i as int]@);
        assert(nodes_view(asts).len() == asts.len());
        let ghost before = values_view(values);
        let depth = env.call_depth_limit;
        match eval_node(&asts[i], env, depth) {
            Ok(value) => {
                values.push(value);
                assert(values_view(values) =~= before.push(value@));
            },
            Err(e) => {
                return (values, Some(e));
            },
        }
        i += 1;
    }
    assert(nodes_view(asts).len() == asts.len());
    (values, None)
}

/// Evaluates a node in an environment, with calls nested no deeper than the
/// environment's call depth limit.
pub fn eval(ast: ASTNode, env: &mut Env) -> (r: Result<Value, RuntimeError>)
    ensures
        outcome_of(r, *final(env)) == eval_spec(
            ast@,
            old(env)@,
            old(env)@.call_depth_limit as nat,
        ),
{
    let depth = env.call_depth_limit;
    eval_node(&ast, env, depth)
}

/// Evaluates a node in an environment, with at most `depth` more calls
/// nested inside it.
pub fn eval_node(node: &ASTNode, env: &mut Env, depth: usize) -> (r: Result<Value, RuntimeError>)
    ensures
        outcome_of(r, *final(env)) == eval_spec(node@, old(env)@, depth as nat),
    decreases depth, node, 1nat,
{
    match node {
        ASTNode::Import { module_name, symbols, line, column } => import_node::import_node(
            module_name,
            symbols,
            *line,
            *column,
            env,
        ),
        ASTNode::Public { node: inner, .. } => eval_node(inner, env, depth),
        ASTNode::Literal { value, .. } => Ok(clone_value(value)),
        ASTNode::Variable { name, value_type, line, column } => variable_node::variable_node(
            name,
            value_type,
            *line,
            *column,
            env,
        ),
        ASTNode::BinaryOp { .. } => eval_operator(node, env, depth),
        ASTNode::PrefixOp { .. } => eval_operator(node, env, depth),
        ASTNode::Eq { .. } => eval_operator(node, env, depth),
        ASTNode::Gte { .. } => eval_operator(node, env, depth),
        ASTNode::Gt { .. } => eval_operator(node, env, depth),
        ASTNode::Lte { .. } => eval_operator(node, env, depth),
        ASTNode::Lt { .. } => eval_operator(node, env, depth),
        ASTNode::Assign { .. } => eval_statement(node, env, depth),
        ASTNode::Block { nodes, .. } => function_node::eval_block(nodes, env, depth),
        ASTNode::Return { .. } => eval_statement(node, env, depth),
        ASTNode::If { .. } => eval_statement(node, env, depth),
        ASTNode::For { .. } => eval_statement(node, env, depth),
        ASTNode::Function { name, arguments, body, return_type, .. } => {
            env.register_function(
                name.clone(),
                FunctionInfo {
                    arguments: clone_nodes(arguments),
                    body: Some(clone_node(body)),
                    return_type: return_type.clone(),
                    builtin: None,
                },
            );
            Ok(Value::Function)
        },
        ASTNode::FunctionCall { .. } => eval_call(node, env, depth),
        ASTNode::Lambda { arguments, body, .. } => Ok(lambda_node::lambda_node(arguments, body, env)),
        ASTNode::LambdaCall { .. } => eval_call(node, env, depth),
        ASTNode::Struct { name, fields, .. } => Ok(struct_node::struct_node(name, fields, env)),
        ASTNode::Impl { base_struct, methods, line, column } => struct_node::impl_node(
            base_struct,
            methods,
            *line,
            *column,
            env,
        ),
        ASTNode::StructInstance { .. } => eval_struct(node, env, depth),
        ASTNode::StructFieldAccess { .. } => eval_struct(node, env, depth),
        ASTNode::StructFieldAssign { .. } => eval_struct(node, env, depth),
        ASTNode::MethodCall { .. } => eval_call(node, env, depth),
        ASTNode::CommentBlock { .. } => Ok(Value::Void),
        ASTNode::FunctionCallArgs { line, column, .. } => Err(
            RuntimeError::new(RuntimeErrorKind::Unsupported, *line, *column),
        ),
        ASTNode::Continue { line, column } => Err(
            RuntimeError::new(RuntimeErrorKind::Unsupported, *line, *column),
        ),
    }
}

/// Evaluates an operator node: a binary operator, a prefix operator or a comparison.
fn eval_operator(node: &ASTNode, env: &mut Env, depth: usize) -> (r: Result<Value, RuntimeError>)
    requires
        node is BinaryOp || node is PrefixOp || node is Eq || node is Gte || node is Gt || node is Lte || node is Lt,
    ensures
        outcome_of(r, *final(env)) == eval_spec(node@, old(env)@, depth as nat),
    decreases depth, node, 0nat,
{
    match node {
        ASTNode::BinaryOp { left, op, right, line, column } => {
            let lv = eval_node(left, env, depth)?;
            let rv = eval_node(right, env, depth)?;
            match binary_op::binary_op(op, &lv, &rv) {
                Ok(v) => Ok(v),
                Err(kind) => Err(RuntimeError::new(kind, *line, *column)),
            }
        },
        ASTNode::PrefixOp { op, expr, line, column } => {
            let v = eval_node(expr, env, depth)?;
            match prefix_op::prefix_op(op, &v) {
                Ok(v) => Ok(v),
                Err(kind) => Err(RuntimeError::new(kind, *line, *column)),
            }
        },
        ASTNode::Eq { left, right, line, column } => {
            let lv = eval_node(left, env, depth)?;
            let rv = eval_node(right, env, depth)?;
            match comparison_op::comparison_op_node(Comparison::Eq, &lv, &rv) {
                Ok(v) => Ok(v),
                Err(kind) => Err(RuntimeError::new(kind, *line, *column)),
            }
        },
        ASTNode::Gte { left, right, line, column } => {
            let lv = eval_node(left, env, depth)?;
            let rv = eval_node(right, env, depth)?;
            match comparison_op::comparison_op_node(Comparison::Gte, &lv, &rv) {
                Ok(v) => Ok(v),
                Err(kind) => Err(RuntimeError::new(kind, *line, *column)),
            }
        },
        ASTNode::Gt { left, right, line, column } => {
            let lv = eval_node(left, env, depth)?;
            let rv = eval_node(right, env, depth)?;
            match comparison_op::comparison_op_node(Comparison::Gt, &lv, &rv) {
                Ok(v) => Ok(v),
                Err(kind) => Err(RuntimeError::new(kind, *line, *column)),
            }
        },
        ASTNode::Lte { left, right, line, column } => {
            let lv = eval_node(left, env, depth)?;
            let rv = eval_node(right, env, depth)?;
            match comparison_op::comparison_op_node(Comparison::Lte, &lv, &rv) {
                Ok(v) => Ok(v),
                Err(kind) => Err(RuntimeError::new(kind, *line, *column)),
            }
        },
        ASTNode::Lt { left, right, line, column } => {
            let lv = eval_node(left, env, depth)?;
            let rv = eval_node(right, env, depth)?;
            match comparison_op::comparison_op_node(Comparison::Lt, &lv, &rv) {
                Ok(v) => Ok(v),
                Err(kind) => Err(RuntimeError::new(kind, *line, *column)),
            }
        },
        _ => Ok(Value::Void),
    }
}

/// Evaluates an assignment, a `return`, an `if` or a `for`.
fn eval_statement(node: &ASTNode, env: &mut Env, depth: usize) -> (r: Result<Value, RuntimeError>)
    requires
        node is Assign || node is Return || node is If || node is For,
    ensures
        outcome_of(r, *final(env)) == eval_spec(node@, old(env)@, depth as nat),
    decreases depth, node, 0nat,
{
    match node {
        ASTNode::Assign { name, value, variable_type, value_type, is_new, line, column } => {
            let v = eval_node(value, env, depth)?;
            assign_node::assign_node(name, v, *variable_type, value_type, *is_new, *line, *column, env)
        },
        ASTNode::Return { expr, .. } => {
            let v = eval_node(expr, env, depth)?;
            Ok(Value::Return(Box::new(v)))
        },
        ASTNode::If { condition, then, else_, line, column, .. } => {
            let c = eval_node(condition, env, depth)?;
            if if_node::if_node(&c, *line, *column)? {
                eval_node(then, env, depth)
            } else {
                match else_ {
                    Some(otherwise) => eval_node(otherwise, env, depth),
                    None => Ok(Value::Void),
                }
            }
        },
        ASTNode::For { variable, iterable, body, line, column } => {
            let items = match eval_node(iterable, env, depth)? {
                Value::List(items) => items,
                _ => {
                    return Err(RuntimeError::new(RuntimeErrorKind::TypeMismatch, *line, *column));
                },
            };
            env.enter_scope("for".to_string());
            let result = for_node::for_node(variable, &items, body, env, depth);
            env.leave_scope_merging();
            result
        },
        _ => Ok(Value::Void),
    }
}

/// Evaluates a call: by name, of a lambda expression, or of a method.
fn eval_call(node: &ASTNode, env: &mut Env, depth: usize) -> (r: Result<Value, RuntimeError>)
    requires
        node is FunctionCall || node is LambdaCall || node is MethodCall,
    ensures
        outcome_of(r, *final(env)) == eval_spec(node@, old(env)@, depth as nat),
    decreases depth, node, 0nat,
{
    proof {
        reveal_with_fuel(node_view, 2);
    }
    match node {
        ASTNode::FunctionCall { name, arguments, line, column } => match &**arguments {
            ASTNode::FunctionCallArgs { args, .. } => function_node::call_function(
                name,
                args,
                *line,
                *column,
                env,
                depth,
            ),
            _ => Err(RuntimeError::new(RuntimeErrorKind::Unsupported, *line, *column)),
        },
        ASTNode::LambdaCall { lambda, arguments, line, column } => {
            match eval_node(lambda, env, depth)? {
                Value::Lambda { arguments: params, body, env: captured } => lambda_node::invoke_lambda(
                    &params,
                    &body,
                    *captured,
                    arguments,
                    *line,
                    *column,
                    env,
                    depth,
                ),
                _ => Err(RuntimeError::new(RuntimeErrorKind::TypeMismatch, *line, *column)),
            }
        },
        ASTNode::MethodCall { method_name, caller, arguments, builtin, line, column } => {
            let receiver = eval_node(caller, env, depth)?;
            if *builtin {
                method_call_node::builtin_method_call_node(
                    method_name,
                    receiver,
                    arguments,
                    *line,
                    *column,
                    env,
                    depth,
                )
            } else {
                method_call_node::method_call_node(
                    method_name,
                    &receiver,
                    arguments,
                    *line,
                    *column,
                    env,
                    depth,
                )
            }
        },
        _ => Ok(Value::Void),
    }
}

/// Evaluates an instantiation, a field access or a field assignment.
fn eval_struct(node: &ASTNode, env: &mut Env, depth: usize) -> (r: Result<Value, RuntimeError>)
    requires
        node is StructInstance || node is StructFieldAccess || node is StructFieldAssign,
    ensures
        outcome_of(r, *final(env)) == eval_spec(node@, old(env)@, depth as nat),
    decreases depth, node, 0nat,
{
    match node {
        ASTNode::StructInstance { name, fields, line, column } => {
            let schema = match struct_node::checked_schema(name, fields, env) {
                Ok(schema) => schema,
                Err(kind) => {
                    return Err(RuntimeError::new(kind, *line, *column));
                },
            };
            let values = struct_node::eval_fields(fields, env, depth)?;
            Ok(
                Value::StructInstance {
                    name: name.clone(),
                    fields: struct_node::build_instance_fields(&schema, &values),
                },
            )
        },
        ASTNode::StructFieldAccess { instance, field_name, line, column } => {
            let v = eval_node(instance, env, depth)?;
            match struct_node::struct_field_access_node(&v, field_name) {
                Ok(v) => Ok(v),
                Err(kind) => Err(RuntimeError::new(kind, *line, *column)),
            }
        },
        ASTNode::StructFieldAssign { instance, field_name, value, line, column } => {
            let target = eval_node(instance, env, depth)?;
            match struct_node::struct_field_access_node(&target, field_name) {
                Ok(_) => {},
                Err(kind) => {
                    return Err(RuntimeError::new(kind, *line, *column));
                },
            }
            let assigned = eval_node(value, env, depth)?;
            struct_node::struct_field_assign_node(
                instance,
                target,
                field_name,
                assigned,
                *line,
                *column,
                env,
            )
        },
        _ => Ok(Value::Void),
    }
}

} // verus!
