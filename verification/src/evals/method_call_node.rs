//! Method calls: by the receiver's struct, or into the builtin registry.

use crate::ast::{nodes_view, ASTNode};
use crate::environment::{clone_function_info, Env};
use crate::error::{RuntimeError, RuntimeErrorKind};
use crate::evals::function_node::{invoke, invoke_builtin};
use crate::evals::outcome_of;

use crate::semantics::{builtin_method_call_spec, method_call_spec};
use crate::value::{values_view, Value};
use vstd::prelude::*;

verus! {

/// Calls a method on an evaluated receiver.
///
/// The method is the one registered for the receiver's struct name under
/// `method_name`, whatever other structs have a method of that name. The
/// receiver is bound as `self`; the rest is a function call. Fails with
/// `TypeMismatch` where the receiver is no struct instance, and with
/// `UndefinedFunction` where its struct has no such method.
pub fn method_call_node(
    method_name: &String,
    receiver: &Value,
    arguments: &Vec<ASTNode>,
    line: usize,
    column: usize,
    env: &mut Env,
    depth: usize,
) -> (r: Result<Value, RuntimeError>)
    ensures
        outcome_of(r, *final(env)) == method_call_spec(
            method_name@,
            receiver@,
            nodes_view(*arguments),
            line,
            column,
            old(env)@,
            depth as nat,
        ),
    decreases depth, arguments, 4nat,
{
    match receiver {
        Value::StructInstance { name, .. } => {
            let method = match env.get_method(name, method_name) {
                Some(info) => Some(clone_function_info(info)),
                None => None,
            };
            match method {
                None => Err(RuntimeError::new(RuntimeErrorKind::UndefinedFunction, line, column)),
                Some(info) => invoke(
                    &info.arguments,
                    &info.body,
                    method_name,
                    Some(receiver),
                    arguments,
                    line,
                    column,
                    env,
                    depth,
                ),
            }
        },
        _ => Err(RuntimeError::new(RuntimeErrorKind::TypeMismatch, line, column)),
    }
}

/// Calls a builtin as a method: the builtin is found by the method's name
/// alone, and the receiver is its first argument. Fails with
/// `UndefinedFunction` where no builtin has that name.
pub fn builtin_method_call_node(
    method_name: &String,
    receiver: Value,
    arguments: &Vec<ASTNode>,
    line: usize,
    column: usize,
    env: &mut Env,
    depth: usize,
) -> (r: Result<Value, RuntimeError>)
    ensures
        outcome_of(r, *final(env)) == builtin_method_call_spec(
            method_name@,
            receiver@,
            nodes_view(*arguments),
            line,
            column,
            old(env)@,
            depth as nat,
        ),
    decreases depth, arguments, 4nat,
{
    match env.get_builtin(method_name) {
        None => Err(RuntimeError::new(RuntimeErrorKind::UndefinedFunction, line, column)),
        Some(b) => {
            let mut first: Vec<Value> = Vec::new();
            first.push(receiver);
            assert(values_view(first) =~= seq![receiver@]);
            invoke_builtin(b, first, arguments, line, column, env, depth)
        },
    }
}

} // verus!
