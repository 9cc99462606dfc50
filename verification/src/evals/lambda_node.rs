//! Lambdas: capturing the environment, and calling.

use crate::ast::{clone_node, clone_nodes, nodes_view, ASTNode};
use crate::environment::{clone_env, Env};
use crate::error::{RuntimeError, RuntimeErrorKind};
use crate::evals::function_node::{are_variables, bind_arguments, enter_call_scope, unwrap_return};
use crate::evals::{eval_node, outcome_of};
use crate::semantics::invoke_lambda_spec;

use crate::value::{Value, ValueView};
use vstd::prelude::*;

verus! {

/// Evaluates a lambda literal: a closure over a copy of the environment as
/// it is now.
pub fn lambda_node(arguments: &Vec<ASTNode>, body: &ASTNode, env: &Env) -> (r: Value)
    ensures
        r@ == (ValueView::Lambda {
            arguments: nodes_view(*arguments),
            body: Box::new(body@),
            env: Box::new(env@),
        }),
{
    Value::Lambda {
        arguments: clone_nodes(arguments),
        body: Box::new(clone_node(body)),
        env: Box::new(clone_env(env)),
    }
}

/// Calls a lambda.
///
/// Fails with `ArityMismatch` where the number of arguments is not the
/// number of parameters, whatever the arguments are; with `Unsupported`
/// where a parameter is no `Variable` node; with `RecursionLimit` at depth
/// zero. Else the arguments are evaluated and bound as those of a function,
/// in a scope on the caller's environment that ends before the body runs.
/// The body runs one level deeper, in a scope pushed on `captured`, the
/// environment that the lambda captured, with the parameters bound to the
/// values of the arguments. The bindings of that scope are then merged back
/// into the caller's environment, whether the body succeeded or not. What
/// the body evaluated to is handed back, without its `Return` sentinel.
pub fn invoke_lambda(
    params: &Vec<ASTNode>,
    body: &ASTNode,
    captured: Env,
    args: &Vec<ASTNode>,
    line: usize,
    column: usize,
    env: &mut Env,
    depth: usize,
) -> (r: Result<Value, RuntimeError>)
    ensures
        outcome_of(r, *final(env)) == invoke_lambda_spec(
            nodes_view(*params),
            body@,
            captured@,
            nodes_view(*args),
            line,
            column,
            old(env)@,
            depth as nat,
        ),
    decreases depth, args, 3nat,
{
    assert(nodes_view(*args).len() == args.len());
    assert(nodes_view(*params).len() == params.len());
    if args.len() != params.len() {
        return Err(
            RuntimeError::new(
                RuntimeErrorKind::ArityMismatch { expected: params.len(), found: args.len() },
                line,
                column,
            ),
        );
    }
    if !are_variables(params) {
        return Err(RuntimeError::new(RuntimeErrorKind::Unsupported, line, column));
    }
    if depth == 0 {
        return Err(RuntimeError::new(RuntimeErrorKind::RecursionLimit, line, column));
    }
    env.enter_scope("lambda".to_string());
    let bound = bind_arguments(params, args, env, depth);
    env.leave_scope_merging();
    let values = bound?;
    let mut local = captured;
    let label = "lambda".to_string();
    enter_call_scope(&mut local, &label, None, params, &values);
    let result = eval_node(body, &mut local, depth - 1);
    env.update_global_env(&local);
    match result {
        Ok(value) => Ok(unwrap_return(value)),
        Err(e) => Err(e),
    }
}

} // verus!
