//! The iterations of a `for` loop.

use crate::ast::ASTNode;

use crate::environment::{Env, EnvVariableType, VariableSlot};
use crate::error::RuntimeError;

use crate::evals::{eval_node, outcome_of};
use crate::semantics::for_spec;

use crate::value::{clone_value, values_view, Value, ValueType};
use vstd::prelude::*;

verus! {

/// Runs the iterations of a loop inside the loop's scope.
///
/// Each iteration binds the loop variable afresh, immutable, to the next
/// item and evaluates the body. A body that evaluates to a `Return`
/// sentinel ends the loop at once, and the loop evaluates to that sentinel;
/// a loop that runs to its end, or over no items, evaluates to `Void`.
pub fn for_node(
    variable: &String,
    items: &Vec<Value>,
    body: &ASTNode,
    env: &mut Env,
    depth: usize,
) -> (r: Result<Value, RuntimeError>)
    ensures
        outcome_of(r, *final(env)) == for_spec(
            variable@,
            values_view(*items),
            0,
            body@,
            old(env)@,
            depth as nat,
        ),
    decreases depth, body, 2nat,
{
    let ghost goal = for_spec(variable@, values_view(*items), 0, body@, env@, depth as nat);
    let mut i: usize = 0;
    while i < items.len()
        invariant
            i <= items.len(),
            for_spec(variable@, values_view(*items), i as nat, body@, env@, depth as nat) == goal,
            goal == for_spec(variable@, values_view(*items), 0, body@, old(env)@, depth as nat),
        decreases items.len() - i,
    {
        assert(values_view(*items)[i as int] == items[i as int]@);
        assert(values_view(*items).len() == items.len());
        env.declare(
            VariableSlot {
                name: variable.clone(),
                value: clone_value(&items[i]),
                variable_type: EnvVariableType::Immutable,
                value_type: ValueType::Any,
            },
        );
        let value = eval_node(body, env, depth)?;
        if let Value::Return(_) = value {
            return Ok(value);
        }
        i += 1;
    }
    assert(values_view(*items).len() == items.len());
    Ok(Value::Void)
}

} // verus!
