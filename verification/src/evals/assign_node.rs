//! Declaring and reassigning a variable.

use crate::environment::{Env, EnvVariableType};
use crate::error::RuntimeError;

use crate::evals::outcome_of;

use crate::semantics::assign_spec;

use crate::value::{clone_value, Value, ValueType};
use vstd::prelude::*;

verus! {

/// Binds an evaluated value to a name and hands the value back.
///
/// Fails with `ReassignImmutable`, and changes nothing, where `is_new` is
/// false and the visible binding of the name is immutable.
pub fn assign_node(
    name: &String,
    value: Value,
    variable_type: EnvVariableType,
    value_type: &ValueType,
    is_new: bool,
    line: usize,
    column: usize,
    env: &mut Env,
) -> (r: Result<Value, RuntimeError>)
    ensures
        outcome_of(r, *final(env)) == assign_spec(
            name@,
            value@,
            variable_type,
            value_type@,
            is_new,
            line,
            column,
            old(env)@,
        ),
{
    let stored = clone_value(&value);
    match env.set(name.clone(), stored, variable_type, value_type.clone(), is_new) {
        Ok(_) => Ok(value),
        Err(e) => Err(RuntimeError::new(e.kind, line, column)),
    }
}

} // verus!
