//! Reading a variable.

use crate::environment::Env;

use crate::error::{RuntimeError, RuntimeErrorKind};
use crate::evals::outcome_of;

use crate::semantics::variable_spec;

use crate::value::{clone_value, Value, ValueType, ValueTypeView};
use vstd::prelude::*;

verus! {

/// The model of an optional declared type.
pub open spec fn expected_view(expected: Option<ValueType>) -> Option<ValueTypeView> {
    match expected {
        Some(t) => Some(t@),
        None => None,
    }
}

/// Evaluates a variable: the value of its visible binding.
///
/// Fails with `UndefinedVariable` where no frame binds the name, or where
/// the node declares a type and the visible binding's value is of another.
pub fn variable_node(
    name: &String,
    value_type: &Option<ValueType>,
    line: usize,
    column: usize,
    env: &Env,
) -> (r: Result<Value, RuntimeError>)
    ensures
        outcome_of(r, *env) == variable_spec(name@, expected_view(*value_type), line, column, env@),
{
    let expected = match value_type {
        Some(t) => Some(t),
        None => None,
    };
    match env.get(name, expected) {
        Some(slot) => Ok(clone_value(&slot.value)),
        None => Err(RuntimeError::new(RuntimeErrorKind::UndefinedVariable, line, column)),
    }
}

} // verus!
