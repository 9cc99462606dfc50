//! The condition of an `if`.

use crate::error::{RuntimeError, RuntimeErrorKind};
use crate::value::Value;

use vstd::prelude::*;

verus! {

/// The truth of a condition. Fails with `TypeMismatch` where the value is
/// no boolean.
pub fn if_node(condition: &Value, line: usize, column: usize) -> (r: Result<bool, RuntimeError>)
    ensures
        match condition@ {
            crate::value::ValueView::Bool(b) => r == Ok::<bool, RuntimeError>(b),
            _ => r == Err::<bool, RuntimeError>(
                RuntimeError { kind: RuntimeErrorKind::TypeMismatch, line, column },
            ),
        },
{
    match condition {
        Value::Bool(b) => Ok(*b),
        _ => Err(RuntimeError::new(RuntimeErrorKind::TypeMismatch, line, column)),
    }
}

} // verus!
