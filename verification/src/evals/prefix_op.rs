//! Prefix operators on values.

use crate::error::RuntimeErrorKind;

use crate::evals::binary_op::{kind_of, kind_result_view, operator_of};
use crate::number::Number;

use crate::semantics::{negate_spec, prefix_op_spec};
use crate::token::TokenKind;

use crate::value::Value;

use vstd::prelude::*;

verus! {

/// The negation of a number. Zero stays positive.
pub fn negate(n: Number) -> (r: Number)
    ensures
        r == negate_spec(n),
        r.signed_numer() == -n.signed_numer(),
        r.denom == n.denom,
{
    if n.numer == 0 {
        Number { negative: false, numer: n.numer, denom: n.denom }
    } else {
        Number { negative: !n.negative, numer: n.numer, denom: n.denom }
    }
}

/// Applies a prefix operator to a value: `-` negates a number. Every other
/// combination fails with `UnsupportedOperation`.
pub fn prefix_op(op: &TokenKind, operand: &Value) -> (r: Result<Value, RuntimeErrorKind>)
    ensures
        kind_result_view(r) == prefix_op_spec(op@, operand@),
{
    match (op, operand) {
        (TokenKind::Minus, Value::Number(n)) => Ok(Value::Number(negate(*n))),
        _ => Err(
            RuntimeErrorKind::UnsupportedOperation {
                op: operator_of(op),
                left: None,
                right: kind_of(operand),
            },
        ),
    }
}

} // verus!
