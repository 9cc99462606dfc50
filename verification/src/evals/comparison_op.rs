//! Comparisons of values.

use crate::error::{OperatorKind, RuntimeErrorKind};
use crate::evals::binary_op::{kind_of, kind_result_view};
use crate::number::{Comparison, Number};
use crate::semantics::{comparison_operator, comparison_spec};
use crate::token::same_text;

use crate::value::Value;

use vstd::prelude::*;

verus! {

/// The operator of a comparison.
pub fn operator_of_comparison(relation: Comparison) -> (r: OperatorKind)
    ensures
        r == comparison_operator(relation),
{
    match relation {
        Comparison::Eq => OperatorKind::Eq,
        Comparison::Lt => OperatorKind::Lt,
        Comparison::Lte => OperatorKind::Lte,
        Comparison::Gt => OperatorKind::Gt,
        Comparison::Gte => OperatorKind::Gte,
    }
}

/// Compares two values.
///
/// Numbers compare as the rationals they denote; a number with a zero
/// denominator fails with `DivisionByZero`. Strings and booleans can be
/// tested for equality. Every other combination fails with
/// `UnsupportedOperation`.
pub fn comparison_op_node(relation: Comparison, left: &Value, right: &Value) -> (r: Result<
    Value,
    RuntimeErrorKind,
>)
    ensures
        kind_result_view(r) == comparison_spec(relation, left@, right@),
{
    let unsupported = RuntimeErrorKind::UnsupportedOperation {
        op: operator_of_comparison(relation),
        left: Some(kind_of(left)),
        right: kind_of(right),
    };
    match (left, right) {
        (Value::Number(a), Value::Number(b)) => match Number::compare(relation, *a, *b) {
            Some(holds) => Ok(Value::Bool(holds)),
            None => Err(RuntimeErrorKind::DivisionByZero),
        },
        (Value::String(a), Value::String(b)) => match relation {
            Comparison::Eq => Ok(Value::Bool(same_text(a, b))),
            _ => Err(unsupported),
        },
        (Value::Bool(a), Value::Bool(b)) => match relation {
            Comparison::Eq => Ok(Value::Bool(*a == *b)),
            _ => Err(unsupported),
        },
        _ => Err(unsupported),
    }
}

} // verus!
