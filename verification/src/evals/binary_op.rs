//! Binary operators on values.

use crate::error::{OperatorKind, RuntimeErrorKind, ValueKind};
use crate::number::{is_exact, Arith, Number, NumberError};
use crate::semantics::{arith_of, binary_op_spec, operator_kind};
use crate::token::TokenKind;

use crate::value::Value;

use vstd::prelude::*;
use vstd::string::StringExecFns;

verus! {

/// The operator that a token stands for.
pub fn operator_of(op: &TokenKind) -> (r: OperatorKind)
    ensures
        r == operator_kind(op@),
{
    match op {
        TokenKind::Plus => OperatorKind::Plus,
        TokenKind::Minus => OperatorKind::Minus,
        TokenKind::Mul => OperatorKind::Mul,
        TokenKind::Div => OperatorKind::Div,
        TokenKind::Eq => OperatorKind::Eq,
        TokenKind::Lt => OperatorKind::Lt,
        TokenKind::Lte => OperatorKind::Lte,
        TokenKind::Gt => OperatorKind::Gt,
        TokenKind::Gte => OperatorKind::Gte,
        _ => OperatorKind::Other,
    }
}

/// The arithmetic operator that a token stands for, if it stands for one.
pub fn arith_operator(op: &TokenKind) -> (r: Option<Arith>)
    ensures
        r == arith_of(op@),
{
    match op {
        TokenKind::Plus => Some(Arith::Add),
        TokenKind::Minus => Some(Arith::Sub),
        TokenKind::Mul => Some(Arith::Mul),
        TokenKind::Div => Some(Arith::Div),
        _ => None,
    }
}

/// The runtime shape of a value.
pub fn kind_of(value: &Value) -> (r: ValueKind)
    ensures
        r == value@.kind(),
{
    match value {
        Value::Number(_) => ValueKind::Number,
        Value::String(_) => ValueKind::String,
        Value::Bool(_) => ValueKind::Bool,
        Value::List(_) => ValueKind::List,
        Value::Void => ValueKind::Void,
        Value::Return(_) => ValueKind::Return,
        Value::Function => ValueKind::Function,
        Value::Lambda { .. } => ValueKind::Lambda,
        Value::StructInstance { .. } => ValueKind::StructInstance,
    }
}

/// The model of a result whose error is a kind.
pub open spec fn kind_result_view(r: Result<Value, RuntimeErrorKind>) -> Result<
    crate::value::ValueView,
    RuntimeErrorKind,
> {
    match r {
        Ok(v) => Ok(v@),
        Err(kind) => Err(kind),
    }
}

/// Applies a binary operator to two values.
///
/// Two numbers are added, subtracted, multiplied or divided with exact
/// rational arithmetic: a result denotes exactly the sum, difference,
/// product or quotient of the rationals that the operands denote, and
/// where that cannot be had the operation fails with `NumericOverflow` or
/// `DivisionByZero`; nothing is ever rounded. Two strings are joined by
/// `+`. Every other combination fails with `UnsupportedOperation`, which
/// names the operator and the shapes of the operands.
pub fn binary_op(op: &TokenKind, left: &Value, right: &Value) -> (r: Result<
    Value,
    RuntimeErrorKind,
>)
    ensures
        kind_result_view(r) == binary_op_spec(op@, left@, right@),
        left matches Value::Number(a) ==> (right matches Value::Number(b) ==> (arith_of(
            op@,
        ) matches Some(arith) ==> (r matches Ok(Value::Number(v)) ==> v.wf() && is_exact(
            arith,
            *a,
            *b,
            v,
        )))),
{
    let unsupported = RuntimeErrorKind::UnsupportedOperation {
        op: operator_of(op),
        left: Some(kind_of(left)),
        right: kind_of(right),
    };
    match (left, right) {
        (Value::Number(a), Value::Number(b)) => match arith_operator(op) {
            Some(arith) => match Number::arith(arith, *a, *b) {
                Ok(n) => Ok(Value::Number(n)),
                Err(NumberError::DivisionByZero) => Err(RuntimeErrorKind::DivisionByZero),
                Err(NumberError::Overflow) => Err(RuntimeErrorKind::NumericOverflow),
            },
            None => Err(unsupported),
        },
        (Value::String(a), Value::String(b)) => match op {
            TokenKind::Plus => Ok(Value::String(a.clone().concat(b.as_str()))),
            _ => Err(unsupported),
        },
        _ => Err(unsupported),
    }
}

} // verus!
