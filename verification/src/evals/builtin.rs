//! The builtin functions.

use crate::environment::{Builtin, Env, EnvView};
use crate::error::{RuntimeError, RuntimeErrorKind};
use crate::evals::outcome_of;

use crate::number::Number;

use crate::semantics::{apply_builtin_spec, length_number};
use crate::value::{clone_value, clone_values, values_view, Value};
use vstd::prelude::*;
use vstd::string::StrSliceExecFns;

verus! {

/// Registers the standard builtins under their names: `print`, `len` and
/// `push`.
pub fn register_builtins(env: &mut Env)
    ensures
        final(env)@ == old(env)@.register_builtin("print"@, Builtin::Print).register_builtin(
            "len"@,
            Builtin::Len,
        ).register_builtin("push"@, Builtin::Push),
{
    env.register_builtin("print".to_string(), Builtin::Print);
    env.register_builtin("len".to_string(), Builtin::Len);
    env.register_builtin("push".to_string(), Builtin::Push);
}

impl Env {
    /// Adds a value to the output.
    pub fn record_output(&mut self, value: Value)
        ensures
            final(self)@ == (EnvView { output: old(self)@.output.push(value@), ..old(self)@ }),
    {
        let ghost before = self@;
        self.output.push(value);
        assert(values_view(self.output) =~= before.output.push(value@));
    }
}

/// The number of a length.
pub fn number_of_length(len: usize) -> (r: Number)
    ensures
        r == length_number(len as nat),
{
    Number::from_u64(len as u64)
}

/// Applies a builtin to the values of its arguments.
///
/// Fails with `ArityMismatch` where the number of values is not the
/// builtin's arity, and with `TypeMismatch` where `len` gets neither a list
/// nor a string or `push` gets no list.
pub fn apply_builtin(
    builtin: Builtin,
    args: &Vec<Value>,
    line: usize,
    column: usize,
    env: &mut Env,
) -> (r: Result<Value, RuntimeError>)
    ensures
        outcome_of(r, *final(env)) == apply_builtin_spec(
            builtin,
            values_view(*args),
            line,
            column,
            old(env)@,
        ),
{
    if args.len() != builtin.arity() {
        return Err(
            RuntimeError::new(
                RuntimeErrorKind::ArityMismatch { expected: builtin.arity(), found: args.len() },
                line,
                column,
            ),
        );
    }
    match builtin {
        Builtin::Print => {
            env.record_output(clone_value(&args[0]));
            Ok(Value::Void)
        },
        Builtin::Len => match &args[0] {
            Value::List(items) => {
                assert(values_view(*items).len() == items.len());
                Ok(Value::Number(number_of_length(items.len())))
            },
            Value::String(text) => Ok(Value::Number(number_of_length(text.as_str().unicode_len()))),
            _ => Err(RuntimeError::new(RuntimeErrorKind::TypeMismatch, line, column)),
        },
        Builtin::Push => match &args[0] {
            Value::List(items) => {
                let mut longer = clone_values(items);
                let added = clone_value(&args[1]);
                longer.push(added);
                assert(values_view(longer) =~= values_view(*items).push(values_view(*args)[1]));
                Ok(Value::List(longer))
            },
            _ => Err(RuntimeError::new(RuntimeErrorKind::TypeMismatch, line, column)),
        },
    }
}

} // verus!
