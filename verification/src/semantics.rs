//! What evaluation means: a function from a node, an environment and a call
//! depth to a result and the environment that evaluation leaves behind.
//!
//! The evaluator is proved to compute exactly this function.

use crate::ast::{FieldDefView, FieldInitView, NodeView};
use crate::environment::{Builtin, EnvVariableType, EnvView, FunctionInfoView, ModuleView, SlotView};
use crate::error::{OperatorKind, RuntimeError, RuntimeErrorKind};
use crate::number::{arith_spec, compare_numbers, Arith, Comparison, Number, NumberError};
use crate::search::first_index;

use crate::tables::{builtin_arity, field_def_named, first_match, function_named, struct_named};
use crate::token::TokenKindView;

use crate::value::{FieldValueView, ValueTypeView, ValueView};
use vstd::prelude::*;

verus! {

/// What an evaluation gives: a value or an error, and the environment as
/// the evaluation left it.
pub struct Outcome {
    pub result: Result<ValueView, RuntimeError>,
    pub env: EnvView,
}

/// What the evaluation of a list of expressions gives.
pub struct ListOutcome {
    pub result: Result<Seq<ValueView>, RuntimeError>,
    pub env: EnvView,
}

/// What the evaluation of the field initialisers of an instantiation gives.
pub struct FieldsOutcome {
    pub result: Result<Seq<FieldValueView>, RuntimeError>,
    pub env: EnvView,
}

/// The outcome that is a value.
pub open spec fn done(value: ValueView, env: EnvView) -> Outcome {
    Outcome { result: Ok(value), env }
}

/// The outcome that is an error at the given place.
pub open spec fn fail(kind: RuntimeErrorKind, line: usize, column: usize, env: EnvView) -> Outcome {
    Outcome { result: Err(RuntimeError { kind, line, column }), env }
}

/// The outcome of an operation that needs no further evaluation.
pub open spec fn conclude(
    result: Result<ValueView, RuntimeErrorKind>,
    line: usize,
    column: usize,
    env: EnvView,
) -> Outcome {
    match result {
        Ok(value) => done(value, env),
        Err(kind) => fail(kind, line, column, env),
    }
}

/// The operator that a token stands for.
pub open spec fn operator_kind(op: TokenKindView) -> OperatorKind {
    match op {
        TokenKindView::Plus => OperatorKind::Plus,
        TokenKindView::Minus => OperatorKind::Minus,
        TokenKindView::Mul => OperatorKind::Mul,
        TokenKindView::Div => OperatorKind::Div,
        TokenKindView::Eq => OperatorKind::Eq,
        TokenKindView::Lt => OperatorKind::Lt,
        TokenKindView::Lte => OperatorKind::Lte,
        TokenKindView::Gt => OperatorKind::Gt,
        TokenKindView::Gte => OperatorKind::Gte,
        _ => OperatorKind::Other,
    }
}

/// The arithmetic operator that a token stands for, if it stands for one.
pub open spec fn arith_of(op: TokenKindView) -> Option<Arith> {
    match op {
        TokenKindView::Plus => Some(Arith::Add),
        TokenKindView::Minus => Some(Arith::Sub),
        TokenKindView::Mul => Some(Arith::Mul),
        TokenKindView::Div => Some(Arith::Div),
        _ => None,
    }
}

/// The operator of a comparison.
pub open spec fn comparison_operator(relation: Comparison) -> OperatorKind {
    match relation {
        Comparison::Eq => OperatorKind::Eq,
        Comparison::Lt => OperatorKind::Lt,
        Comparison::Lte => OperatorKind::Lte,
        Comparison::Gt => OperatorKind::Gt,
        Comparison::Gte => OperatorKind::Gte,
    }
}

/// The error of a failed numeric operation.
pub open spec fn number_error_kind(e: NumberError) -> RuntimeErrorKind {
    match e {
        NumberError::DivisionByZero => RuntimeErrorKind::DivisionByZero,
        NumberError::Overflow => RuntimeErrorKind::NumericOverflow,
    }
}

/// A binary operator on two values. Two numbers are added, subtracted,
/// multiplied or divided exactly; two strings are joined by `+`. Every
/// other combination is unsupported.
pub open spec fn binary_op_spec(op: TokenKindView, left: ValueView, right: ValueView) -> Result<
    ValueView,
    RuntimeErrorKind,
> {
    let unsupported = Err(
        RuntimeErrorKind::UnsupportedOperation {
            op: operator_kind(op),
            left: Some(left.kind()),
            right: right.kind(),
        },
    );
    match (left, right) {
        (ValueView::Number(a), ValueView::Number(b)) => match arith_of(op) {
            Some(arith) => match arith_spec(arith, a, b) {
                Ok(n) => Ok(ValueView::Number(n)),
                Err(e) => Err(number_error_kind(e)),
            },
            None => unsupported,
        },
        (ValueView::String(a), ValueView::String(b)) => if op is Plus {
            Ok(ValueView::String(a + b))
        } else {
            unsupported
        },
        _ => unsupported,
    }
}

/// The negation of a number. Zero stays positive.
pub open spec fn negate_spec(n: Number) -> Number {
    if n.numer == 0 {
        Number { negative: false, ..n }
    } else {
        Number { negative: !n.negative, ..n }
    }
}

/// A prefix operator on a value: `-` negates a number, and nothing else is
/// supported.
pub open spec fn prefix_op_spec(op: TokenKindView, operand: ValueView) -> Result<
    ValueView,
    RuntimeErrorKind,
> {
    match (op, operand) {
        (TokenKindView::Minus, ValueView::Number(n)) => Ok(ValueView::Number(negate_spec(n))),
        _ => Err(
            RuntimeErrorKind::UnsupportedOperation {
                op: operator_kind(op),
                left: None,
                right: operand.kind(),
            },
        ),
    }
}

/// A comparison of two values. Numbers compare as the rationals they
/// denote; strings and booleans can be tested for equality. Every other
/// combination is unsupported.
pub open spec fn comparison_spec(relation: Comparison, left: ValueView, right: ValueView) -> Result<
    ValueView,
    RuntimeErrorKind,
> {
    let unsupported = Err(
        RuntimeErrorKind::UnsupportedOperation {
            op: comparison_operator(relation),
            left: Some(left.kind()),
            right: right.kind(),
        },
    );
    match (left, right) {
        (ValueView::Number(a), ValueView::Number(b)) => if a.wf() && b.wf() {
            Ok(ValueView::Bool(compare_numbers(relation, a, b)))
        } else {
            Err(RuntimeErrorKind::DivisionByZero)
        },
        (ValueView::String(a), ValueView::String(b)) => if relation == Comparison::Eq {
            Ok(ValueView::Bool(a == b))
        } else {
            unsupported
        },
        (ValueView::Bool(a), ValueView::Bool(b)) => if relation == Comparison::Eq {
            Ok(ValueView::Bool(a == b))
        } else {
            unsupported
        },
        _ => unsupported,
    }
}

/// The number of a length.
pub open spec fn length_number(len: nat) -> Number {
    Number { negative: false, numer: len as u64, denom: 1 }
}

/// What a builtin does with the values of its arguments. `print` adds its
/// argument to the environment's output; `len` gives the length of a list
/// or a string; `push` gives a list with a value added at its end.
pub open spec fn apply_builtin_spec(
    builtin: Builtin,
    args: Seq<ValueView>,
    line: usize,
    column: usize,
    env: EnvView,
) -> Outcome {
    if args.len() != builtin_arity(builtin) {
        fail(
            RuntimeErrorKind::ArityMismatch {
                expected: builtin_arity(builtin) as usize,
                found: args.len() as usize,
            },
            line,
            column,
            env,
        )
    } else {
        match builtin {
            Builtin::Print => done(
                ValueView::Void,
                EnvView { output: env.output.push(args[0]), ..env },
            ),
            Builtin::Len => match args[0] {
                ValueView::List(items) => done(ValueView::Number(length_number(items.len())), env),
                ValueView::String(text) => done(ValueView::Number(length_number(text.len())), env),
                _ => fail(RuntimeErrorKind::TypeMismatch, line, column, env),
            },
            Builtin::Push => match args[0] {
                ValueView::List(items) => done(ValueView::List(items.push(args[1])), env),
                _ => fail(RuntimeErrorKind::TypeMismatch, line, column, env),
            },
        }
    }
}

/// Whether every parameter is a `Variable` node.
pub open spec fn all_variables(params: Seq<NodeView>) -> bool {
    forall|i: int| 0 <= i < params.len() ==> #[trigger] params[i] is Variable
}

/// The binding of a parameter to an argument: immutable, with the
/// parameter's declared type, or `Any` where it declares none.
pub open spec fn param_slot(param: NodeView, value: ValueView) -> SlotView {
    match param {
        NodeView::Variable { name, value_type, .. } => SlotView {
            name,
            value,
            variable_type: EnvVariableType::Immutable,
            value_type: match value_type {
                Some(t) => t,
                None => ValueTypeView::Any,
            },
        },
        _ => SlotView {
            name: Seq::empty(),
            value,
            variable_type: EnvVariableType::Immutable,
            value_type: ValueTypeView::Any,
        },
    }
}

/// The environment with the first `n` parameters bound to their arguments
/// in the innermost frame.
pub open spec fn bind_params(env: EnvView, params: Seq<NodeView>, values: Seq<ValueView>, n: nat) -> EnvView
    decreases n,
{
    if n == 0 {
        env
    } else {
        bind_params(env, params, values, (n - 1) as nat).declare(
            param_slot(params[n - 1], values[n - 1]),
        )
    }
}

/// The name under which a method's receiver is bound.
pub open spec fn receiver_name() -> Seq<char> {
    "self"@
}

/// The label of the scope of a lambda call.
pub open spec fn lambda_label() -> Seq<char> {
    "lambda"@
}

/// The label of the scope of a loop.
pub open spec fn loop_label() -> Seq<char> {
    "for"@
}

/// The scope of a call, before its parameters are bound: a new scope on
/// top of `env`, with the receiver, if there is one, bound as `self`.
pub open spec fn receiver_scope(env: EnvView, label: Seq<char>, receiver: Option<ValueView>) -> EnvView {
    let entered = env.enter_scope(label);
    match receiver {
        Some(instance) => entered.declare(
            SlotView {
                name: receiver_name(),
                value: instance,
                variable_type: EnvVariableType::Immutable,
                value_type: match instance {
                    ValueView::StructInstance { name, .. } => ValueTypeView::Struct(name),
                    _ => ValueTypeView::Any,
                },
            },
        ),
        None => entered,
    }
}

/// The environment in which the body of a lambda runs: a new scope on top
/// of `env`, with the receiver, if there is one, bound as `self`, and the
/// parameters bound to the values.
pub open spec fn call_scope(
    env: EnvView,
    label: Seq<char>,
    receiver: Option<ValueView>,
    params: Seq<NodeView>,
    values: Seq<ValueView>,
) -> EnvView {
    bind_params(receiver_scope(env, label, receiver), params, values, params.len())
}

/// What a call hands back for the result of its body: the value inside a
/// `Return` sentinel, or the value itself.
pub open spec fn call_result(body: Result<ValueView, RuntimeError>) -> Result<
    ValueView,
    RuntimeError,
> {
    match body {
        Ok(value) => Ok(value.unwrap_return()),
        Err(e) => Err(e),
    }
}

/// The first field of `fields` with the given name.
pub open spec fn field_value_named(name: Seq<char>) -> spec_fn(FieldValueView) -> bool {
    |f: FieldValueView| f.name == name
}

/// The first initialiser with the given name.
pub open spec fn field_init_named(name: Seq<char>) -> spec_fn(FieldInitView) -> bool {
    |f: FieldInitView| f.name == name
}

/// Whether some initialiser names no field of the schema.
pub open spec fn unexpected_field(schema: Seq<FieldDefView>, inits: Seq<FieldInitView>) -> bool {
    exists|i: int|
        0 <= i < inits.len() && first_index(schema, field_def_named(#[trigger] inits[i].name))
            is None
}

/// Whether some field of the schema has no initialiser.
pub open spec fn missing_field(schema: Seq<FieldDefView>, inits: Seq<FieldInitView>) -> bool {
    exists|i: int|
        0 <= i < schema.len() && first_index(inits, field_init_named(#[trigger] schema[i].name))
            is None
}

/// The fields of an instance, in schema order: each has the value of the
/// first evaluated initialiser of its name.
pub open spec fn instance_fields(schema: Seq<FieldDefView>, values: Seq<FieldValueView>) -> Seq<
    FieldValueView,
> {
    Seq::new(
        schema.len(),
        |i: int|
            FieldValueView {
                name: schema[i].name,
                value: match first_match(values, field_value_named(schema[i].name)) {
                    Some(f) => f.value,
                    None => ValueView::Void,
                },
            },
    )
}

/// The environment with the first `n` methods of an `impl` registered for
/// the struct `base`, in order.
pub open spec fn register_methods(
    env: EnvView,
    base: Seq<char>,
    methods: Seq<NodeView>,
    n: nat,
) -> EnvView
    decreases n,
{
    if n == 0 {
        env
    } else {
        let before = register_methods(env, base, methods, (n - 1) as nat);
        match methods[n - 1] {
            NodeView::Function { name, arguments, body, return_type, .. } => before.register_method(
                base,
                name,
                FunctionInfoView { arguments, body: Some(*body), return_type, builtin: None },
            ),
            _ => before,
        }
    }
}

/// Whether every method of an `impl` is a `Function` node.
pub open spec fn all_functions(methods: Seq<NodeView>) -> bool {
    forall|i: int| 0 <= i < methods.len() ==> #[trigger] methods[i] is Function
}

/// The evaluation of an `impl`: every method is registered for the struct,
/// unless one of them is no `Function` node.
pub open spec fn impl_spec(
    env: EnvView,
    base: Seq<char>,
    methods: Seq<NodeView>,
    line: usize,
    column: usize,
) -> Outcome {
    if all_functions(methods) {
        done(ValueView::Void, register_methods(env, base, methods, methods.len()))
    } else {
        fail(RuntimeErrorKind::Unsupported, line, column, env)
    }
}

/// The loading of one symbol of a module: its function of that name, else
/// its struct of that name.
pub open spec fn import_symbol(env: EnvView, module: ModuleView, symbol: Seq<char>) -> Result<
    EnvView,
    RuntimeErrorKind,
> {
    match first_match(module.functions, function_named(symbol)) {
        Some(f) => Ok(env.register_function(symbol, f.info)),
        None => match first_match(module.structs, struct_named(symbol)) {
            Some(s) => Ok(env.register_struct(symbol, s.fields)),
            None => Err(RuntimeErrorKind::UnknownSymbol),
        },
    }
}

/// The loading of the symbols from position `i` on, in order, up to the
/// first that the module does not have.
#[verifier::opaque]
pub open spec fn import_symbols(
    env: EnvView,
    module: ModuleView,
    symbols: Seq<Seq<char>>,
    i: nat,
    line: usize,
    column: usize,
) -> Outcome
    decreases symbols.len() - i,
{
    if i >= symbols.len() {
        done(ValueView::Void, env)
    } else {
        match import_symbol(env, module, symbols[i as int]) {
            Err(kind) => fail(kind, line, column, env),
            Ok(next) => import_symbols(next, module, symbols, i + 1, line, column),
        }
    }
}

/// The evaluation of an `import`.
pub open spec fn import_spec(
    env: EnvView,
    module_name: Seq<char>,
    symbols: Seq<Seq<char>>,
    line: usize,
    column: usize,
) -> Outcome {
    match env.get_module(module_name) {
        None => fail(RuntimeErrorKind::UnknownModule, line, column, env),
        Some(module) => import_symbols(env, module, symbols, 0, line, column),
    }
}

/// The evaluation of a field access on a value.
pub open spec fn field_access_spec(instance: ValueView, field_name: Seq<char>) -> Result<
    ValueView,
    RuntimeErrorKind,
> {
    match instance {
        ValueView::StructInstance { fields, .. } => match first_match(
            fields,
            field_value_named(field_name),
        ) {
            Some(f) => Ok(f.value),
            None => Err(RuntimeErrorKind::UnknownField),
        },
        _ => Err(RuntimeErrorKind::TypeMismatch),
    }
}

/// The instance with `value` as the value of its first field named
/// `field_name`.
pub open spec fn with_field(instance: ValueView, field_name: Seq<char>, value: ValueView) -> ValueView {
    match instance {
        ValueView::StructInstance { name, fields } => match first_index(
            fields,
            field_value_named(field_name),
        ) {
            Some(i) => ValueView::StructInstance {
                name,
                fields: fields.update(i, FieldValueView { name: field_name, value }),
            },
            None => instance,
        },
        _ => instance,
    }
}

/// The evaluation of a variable: the value of its visible binding, where
/// there is one and it is of the type that the node declares, if it
/// declares one.
pub open spec fn variable_spec(
    name: Seq<char>,
    expected: Option<ValueTypeView>,
    line: usize,
    column: usize,
    env: EnvView,
) -> Outcome {
    match env.get(name, expected) {
        Some(slot) => done(slot.value, env),
        None => fail(RuntimeErrorKind::UndefinedVariable, line, column, env),
    }
}

/// The binding of an evaluated value to a name. The assignment evaluates to
/// the value.
pub open spec fn assign_spec(
    name: Seq<char>,
    value: ValueView,
    variable_type: EnvVariableType,
    value_type: ValueTypeView,
    is_new: bool,
    line: usize,
    column: usize,
    env: EnvView,
) -> Outcome {
    match env.set(name, value, variable_type, value_type, is_new) {
        Ok(after) => done(value, after),
        Err(kind) => fail(kind, line, column, env),
    }
}

/// The schema that an instantiation is checked against, or why there is
/// none.
pub open spec fn schema_spec(name: Seq<char>, inits: Seq<FieldInitView>, env: EnvView) -> Result<
    Seq<FieldDefView>,
    RuntimeErrorKind,
> {
    match env.get_struct(name) {
        None => Err(RuntimeErrorKind::UnknownStruct),
        Some(schema) => if unexpected_field(schema, inits) {
            Err(RuntimeErrorKind::UnexpectedField)
        } else if missing_field(schema, inits) {
            Err(RuntimeErrorKind::MissingField)
        } else {
            Ok(schema)
        },
    }
}

/// The assignment of an evaluated value to a field of an evaluated
/// instance. Where the instance expression is a variable, the variable is
/// reassigned to the changed instance; the assignment evaluates to the
/// value.
pub open spec fn field_assign_spec(
    instance: NodeView,
    target: ValueView,
    field_name: Seq<char>,
    assigned: ValueView,
    line: usize,
    column: usize,
    env: EnvView,
) -> Outcome {
    match instance {
        NodeView::Variable { name, .. } => match env.set(
            name,
            with_field(target, field_name, assigned),
            EnvVariableType::Mutable,
            ValueTypeView::Any,
            false,
        ) {
            Ok(after) => done(assigned, after),
            Err(kind) => fail(kind, line, column, env),
        },
        _ => done(assigned, env),
    }
}

/// The number of arguments that an arity error reports.
pub open spec fn arity_found(first: nat, rest: nat) -> usize {
    if first + rest <= usize::MAX {
        (first + rest) as usize
    } else {
        usize::MAX
    }
}

/// The outcome of a comparison node, from the outcome of its left operand
/// and that of its right operand, evaluated after it.
pub open spec fn compare_outcomes(
    relation: Comparison,
    left: Outcome,
    right: Outcome,
    line: usize,
    column: usize,
) -> Outcome {
    match left.result {
        Err(_) => left,
        Ok(lv) => match right.result {
            Err(_) => right,
            Ok(rv) => conclude(comparison_spec(relation, lv, rv), line, column, right.env),
        },
    }
}

/// The evaluation of a node.
///
/// `depth` is how many more calls may nest: a call of a function, a lambda
/// or a method evaluates the body at `depth - 1`, and fails with
/// `RecursionLimit` at depth zero.
pub open spec fn eval_spec(node: NodeView, env: EnvView, depth: nat) -> Outcome
    decreases depth, node, 0nat,
{
    match node {
        NodeView::Import { module_name, symbols, line, column } => import_spec(
            env,
            module_name,
            symbols,
            line,
            column,
        ),
        NodeView::Public { node: inner, .. } => eval_spec(*inner, env, depth),
        NodeView::Literal { value, .. } => done(value, env),
        NodeView::Variable { name, value_type, line, column } => variable_spec(
            name,
            value_type,
            line,
            column,
            env,
        ),
        NodeView::BinaryOp { left, op, right, line, column } => {
            let l = eval_spec(*left, env, depth);
            match l.result {
                Err(_) => l,
                Ok(lv) => {
                    let r = eval_spec(*right, l.env, depth);
                    match r.result {
                        Err(_) => r,
                        Ok(rv) => conclude(binary_op_spec(op, lv, rv), line, column, r.env),
                    }
                },
            }
        },
        NodeView::PrefixOp { op, expr, line, column } => {
            let e = eval_spec(*expr, env, depth);
            match e.result {
                Err(_) => e,
                Ok(v) => conclude(prefix_op_spec(op, v), line, column, e.env),
            }
        },
        NodeView::Eq { left, right, line, column } => {
            let l = eval_spec(*left, env, depth);
            let r = eval_spec(*right, l.env, depth);
            compare_outcomes(Comparison::Eq, l, r, line, column)
        },
        NodeView::Gte { left, right, line, column } => {
            let l = eval_spec(*left, env, depth);
            let r = eval_spec(*right, l.env, depth);
            compare_outcomes(Comparison::Gte, l, r, line, column)
        },
        NodeView::Gt { left, right, line, column } => {
            let l = eval_spec(*left, env, depth);
            let r = eval_spec(*right, l.env, depth);
            compare_outcomes(Comparison::Gt, l, r, line, column)
        },
        NodeView::Lte { left, right, line, column } => {
            let l = eval_spec(*left, env, depth);
            let r = eval_spec(*right, l.env, depth);
            compare_outcomes(Comparison::Lte, l, r, line, column)
        },
        NodeView::Lt { left, right, line, column } => {
            let l = eval_spec(*left, env, depth);
            let r = eval_spec(*right, l.env, depth);
            compare_outcomes(Comparison::Lt, l, r, line, column)
        },
        NodeView::Assign { name, value, variable_type, value_type, is_new, line, column } => {
            let v = eval_spec(*value, env, depth);
            match v.result {
                Err(_) => v,
                Ok(assigned) => assign_spec(
                    name,
                    assigned,
                    variable_type,
                    value_type,
                    is_new,
                    line,
                    column,
                    v.env,
                ),
            }
        },
        NodeView::Block { nodes, .. } => block_spec(nodes, 0, env, depth),
        NodeView::Return { expr, .. } => {
            let e = eval_spec(*expr, env, depth);
            match e.result {
                Err(_) => e,
                Ok(v) => done(ValueView::Return(Box::new(v)), e.env),
            }
        },
        NodeView::If { condition, then, else_, line, column, .. } => {
            let c = eval_spec(*condition, env, depth);
            match c.result {
                Err(_) => c,
                Ok(ValueView::Bool(true)) => eval_spec(*then, c.env, depth),
                Ok(ValueView::Bool(false)) => match else_ {
                    Some(otherwise) => eval_spec(*otherwise, c.env, depth),
                    None => done(ValueView::Void, c.env),
                },
                Ok(_) => fail(RuntimeErrorKind::TypeMismatch, line, column, c.env),
            }
        },
        NodeView::For { variable, iterable, body, line, column } => {
            let it = eval_spec(*iterable, env, depth);
            match it.result {
                Err(_) => it,
                Ok(ValueView::List(items)) => {
                    let looped = for_spec(
                        variable,
                        items,
                        0,
                        *body,
                        it.env.enter_scope(loop_label()),
                        depth,
                    );
                    Outcome { result: looped.result, env: looped.env.leave_scope_merging() }
                },
                Ok(_) => fail(RuntimeErrorKind::TypeMismatch, line, column, it.env),
            }
        },
        NodeView::Function { name, arguments, body, return_type, .. } => done(
            ValueView::Function,
            env.register_function(
                name,
                FunctionInfoView { arguments, body: Some(*body), return_type, builtin: None },
            ),
        ),
        NodeView::FunctionCall { name, arguments, line, column } => match *arguments {
            NodeView::FunctionCallArgs { args, .. } => call_spec(
                name,
                args,
                line,
                column,
                env,
                depth,
            ),
            _ => fail(RuntimeErrorKind::Unsupported, line, column, env),
        },
        NodeView::Lambda { arguments, body, .. } => done(
            ValueView::Lambda { arguments, body, env: Box::new(env) },
            env,
        ),
        NodeView::LambdaCall { lambda, arguments, line, column } => {
            let l = eval_spec(*lambda, env, depth);
            match l.result {
                Err(_) => l,
                Ok(ValueView::Lambda { arguments: params, body, env: captured }) => invoke_lambda_spec(
                    params,
                    *body,
                    *captured,
                    arguments,
                    line,
                    column,
                    l.env,
                    depth,
                ),
                Ok(_) => fail(RuntimeErrorKind::TypeMismatch, line, column, l.env),
            }
        },
        NodeView::Struct { name, fields, .. } => done(
            ValueView::Void,
            env.register_struct(name, fields),
        ),
        NodeView::Impl { base_struct, methods, line, column } => impl_spec(
            env,
            base_struct,
            methods,
            line,
            column,
        ),
        NodeView::StructInstance { name, fields, line, column } => match schema_spec(
            name,
            fields,
            env,
        ) {
            Err(kind) => fail(kind, line, column, env),
            Ok(schema) => {
                let evaluated = fields_spec(fields, 0, Seq::empty(), env, depth);
                match evaluated.result {
                    Err(e) => Outcome { result: Err(e), env: evaluated.env },
                    Ok(values) => done(
                        ValueView::StructInstance { name, fields: instance_fields(schema, values) },
                        evaluated.env,
                    ),
                }
            },
        },
        NodeView::StructFieldAccess { instance, field_name, line, column } => {
            let i = eval_spec(*instance, env, depth);
            match i.result {
                Err(_) => i,
                Ok(v) => conclude(field_access_spec(v, field_name), line, column, i.env),
            }
        },
        NodeView::StructFieldAssign { instance, field_name, value, line, column } => {
            let i = eval_spec(*instance, env, depth);
            match i.result {
                Err(_) => i,
                Ok(target) => match field_access_spec(target, field_name) {
                    Err(kind) => fail(kind, line, column, i.env),
                    Ok(_) => {
                        let v = eval_spec(*value, i.env, depth);
                        match v.result {
                            Err(_) => v,
                            Ok(assigned) => field_assign_spec(
                                *instance,
                                target,
                                field_name,
                                assigned,
                                line,
                                column,
                                v.env,
                            ),
                        }
                    },
                },
            }
        },
        NodeView::MethodCall { method_name, caller, arguments, builtin, line, column } => {
            let c = eval_spec(*caller, env, depth);
            match c.result {
                Err(_) => c,
                Ok(receiver) => if builtin {
                    builtin_method_call_spec(
                        method_name,
                        receiver,
                        arguments,
                        line,
                        column,
                        c.env,
                        depth,
                    )
                } else {
                    method_call_spec(method_name, receiver, arguments, line, column, c.env, depth)
                },
            }
        },
        NodeView::CommentBlock { .. } => done(ValueView::Void, env),
        NodeView::FunctionCallArgs { line, column, .. } => fail(
            RuntimeErrorKind::Unsupported,
            line,
            column,
            env,
        ),
        NodeView::Continue { line, column } => fail(
            RuntimeErrorKind::Unsupported,
            line,
            column,
            env,
        ),
    }
}

/// The evaluation of the statements of a block from position `i` on. A
/// statement that evaluates to a `Return` sentinel ends the block, which
/// then evaluates to that sentinel; a block that runs to its end evaluates
/// to `Void`.
pub open spec fn block_spec(nodes: Seq<NodeView>, i: nat, env: EnvView, depth: nat) -> Outcome
    decreases depth, nodes, nodes.len() - i,
{
    if i >= nodes.len() {
        done(ValueView::Void, env)
    } else {
        let s = eval_spec(nodes[i as int], env, depth);
        match s.result {
            Err(_) => s,
            Ok(ValueView::Return(_)) => s,
            Ok(_) => block_spec(nodes, i + 1, s.env, depth),
        }
    }
}

/// The evaluation of the expressions from position `i` on, in order, added
/// to the values in `acc`.
pub open spec fn list_spec(
    nodes: Seq<NodeView>,
    i: nat,
    acc: Seq<ValueView>,
    env: EnvView,
    depth: nat,
) -> ListOutcome
    decreases depth, nodes, nodes.len() - i,
{
    if i >= nodes.len() {
        ListOutcome { result: Ok(acc), env }
    } else {
        let a = eval_spec(nodes[i as int], env, depth);
        match a.result {
            Err(e) => ListOutcome { result: Err(e), env: a.env },
            Ok(v) => list_spec(nodes, i + 1, acc.push(v), a.env, depth),
        }
    }
}

/// The evaluation of the field initialisers from position `i` on, in
/// order, added to the fields in `acc`.
pub open spec fn fields_spec(
    inits: Seq<FieldInitView>,
    i: nat,
    acc: Seq<FieldValueView>,
    env: EnvView,
    depth: nat,
) -> FieldsOutcome
    decreases depth, inits, inits.len() - i,
{
    if i >= inits.len() {
        FieldsOutcome { result: Ok(acc), env }
    } else {
        let a = eval_spec(inits[i as int].value, env, depth);
        match a.result {
            Err(e) => FieldsOutcome { result: Err(e), env: a.env },
            Ok(v) => fields_spec(
                inits,
                i + 1,
                acc.push(FieldValueView { name: inits[i as int].name, value: v }),
                a.env,
                depth,
            ),
        }
    }
}

/// The iterations of a loop from item `i` on, inside the loop's scope. Each
/// binds the loop variable afresh, immutable, and evaluates the body. A
/// body that evaluates to a `Return` sentinel ends the loop, which then
/// evaluates to that sentinel; a loop that runs to its end evaluates to
/// `Void`.
pub open spec fn for_spec(
    variable: Seq<char>,
    items: Seq<ValueView>,
    i: nat,
    body: NodeView,
    env: EnvView,
    depth: nat,
) -> Outcome
    decreases depth, body, items.len() - i,
{
    if i >= items.len() {
        done(ValueView::Void, env)
    } else {
        let bound = env.declare(
            SlotView {
                name: variable,
                value: items[i as int],
                variable_type: EnvVariableType::Immutable,
                value_type: ValueTypeView::Any,
            },
        );
        let b = eval_spec(body, bound, depth);
        match b.result {
            Err(_) => b,
            Ok(ValueView::Return(_)) => b,
            Ok(_) => for_spec(variable, items, i + 1, body, b.env, depth),
        }
    }
}

/// A call by name. The name is resolved as a function, else as a builtin,
/// else as a variable that holds a lambda.
pub open spec fn call_spec(
    name: Seq<char>,
    args: Seq<NodeView>,
    line: usize,
    column: usize,
    env: EnvView,
    depth: nat,
) -> Outcome
    decreases depth, args, args.len() + 2,
{
    match env.get_function(name) {
        Some(info) => match info.builtin {
            Some(b) => invoke_builtin_spec(b, Seq::empty(), args, line, column, env, depth),
            None => invoke_spec(
                info.arguments,
                info.body,
                name,
                None,
                args,
                line,
                column,
                env,
                depth,
            ),
        },
        None => match env.get_builtin(name) {
            Some(b) => invoke_builtin_spec(b, Seq::empty(), args, line, column, env, depth),
            None => match env.get(name, Some(ValueTypeView::Lambda)) {
                Some(slot) => match slot.value {
                    ValueView::Lambda { arguments: params, body, env: captured } => invoke_lambda_spec(
                        params,
                        *body,
                        *captured,
                        args,
                        line,
                        column,
                        env,
                        depth,
                    ),
                    _ => fail(RuntimeErrorKind::UndefinedFunction, line, column, env),
                },
                None => fail(RuntimeErrorKind::UndefinedFunction, line, column, env),
            },
        },
    }
}

/// A call of a builtin with the values `first` followed by the values of
/// `args`. The number of arguments is checked before any is evaluated; no
/// scope is pushed.
pub open spec fn invoke_builtin_spec(
    builtin: Builtin,
    first: Seq<ValueView>,
    args: Seq<NodeView>,
    line: usize,
    column: usize,
    env: EnvView,
    depth: nat,
) -> Outcome
    decreases depth, args, args.len() + 1,
{
    if first.len() + args.len() != builtin_arity(builtin) {
        fail(
            RuntimeErrorKind::ArityMismatch {
                expected: builtin_arity(builtin) as usize,
                found: arity_found(first.len(), args.len()),
            },
            line,
            column,
            env,
        )
    } else {
        let a = list_spec(args, 0, first, env, depth);
        match a.result {
            Err(e) => Outcome { result: Err(e), env: a.env },
            Ok(values) => apply_builtin_spec(builtin, values, line, column, a.env),
        }
    }
}

/// The arguments of a call from position `i` on, inside the scope of the
/// call: each is evaluated there and then bound to its parameter, immutable,
/// before the next is evaluated. The values are added to `acc`.
pub open spec fn bind_args_spec(
    params: Seq<NodeView>,
    args: Seq<NodeView>,
    i: nat,
    acc: Seq<ValueView>,
    env: EnvView,
    depth: nat,
) -> ListOutcome
    decreases depth, args, args.len() - i,
{
    if i >= args.len() {
        ListOutcome { result: Ok(acc), env }
    } else {
        let a = eval_spec(args[i as int], env, depth);
        match a.result {
            Err(e) => ListOutcome { result: Err(e), env: a.env },
            Ok(v) => bind_args_spec(
                params,
                args,
                i + 1,
                acc.push(v),
                a.env.declare(param_slot(params[i as int], v)),
                depth,
            ),
        }
    }
}

/// A call of a function or a method. The number of arguments is checked
/// first. Then a scope is pushed, the receiver is bound in it, the
/// arguments are evaluated in it and bound to the parameters, the body is
/// evaluated one level deeper, and the scope is popped with its bindings
/// merged back, whether the arguments and the body succeeded or not. So
/// what the arguments or the body declare stays in the call.
pub open spec fn invoke_spec(
    params: Seq<NodeView>,
    body: Option<NodeView>,
    label: Seq<char>,
    receiver: Option<ValueView>,
    args: Seq<NodeView>,
    line: usize,
    column: usize,
    env: EnvView,
    depth: nat,
) -> Outcome
    decreases depth, args, args.len() + 1,
{
    if args.len() != params.len() {
        fail(
            RuntimeErrorKind::ArityMismatch {
                expected: params.len() as usize,
                found: args.len() as usize,
            },
            line,
            column,
            env,
        )
    } else if !all_variables(params) || body is None {
        fail(RuntimeErrorKind::Unsupported, line, column, env)
    } else if depth == 0 {
        fail(RuntimeErrorKind::RecursionLimit, line, column, env)
    } else {
        let a = bind_args_spec(
            params,
            args,
            0,
            Seq::empty(),
            receiver_scope(env, label, receiver),
            depth,
        );
        match a.result {
            Err(e) => Outcome { result: Err(e), env: a.env.leave_scope_merging() },
            Ok(_) => {
                let b = eval_spec(body->0, a.env, (depth - 1) as nat);
                Outcome { result: call_result(b.result), env: b.env.leave_scope_merging() }
            },
        }
    }
}

/// A call of a lambda. The arguments are evaluated and bound as those of a
/// function, in a scope on the caller's environment that ends before the
/// body runs. The body runs one level deeper in a scope on the lambda's
/// captured environment, with the parameters bound to the values of the
/// arguments, and the bindings of that scope are merged back into the
/// caller's environment.
pub open spec fn invoke_lambda_spec(
    params: Seq<NodeView>,
    body: NodeView,
    captured: EnvView,
    args: Seq<NodeView>,
    line: usize,
    column: usize,
    env: EnvView,
    depth: nat,
) -> Outcome
    decreases depth, args, args.len() + 1,
{
    if args.len() != params.len() {
        fail(
            RuntimeErrorKind::ArityMismatch {
                expected: params.len() as usize,
                found: args.len() as usize,
            },
            line,
            column,
            env,
        )
    } else if !all_variables(params) {
        fail(RuntimeErrorKind::Unsupported, line, column, env)
    } else if depth == 0 {
        fail(RuntimeErrorKind::RecursionLimit, line, column, env)
    } else {
        let a = bind_args_spec(
            params,
            args,
            0,
            Seq::empty(),
            env.enter_scope(lambda_label()),
            depth,
        );
        let caller = a.env.leave_scope_merging();
        match a.result {
            Err(e) => Outcome { result: Err(e), env: caller },
            Ok(values) => {
                let b = eval_spec(
                    body,
                    call_scope(captured, lambda_label(), None, params, values),
                    (depth - 1) as nat,
                );
                Outcome { result: call_result(b.result), env: caller.update_global_env(b.env) }
            },
        }
    }
}

/// A call of a method on an evaluated receiver. The method is found by
/// the receiver's struct name and the method's name; the receiver is bound
/// as `self`.
pub open spec fn method_call_spec(
    method_name: Seq<char>,
    receiver: ValueView,
    args: Seq<NodeView>,
    line: usize,
    column: usize,
    env: EnvView,
    depth: nat,
) -> Outcome
    decreases depth, args, args.len() + 2,
{
    match receiver {
        ValueView::StructInstance { name, .. } => match env.get_method(name, method_name) {
            None => fail(RuntimeErrorKind::UndefinedFunction, line, column, env),
            Some(info) => invoke_spec(
                info.arguments,
                info.body,
                method_name,
                Some(receiver),
                args,
                line,
                column,
                env,
                depth,
            ),
        },
        _ => fail(RuntimeErrorKind::TypeMismatch, line, column, env),
    }
}

/// A call of a builtin as a method: the builtin is found by the method's
/// name alone, and the receiver is its first argument.
pub open spec fn builtin_method_call_spec(
    method_name: Seq<char>,
    receiver: ValueView,
    args: Seq<NodeView>,
    line: usize,
    column: usize,
    env: EnvView,
    depth: nat,
) -> Outcome
    decreases depth, args, args.len() + 2,
{
    match env.get_builtin(method_name) {
        None => fail(RuntimeErrorKind::UndefinedFunction, line, column, env),
        Some(b) => invoke_builtin_spec(b, seq![receiver], args, line, column, env, depth),
    }
}

} // verus!
