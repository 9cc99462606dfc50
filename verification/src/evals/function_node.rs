//! Functions: declaring them, the blocks that are their bodies, and calling
//! them.

use crate::ast::{node_view, nodes_view, ASTNode, NodeView};
use crate::environment::{
    clone_function_info, Builtin, Env, EnvVariableType, FunctionInfo, FunctionInfoView,
    VariableSlot,
};
use crate::error::{RuntimeError, RuntimeErrorKind};
use crate::evals::builtin::apply_builtin;

use crate::evals::lambda_node::invoke_lambda;

use crate::evals::{eval_node, outcome_of};
use crate::semantics::{
    all_variables, bind_args_spec, bind_params, block_spec, call_scope, call_spec, fail,
    invoke_builtin_spec, invoke_spec, list_spec, param_slot, receiver_scope, ListOutcome,
};
use crate::value::{clone_value, values_view, Value, ValueType, ValueView};
use vstd::prelude::*;

verus! {

/// The outcome that a list of values, or an error, and the environment
/// left behind stand for.
pub open spec fn list_outcome_of(r: Result<Vec<Value>, RuntimeError>, env: Env) -> ListOutcome {
    ListOutcome {
        result: match r {
            Ok(values) => Ok(values_view(values)),
            Err(e) => Err(e),
        },
        env: env@,
    }
}

/// The model of an optional body.
pub open spec fn body_view(body: Option<ASTNode>) -> Option<NodeView> {
    match body {
        Some(b) => Some(b@),
        None => None,
    }
}

/// Evaluates a function declaration: registers the parameters, the body and
/// the return type under the name, in place of an earlier function of that
/// name. The body is not run.
pub fn function_node(
    name: String,
    arguments: Vec<ASTNode>,
    body: Box<ASTNode>,
    return_type: ValueType,
    line: usize,
    column: usize,
    env: &mut Env,
) -> (r: Result<Value, RuntimeError>)
    ensures
        r is Ok,
        r->Ok_0 == Value::Function,
        final(env)@ == old(env)@.register_function(
            name@,
            FunctionInfoView {
                arguments: nodes_view(arguments),
                body: Some(node_view(*body)),
                return_type: return_type@,
                builtin: None,
            },
        ),
{
    let function_info = FunctionInfo { arguments, body: Some(*body), return_type, builtin: None };
    env.register_function(name, function_info);
    Ok(Value::Function)
}

/// Evaluates the statements of a block in order.
///
/// A statement that evaluates to a `Return` sentinel ends the block, which
/// then evaluates to that sentinel, still wrapped; a block that runs to its
/// end evaluates to `Void`. The first statement that fails ends the block
/// with its error.
pub fn eval_block(nodes: &Vec<ASTNode>, env: &mut Env, depth: usize) -> (r: Result<
    Value,
    RuntimeError,
>)
    ensures
        outcome_of(r, *final(env)) == block_spec(nodes_view(*nodes), 0, old(env)@, depth as nat),
    decreases depth, nodes, 2nat,
{
    let ghost goal = block_spec(nodes_view(*nodes), 0, env@, depth as nat);
    let mut i: usize = 0;
    while i < nodes.len()
        invariant
            i <= nodes.len(),
            block_spec(nodes_view(*nodes), i as nat, env@, depth as nat) == goal,
            goal == block_spec(nodes_view(*nodes), 0, old(env)@, depth as nat),
        decreases nodes.len() - i,
    {
        assert(nodes_view(*nodes)[i as int] == nodes[i as int]@);
        assert(nodes_view(*nodes).len() == nodes.len());
        let value = eval_node(&nodes[i], env, depth)?;
        if let Value::Return(_) = value {
            return Ok(value);
        }
        i += 1;
    }
    assert(nodes_view(*nodes).len() == nodes.len());
    Ok(Value::Void)
}

/// Evaluates expressions in order and adds their values to `first`.
pub fn eval_list(nodes: &Vec<ASTNode>, first: Vec<Value>, env: &mut Env, depth: usize) -> (r: Result<
    Vec<Value>,
    RuntimeError,
>)
    ensures
        list_outcome_of(r, *final(env)) == list_spec(
            nodes_view(*nodes),
            0,
            values_view(first),
            old(env)@,
            depth as nat,
        ),
    decreases depth, nodes, 2nat,
{
    let ghost goal = list_spec(nodes_view(*nodes), 0, values_view(first), env@, depth as nat);
    let mut values = first;
    let mut i: usize = 0;
    while i < nodes.len()
        invariant
            i <= nodes.len(),
            list_spec(nodes_view(*nodes), i as nat, values_view(values), env@, depth as nat) == goal,
            goal == list_spec(nodes_view(*nodes), 0, values_view(first), old(env)@, depth as nat),
        decreases nodes.len() - i,
    {
        assert(nodes_view(*nodes)[i as int] == nodes[i as int]@);
        assert(nodes_view(*nodes).len() == nodes.len());
        let ghost before = values_view(values);
        let value = eval_node(&nodes[i], env, depth)?;
        values.push(value);
        assert(values_view(values) =~= before.push(value@));
        i += 1;
    }
    assert(nodes_view(*nodes).len() == nodes.len());
    Ok(values)
}

/// Whether every node is a `Variable` node.
pub fn are_variables(params: &Vec<ASTNode>) -> (r: bool)
    ensures
        r == all_variables(nodes_view(*params)),
{
    let mut i: usize = 0;
    while i < params.len()
        invariant
            i <= params.len(),
            forall|j: int| 0 <= j < i ==> (#[trigger] nodes_view(*params)[j]) is Variable,
        decreases params.len() - i,
    {
        match &params[i] {
            ASTNode::Variable { .. } => {},
            _ => {
                assert(!(nodes_view(*params)[i as int] is Variable));
                return false;
            },
        }
        i += 1;
    }
    true
}

/// The slot that binds a parameter to a value: immutable, with the
/// parameter's declared type, or `Any` where it declares none.
pub fn parameter_slot(param: &ASTNode, value: Value) -> (r: VariableSlot)
    ensures
        r@ == param_slot(param@, value@),
{
    match param {
        ASTNode::Variable { name, value_type, .. } => VariableSlot {
            name: name.clone(),
            value,
            variable_type: EnvVariableType::Immutable,
            value_type: match value_type {
                Some(t) => t.clone(),
                None => ValueType::Any,
            },
        },
        _ => VariableSlot {
            name: String::new(),
            value,
            variable_type: EnvVariableType::Immutable,
            value_type: ValueType::Any,
        },
    }
}

/// Pushes the scope of a call and binds in it the receiver, if there is
/// one, as `self`.
pub fn enter_receiver_scope(env: &mut Env, label: &String, receiver: Option<&Value>)
    ensures
        final(env)@ == receiver_scope(
            old(env)@,
            label@,
            match receiver {
                Some(v) => Some(v@),
                None => None,
            },
        ),
{
    env.enter_scope(label.clone());
    match receiver {
        Some(instance) => {
            let declared = match instance {
                Value::StructInstance { name, .. } => ValueType::Struct(name.clone()),
                _ => ValueType::Any,
            };
            env.declare(
                VariableSlot {
                    name: "self".to_string(),
                    value: clone_value(instance),
                    variable_type: EnvVariableType::Immutable,
                    value_type: declared,
                },
            );
        },
        None => {},
    }
}

/// Pushes the scope of a call and binds in it the receiver, if there is
/// one, as `self`, and each parameter to its value.
pub(crate) fn enter_call_scope(
    env: &mut Env,
    label: &String,
    receiver: Option<&Value>,
    params: &Vec<ASTNode>,
    values: &Vec<Value>,
)
    requires
        params.len() == values.len(),
    ensures
        final(env)@ == call_scope(
            old(env)@,
            label@,
            match receiver {
                Some(v) => Some(v@),
                None => None,
            },
            nodes_view(*params),
            values_view(*values),
        ),
{
    enter_receiver_scope(env, label, receiver);
    let ghost entered = env@;
    let mut i: usize = 0;
    while i < params.len()
        invariant
            i <= params.len(),
            params.len() == values.len(),
            env@ == bind_params(entered, nodes_view(*params), values_view(*values), i as nat),
        decreases params.len() - i,
    {
        assert(nodes_view(*params)[i as int] == params[i as int]@);
        assert(values_view(*values)[i as int] == values[i as int]@);
        env.declare(parameter_slot(&params[i], clone_value(&values[i])));
        i += 1;
    }
    assert(nodes_view(*params).len() == params.len());
}

/// Evaluates the arguments of a call inside the scope of the call: each is
/// evaluated there and then bound to its parameter, immutable, before the
/// next is evaluated. Gives the values of the arguments.
pub(crate) fn bind_arguments(
    params: &Vec<ASTNode>,
    args: &Vec<ASTNode>,
    env: &mut Env,
    depth: usize,
) -> (r: Result<Vec<Value>, RuntimeError>)
    requires
        params.len() == args.len(),
    ensures
        list_outcome_of(r, *final(env)) == bind_args_spec(
            nodes_view(*params),
            nodes_view(*args),
            0,
            Seq::empty(),
            old(env)@,
            depth as nat,
        ),
        r matches Ok(values) ==> values.len() == args.len(),
    decreases depth, args, 2nat,
{
    let ghost goal = bind_args_spec(
        nodes_view(*params),
        nodes_view(*args),
        0,
        Seq::empty(),
        env@,
        depth as nat,
    );
    let mut values: Vec<Value> = Vec::new();
    assert(values_view(values) =~= Seq::<ValueView>::empty());
    let mut i: usize = 0;
    while i < args.len()
        invariant
            i <= args.len(),
            params.len() == args.len(),
            values.len() == i,
            bind_args_spec(
                nodes_view(*params),
                nodes_view(*args),
                i as nat,
                values_view(values),
                env@,
                depth as nat,
            ) == goal,
            goal == bind_args_spec(
                nodes_view(*params),
                nodes_view(*args),
                0,
                Seq::empty(),
                old(env)@,
                depth as nat,
            ),
        decreases args.len() - i,
    {
        assert(nodes_view(*args)[i as int] == args[i as int]@);
        assert(nodes_view(*params)[i as int] == params[i as int]@);
        assert(nodes_view(*args).len() == args.len());
        let ghost before = values_view(values);
        let value = eval_node(&args[i], env, depth)?;
        env.declare(parameter_slot(&params[i], clone_value(&value)));
        values.push(value);
        assert(values_view(values) =~= before.push(value@));
        i += 1;
    }
    assert(nodes_view(*args).len() == args.len());
    Ok(values)
}

/// The value that a call hands to its caller: what a `Return` sentinel
/// holds, or the value itself.
pub fn unwrap_return(value: Value) -> (r: Value)
    ensures
        r@ == value@.unwrap_return(),
{
    match value {
        Value::Return(inner) => *inner,
        other => other,
    }
}

/// Calls a builtin with the values `first` followed by the values of
/// `args`.
///
/// Fails with `ArityMismatch` where their number is not the builtin's
/// arity, before any argument is evaluated. No scope is pushed.
pub fn invoke_builtin(
    builtin: Builtin,
    first: Vec<Value>,
    args: &Vec<ASTNode>,
    line: usize,
    column: usize,
    env: &mut Env,
    depth: usize,
) -> (r: Result<Value, RuntimeError>)
    ensures
        outcome_of(r, *final(env)) == invoke_builtin_spec(
            builtin,
            values_view(first),
            nodes_view(*args),
            line,
            column,
            old(env)@,
            depth as nat,
        ),
    decreases depth, args, 3nat,
{
    assert(nodes_view(*args).len() == args.len());
    assert(values_view(first).len() == first.len());
    let arity = builtin.arity();
    if first.len() > arity || args.len() != arity - first.len() {
        let found = first.len().saturating_add(args.len());
        return Err(
            RuntimeError::new(
                RuntimeErrorKind::ArityMismatch { expected: arity, found },
                line,
                column,
            ),
        );
    }
    let values = eval_list(args, first, env, depth)?;
    apply_builtin(builtin, &values, line, column, env)
}

/// Calls a function or a method.
///
/// Fails with `ArityMismatch` where the number of arguments is not the
/// number of parameters, whatever the arguments are; with `Unsupported`
/// where a parameter is no `Variable` node or there is no body; with
/// `RecursionLimit` at depth zero. Else a scope is pushed, the receiver is
/// bound in it, each argument is evaluated in it and bound to its
/// parameter, the body is evaluated one level deeper, and the scope is
/// popped with its bindings merged back, whether the arguments and the body
/// succeeded or not. What the arguments and the body declare stays in the
/// call. What the body evaluated to is handed back, without its `Return`
/// sentinel.
pub fn invoke(
    params: &Vec<ASTNode>,
    body: &Option<ASTNode>,
    label: &String,
    receiver: Option<&Value>,
    args: &Vec<ASTNode>,
    line: usize,
    column: usize,
    env: &mut Env,
    depth: usize,
) -> (r: Result<Value, RuntimeError>)
    ensures
        outcome_of(r, *final(env)) == invoke_spec(
            nodes_view(*params),
            body_view(*body),
            label@,
            match receiver {
                Some(v) => Some(v@),
                None => None,
            },
            nodes_view(*args),
            line,
            column,
            old(env)@,
            depth as nat,
        ),
    decreases depth, args, 3nat,
{
    assert(nodes_view(*args).len() == args.len());
    assert(nodes_view(*params).len() == params.len());
    if args.len() != params.len() {
        return Err(
            RuntimeError::new(
                RuntimeErrorKind::ArityMismatch { expected: params.len(), found: args.len() },
                line,
                column,
            ),
        );
    }
    if !are_variables(params) {
        return Err(RuntimeError::new(RuntimeErrorKind::Unsupported, line, column));
    }
    let body = match body {
        Some(b) => b,
        None => {
            return Err(RuntimeError::new(RuntimeErrorKind::Unsupported, line, column));
        },
    };
    if depth == 0 {
        return Err(RuntimeError::new(RuntimeErrorKind::RecursionLimit, line, column));
    }
    enter_receiver_scope(env, label, receiver);
    match bind_arguments(params, args, env, depth) {
        Ok(_) => {},
        Err(e) => {
            env.leave_scope_merging();
            return Err(e);
        },
    }
    let result = eval_node(body, env, depth - 1);
    env.leave_scope_merging();
    match result {
        Ok(value) => Ok(unwrap_return(value)),
        Err(e) => Err(e),
    }
}

/// Calls by name.
///
/// The name is resolved as a function, else as a builtin, else as a
/// variable that holds a lambda; it fails with `UndefinedFunction` where it
/// is none of these.
pub fn call_function(
    name: &String,
    args: &Vec<ASTNode>,
    line: usize,
    column: usize,
    env: &mut Env,
    depth: usize,
) -> (r: Result<Value, RuntimeError>)
    ensures
        outcome_of(r, *final(env)) == call_spec(
            name@,
            nodes_view(*args),
            line,
            column,
            old(env)@,
            depth as nat,
        ),
    decreases depth, args, 4nat,
{
    let function = match env.get_function(name) {
        Some(info) => Some(clone_function_info(info)),
        None => None,
    };
    match function {
        Some(info) => match info.builtin {
            Some(b) => {
                let none: Vec<Value> = Vec::new();
                assert(values_view(none) =~= Seq::<ValueView>::empty());
                invoke_builtin(b, none, args, line, column, env, depth)
            },
            None => invoke(&info.arguments, &info.body, name, None, args, line, column, env, depth),
        },
        None => match env.get_builtin(name) {
            Some(b) => {
                let none: Vec<Value> = Vec::new();
                assert(values_view(none) =~= Seq::<ValueView>::empty());
                invoke_builtin(b, none, args, line, column, env, depth)
            },
            None => {
                let lambda_type = ValueType::Lambda;
                let held = match env.get(name, Some(&lambda_type)) {
                    Some(slot) => Some(clone_value(&slot.value)),
                    None => None,
                };
                match held {
                    Some(Value::Lambda { arguments, body, env: captured }) => invoke_lambda(
                        &arguments,
                        &body,
                        *captured,
                        args,
                        line,
                        column,
                        env,
                        depth,
                    ),
                    _ => Err(RuntimeError::new(RuntimeErrorKind::UndefinedFunction, line, column)),
                }
            },
        },
    }
}

/// Evaluates a block at the environment's call depth limit.
pub fn block_node(statements: Vec<ASTNode>, line: usize, column: usize, env: &mut Env) -> (r: Result<
    Value,
    RuntimeError,
>)
    ensures
        outcome_of(r, *final(env)) == block_spec(
            nodes_view(statements),
            0,
            old(env)@,
            old(env)@.call_depth_limit as nat,
        ),
{
    let depth = env.call_depth_limit;
    eval_block(&statements, env, depth)
}

/// Evaluates a call by name at the environment's call depth limit.
/// `arguments` is a `FunctionCallArgs` node; with any other node the call
/// fails with `Unsupported`.
pub fn function_call_node(
    name: String,
    arguments: Box<ASTNode>,
    line: usize,
    column: usize,
    env: &mut Env,
) -> (r: Result<Value, RuntimeError>)
    ensures
        outcome_of(r, *final(env)) == match arguments@ {
            NodeView::FunctionCallArgs { args, .. } => call_spec(
                name@,
                args,
                line,
                column,
                old(env)@,
                old(env)@.call_depth_limit as nat,
            ),
            _ => fail(RuntimeErrorKind::Unsupported, line, column, old(env)@),
        },
{
    let depth = env.call_depth_limit;
    match &*arguments {
        ASTNode::FunctionCallArgs { args, .. } => call_function(&name, args, line, column, env, depth),
        _ => Err(RuntimeError::new(RuntimeErrorKind::Unsupported, line, column)),
    }
}

} // verus!
