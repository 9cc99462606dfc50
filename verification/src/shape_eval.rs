//! Evaluation keeps the shape of the frames below the innermost one.

use crate::ast::{FieldInitView, NodeView};
use crate::environment::{Builtin, EnvVariableType, EnvView, SlotView};
use crate::semantics::{
    all_variables, bind_args_spec, block_spec, builtin_method_call_spec, call_scope, call_spec,
    eval_spec, fields_spec, for_spec, invoke_builtin_spec, invoke_lambda_spec, invoke_spec,
    lambda_label, list_spec, loop_label, method_call_spec, param_slot, receiver_scope, schema_spec,
};
use crate::semantics::with_field;

use crate::shape::{
    kept_all, kept_outer, lemma_declare_keeps, lemma_import_symbols_keeps, lemma_kept_trans,
    lemma_merge_keeps, lemma_receiver_scope_keeps, lemma_register_methods_keeps, lemma_scope_exit,
    same_shape,
};
use crate::value::{FieldValueView, ValueTypeView, ValueView};
use vstd::prelude::*;

verus! {

/// Declaring or reassigning a variable touches the innermost frame only.
pub proof fn lemma_set_keeps(
    env: EnvView,
    name: Seq<char>,
    value: ValueView,
    variable_type: EnvVariableType,
    value_type: ValueTypeView,
    is_new: bool,
)
    requires
        env.frames.len() >= 1,
    ensures
        env.set(name, value, variable_type, value_type, is_new) matches Ok(after) ==> kept_outer(
            env,
            after,
        ),
{
    match env.set(name, value, variable_type, value_type, is_new) {
        Ok(after) => {
            let slot = choose|slot: SlotView| after == env.declare(slot);
            lemma_declare_keeps(env, slot);
        },
        Err(_) => {},
    }
}

/// Evaluating a node keeps the frames below the innermost one.
pub proof fn lemma_eval_keeps(node: NodeView, env: EnvView, depth: nat)
    requires
        env.frames.len() >= 1,
    ensures
        kept_outer(env, eval_spec(node, env, depth).env),
    decreases depth, node, 1nat,
{
    match node {
        NodeView::Import { module_name, symbols, line, column } => {
            match env.get_module(module_name) {
                Some(module) => lemma_import_symbols_keeps(env, module, symbols, 0, line, column),
                None => {},
            }
        },
        NodeView::Public { node: inner, .. } => lemma_eval_keeps(*inner, env, depth),
        NodeView::Literal { .. } => {},
        NodeView::Variable { .. } => {},
        NodeView::Function { .. } => {},
        NodeView::Lambda { .. } => {},
        NodeView::Struct { .. } => {},
        NodeView::Impl { base_struct, methods, .. } => {
            lemma_register_methods_keeps(env, base_struct, methods, methods.len());
        },
        NodeView::CommentBlock { .. } => {},
        NodeView::FunctionCallArgs { .. } => {},
        NodeView::Continue { .. } => {},
        NodeView::Block { nodes, .. } => lemma_block_keeps(nodes, 0, env, depth),
        NodeView::BinaryOp { .. } => lemma_operator_keeps(node, env, depth),
        NodeView::PrefixOp { .. } => lemma_operator_keeps(node, env, depth),
        NodeView::Eq { .. } => lemma_operator_keeps(node, env, depth),
        NodeView::Gte { .. } => lemma_operator_keeps(node, env, depth),
        NodeView::Gt { .. } => lemma_operator_keeps(node, env, depth),
        NodeView::Lte { .. } => lemma_operator_keeps(node, env, depth),
        NodeView::Lt { .. } => lemma_operator_keeps(node, env, depth),
        NodeView::Assign { .. } => lemma_statement_keeps(node, env, depth),
        NodeView::Return { .. } => lemma_statement_keeps(node, env, depth),
        NodeView::If { .. } => lemma_statement_keeps(node, env, depth),
        NodeView::For { .. } => lemma_statement_keeps(node, env, depth),
        NodeView::FunctionCall { .. } => lemma_call_node_keeps(node, env, depth),
        NodeView::LambdaCall { .. } => lemma_call_node_keeps(node, env, depth),
        NodeView::MethodCall { .. } => lemma_call_node_keeps(node, env, depth),
        NodeView::StructInstance { .. } => lemma_struct_keeps(node, env, depth),
        NodeView::StructFieldAccess { .. } => lemma_struct_keeps(node, env, depth),
        NodeView::StructFieldAssign { .. } => lemma_struct_keeps(node, env, depth),
    }
}

/// Evaluating an operator node keeps the frames below the innermost one.
proof fn lemma_operator_keeps(node: NodeView, env: EnvView, depth: nat)
    requires
        env.frames.len() >= 1,
        node is BinaryOp || node is PrefixOp || node is Eq || node is Gte || node is Gt || node is Lte
            || node is Lt,
    ensures
        kept_outer(env, eval_spec(node, env, depth).env),
    decreases depth, node, 0nat,
{
    let k = env.frames.len() - 1;
    match node {
        NodeView::BinaryOp { left, right, .. } => {
            lemma_eval_keeps(*left, env, depth);
            let l = eval_spec(*left, env, depth);
            lemma_eval_keeps(*right, l.env, depth);
            lemma_kept_trans(env, l.env, eval_spec(*right, l.env, depth).env, k);
        },
        NodeView::Eq { left, right, .. } => {
            lemma_eval_keeps(*left, env, depth);
            let l = eval_spec(*left, env, depth);
            lemma_eval_keeps(*right, l.env, depth);
            lemma_kept_trans(env, l.env, eval_spec(*right, l.env, depth).env, k);
        },
        NodeView::Gte { left, right, .. } => {
            lemma_eval_keeps(*left, env, depth);
            let l = eval_spec(*left, env, depth);
            lemma_eval_keeps(*right, l.env, depth);
            lemma_kept_trans(env, l.env, eval_spec(*right, l.env, depth).env, k);
        },
        NodeView::Gt { left, right, .. } => {
            lemma_eval_keeps(*left, env, depth);
            let l = eval_spec(*left, env, depth);
            lemma_eval_keeps(*right, l.env, depth);
            lemma_kept_trans(env, l.env, eval_spec(*right, l.env, depth).env, k);
        },
        NodeView::Lte { left, right, .. } => {
            lemma_eval_keeps(*left, env, depth);
            let l = eval_spec(*left, env, depth);
            lemma_eval_keeps(*right, l.env, depth);
            lemma_kept_trans(env, l.env, eval_spec(*right, l.env, depth).env, k);
        },
        NodeView::Lt { left, right, .. } => {
            lemma_eval_keeps(*left, env, depth);
            let l = eval_spec(*left, env, depth);
            lemma_eval_keeps(*right, l.env, depth);
            lemma_kept_trans(env, l.env, eval_spec(*right, l.env, depth).env, k);
        },
        NodeView::PrefixOp { expr, .. } => {
            lemma_eval_keeps(*expr, env, depth);
        },
        _ => {},
    }
}

/// Evaluating an assignment, a `return`, an `if` or a `for` keeps the
/// frames below the innermost one.
proof fn lemma_statement_keeps(node: NodeView, env: EnvView, depth: nat)
    requires
        env.frames.len() >= 1,
        node is Assign || node is Return || node is If || node is For,
    ensures
        kept_outer(env, eval_spec(node, env, depth).env),
    decreases depth, node, 0nat,
{
    let k = env.frames.len() - 1;
    match node {
        NodeView::Assign { name, value, variable_type, value_type, is_new, .. } => {
            lemma_eval_keeps(*value, env, depth);
            let v = eval_spec(*value, env, depth);
            match v.result {
                Ok(assigned) => {
                    lemma_set_keeps(v.env, name, assigned, variable_type, value_type, is_new);
                    lemma_kept_trans(env, v.env, eval_spec(node, env, depth).env, k);
                },
                Err(_) => {},
            }
        },
        NodeView::Return { expr, .. } => {
            lemma_eval_keeps(*expr, env, depth);
        },
        NodeView::If { condition, then, else_, .. } => {
            lemma_eval_keeps(*condition, env, depth);
            let c = eval_spec(*condition, env, depth);
            match c.result {
                Ok(ValueView::Bool(true)) => {
                    lemma_eval_keeps(*then, c.env, depth);
                    lemma_kept_trans(env, c.env, eval_spec(node, env, depth).env, k);
                },
                Ok(ValueView::Bool(false)) => match else_ {
                    Some(otherwise) => {
                        lemma_eval_keeps(*otherwise, c.env, depth);
                        lemma_kept_trans(env, c.env, eval_spec(node, env, depth).env, k);
                    },
                    None => {},
                },
                _ => {},
            }
        },
        NodeView::For { variable, iterable, body, .. } => {
            lemma_eval_keeps(*iterable, env, depth);
            let it = eval_spec(*iterable, env, depth);
            match it.result {
                Ok(ValueView::List(items)) => {
                    let entered = it.env.enter_scope(loop_label());
                    lemma_for_keeps(variable, items, 0, *body, entered, depth);
                    let looped = for_spec(variable, items, 0, *body, entered, depth);
                    assert forall|i: int| 0 <= i < it.env.frames.len() implies same_shape(
                        #[trigger] it.env.frames[i],
                        looped.env.frames[i],
                    ) by {
                        assert(entered.frames[i] == it.env.frames[i]);
                        assert(same_shape(entered.frames[i], looped.env.frames[i]));
                    }
                    lemma_scope_exit(it.env, looped.env);
                    lemma_kept_trans(env, it.env, eval_spec(node, env, depth).env, k);
                },
                _ => {},
            }
        },
        _ => {},
    }
}

/// Evaluating a call keeps the frames below the innermost one.
proof fn lemma_call_node_keeps(node: NodeView, env: EnvView, depth: nat)
    requires
        env.frames.len() >= 1,
        node is FunctionCall || node is LambdaCall || node is MethodCall,
    ensures
        kept_outer(env, eval_spec(node, env, depth).env),
    decreases depth, node, 0nat,
{
    let k = env.frames.len() - 1;
    match node {
        NodeView::FunctionCall { name, arguments, line, column } => match *arguments {
            NodeView::FunctionCallArgs { args, .. } => {
                lemma_call_keeps(name, args, line, column, env, depth);
            },
            _ => {},
        },
        NodeView::LambdaCall { lambda, arguments, line, column } => {
            lemma_eval_keeps(*lambda, env, depth);
            let l = eval_spec(*lambda, env, depth);
            match l.result {
                Ok(ValueView::Lambda { arguments: params, body, env: captured }) => {
                    lemma_invoke_lambda_keeps(
                        params,
                        *body,
                        *captured,
                        arguments,
                        line,
                        column,
                        l.env,
                        depth,
                    );
                    lemma_kept_trans(env, l.env, eval_spec(node, env, depth).env, k);
                },
                _ => {},
            }
        },
        NodeView::MethodCall { method_name, caller, arguments, builtin, line, column } => {
            lemma_eval_keeps(*caller, env, depth);
            let c = eval_spec(*caller, env, depth);
            match c.result {
                Ok(receiver) => {
                    lemma_method_keeps(
                        method_name,
                        receiver,
                        arguments,
                        builtin,
                        line,
                        column,
                        c.env,
                        depth,
                    );
                    lemma_kept_trans(env, c.env, eval_spec(node, env, depth).env, k);
                },
                Err(_) => {},
            }
        },
        _ => {},
    }
}

/// A method call on an evaluated receiver keeps the frames below the
/// innermost one.
pub proof fn lemma_method_keeps(
    method_name: Seq<char>,
    receiver: ValueView,
    args: Seq<NodeView>,
    builtin: bool,
    line: usize,
    column: usize,
    env: EnvView,
    depth: nat,
)
    requires
        env.frames.len() >= 1,
    ensures
        builtin ==> kept_outer(
            env,
            builtin_method_call_spec(method_name, receiver, args, line, column, env, depth).env,
        ),
        !builtin ==> kept_outer(
            env,
            method_call_spec(method_name, receiver, args, line, column, env, depth).env,
        ),
    decreases depth, args, args.len() + 2,
{
    if builtin {
        match env.get_builtin(method_name) {
            Some(b) => {
                lemma_invoke_builtin_keeps(b, seq![receiver], args, line, column, env, depth);
            },
            None => {},
        }
    } else {
        match receiver {
            ValueView::StructInstance { name, .. } => match env.get_method(name, method_name) {
                Some(info) => {
                    lemma_invoke_keeps(
                        info.arguments,
                        info.body,
                        method_name,
                        Some(receiver),
                        args,
                        line,
                        column,
                        env,
                        depth,
                    );
                },
                None => {},
            },
            _ => {},
        }
    }
}

/// Evaluating an instantiation, a field access or a field assignment keeps
/// the frames below the innermost one.
proof fn lemma_struct_keeps(node: NodeView, env: EnvView, depth: nat)
    requires
        env.frames.len() >= 1,
        node is StructInstance || node is StructFieldAccess || node is StructFieldAssign,
    ensures
        kept_outer(env, eval_spec(node, env, depth).env),
    decreases depth, node, 0nat,
{
    let k = env.frames.len() - 1;
    match node {
        NodeView::StructInstance { name, fields, .. } => match schema_spec(name, fields, env) {
            Ok(_) => {
                lemma_fields_keeps(fields, 0, Seq::empty(), env, depth);
            },
            Err(_) => {},
        },
        NodeView::StructFieldAccess { instance, .. } => {
            lemma_eval_keeps(*instance, env, depth);
        },
        NodeView::StructFieldAssign { instance, field_name, value, .. } => {
            lemma_eval_keeps(*instance, env, depth);
            let first = eval_spec(*instance, env, depth);
            lemma_eval_keeps(*value, first.env, depth);
            lemma_kept_trans(env, first.env, eval_spec(*value, first.env, depth).env, k);
            let i = eval_spec(*instance, env, depth);
            match i.result {
                Ok(target) => {
                    let v = eval_spec(*value, i.env, depth);
                    match v.result {
                        Ok(assigned) => match *instance {
                            NodeView::Variable { name, .. } => {
                                lemma_set_keeps(
                                    v.env,
                                    name,
                                    with_field(target, field_name, assigned),
                                    EnvVariableType::Mutable,
                                    ValueTypeView::Any,
                                    false,
                                );
                                lemma_kept_trans(env, v.env, eval_spec(node, env, depth).env, k);
                            },
                            _ => {},
                        },
                        Err(_) => {},
                    }
                },
                Err(_) => {},
            }
        },
        _ => {},
    }
}

/// Evaluating the statements of a block keeps the frames below the
/// innermost one.
pub proof fn lemma_block_keeps(nodes: Seq<NodeView>, i: nat, env: EnvView, depth: nat)
    requires
        env.frames.len() >= 1,
    ensures
        kept_outer(env, block_spec(nodes, i, env, depth).env),
    decreases depth, nodes, nodes.len() - i,
{
    if i < nodes.len() {
        lemma_eval_keeps(nodes[i as int], env, depth);
        let s = eval_spec(nodes[i as int], env, depth);
        match s.result {
            Err(_) => {},
            Ok(ValueView::Return(_)) => {},
            Ok(_) => {
                lemma_block_keeps(nodes, i + 1, s.env, depth);
                lemma_kept_trans(
                    env,
                    s.env,
                    block_spec(nodes, i + 1, s.env, depth).env,
                    env.frames.len() - 1,
                );
            },
        }
    }
}

/// Evaluating a list of expressions keeps the frames below the innermost
/// one.
pub proof fn lemma_list_keeps(
    nodes: Seq<NodeView>,
    i: nat,
    acc: Seq<ValueView>,
    env: EnvView,
    depth: nat,
)
    requires
        env.frames.len() >= 1,
    ensures
        kept_outer(env, list_spec(nodes, i, acc, env, depth).env),
    decreases depth, nodes, nodes.len() - i,
{
    if i < nodes.len() {
        lemma_eval_keeps(nodes[i as int], env, depth);
        let a = eval_spec(nodes[i as int], env, depth);
        match a.result {
            Err(_) => {},
            Ok(v) => {
                lemma_list_keeps(nodes, i + 1, acc.push(v), a.env, depth);
                lemma_kept_trans(
                    env,
                    a.env,
                    list_spec(nodes, i + 1, acc.push(v), a.env, depth).env,
                    env.frames.len() - 1,
                );
            },
        }
    }
}

/// Evaluating field initialisers keeps the frames below the innermost one.
pub proof fn lemma_fields_keeps(
    inits: Seq<FieldInitView>,
    i: nat,
    acc: Seq<FieldValueView>,
    env: EnvView,
    depth: nat,
)
    requires
        env.frames.len() >= 1,
    ensures
        kept_outer(env, fields_spec(inits, i, acc, env, depth).env),
    decreases depth, inits, inits.len() - i,
{
    if i < inits.len() {
        lemma_eval_keeps(inits[i as int].value, env, depth);
        let a = eval_spec(inits[i as int].value, env, depth);
        match a.result {
            Err(_) => {},
            Ok(v) => {
                let next = acc.push(FieldValueView { name: inits[i as int].name, value: v });
                lemma_fields_keeps(inits, i + 1, next, a.env, depth);
                lemma_kept_trans(
                    env,
                    a.env,
                    fields_spec(inits, i + 1, next, a.env, depth).env,
                    env.frames.len() - 1,
                );
            },
        }
    }
}

/// The iterations of a loop keep the frames below the loop's scope.
pub proof fn lemma_for_keeps(
    variable: Seq<char>,
    items: Seq<ValueView>,
    i: nat,
    body: NodeView,
    env: EnvView,
    depth: nat,
)
    requires
        env.frames.len() >= 1,
    ensures
        kept_outer(env, for_spec(variable, items, i, body, env, depth).env),
    decreases depth, body, items.len() - i + 2,
{
    let k = env.frames.len() - 1;
    if i < items.len() {
        let slot = SlotView {
            name: variable,
            value: items[i as int],
            variable_type: EnvVariableType::Immutable,
            value_type: ValueTypeView::Any,
        };
        let bound = env.declare(slot);
        lemma_declare_keeps(env, slot);
        lemma_eval_keeps(body, bound, depth);
        let b = eval_spec(body, bound, depth);
        lemma_kept_trans(env, bound, b.env, k);
        match b.result {
            Err(_) => {},
            Ok(ValueView::Return(_)) => {},
            Ok(_) => {
                lemma_for_keeps(variable, items, i + 1, body, b.env, depth);
                lemma_kept_trans(
                    env,
                    b.env,
                    for_spec(variable, items, i + 1, body, b.env, depth).env,
                    k,
                );
            },
        }
    }
}

/// A call by name keeps the frames below the innermost one.
pub proof fn lemma_call_keeps(
    name: Seq<char>,
    args: Seq<NodeView>,
    line: usize,
    column: usize,
    env: EnvView,
    depth: nat,
)
    requires
        env.frames.len() >= 1,
    ensures
        kept_outer(env, call_spec(name, args, line, column, env, depth).env),
    decreases depth, args, args.len() + 2,
{
    match env.get_function(name) {
        Some(info) => match info.builtin {
            Some(b) => lemma_invoke_builtin_keeps(b, Seq::empty(), args, line, column, env, depth),
            None => lemma_invoke_keeps(
                info.arguments,
                info.body,
                name,
                None,
                args,
                line,
                column,
                env,
                depth,
            ),
        },
        None => match env.get_builtin(name) {
            Some(b) => lemma_invoke_builtin_keeps(b, Seq::empty(), args, line, column, env, depth),
            None => match env.get(name, Some(ValueTypeView::Lambda)) {
                Some(slot) => match slot.value {
                    ValueView::Lambda { arguments: params, body, env: captured } => {
                        lemma_invoke_lambda_keeps(
                            params,
                            *body,
                            *captured,
                            args,
                            line,
                            column,
                            env,
                            depth,
                        );
                    },
                    _ => {},
                },
                None => {},
            },
        },
    }
}

/// A call of a builtin keeps the frames below the innermost one.
pub proof fn lemma_invoke_builtin_keeps(
    builtin: Builtin,
    first: Seq<ValueView>,
    args: Seq<NodeView>,
    line: usize,
    column: usize,
    env: EnvView,
    depth: nat,
)
    requires
        env.frames.len() >= 1,
    ensures
        kept_outer(env, invoke_builtin_spec(builtin, first, args, line, column, env, depth).env),
    decreases depth, args, args.len() + 1,
{
    lemma_list_keeps(args, 0, first, env, depth);
}

/// Evaluating and binding the arguments of a call keeps the frames below
/// the scope of the call.
pub proof fn lemma_bind_args_keeps(
    params: Seq<NodeView>,
    args: Seq<NodeView>,
    i: nat,
    acc: Seq<ValueView>,
    env: EnvView,
    depth: nat,
)
    requires
        env.frames.len() >= 1,
    ensures
        kept_outer(env, bind_args_spec(params, args, i, acc, env, depth).env),
    decreases depth, args, args.len() - i,
{
    let k = env.frames.len() - 1;
    if i < args.len() {
        lemma_eval_keeps(args[i as int], env, depth);
        let a = eval_spec(args[i as int], env, depth);
        match a.result {
            Err(_) => {},
            Ok(v) => {
                let slot = param_slot(params[i as int], v);
                let bound = a.env.declare(slot);
                lemma_declare_keeps(a.env, slot);
                lemma_kept_trans(env, a.env, bound, k);
                lemma_bind_args_keeps(params, args, i + 1, acc.push(v), bound, depth);
                lemma_kept_trans(
                    env,
                    bound,
                    bind_args_spec(params, args, i + 1, acc.push(v), bound, depth).env,
                    k,
                );
            },
        }
    }
}

/// A call of a function or a method keeps every frame of the caller,
/// however it ends.
pub proof fn lemma_invoke_keeps(
    params: Seq<NodeView>,
    body: Option<NodeView>,
    label: Seq<char>,
    receiver: Option<ValueView>,
    args: Seq<NodeView>,
    line: usize,
    column: usize,
    env: EnvView,
    depth: nat,
)
    requires
        env.frames.len() >= 1,
    ensures
        kept_all(
            env,
            invoke_spec(params, body, label, receiver, args, line, column, env, depth).env,
        ),
    decreases depth, args, args.len() + 1,
{
    if args.len() == params.len() && all_variables(params) && body is Some && depth != 0 {
        let scope = receiver_scope(env, label, receiver);
        lemma_receiver_scope_keeps(env, label, receiver);
        lemma_bind_args_keeps(params, args, 0, Seq::empty(), scope, depth);
        let a = bind_args_spec(params, args, 0, Seq::empty(), scope, depth);
        match a.result {
            Err(_) => {
                lemma_inside_keeps(env, scope, a.env);
                lemma_scope_exit(env, a.env);
            },
            Ok(_) => {
                lemma_eval_keeps(body->0, a.env, (depth - 1) as nat);
                let b = eval_spec(body->0, a.env, (depth - 1) as nat);
                lemma_kept_trans(scope, a.env, b.env, env.frames.len() as int);
                lemma_inside_keeps(env, scope, b.env);
                lemma_scope_exit(env, b.env);
            },
        }
    }
}

/// What keeps the frames below a scope keeps the frames that the scope was
/// pushed on.
pub proof fn lemma_inside_keeps(base: EnvView, scope: EnvView, inside: EnvView)
    requires
        scope.frames.len() == base.frames.len() + 1,
        forall|i: int| 0 <= i < base.frames.len() ==> scope.frames[i] == base.frames[i],
        kept_outer(scope, inside),
    ensures
        inside.frames.len() == base.frames.len() + 1,
        forall|i: int|
            0 <= i < base.frames.len() ==> same_shape(#[trigger] base.frames[i], inside.frames[i]),
{
    assert forall|i: int| 0 <= i < base.frames.len() implies same_shape(
        #[trigger] base.frames[i],
        inside.frames[i],
    ) by {
        assert(scope.frames[i] == base.frames[i]);
        assert(same_shape(scope.frames[i], inside.frames[i]));
    }
}

/// A call of a lambda keeps every frame of the caller, however it ends.
pub proof fn lemma_invoke_lambda_keeps(
    params: Seq<NodeView>,
    body: NodeView,
    captured: EnvView,
    args: Seq<NodeView>,
    line: usize,
    column: usize,
    env: EnvView,
    depth: nat,
)
    requires
        env.frames.len() >= 1,
    ensures
        kept_all(
            env,
            invoke_lambda_spec(params, body, captured, args, line, column, env, depth).env,
        ),
    decreases depth, args, args.len() + 1,
{
    if args.len() == params.len() && all_variables(params) && depth != 0 {
        let scope = env.enter_scope(lambda_label());
        assert forall|i: int| 0 <= i < env.frames.len() implies scope.frames[i]
            == env.frames[i] by {}
        lemma_bind_args_keeps(params, args, 0, Seq::empty(), scope, depth);
        let a = bind_args_spec(params, args, 0, Seq::empty(), scope, depth);
        lemma_inside_keeps(env, scope, a.env);
        lemma_scope_exit(env, a.env);
        let caller = a.env.leave_scope_merging();
        match a.result {
            Err(_) => {},
            Ok(values) => {
                let b = eval_spec(
                    body,
                    call_scope(captured, lambda_label(), None, params, values),
                    (depth - 1) as nat,
                );
                if b.env.frames.len() > 0 {
                    lemma_merge_keeps(
                        caller,
                        b.env.frames.last().variables,
                        b.env.frames.last().variables.len(),
                    );
                }
                lemma_kept_trans(env, caller, caller.update_global_env(b.env), env.frames.len() as int);
            },
        }
    }
}

} // verus!
