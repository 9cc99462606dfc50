//! Evaluation keeps names unique: in an environment whose frames bind each
//! name at most once and whose tables have at most one entry under each
//! key, every step of evaluation leaves an environment of that kind.

use crate::ast::{FieldInitView, NodeView};
use crate::environment::{Builtin, EnvVariableType, EnvView, FunctionInfoView, ModuleView, SlotView};
use crate::semantics::{
    all_functions, all_variables, bind_args_spec, block_spec, builtin_method_call_spec, call_spec,
    eval_spec, fields_spec, for_spec, import_symbol, import_symbols, invoke_builtin_spec,
    invoke_lambda_spec, invoke_spec, lambda_label, list_spec, loop_label, method_call_spec,
    param_slot, receiver_name, receiver_scope, register_methods, schema_spec, with_field,
};
use crate::tables::{first_match, function_named, struct_named};
use crate::unique::{
    distinct, frames_unique, law_declare_keeps_names_unique, law_merge_keeps_names_unique,
    law_register_function_keeps_names_unique, law_register_method_keeps_names_unique,
    law_register_struct_keeps_names_unique, law_set_keeps_names_unique, slot_name, tables_unique,
};
use crate::value::{FieldValueView, ValueTypeView, ValueView};
use vstd::prelude::*;

verus! {

/// The frames bind each name at most once, and the tables have at most one
/// entry under each key.
pub open spec fn names_unique(env: EnvView) -> bool {
    frames_unique(env) && tables_unique(env)
}

/// Entering a scope keeps names unique.
pub proof fn lemma_enter_scope_unique(env: EnvView, label: Seq<char>)
    requires
        names_unique(env),
    ensures
        names_unique(env.enter_scope(label)),
{
    let after = env.enter_scope(label);
    assert forall|k: int| 0 <= k < after.frames.len() implies distinct(
        (#[trigger] after.frames[k]).variables,
        slot_name(),
    ) by {
        if k < env.frames.len() {
            assert(after.frames[k] == env.frames[k]);
        }
    }
}

/// The end of a scope keeps names unique.
pub proof fn lemma_leave_scope_unique(env: EnvView)
    requires
        names_unique(env),
    ensures
        names_unique(env.leave_scope_merging()),
{
    if env.frames.len() > 1 {
        let popped = env.leave_scope();
        assert forall|k: int| 0 <= k < popped.frames.len() implies distinct(
            (#[trigger] popped.frames[k]).variables,
            slot_name(),
        ) by {
            assert(popped.frames[k] == env.frames[k]);
        }
        law_merge_keeps_names_unique(popped, env);
    }
}

/// Declaring a variable keeps names unique.
pub proof fn lemma_declare_unique(env: EnvView, slot: SlotView)
    requires
        names_unique(env),
    ensures
        names_unique(env.declare(slot)),
{
    law_declare_keeps_names_unique(env, slot);
}

/// Declaring or reassigning a variable keeps names unique.
pub proof fn lemma_set_unique(
    env: EnvView,
    name: Seq<char>,
    value: ValueView,
    variable_type: EnvVariableType,
    value_type: ValueTypeView,
    is_new: bool,
)
    requires
        names_unique(env),
    ensures
        env.set(name, value, variable_type, value_type, is_new) matches Ok(after) ==> names_unique(
            after,
        ),
{
    law_set_keeps_names_unique(env, name, value, variable_type, value_type, is_new);
    match env.set(name, value, variable_type, value_type, is_new) {
        Ok(after) => {
            let slot = choose|slot: SlotView| after == env.declare(slot);
            assert(after == env.declare(slot));
        },
        Err(_) => {},
    }
}

/// The scope of a call keeps names unique.
pub proof fn lemma_receiver_scope_unique(env: EnvView, label: Seq<char>, receiver: Option<ValueView>)
    requires
        names_unique(env),
    ensures
        names_unique(receiver_scope(env, label, receiver)),
{
    lemma_enter_scope_unique(env, label);
    match receiver {
        Some(instance) => {
            lemma_declare_unique(
                env.enter_scope(label),
                SlotView {
                    name: receiver_name(),
                    value: instance,
                    variable_type: EnvVariableType::Immutable,
                    value_type: match instance {
                        ValueView::StructInstance { name, .. } => ValueTypeView::Struct(name),
                        _ => ValueTypeView::Any,
                    },
                },
            );
        },
        None => {},
    }
}

/// Registering a function keeps names unique.
pub proof fn lemma_register_function_unique(env: EnvView, name: Seq<char>, info: FunctionInfoView)
    requires
        names_unique(env),
    ensures
        names_unique(env.register_function(name, info)),
{
    law_register_function_keeps_names_unique(env, name, info);
    assert(env.register_function(name, info).frames == env.frames);
}

/// Registering the methods of an `impl` keeps names unique.
pub proof fn lemma_register_methods_unique(
    env: EnvView,
    base: Seq<char>,
    methods: Seq<NodeView>,
    n: nat,
)
    requires
        names_unique(env),
    ensures
        names_unique(register_methods(env, base, methods, n)),
    decreases n,
{
    if n > 0 {
        lemma_register_methods_unique(env, base, methods, (n - 1) as nat);
        let before = register_methods(env, base, methods, (n - 1) as nat);
        match methods[n - 1] {
            NodeView::Function { name, arguments, body, return_type, .. } => {
                let info = FunctionInfoView {
                    arguments,
                    body: Some(*body),
                    return_type,
                    builtin: None,
                };
                law_register_method_keeps_names_unique(before, base, name, info);
                assert(before.register_method(base, name, info).frames == before.frames);
            },
            _ => {},
        }
    }
}

/// Loading symbols keeps names unique.
pub proof fn lemma_import_symbols_unique(
    env: EnvView,
    module: ModuleView,
    symbols: Seq<Seq<char>>,
    i: nat,
    line: usize,
    column: usize,
)
    requires
        names_unique(env),
    ensures
        names_unique(import_symbols(env, module, symbols, i, line, column).env),
    decreases symbols.len() - i,
{
    reveal(import_symbols);
    if i < symbols.len() {
        let symbol = symbols[i as int];
        match import_symbol(env, module, symbol) {
            Ok(next) => {
                match first_match(module.functions, function_named(symbol)) {
                    Some(f) => {
                        lemma_register_function_unique(env, symbol, f.info);
                    },
                    None => match first_match(module.structs, struct_named(symbol)) {
                        Some(s) => {
                            law_register_struct_keeps_names_unique(env, symbol, s.fields);
                            assert(env.register_struct(symbol, s.fields).frames == env.frames);
                        },
                        None => {},
                    },
                }
                lemma_import_symbols_unique(next, module, symbols, i + 1, line, column);
            },
            Err(_) => {},
        }
    }
}

/// Evaluating a node keeps names unique.
pub proof fn lemma_eval_unique(node: NodeView, env: EnvView, depth: nat)
    requires
        names_unique(env),
    ensures
        names_unique(eval_spec(node, env, depth).env),
    decreases depth, node, 1nat,
{
    match node {
        NodeView::Import { module_name, symbols, line, column } => {
            match env.get_module(module_name) {
                Some(module) => lemma_import_symbols_unique(env, module, symbols, 0, line, column),
                None => {},
            }
        },
        NodeView::Public { node: inner, .. } => lemma_eval_unique(*inner, env, depth),
        NodeView::Literal { .. } => {},
        NodeView::Variable { .. } => {},
        NodeView::Function { name, arguments, body, return_type, .. } => {
            lemma_register_function_unique(
                env,
                name,
                FunctionInfoView { arguments, body: Some(*body), return_type, builtin: None },
            );
        },
        NodeView::Lambda { .. } => {},
        NodeView::Struct { name, fields, .. } => {
            law_register_struct_keeps_names_unique(env, name, fields);
            assert(env.register_struct(name, fields).frames == env.frames);
        },
        NodeView::Impl { base_struct, methods, .. } => {
            if all_functions(methods) {
                lemma_register_methods_unique(env, base_struct, methods, methods.len());
            }
        },
        NodeView::CommentBlock { .. } => {},
        NodeView::FunctionCallArgs { .. } => {},
        NodeView::Continue { .. } => {},
        NodeView::Block { nodes, .. } => lemma_block_unique(nodes, 0, env, depth),
        NodeView::BinaryOp { .. } => lemma_operator_unique(node, env, depth),
        NodeView::PrefixOp { .. } => lemma_operator_unique(node, env, depth),
        NodeView::Eq { .. } => lemma_operator_unique(node, env, depth),
        NodeView::Gte { .. } => lemma_operator_unique(node, env, depth),
        NodeView::Gt { .. } => lemma_operator_unique(node, env, depth),
        NodeView::Lte { .. } => lemma_operator_unique(node, env, depth),
        NodeView::Lt { .. } => lemma_operator_unique(node, env, depth),
        NodeView::Assign { .. } => lemma_statement_unique(node, env, depth),
        NodeView::Return { .. } => lemma_statement_unique(node, env, depth),
        NodeView::If { .. } => lemma_statement_unique(node, env, depth),
        NodeView::For { .. } => lemma_statement_unique(node, env, depth),
        NodeView::FunctionCall { .. } => lemma_call_node_unique(node, env, depth),
        NodeView::LambdaCall { .. } => lemma_call_node_unique(node, env, depth),
        NodeView::MethodCall { .. } => lemma_call_node_unique(node, env, depth),
        NodeView::StructInstance { .. } => lemma_struct_unique(node, env, depth),
        NodeView::StructFieldAccess { .. } => lemma_struct_unique(node, env, depth),
        NodeView::StructFieldAssign { .. } => lemma_struct_unique(node, env, depth),
    }
}

/// Evaluating an operator node keeps names unique.
proof fn lemma_operator_unique(node: NodeView, env: EnvView, depth: nat)
    requires
        names_unique(env),
        node is BinaryOp || node is PrefixOp || node is Eq || node is Gte || node is Gt
            || node is Lte || node is Lt,
    ensures
        names_unique(eval_spec(node, env, depth).env),
    decreases depth, node, 0nat,
{
    match node {
        NodeView::BinaryOp { left, right, .. } => {
            lemma_eval_unique(*left, env, depth);
            lemma_eval_unique(*right, eval_spec(*left, env, depth).env, depth);
        },
        NodeView::Eq { left, right, .. } => {
            lemma_eval_unique(*left, env, depth);
            lemma_eval_unique(*right, eval_spec(*left, env, depth).env, depth);
        },
        NodeView::Gte { left, right, .. } => {
            lemma_eval_unique(*left, env, depth);
            lemma_eval_unique(*right, eval_spec(*left, env, depth).env, depth);
        },
        NodeView::Gt { left, right, .. } => {
            lemma_eval_unique(*left, env, depth);
            lemma_eval_unique(*right, eval_spec(*left, env, depth).env, depth);
        },
        NodeView::Lte { left, right, .. } => {
            lemma_eval_unique(*left, env, depth);
            lemma_eval_unique(*right, eval_spec(*left, env, depth).env, depth);
        },
        NodeView::Lt { left, right, .. } => {
            lemma_eval_unique(*left, env, depth);
            lemma_eval_unique(*right, eval_spec(*left, env, depth).env, depth);
        },
        NodeView::PrefixOp { expr, .. } => {
            lemma_eval_unique(*expr, env, depth);
        },
        _ => {},
    }
}

/// Evaluating an assignment, a `return`, an `if` or a `for` keeps names
/// unique.
proof fn lemma_statement_unique(node: NodeView, env: EnvView, depth: nat)
    requires
        names_unique(env),
        node is Assign || node is Return || node is If || node is For,
    ensures
        names_unique(eval_spec(node, env, depth).env),
    decreases depth, node, 0nat,
{
    match node {
        NodeView::Assign { name, value, variable_type, value_type, is_new, .. } => {
            lemma_eval_unique(*value, env, depth);
            let v = eval_spec(*value, env, depth);
            match v.result {
                Ok(assigned) => {
                    lemma_set_unique(v.env, name, assigned, variable_type, value_type, is_new);
                },
                Err(_) => {},
            }
        },
        NodeView::Return { expr, .. } => {
            lemma_eval_unique(*expr, env, depth);
        },
        NodeView::If { condition, then, else_, .. } => {
            lemma_eval_unique(*condition, env, depth);
            let c = eval_spec(*condition, env, depth);
            match c.result {
                Ok(ValueView::Bool(true)) => {
                    lemma_eval_unique(*then, c.env, depth);
                },
                Ok(ValueView::Bool(false)) => match else_ {
                    Some(otherwise) => {
                        lemma_eval_unique(*otherwise, c.env, depth);
                    },
                    None => {},
                },
                _ => {},
            }
        },
        NodeView::For { variable, iterable, body, .. } => {
            lemma_eval_unique(*iterable, env, depth);
            let it = eval_spec(*iterable, env, depth);
            match it.result {
                Ok(ValueView::List(items)) => {
                    let entered = it.env.enter_scope(loop_label());
                    lemma_enter_scope_unique(it.env, loop_label());
                    lemma_for_unique(variable, items, 0, *body, entered, depth);
                    lemma_leave_scope_unique(
                        for_spec(variable, items, 0, *body, entered, depth).env,
                    );
                },
                _ => {},
            }
        },
        _ => {},
    }
}

/// Evaluating a call keeps names unique.
proof fn lemma_call_node_unique(node: NodeView, env: EnvView, depth: nat)
    requires
        names_unique(env),
        node is FunctionCall || node is LambdaCall || node is MethodCall,
    ensures
        names_unique(eval_spec(node, env, depth).env),
    decreases depth, node, 0nat,
{
    match node {
        NodeView::FunctionCall { name, arguments, line, column } => match *arguments {
            NodeView::FunctionCallArgs { args, .. } => {
                lemma_call_unique(name, args, line, column, env, depth);
            },
            _ => {},
        },
        NodeView::LambdaCall { lambda, arguments, line, column } => {
            lemma_eval_unique(*lambda, env, depth);
            let l = eval_spec(*lambda, env, depth);
            match l.result {
                Ok(ValueView::Lambda { arguments: params, body, env: captured }) => {
                    lemma_invoke_lambda_unique(
                        params,
                        *body,
                        *captured,
                        arguments,
                        line,
                        column,
                        l.env,
                        depth,
                    );
                },
                _ => {},
            }
        },
        NodeView::MethodCall { method_name, caller, arguments, builtin, line, column } => {
            lemma_eval_unique(*caller, env, depth);
            let c = eval_spec(*caller, env, depth);
            match c.result {
                Ok(receiver) => {
                    lemma_method_unique(
                        method_name,
                        receiver,
                        arguments,
                        builtin,
                        line,
                        column,
                        c.env,
                        depth,
                    );
                },
                Err(_) => {},
            }
        },
        _ => {},
    }
}

/// A method call on an evaluated receiver keeps names unique.
pub proof fn lemma_method_unique(
    method_name: Seq<char>,
    receiver: ValueView,
    args: Seq<NodeView>,
    builtin: bool,
    line: usize,
    column: usize,
    env: EnvView,
    depth: nat,
)
    requires
        names_unique(env),
    ensures
        builtin ==> names_unique(
            builtin_method_call_spec(method_name, receiver, args, line, column, env, depth).env,
        ),
        !builtin ==> names_unique(
            method_call_spec(method_name, receiver, args, line, column, env, depth).env,
        ),
    decreases depth, args, args.len() + 2,
{
    if builtin {
        match env.get_builtin(method_name) {
            Some(b) => {
                lemma_invoke_builtin_unique(b, seq![receiver], args, line, column, env, depth);
            },
            None => {},
        }
    } else {
        match receiver {
            ValueView::StructInstance { name, .. } => match env.get_method(name, method_name) {
                Some(info) => {
                    lemma_invoke_unique(
                        info.arguments,
                        info.body,
                        method_name,
                        Some(receiver),
                        args,
                        line,
                        column,
                        env,
                        depth,
                    );
                },
                None => {},
            },
            _ => {},
        }
    }
}

/// Evaluating an instantiation, a field access or a field assignment keeps
/// names unique.
proof fn lemma_struct_unique(node: NodeView, env: EnvView, depth: nat)
    requires
        names_unique(env),
        node is StructInstance || node is StructFieldAccess || node is StructFieldAssign,
    ensures
        names_unique(eval_spec(node, env, depth).env),
    decreases depth, node, 0nat,
{
    match node {
        NodeView::StructInstance { name, fields, .. } => match schema_spec(name, fields, env) {
            Ok(_) => {
                lemma_fields_unique(fields, 0, Seq::empty(), env, depth);
            },
            Err(_) => {},
        },
        NodeView::StructFieldAccess { instance, .. } => {
            lemma_eval_unique(*instance, env, depth);
        },
        NodeView::StructFieldAssign { instance, field_name, value, .. } => {
            lemma_eval_unique(*instance, env, depth);
            let first = eval_spec(*instance, env, depth);
            lemma_eval_unique(*value, first.env, depth);
            match first.result {
                Ok(target) => {
                    let v = eval_spec(*value, first.env, depth);
                    match v.result {
                        Ok(assigned) => match *instance {
                            NodeView::Variable { name, .. } => {
                                lemma_set_unique(
                                    v.env,
                                    name,
                                    with_field(target, field_name, assigned),
                                    EnvVariableType::Mutable,
                                    ValueTypeView::Any,
                                    false,
                                );
                            },
                            _ => {},
                        },
                        Err(_) => {},
                    }
                },
                Err(_) => {},
            }
        },
        _ => {},
    }
}

/// Evaluating the statements of a block keeps names unique.
pub proof fn lemma_block_unique(nodes: Seq<NodeView>, i: nat, env: EnvView, depth: nat)
    requires
        names_unique(env),
    ensures
        names_unique(block_spec(nodes, i, env, depth).env),
    decreases depth, nodes, nodes.len() - i,
{
    if i < nodes.len() {
        lemma_eval_unique(nodes[i as int], env, depth);
        let s = eval_spec(nodes[i as int], env, depth);
        match s.result {
            Err(_) => {},
            Ok(ValueView::Return(_)) => {},
            Ok(_) => {
                lemma_block_unique(nodes, i + 1, s.env, depth);
            },
        }
    }
}

/// Evaluating a list of expressions keeps names unique.
pub proof fn lemma_list_unique(
    nodes: Seq<NodeView>,
    i: nat,
    acc: Seq<ValueView>,
    env: EnvView,
    depth: nat,
)
    requires
        names_unique(env),
    ensures
        names_unique(list_spec(nodes, i, acc, env, depth).env),
    decreases depth, nodes, nodes.len() - i,
{
    if i < nodes.len() {
        lemma_eval_unique(nodes[i as int], env, depth);
        let a = eval_spec(nodes[i as int], env, depth);
        match a.result {
            Err(_) => {},
            Ok(v) => {
                lemma_list_unique(nodes, i + 1, acc.push(v), a.env, depth);
            },
        }
    }
}

/// Evaluating and binding the arguments of a call keeps names unique.
pub proof fn lemma_bind_args_unique(
    params: Seq<NodeView>,
    args: Seq<NodeView>,
    i: nat,
    acc: Seq<ValueView>,
    env: EnvView,
    depth: nat,
)
    requires
        names_unique(env),
    ensures
        names_unique(bind_args_spec(params, args, i, acc, env, depth).env),
    decreases depth, args, args.len() - i,
{
    if i < args.len() {
        lemma_eval_unique(args[i as int], env, depth);
        let a = eval_spec(args[i as int], env, depth);
        match a.result {
            Err(_) => {},
            Ok(v) => {
                let slot = param_slot(params[i as int], v);
                lemma_declare_unique(a.env, slot);
                lemma_bind_args_unique(params, args, i + 1, acc.push(v), a.env.declare(slot), depth);
            },
        }
    }
}

/// Evaluating field initialisers keeps names unique.
pub proof fn lemma_fields_unique(
    inits: Seq<FieldInitView>,
    i: nat,
    acc: Seq<FieldValueView>,
    env: EnvView,
    depth: nat,
)
    requires
        names_unique(env),
    ensures
        names_unique(fields_spec(inits, i, acc, env, depth).env),
    decreases depth, inits, inits.len() - i,
{
    if i < inits.len() {
        lemma_eval_unique(inits[i as int].value, env, depth);
        let a = eval_spec(inits[i as int].value, env, depth);
        match a.result {
            Err(_) => {},
            Ok(v) => {
                let next = acc.push(FieldValueView { name: inits[i as int].name, value: v });
                lemma_fields_unique(inits, i + 1, next, a.env, depth);
            },
        }
    }
}

/// The iterations of a loop keep names unique.
pub proof fn lemma_for_unique(
    variable: Seq<char>,
    items: Seq<ValueView>,
    i: nat,
    body: NodeView,
    env: EnvView,
    depth: nat,
)
    requires
        names_unique(env),
    ensures
        names_unique(for_spec(variable, items, i, body, env, depth).env),
    decreases depth, body, items.len() - i + 2,
{
    if i < items.len() {
        let slot = SlotView {
            name: variable,
            value: items[i as int],
            variable_type: EnvVariableType::Immutable,
            value_type: ValueTypeView::Any,
        };
        lemma_declare_unique(env, slot);
        lemma_eval_unique(body, env.declare(slot), depth);
        let b = eval_spec(body, env.declare(slot), depth);
        match b.result {
            Err(_) => {},
            Ok(ValueView::Return(_)) => {},
            Ok(_) => {
                lemma_for_unique(variable, items, i + 1, body, b.env, depth);
            },
        }
    }
}

/// A call by name keeps names unique.
pub proof fn lemma_call_unique(
    name: Seq<char>,
    args: Seq<NodeView>,
    line: usize,
    column: usize,
    env: EnvView,
    depth: nat,
)
    requires
        names_unique(env),
    ensures
        names_unique(call_spec(name, args, line, column, env, depth).env),
    decreases depth, args, args.len() + 2,
{
    match env.get_function(name) {
        Some(info) => match info.builtin {
            Some(b) => lemma_invoke_builtin_unique(b, Seq::empty(), args, line, column, env, depth),
            None => lemma_invoke_unique(
                info.arguments,
                info.body,
                name,
                None,
                args,
                line,
                column,
                env,
                depth,
            ),
        },
        None => match env.get_builtin(name) {
            Some(b) => lemma_invoke_builtin_unique(b, Seq::empty(), args, line, column, env, depth),
            None => match env.get(name, Some(ValueTypeView::Lambda)) {
                Some(slot) => match slot.value {
                    ValueView::Lambda { arguments: params, body, env: captured } => {
                        lemma_invoke_lambda_unique(
                            params,
                            *body,
                            *captured,
                            args,
                            line,
                            column,
                            env,
                            depth,
                        );
                    },
                    _ => {},
                },
                None => {},
            },
        },
    }
}

/// A call of a builtin keeps names unique.
pub proof fn lemma_invoke_builtin_unique(
    builtin: Builtin,
    first: Seq<ValueView>,
    args: Seq<NodeView>,
    line: usize,
    column: usize,
    env: EnvView,
    depth: nat,
)
    requires
        names_unique(env),
    ensures
        names_unique(invoke_builtin_spec(builtin, first, args, line, column, env, depth).env),
    decreases depth, args, args.len() + 1,
{
    lemma_list_unique(args, 0, first, env, depth);
}

/// A call of a function or a method keeps names unique.
pub proof fn lemma_invoke_unique(
    params: Seq<NodeView>,
    body: Option<NodeView>,
    label: Seq<char>,
    receiver: Option<ValueView>,
    args: Seq<NodeView>,
    line: usize,
    column: usize,
    env: EnvView,
    depth: nat,
)
    requires
        names_unique(env),
    ensures
        names_unique(invoke_spec(params, body, label, receiver, args, line, column, env, depth).env),
    decreases depth, args, args.len() + 1,
{
    if args.len() == params.len() && all_variables(params) && body is Some && depth != 0 {
        let scope = receiver_scope(env, label, receiver);
        lemma_receiver_scope_unique(env, label, receiver);
        lemma_bind_args_unique(params, args, 0, Seq::empty(), scope, depth);
        let a = bind_args_spec(params, args, 0, Seq::empty(), scope, depth);
        match a.result {
            Err(_) => {
                lemma_leave_scope_unique(a.env);
            },
            Ok(_) => {
                lemma_eval_unique(body->0, a.env, (depth - 1) as nat);
                lemma_leave_scope_unique(eval_spec(body->0, a.env, (depth - 1) as nat).env);
            },
        }
    }
}

/// A call of a lambda keeps names unique.
pub proof fn lemma_invoke_lambda_unique(
    params: Seq<NodeView>,
    body: NodeView,
    captured: EnvView,
    args: Seq<NodeView>,
    line: usize,
    column: usize,
    env: EnvView,
    depth: nat,
)
    requires
        names_unique(env),
    ensures
        names_unique(
            invoke_lambda_spec(params, body, captured, args, line, column, env, depth).env,
        ),
    decreases depth, args, args.len() + 1,
{
    if args.len() == params.len() && all_variables(params) && depth != 0 {
        let scope = env.enter_scope(lambda_label());
        lemma_enter_scope_unique(env, lambda_label());
        lemma_bind_args_unique(params, args, 0, Seq::empty(), scope, depth);
        let a = bind_args_spec(params, args, 0, Seq::empty(), scope, depth);
        lemma_leave_scope_unique(a.env);
        let caller = a.env.leave_scope_merging();
        match a.result {
            Err(_) => {},
            Ok(values) => {
                let b = eval_spec(
                    body,
                    crate::semantics::call_scope(captured, lambda_label(), None, params, values),
                    (depth - 1) as nat,
                );
                law_merge_keeps_names_unique(caller, b.env);
            },
        }
    }
}

} // verus!
