//! What holds of the language as a whole.

use crate::ast::NodeView;

use crate::environment::{EnvVariableType, EnvView, FunctionInfoView, SlotView};
use crate::error::RuntimeErrorKind;

use crate::parsers::grammar::{parse_return_type_spec, ParserView};
use crate::scopes::lemma_declare_lookup;

use crate::shape::{kept_all, kept_outer, lemma_merge_keeps, lemma_shape_keeps_unbound};
use crate::shape_eval::{lemma_eval_keeps, lemma_invoke_keeps, lemma_invoke_lambda_keeps};
use crate::semantics::{
    all_variables, arity_found, bind_args_spec, call_result, call_spec, done, eval_spec, fail,
    field_access_spec, field_value_named, for_spec, invoke_builtin_spec, invoke_lambda_spec,
    invoke_spec, lambda_label, loop_label, method_call_spec, receiver_scope, with_field,
};
use crate::tables::{
    builtin_arity, lemma_replace_or_push_other, lemma_replace_or_push_same, method_named,
    replace_or_push,
};
use crate::environment::{Builtin, MethodInfoView};
use crate::search::{first_index, lemma_first_index_is_first};
use crate::unique_eval::{lemma_eval_unique, names_unique};
use crate::value::{FieldValueView, ValueTypeView, ValueView};
use vstd::prelude::*;

verus! {

/// A variable that was declared immutable cannot be reassigned: the
/// reassignment fails with `ReassignImmutable`, whatever value, mutability
/// or type it gives.
pub proof fn law_immutable_is_not_reassigned(
    env: EnvView,
    name: Seq<char>,
    first: ValueView,
    first_type: ValueTypeView,
    second: ValueView,
    second_mutability: EnvVariableType,
    second_type: ValueTypeView,
)
    ensures
        env.set(name, first, EnvVariableType::Immutable, first_type, true) matches Ok(declared)
            && declared.set(name, second, second_mutability, second_type, false) == Err::<
            EnvView,
            RuntimeErrorKind,
        >(RuntimeErrorKind::ReassignImmutable),
{
    lemma_declare_lookup(
        env,
        SlotView {
            name,
            value: first,
            variable_type: EnvVariableType::Immutable,
            value_type: first_type,
        },
    );
}

/// A variable that was declared mutable can be reassigned: the
/// reassignment succeeds, and a lookup then finds the new value, still
/// mutable and of the declared type.
pub proof fn law_mutable_is_reassigned(
    env: EnvView,
    name: Seq<char>,
    first: ValueView,
    first_type: ValueTypeView,
    second: ValueView,
    second_mutability: EnvVariableType,
    second_type: ValueTypeView,
)
    ensures
        env.set(name, first, EnvVariableType::Mutable, first_type, true) matches Ok(declared)
            && declared.set(name, second, second_mutability, second_type, false) matches Ok(
            reassigned,
        ) && reassigned.lookup(name) == Some(
            SlotView {
                name,
                value: second,
                variable_type: EnvVariableType::Mutable,
                value_type: first_type,
            },
        ),
{
    let slot = SlotView {
        name,
        value: first,
        variable_type: EnvVariableType::Mutable,
        value_type: first_type,
    };
    lemma_declare_lookup(env, slot);
    lemma_declare_lookup(
        env.declare(slot),
        SlotView {
            name,
            value: second,
            variable_type: EnvVariableType::Mutable,
            value_type: first_type,
        },
    );
}

/// A call of a function or a method with another number of arguments than
/// it has parameters fails with `ArityMismatch`, whatever the arguments
/// are: none of them is evaluated, and the environment stays as it was.
pub proof fn law_function_arity(
    params: Seq<NodeView>,
    body: Option<NodeView>,
    label: Seq<char>,
    receiver: Option<ValueView>,
    args: Seq<NodeView>,
    line: usize,
    column: usize,
    env: EnvView,
    depth: nat,
)
    requires
        args.len() != params.len(),
    ensures
        invoke_spec(params, body, label, receiver, args, line, column, env, depth) == fail(
            RuntimeErrorKind::ArityMismatch {
                expected: params.len() as usize,
                found: args.len() as usize,
            },
            line,
            column,
            env,
        ),
{
}

/// A call by name of a registered function with another number of
/// arguments than it has parameters fails with `ArityMismatch`.
pub proof fn law_call_arity(
    name: Seq<char>,
    args: Seq<NodeView>,
    line: usize,
    column: usize,
    env: EnvView,
    depth: nat,
)
    requires
        env.get_function(name) matches Some(info) && info.builtin is None && info.arguments.len()
            != args.len(),
    ensures
        call_spec(name, args, line, column, env, depth).result matches Err(e) && e.kind
            is ArityMismatch && e.line == line && e.column == column,
        call_spec(name, args, line, column, env, depth).env == env,
{
}

/// A call of a lambda with another number of arguments than it has
/// parameters fails with `ArityMismatch`, whatever the arguments are.
pub proof fn law_lambda_arity(
    params: Seq<NodeView>,
    body: NodeView,
    captured: EnvView,
    args: Seq<NodeView>,
    line: usize,
    column: usize,
    env: EnvView,
    depth: nat,
)
    requires
        args.len() != params.len(),
    ensures
        invoke_lambda_spec(params, body, captured, args, line, column, env, depth) == fail(
            RuntimeErrorKind::ArityMismatch {
                expected: params.len() as usize,
                found: args.len() as usize,
            },
            line,
            column,
            env,
        ),
{
}

/// A call of a builtin with another number of arguments than its arity
/// fails with `ArityMismatch`, whatever the arguments are.
pub proof fn law_builtin_arity(
    builtin: Builtin,
    first: Seq<ValueView>,
    args: Seq<NodeView>,
    line: usize,
    column: usize,
    env: EnvView,
    depth: nat,
)
    requires
        first.len() + args.len() != builtin_arity(builtin),
    ensures
        invoke_builtin_spec(builtin, first, args, line, column, env, depth) == fail(
            RuntimeErrorKind::ArityMismatch {
                expected: builtin_arity(builtin) as usize,
                found: arity_found(first.len(), args.len()),
            },
            line,
            column,
            env,
        ),
{
}

/// What a lambda observes is fixed when it is created. The body of a call
/// runs in a scope on the captured environment, so two calls of one lambda
/// whose arguments have the same values give the same result, whatever has
/// happened to the environments they are made from.
pub proof fn law_lambda_capture_is_fixed(
    params: Seq<NodeView>,
    body: NodeView,
    captured: EnvView,
    args: Seq<NodeView>,
    line: usize,
    column: usize,
    here: EnvView,
    there: EnvView,
    depth: nat,
)
    requires
        bind_args_spec(
            params,
            args,
            0,
            Seq::empty(),
            here.enter_scope(lambda_label()),
            depth,
        ).result == bind_args_spec(
            params,
            args,
            0,
            Seq::empty(),
            there.enter_scope(lambda_label()),
            depth,
        ).result,
    ensures
        invoke_lambda_spec(params, body, captured, args, line, column, here, depth).result
            == invoke_lambda_spec(params, body, captured, args, line, column, there, depth).result,
{
}

/// A method is found by the struct it was registered for: registering a
/// method for one struct leaves the methods of every other struct as they
/// were, also those of the same name.
pub proof fn law_method_dispatch(
    env: EnvView,
    one: Seq<char>,
    other: Seq<char>,
    method_name: Seq<char>,
    info: FunctionInfoView,
)
    requires
        one != other,
    ensures
        env.register_method(one, method_name, info).get_method(one, method_name) == Some(info),
        env.register_method(one, method_name, info).get_method(other, method_name)
            == env.get_method(other, method_name),
{
    let entry = MethodInfoView { struct_name: one, method_name, info };
    lemma_replace_or_push_same(env.methods, method_named(one, method_name), entry);
    lemma_replace_or_push_other(
        env.methods,
        method_named(one, method_name),
        entry,
        method_named(other, method_name),
    );
}

/// A method call runs the method of the receiver's own struct: in an
/// environment where another struct got a method of the same name, the
/// call is the call of the receiver's method.
pub proof fn law_method_call_by_receiver(
    env: EnvView,
    other: Seq<char>,
    method_name: Seq<char>,
    info: FunctionInfoView,
    receiver: ValueView,
    args: Seq<NodeView>,
    line: usize,
    column: usize,
    depth: nat,
)
    requires
        receiver matches ValueView::StructInstance { name, .. } && name != other,
        env.get_method(receiver->StructInstance_name, method_name) matches Some(_),
    ensures
        method_call_spec(
            method_name,
            receiver,
            args,
            line,
            column,
            env.register_method(other, method_name, info),
            depth,
        ) == invoke_spec(
            env.get_method(receiver->StructInstance_name, method_name)->0.arguments,
            env.get_method(receiver->StructInstance_name, method_name)->0.body,
            method_name,
            Some(receiver),
            args,
            line,
            column,
            env.register_method(other, method_name, info),
            depth,
        ),
{
    law_method_dispatch(env, other, receiver->StructInstance_name, method_name, info);
}

/// A loop over no items evaluates its body not once: it evaluates to
/// `Void` and leaves the environment as it was, whatever the body is.
pub proof fn law_for_over_nothing(
    variable: Seq<char>,
    body: NodeView,
    line: usize,
    column: usize,
    env: EnvView,
    depth: nat,
)
    requires
        env.frames.len() >= 1,
    ensures
        eval_spec(
            NodeView::For {
                variable,
                iterable: Box::new(
                    NodeView::Literal { value: ValueView::List(Seq::empty()), line, column },
                ),
                body: Box::new(body),
                line,
                column,
            },
            env,
            depth,
        ) == done(ValueView::Void, env),
{
    reveal_with_fuel(eval_spec, 2);
    let entered = env.enter_scope(loop_label());
    assert(entered.frames.drop_last() =~= env.frames);
    assert(entered.leave_scope() == env);
    assert(entered.frames.last().variables.len() == 0);
    assert(entered.leave_scope_merging() == env);
    assert(for_spec(variable, Seq::empty(), 0, body, entered, depth) == done(ValueView::Void, entered));
}

/// A loop whose body evaluates to a `Return` sentinel ends at once with
/// that sentinel: the items after the current one play no part.
pub proof fn law_for_return(
    variable: Seq<char>,
    items: Seq<ValueView>,
    i: nat,
    body: NodeView,
    env: EnvView,
    depth: nat,
)
    requires
        i < items.len(),
        eval_spec(
            body,
            env.declare(
                SlotView {
                    name: variable,
                    value: items[i as int],
                    variable_type: EnvVariableType::Immutable,
                    value_type: ValueTypeView::Any,
                },
            ),
            depth,
        ).result matches Ok(ValueView::Return(_)),
    ensures
        for_spec(variable, items, i, body, env, depth) == eval_spec(
            body,
            env.declare(
                SlotView {
                    name: variable,
                    value: items[i as int],
                    variable_type: EnvVariableType::Immutable,
                    value_type: ValueTypeView::Any,
                },
            ),
            depth,
        ),
{
}

/// What a call of a function or a method declares stays in the call,
/// however the call ends. Every frame of the caller has, after the call,
/// the bindings it had before it, in the same order, with the same
/// mutability and declared type: only values may have changed. So a name
/// that was unbound before the call is unbound after it, whether an
/// argument, the binding of a parameter or the body declared it.
pub proof fn law_function_call_keeps_caller(
    params: Seq<NodeView>,
    body: Option<NodeView>,
    label: Seq<char>,
    receiver: Option<ValueView>,
    args: Seq<NodeView>,
    line: usize,
    column: usize,
    env: EnvView,
    depth: nat,
    name: Seq<char>,
)
    requires
        env.frames.len() >= 1,
    ensures
        kept_all(
            env,
            invoke_spec(params, body, label, receiver, args, line, column, env, depth).env,
        ),
        env.lookup(name) is None ==> invoke_spec(
            params,
            body,
            label,
            receiver,
            args,
            line,
            column,
            env,
            depth,
        ).env.lookup(name) is None,
{
    lemma_invoke_keeps(params, body, label, receiver, args, line, column, env, depth);
    if env.lookup(name) is None {
        lemma_shape_keeps_unbound(
            env,
            invoke_spec(params, body, label, receiver, args, line, column, env, depth).env,
            name,
        );
    }
}

/// What a call of a lambda declares stays in the call, however the call
/// ends: the caller's frames keep their bindings but for the values, and a
/// name that was unbound before the call is unbound after it.
pub proof fn law_lambda_call_keeps_caller(
    params: Seq<NodeView>,
    body: NodeView,
    captured: EnvView,
    args: Seq<NodeView>,
    line: usize,
    column: usize,
    env: EnvView,
    depth: nat,
    name: Seq<char>,
)
    requires
        env.frames.len() >= 1,
    ensures
        kept_all(
            env,
            invoke_lambda_spec(params, body, captured, args, line, column, env, depth).env,
        ),
        env.lookup(name) is None ==> invoke_lambda_spec(
            params,
            body,
            captured,
            args,
            line,
            column,
            env,
            depth,
        ).env.lookup(name) is None,
{
    lemma_invoke_lambda_keeps(params, body, captured, args, line, column, env, depth);
    if env.lookup(name) is None {
        lemma_shape_keeps_unbound(
            env,
            invoke_lambda_spec(params, body, captured, args, line, column, env, depth).env,
            name,
        );
    }
}

/// A call by name of a function or of a lambda leaves no name behind: the
/// caller's frames are as many as before and keep their bindings but for
/// the values, and a name that was unbound before the call is unbound
/// after it. This holds of every call by name but that of a builtin, whose
/// arguments are evaluated in the caller's own scope.
pub proof fn law_locals_do_not_leak(
    callee: Seq<char>,
    args: Seq<NodeView>,
    line: usize,
    column: usize,
    env: EnvView,
    depth: nat,
    name: Seq<char>,
)
    requires
        env.frames.len() >= 1,
        env.get_function(callee) matches Some(info) ==> info.builtin is None,
        env.get_function(callee) is None ==> env.get_builtin(callee) is None,
    ensures
        kept_all(env, call_spec(callee, args, line, column, env, depth).env),
        call_spec(callee, args, line, column, env, depth).env.frames.len() == env.frames.len(),
        env.lookup(name) is None ==> call_spec(callee, args, line, column, env, depth).env.lookup(
            name,
        ) is None,
{
    match env.get_function(callee) {
        Some(info) => {
            lemma_invoke_keeps(
                info.arguments,
                info.body,
                callee,
                None,
                args,
                line,
                column,
                env,
                depth,
            );
        },
        None => match env.get(callee, Some(ValueTypeView::Lambda)) {
            Some(slot) => match slot.value {
                ValueView::Lambda { arguments: params, body, env: captured } => {
                    lemma_invoke_lambda_keeps(
                        params,
                        *body,
                        *captured,
                        args,
                        line,
                        column,
                        env,
                        depth,
                    );
                },
                _ => {},
            },
            None => {},
        },
    }
    if env.lookup(name) is None {
        lemma_shape_keeps_unbound(
            env,
            call_spec(callee, args, line, column, env, depth).env,
            name,
        );
    }
}

/// What a lambda declares stays in the lambda. The merge that ends a call
/// of a lambda hands values down into the caller's bindings and adds none:
/// a name that was unbound before the merge is unbound after it.
pub proof fn law_lambda_locals_do_not_leak(env: EnvView, child: EnvView, name: Seq<char>)
    ensures
        kept_all(env, env.update_global_env(child)),
        env.lookup(name) is None ==> env.update_global_env(child).lookup(name) is None,
{
    if child.frames.len() > 0 {
        lemma_merge_keeps(
            env,
            child.frames.last().variables,
            child.frames.last().variables.len(),
        );
    }
    if env.lookup(name) is None {
        lemma_shape_keeps_unbound(env, env.update_global_env(child), name);
    }
}

/// Evaluation never changes how many frames there are, nor the bindings of
/// any frame but the innermost one but for their values.
pub proof fn law_evaluation_keeps_outer_frames(node: NodeView, env: EnvView, depth: nat)
    requires
        env.frames.len() >= 1,
    ensures
        kept_outer(env, eval_spec(node, env, depth).env),
{
    lemma_eval_keeps(node, env, depth);
}

/// A method call runs the body of the method that is registered for the
/// receiver's own struct, whatever other structs have a method of the same
/// name. Where calls may nest one level deeper, the number of arguments is
/// right and the arguments evaluate, the call gives what that body gives,
/// run in the scope of the call, without its `Return` sentinel.
pub proof fn law_method_call_runs_the_receivers_method(
    env: EnvView,
    other: Seq<char>,
    method_name: Seq<char>,
    other_info: FunctionInfoView,
    receiver: ValueView,
    args: Seq<NodeView>,
    line: usize,
    column: usize,
    depth: nat,
)
    requires
        receiver matches ValueView::StructInstance { name, .. } && name != other,
        env.get_method(receiver->StructInstance_name, method_name) matches Some(info)
            && info.arguments.len() == args.len() && all_variables(info.arguments) && info.body
            is Some,
        depth > 0,
    ensures
        ({
            let info = env.get_method(receiver->StructInstance_name, method_name)->0;
            let registered = env.register_method(other, method_name, other_info);
            let bound = bind_args_spec(
                info.arguments,
                args,
                0,
                Seq::empty(),
                receiver_scope(registered, method_name, Some(receiver)),
                depth,
            );
            bound.result is Ok ==> method_call_spec(
                method_name,
                receiver,
                args,
                line,
                column,
                registered,
                depth,
            ).result == call_result(eval_spec(info.body->0, bound.env, (depth - 1) as nat).result)
        }),
{
    law_method_dispatch(env, other, receiver->StructInstance_name, method_name, other_info);
}

/// A field that was assigned is read back, and nothing else changes: the
/// instance keeps its name, its fields keep their names and their order,
/// and every other field keeps its value.
pub proof fn law_field_round_trip(
    instance: ValueView,
    field_name: Seq<char>,
    value: ValueView,
    other: Seq<char>,
)
    requires
        instance is StructInstance,
        field_access_spec(instance, field_name) is Ok,
    ensures
        field_access_spec(with_field(instance, field_name, value), field_name) == Ok::<
            ValueView,
            RuntimeErrorKind,
        >(value),
        other != field_name ==> field_access_spec(with_field(instance, field_name, value), other)
            == field_access_spec(instance, other),
        with_field(instance, field_name, value) matches ValueView::StructInstance { name, fields }
            && name == instance->StructInstance_name && fields.len()
            == instance->StructInstance_fields.len() && forall|i: int|
            0 <= i < fields.len() ==> (#[trigger] fields[i]).name
                == instance->StructInstance_fields[i].name,
{
    let fields = instance->StructInstance_fields;
    let pred = field_value_named(field_name);
    let entry = FieldValueView { name: field_name, value };
    lemma_first_index_is_first(fields, pred);
    let at = first_index(fields, pred)->0;
    assert(replace_or_push(fields, pred, entry) == fields.update(at, entry));
    lemma_replace_or_push_same(fields, pred, entry);
    if other != field_name {
        assert forall|x: FieldValueView| #[trigger] pred(x) implies !field_value_named(other)(x) by {}
        lemma_replace_or_push_other(fields, pred, entry, field_value_named(other));
    }
    let after = fields.update(at, entry);
    assert forall|i: int| 0 <= i < after.len() implies (#[trigger] after[i]).name
        == fields[i].name by {
        if i == at {
            assert(pred(fields[at]));
        }
    }
}

/// A parametrised return type that lacks one of its tokens means `Void`.
/// `Option` and `List` are followed by `<`, a type name and `>`; `Result`
/// by `<`, a type name, a comma, a type name and `>`. Where one of them is
/// absent, the return type is `Void`.
pub proof fn law_malformed_return_type_is_void(s: ParserView)
    requires
        s.kind() is Colon,
    ensures
        ({
            let after = s.advance().advance();
            let one = after.kind() is Lt && after.advance().kind() is Identifier
                && after.advance().advance().kind() is Gt;
            let two = after.kind() is Lt && after.advance().kind() is Identifier
                && after.advance().advance().kind() is Comma
                && after.advance().advance().advance().kind() is Identifier
                && after.advance().advance().advance().advance().kind() is Gt;
            &&& (s.advance().kind() is Option && !one) ==> parse_return_type_spec(s).0 is Void
            &&& (s.advance().kind() is List && !one) ==> parse_return_type_spec(s).0 is Void
            &&& (s.advance().kind() is Result && !two) ==> parse_return_type_spec(s).0 is Void
            &&& (s.advance().kind() is Option && one) ==> parse_return_type_spec(s).0 is OptionType
            &&& (s.advance().kind() is List && one) ==> parse_return_type_spec(s).0 is List
            &&& (s.advance().kind() is Result && two) ==> parse_return_type_spec(s).0 is ResultType
        }),
{
    reveal(parse_return_type_spec);
}

/// Names stay unique. In an environment whose frames bind each name at
/// most once and whose tables have at most one entry under each key,
/// evaluation of any node, however it ends, leaves an environment of that
/// kind. A new environment is of that kind.
pub proof fn law_evaluation_keeps_names_unique(node: NodeView, env: EnvView, depth: nat)
    requires
        names_unique(env),
    ensures
        names_unique(eval_spec(node, env, depth).env),
        names_unique(EnvView::fresh()),
{
    lemma_eval_unique(node, env, depth);
}

} // verus!
