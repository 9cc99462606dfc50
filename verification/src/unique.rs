//! Names are unique: a frame binds a name at most once, and a table has at
//! most one entry under a key. Declaring and registering keep it so.

use crate::ast::FieldDefView;

use crate::environment::{
    Builtin, BuiltinEntryView, EnvView, FrameView, FunctionInfoView, MethodInfoView, ModuleView,
    NamedFunctionView, SlotView, StructInfoView,
};
use crate::scopes::slot_named;

use crate::search::{first_index, lemma_first_index_is_first};
use crate::shape::{kept_all, lemma_merge_keeps, same_shape};
use crate::tables::{
    builtin_named, function_named, method_named, module_named, replace_or_push, struct_named,
};
use crate::value::ValueView;

use vstd::prelude::*;

verus! {

/// No two entries have the same key.
pub open spec fn distinct<T, K>(items: Seq<T>, key: spec_fn(T) -> K) -> bool {
    forall|i: int, j: int| 0 <= i < j < items.len() ==> key(items[i]) != key(items[j])
}

/// The name of a binding.
pub open spec fn slot_name() -> spec_fn(SlotView) -> Seq<char> {
    |s: SlotView| s.name
}

/// The name of a function entry.
pub open spec fn function_name() -> spec_fn(NamedFunctionView) -> Seq<char> {
    |f: NamedFunctionView| f.name
}

/// The name of a struct entry.
pub open spec fn struct_name() -> spec_fn(StructInfoView) -> Seq<char> {
    |s: StructInfoView| s.name
}

/// The struct name and the method name of a method entry.
pub open spec fn method_key() -> spec_fn(MethodInfoView) -> (Seq<char>, Seq<char>) {
    |m: MethodInfoView| (m.struct_name, m.method_name)
}

/// The name of a builtin entry.
pub open spec fn builtin_name() -> spec_fn(BuiltinEntryView) -> Seq<char> {
    |b: BuiltinEntryView| b.name
}

/// The name of a module.
pub open spec fn module_name() -> spec_fn(ModuleView) -> Seq<char> {
    |m: ModuleView| m.name
}

/// Every frame binds each name at most once.
pub open spec fn frames_unique(env: EnvView) -> bool {
    forall|k: int| 0 <= k < env.frames.len() ==> distinct(
        (#[trigger] env.frames[k]).variables,
        slot_name(),
    )
}

/// Every table has at most one entry under each key.
pub open spec fn tables_unique(env: EnvView) -> bool {
    &&& distinct(env.functions, function_name())
    &&& distinct(env.structs, struct_name())
    &&& distinct(env.methods, method_key())
    &&& distinct(env.builtins, builtin_name())
    &&& distinct(env.modules, module_name())
}

/// Putting an entry in place of the one with its key, or at the end where
/// there is none, keeps the keys distinct.
pub proof fn lemma_replace_or_push_distinct<T, K>(
    items: Seq<T>,
    pred: spec_fn(T) -> bool,
    item: T,
    key: spec_fn(T) -> K,
)
    requires
        distinct(items, key),
        forall|x: T| #[trigger] pred(x) == (key(x) == key(item)),
    ensures
        distinct(replace_or_push(items, pred, item), key),
{
    let after = replace_or_push(items, pred, item);
    lemma_first_index_is_first(items, pred);
    assert forall|i: int, j: int| 0 <= i < j < after.len() implies key(after[i]) != key(
        after[j],
    ) by {
        match first_index(items, pred) {
            Some(at) => {
                assert(pred(items[at]));
                if i == at {
                    assert(after[j] == items[j]);
                    assert(key(items[at]) != key(items[j]));
                } else if j == at {
                    assert(after[i] == items[i]);
                    assert(key(items[i]) != key(items[at]));
                } else {
                    assert(after[i] == items[i] && after[j] == items[j]);
                }
            },
            None => {
                assert(after[i] == items[i]);
                assert(!pred(items[i]));
                if j < items.len() {
                    assert(after[j] == items[j]);
                } else {
                    assert(after[j] == item);
                }
            },
        }
    }
}

/// A frame that binds each name at most once still does so after a binding
/// was put into it.
pub proof fn law_put_keeps_names_unique(frame: FrameView, slot: SlotView)
    requires
        distinct(frame.variables, slot_name()),
    ensures
        distinct(frame.put(slot).variables, slot_name()),
{
    assert forall|x: SlotView| #[trigger] slot_named(slot.name)(x) == (slot_name()(x) == slot_name()(
        slot,
    )) by {}
    lemma_replace_or_push_distinct(frame.variables, slot_named(slot.name), slot, slot_name());
    assert(frame.put(slot).variables == replace_or_push(
        frame.variables,
        slot_named(slot.name),
        slot,
    ));
}

/// Frames of the same shape bind the same names, so one binds each name at
/// most once where the other does.
pub proof fn lemma_shape_keeps_unique(a: FrameView, b: FrameView)
    requires
        same_shape(a, b),
        distinct(a.variables, slot_name()),
    ensures
        distinct(b.variables, slot_name()),
{
    assert forall|i: int, j: int| 0 <= i < j < b.variables.len() implies slot_name()(
        b.variables[i],
    ) != slot_name()(b.variables[j]) by {
        assert(a.variables[i].name == b.variables[i].name);
        assert(a.variables[j].name == b.variables[j].name);
        assert(slot_name()(a.variables[i]) != slot_name()(a.variables[j]));
    }
}

/// Declaring a variable keeps the names of every frame unique.
pub proof fn law_declare_keeps_names_unique(env: EnvView, slot: SlotView)
    requires
        frames_unique(env),
    ensures
        frames_unique(env.declare(slot)),
{
    let after = env.declare(slot);
    if env.frames.len() == 0 {
        assert(after.frames[0].variables =~= seq![slot]);
    } else {
        let top = env.frames.len() - 1;
        law_put_keeps_names_unique(env.frames[top], slot);
        assert forall|k: int| 0 <= k < after.frames.len() implies distinct(
            (#[trigger] after.frames[k]).variables,
            slot_name(),
        ) by {
            if k != top {
                assert(after.frames[k] == env.frames[k]);
            }
        }
    }
}

/// Declaring or reassigning a variable keeps the names of every frame
/// unique.
pub proof fn law_set_keeps_names_unique(
    env: EnvView,
    name: Seq<char>,
    value: ValueView,
    variable_type: crate::environment::EnvVariableType,
    value_type: crate::value::ValueTypeView,
    is_new: bool,
)
    requires
        frames_unique(env),
    ensures
        env.set(name, value, variable_type, value_type, is_new) matches Ok(after) ==> frames_unique(
            after,
        ),
{
    match env.set(name, value, variable_type, value_type, is_new) {
        Ok(after) => {
            let slot = choose|slot: SlotView| after == env.declare(slot);
            law_declare_keeps_names_unique(env, slot);
        },
        Err(_) => {},
    }
}

/// Handing bindings down leaves the tables as they are.
pub proof fn lemma_merge_keeps_tables(env: EnvView, vars: Seq<SlotView>, n: nat)
    ensures
        env.merge(vars, n).functions == env.functions,
        env.merge(vars, n).structs == env.structs,
        env.merge(vars, n).methods == env.methods,
        env.merge(vars, n).builtins == env.builtins,
        env.merge(vars, n).modules == env.modules,
    decreases n,
{
    if n > 0 {
        lemma_merge_keeps_tables(env, vars, (n - 1) as nat);
    }
}

/// The merge that ends a call keeps the names of every frame unique, and
/// leaves the tables as they are.
pub proof fn law_merge_keeps_names_unique(env: EnvView, child: EnvView)
    requires
        frames_unique(env),
    ensures
        frames_unique(env.update_global_env(child)),
        tables_unique(env) ==> tables_unique(env.update_global_env(child)),
{
    let after = env.update_global_env(child);
    if child.frames.len() > 0 {
        lemma_merge_keeps_tables(
            env,
            child.frames.last().variables,
            child.frames.last().variables.len(),
        );
        lemma_merge_keeps(
            env,
            child.frames.last().variables,
            child.frames.last().variables.len(),
        );
    }
    assert(kept_all(env, after));
    assert forall|k: int| 0 <= k < after.frames.len() implies distinct(
        (#[trigger] after.frames[k]).variables,
        slot_name(),
    ) by {
        assert(same_shape(env.frames[k], after.frames[k]));
        lemma_shape_keeps_unique(env.frames[k], after.frames[k]);
    }
}

/// Registering a function keeps the names of the function table unique.
pub proof fn law_register_function_keeps_names_unique(
    env: EnvView,
    name: Seq<char>,
    info: FunctionInfoView,
)
    requires
        distinct(env.functions, function_name()),
    ensures
        distinct(env.register_function(name, info).functions, function_name()),
{
    let entry = NamedFunctionView { name, info };
    assert forall|x: NamedFunctionView| #[trigger] function_named(name)(x) == (function_name()(x)
        == function_name()(entry)) by {}
    lemma_replace_or_push_distinct(env.functions, function_named(name), entry, function_name());
}

/// Registering a struct keeps the names of the struct table unique.
pub proof fn law_register_struct_keeps_names_unique(
    env: EnvView,
    name: Seq<char>,
    fields: Seq<FieldDefView>,
)
    requires
        distinct(env.structs, struct_name()),
    ensures
        distinct(env.register_struct(name, fields).structs, struct_name()),
{
    let entry = StructInfoView { name, fields };
    assert forall|x: StructInfoView| #[trigger] struct_named(name)(x) == (struct_name()(x)
        == struct_name()(entry)) by {}
    lemma_replace_or_push_distinct(env.structs, struct_named(name), entry, struct_name());
}

/// Registering a method keeps the keys of the method table unique.
pub proof fn law_register_method_keeps_names_unique(
    env: EnvView,
    struct_name: Seq<char>,
    method_name: Seq<char>,
    info: FunctionInfoView,
)
    requires
        distinct(env.methods, method_key()),
    ensures
        distinct(env.register_method(struct_name, method_name, info).methods, method_key()),
{
    let entry = MethodInfoView { struct_name, method_name, info };
    assert forall|x: MethodInfoView| #[trigger] method_named(struct_name, method_name)(x) == (
    method_key()(x) == method_key()(entry)) by {}
    lemma_replace_or_push_distinct(
        env.methods,
        method_named(struct_name, method_name),
        entry,
        method_key(),
    );
}

/// Registering a builtin keeps the names of the builtin registry unique.
pub proof fn law_register_builtin_keeps_names_unique(env: EnvView, name: Seq<char>, builtin: Builtin)
    requires
        distinct(env.builtins, builtin_name()),
    ensures
        distinct(env.register_builtin(name, builtin).builtins, builtin_name()),
{
    let entry = BuiltinEntryView { name, builtin };
    assert forall|x: BuiltinEntryView| #[trigger] builtin_named(name)(x) == (builtin_name()(x)
        == builtin_name()(entry)) by {}
    lemma_replace_or_push_distinct(env.builtins, builtin_named(name), entry, builtin_name());
}

/// Registering a module keeps the names of the module table unique.
pub proof fn law_register_module_keeps_names_unique(env: EnvView, module: ModuleView)
    requires
        distinct(env.modules, module_name()),
    ensures
        distinct(env.register_module(module).modules, module_name()),
{
    assert forall|x: ModuleView| #[trigger] module_named(module.name)(x) == (module_name()(x)
        == module_name()(module)) by {}
    lemma_replace_or_push_distinct(env.modules, module_named(module.name), module, module_name());
}

/// A new environment has unique names.
pub proof fn law_fresh_names_unique()
    ensures
        frames_unique(EnvView::fresh()),
        tables_unique(EnvView::fresh()),
{
}

} // verus!
