//! What evaluation cannot change: the names of the frames that lie below
//! the innermost one.
//!
//! Evaluation declares names in the innermost frame only, and the end of a
//! scope hands values down without adding or removing a binding. So a call
//! leaves the caller's frames with the bindings they had, in the order they
//! had, with the mutability and the declared type they had: only values
//! change.

use crate::ast::NodeView;

use crate::environment::{EnvView, FrameView, ModuleView, SlotView};
use crate::scopes::{frame_binds, slot_named};
use crate::search::{
    last_index, lemma_first_index_is_first, lemma_first_index_none, lemma_last_index_is_last,
    lemma_last_index_none,
};
use crate::semantics::{import_symbol, import_symbols, receiver_scope, register_methods};
use crate::value::ValueView;

use vstd::prelude::*;

verus! {

/// Two frames have the same label and the same bindings but for their
/// values.
pub open spec fn same_shape(a: FrameView, b: FrameView) -> bool {
    &&& a.label == b.label
    &&& a.variables.len() == b.variables.len()
    &&& forall|i: int|
        0 <= i < a.variables.len() ==> {
            &&& (#[trigger] a.variables[i]).name == b.variables[i].name
            &&& a.variables[i].variable_type == b.variables[i].variable_type
            &&& a.variables[i].value_type == b.variables[i].value_type
        }
}

/// Two environments have as many frames, and the first `k` of them have
/// the same shape.
pub open spec fn kept_below(a: EnvView, b: EnvView, k: int) -> bool {
    &&& a.frames.len() == b.frames.len()
    &&& forall|i: int| 0 <= i < k ==> same_shape(#[trigger] a.frames[i], b.frames[i])
}

/// Two environments have as many frames, and all but the innermost have
/// the same shape.
pub open spec fn kept_outer(a: EnvView, b: EnvView) -> bool {
    kept_below(a, b, a.frames.len() - 1)
}

/// Two environments have as many frames, and all have the same shape.
pub open spec fn kept_all(a: EnvView, b: EnvView) -> bool {
    kept_below(a, b, a.frames.len() as int)
}

/// Having the same shape is transitive.
pub proof fn lemma_shape_trans(a: FrameView, b: FrameView, c: FrameView)
    requires
        same_shape(a, b),
        same_shape(b, c),
    ensures
        same_shape(a, c),
{
    assert forall|i: int| 0 <= i < a.variables.len() implies {
        &&& (#[trigger] a.variables[i]).name == c.variables[i].name
        &&& a.variables[i].variable_type == c.variables[i].variable_type
        &&& a.variables[i].value_type == c.variables[i].value_type
    } by {
        assert(a.variables[i].name == b.variables[i].name);
        assert(b.variables[i].name == c.variables[i].name);
    }
}

/// Keeping the first `k` frames is transitive.
pub proof fn lemma_kept_trans(a: EnvView, b: EnvView, c: EnvView, k: int)
    requires
        kept_below(a, b, k),
        kept_below(b, c, k),
    ensures
        kept_below(a, c, k),
{
    assert forall|i: int| 0 <= i < k implies same_shape(#[trigger] a.frames[i], c.frames[i]) by {
        assert(same_shape(a.frames[i], b.frames[i]));
        assert(same_shape(b.frames[i], c.frames[i]));
        lemma_shape_trans(a.frames[i], b.frames[i], c.frames[i]);
    }
}

/// A declaration touches the innermost frame only.
pub proof fn lemma_declare_keeps(env: EnvView, slot: SlotView)
    requires
        env.frames.len() >= 1,
    ensures
        kept_outer(env, env.declare(slot)),
        forall|i: int| 0 <= i < env.frames.len() - 1 ==> env.declare(slot).frames[i] == env.frames[i],
{
}

/// A frame whose binding got a new value has the shape it had.
pub proof fn lemma_frame_assign_keeps(frame: FrameView, name: Seq<char>, value: ValueView)
    ensures
        same_shape(frame, frame.assign(name, value)),
{
    lemma_first_index_is_first(frame.variables, slot_named(name));
    let after = frame.assign(name, value);
    assert forall|i: int| 0 <= i < frame.variables.len() implies {
        &&& (#[trigger] frame.variables[i]).name == after.variables[i].name
        &&& frame.variables[i].variable_type == after.variables[i].variable_type
        &&& frame.variables[i].value_type == after.variables[i].value_type
    } by {}
}

/// Handing a value down changes no frame's shape.
pub proof fn lemma_assign_keeps(env: EnvView, name: Seq<char>, value: ValueView)
    ensures
        kept_all(env, env.assign_visible(name, value)),
{
    let after = env.assign_visible(name, value);
    lemma_last_index_is_last(env.frames, frame_binds(name));
    match last_index(env.frames, frame_binds(name)) {
        Some(k) => {
            lemma_frame_assign_keeps(env.frames[k], name, value);
            assert forall|i: int| 0 <= i < env.frames.len() implies same_shape(
                #[trigger] env.frames[i],
                after.frames[i],
            ) by {
                if i != k {
                    assert(after.frames[i] == env.frames[i]);
                }
            }
        },
        None => {},
    }
}

/// Handing the bindings of a frame down changes no frame's shape.
pub proof fn lemma_merge_keeps(env: EnvView, vars: Seq<SlotView>, n: nat)
    ensures
        kept_all(env, env.merge(vars, n)),
    decreases n,
{
    if n > 0 {
        let before = env.merge(vars, (n - 1) as nat);
        lemma_merge_keeps(env, vars, (n - 1) as nat);
        lemma_assign_keeps(before, vars[n - 1].name, vars[n - 1].value);
        lemma_kept_trans(env, before, env.merge(vars, n), env.frames.len() as int);
    }
}

/// The end of a scope leaves the frames below it with the shape they had
/// when it was entered.
pub proof fn lemma_scope_exit(base: EnvView, inside: EnvView)
    requires
        base.frames.len() >= 1,
        inside.frames.len() == base.frames.len() + 1,
        forall|i: int|
            0 <= i < base.frames.len() ==> same_shape(#[trigger] base.frames[i], inside.frames[i]),
    ensures
        kept_all(base, inside.leave_scope_merging()),
{
    let popped = inside.leave_scope();
    assert(popped.frames =~= inside.frames.drop_last());
    assert forall|i: int| 0 <= i < base.frames.len() implies same_shape(
        #[trigger] base.frames[i],
        popped.frames[i],
    ) by {
        assert(popped.frames[i] == inside.frames[i]);
    }
    assert(kept_all(base, popped));
    lemma_merge_keeps(
        popped,
        inside.frames.last().variables,
        inside.frames.last().variables.len(),
    );
    lemma_kept_trans(base, popped, inside.leave_scope_merging(), base.frames.len() as int);
}

/// The scope of a call lies on top of the caller's frames and leaves them
/// as they are.
pub proof fn lemma_receiver_scope_keeps(env: EnvView, label: Seq<char>, receiver: Option<ValueView>)
    ensures
        receiver_scope(env, label, receiver).frames.len() == env.frames.len() + 1,
        forall|i: int|
            0 <= i < env.frames.len() ==> receiver_scope(env, label, receiver).frames[i]
                == env.frames[i],
{
    let entered = env.enter_scope(label);
    assert forall|i: int| 0 <= i < env.frames.len() implies receiver_scope(
        env,
        label,
        receiver,
    ).frames[i] == env.frames[i] by {
        assert(entered.frames[i] == env.frames[i]);
    }
}

/// Registering methods leaves the frames as they are.
pub proof fn lemma_register_methods_keeps(
    env: EnvView,
    base: Seq<char>,
    methods: Seq<NodeView>,
    n: nat,
)
    ensures
        register_methods(env, base, methods, n).frames == env.frames,
    decreases n,
{
    if n > 0 {
        lemma_register_methods_keeps(env, base, methods, (n - 1) as nat);
    }
}

/// Loading symbols leaves the frames as they are.
pub proof fn lemma_import_symbols_keeps(
    env: EnvView,
    module: ModuleView,
    symbols: Seq<Seq<char>>,
    i: nat,
    line: usize,
    column: usize,
)
    ensures
        import_symbols(env, module, symbols, i, line, column).env.frames == env.frames,
    decreases symbols.len() - i,
{
    reveal(import_symbols);
    if i < symbols.len() {
        match import_symbol(env, module, symbols[i as int]) {
            Ok(next) => {
                lemma_import_symbols_keeps(next, module, symbols, i + 1, line, column);
            },
            Err(_) => {},
        }
    }
}

/// A name that no frame binds is bound by no frame of the same shape.
pub proof fn lemma_shape_keeps_unbound(a: EnvView, b: EnvView, name: Seq<char>)
    requires
        kept_all(a, b),
        a.lookup(name) is None,
    ensures
        b.lookup(name) is None,
{
    let pred = frame_binds(name);
    lemma_last_index_is_last(a.frames, pred);
    if last_index(a.frames, pred) is Some {
        let k = last_index(a.frames, pred)->0;
        assert(a.frames[k].binds(name));
        lemma_first_index_is_first(a.frames[k].variables, slot_named(name));
        assert(false);
    }
    assert forall|j: int| 0 <= j < b.frames.len() implies !pred(#[trigger] b.frames[j]) by {
        assert(!pred(a.frames[j]));
        assert(same_shape(a.frames[j], b.frames[j]));
        lemma_first_index_is_first(a.frames[j].variables, slot_named(name));
        assert forall|i: int| 0 <= i < b.frames[j].variables.len() implies !slot_named(name)(
            #[trigger] b.frames[j].variables[i],
        ) by {
            assert(a.frames[j].variables[i].name == b.frames[j].variables[i].name);
            assert(!slot_named(name)(a.frames[j].variables[i]));
        }
        lemma_first_index_none(b.frames[j].variables, slot_named(name));
    }
    lemma_last_index_none(b.frames, pred);
}

} // verus!
