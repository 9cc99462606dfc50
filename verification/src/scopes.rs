//! The scope stack: lookup, declaration, reassignment, and the merge-back
//! that ends a call.
//!
//! A reassignment never writes into an outer frame. It writes a binding of
//! the same name into the innermost frame; when that frame is popped at the
//! end of a call, the values of the bindings whose names are bound further
//! out are handed down to those outer bindings, and the rest of the frame is
//! dropped.

use crate::environment::{
    frames_view, slots_view, Env, EnvVariableType, EnvView, Frame, FrameView, SlotView,
    VariableSlot,
};
use crate::error::{RuntimeError, RuntimeErrorKind};
use crate::search::{
    first_index, is_first, is_last, last_index, lemma_first_index, lemma_first_index_is_first,
    lemma_first_index_none, lemma_last_index, lemma_last_index_none,
};
use crate::token::same_text;

use crate::value::{clone_value, Value, ValueType, ValueTypeView, ValueView};
use vstd::prelude::*;

verus! {

/// The bindings with the given name.
pub open spec fn slot_named(name: Seq<char>) -> spec_fn(SlotView) -> bool {
    |s: SlotView| s.name == name
}

/// The frames that bind the given name.
pub open spec fn frame_binds(name: Seq<char>) -> spec_fn(FrameView) -> bool {
    |f: FrameView| f.binds(name)
}

/// Whether a value has the runtime type that `expected` names.
pub open spec fn matches_type(expected: ValueTypeView, value: ValueView) -> bool {
    match expected {
        ValueTypeView::Any => true,
        ValueTypeView::Number => value is Number,
        ValueTypeView::String => value is String,
        ValueTypeView::Bool => value is Bool,
        ValueTypeView::Void => value is Void,
        ValueTypeView::List(_) => value is List,
        ValueTypeView::Function => value is Function,
        ValueTypeView::Lambda => value is Lambda,
        ValueTypeView::Struct(name) => value matches ValueView::StructInstance { name: n, .. } && n
            == name,
        ValueTypeView::OptionType(_) => false,
        ValueTypeView::ResultType { .. } => false,
    }
}

impl FrameView {
    /// Whether the frame binds `name`.
    pub open spec fn binds(self, name: Seq<char>) -> bool {
        first_index(self.variables, slot_named(name)) is Some
    }

    /// The frame's binding of `name`.
    pub open spec fn lookup(self, name: Seq<char>) -> Option<SlotView> {
        match first_index(self.variables, slot_named(name)) {
            Some(i) => Some(self.variables[i]),
            None => None,
        }
    }

    /// The frame with `slot` in place of its binding of the same name, or
    /// added at the end where it has none.
    pub open spec fn put(self, slot: SlotView) -> FrameView {
        match first_index(self.variables, slot_named(slot.name)) {
            Some(i) => FrameView { variables: self.variables.update(i, slot), ..self },
            None => FrameView { variables: self.variables.push(slot), ..self },
        }
    }

    /// The frame with `value` as the value of its binding of `name`; the
    /// binding's mutability and declared type stay.
    pub open spec fn assign(self, name: Seq<char>, value: ValueView) -> FrameView {
        match first_index(self.variables, slot_named(name)) {
            Some(i) => FrameView {
                variables: self.variables.update(i, SlotView { value, ..self.variables[i] }),
                ..self
            },
            None => self,
        }
    }
}

impl EnvView {
    /// The visible binding of `name`: that of the innermost frame that binds
    /// it.
    pub open spec fn lookup(self, name: Seq<char>) -> Option<SlotView> {
        match last_index(self.frames, frame_binds(name)) {
            Some(k) => self.frames[k].lookup(name),
            None => None,
        }
    }

    /// The visible binding of `name`, unless a type is expected and the
    /// binding's value is not of it.
    pub open spec fn get(self, name: Seq<char>, expected: Option<ValueTypeView>) -> Option<
        SlotView,
    > {
        match self.lookup(name) {
            Some(slot) => match expected {
                Some(t) => if matches_type(t, slot.value) {
                    Some(slot)
                } else {
                    None
                },
                None => Some(slot),
            },
            None => None,
        }
    }

    /// The environment with `slot` bound in the innermost frame.
    pub open spec fn declare(self, slot: SlotView) -> EnvView {
        if self.frames.len() == 0 {
            EnvView {
                frames: seq![FrameView { label: Seq::empty(), variables: seq![slot] }],
                ..self
            }
        } else {
            EnvView {
                frames: self.frames.update(self.frames.len() - 1, self.frames.last().put(slot)),
                ..self
            }
        }
    }

    /// What `set` does. A declaration binds the name in the innermost frame.
    /// A reassignment of an unbound name does the same. A reassignment of a
    /// bound name fails where the visible binding is immutable, and else
    /// binds the name in the innermost frame with the new value and the
    /// visible binding's mutability and declared type.
    pub open spec fn set(
        self,
        name: Seq<char>,
        value: ValueView,
        variable_type: EnvVariableType,
        value_type: ValueTypeView,
        is_new: bool,
    ) -> Result<EnvView, RuntimeErrorKind> {
        if is_new {
            Ok(self.declare(SlotView { name, value, variable_type, value_type }))
        } else {
            match self.lookup(name) {
                None => Ok(self.declare(SlotView { name, value, variable_type, value_type })),
                Some(slot) => if slot.variable_type == EnvVariableType::Immutable {
                    Err(RuntimeErrorKind::ReassignImmutable)
                } else {
                    Ok(
                        self.declare(
                            SlotView {
                                name,
                                value,
                                variable_type: slot.variable_type,
                                value_type: slot.value_type,
                            },
                        ),
                    )
                },
            }
        }
    }

    /// The environment with `value` as the value of the visible binding of
    /// `name`, or unchanged where the name is unbound.
    pub open spec fn assign_visible(self, name: Seq<char>, value: ValueView) -> EnvView {
        match last_index(self.frames, frame_binds(name)) {
            Some(k) => EnvView {
                frames: self.frames.update(k, self.frames[k].assign(name, value)),
                ..self
            },
            None => self,
        }
    }

    /// The environment after the first `n` of `vars` were handed down, in
    /// order: each gives its value to the visible binding of its name, and
    /// does nothing where the name is unbound.
    pub open spec fn merge(self, vars: Seq<SlotView>, n: nat) -> EnvView
        decreases n,
    {
        if n == 0 {
            self
        } else {
            self.merge(vars, (n - 1) as nat).assign_visible(vars[n - 1].name, vars[n - 1].value)
        }
    }

    /// The environment with an empty frame pushed.
    pub open spec fn enter_scope(self, label: Seq<char>) -> EnvView {
        EnvView { frames: self.frames.push(FrameView { label, variables: Seq::empty() }), ..self }
    }

    /// The environment with the innermost frame dropped. The global frame is
    /// never dropped.
    pub open spec fn leave_scope(self) -> EnvView {
        if self.frames.len() <= 1 {
            self
        } else {
            EnvView { frames: self.frames.drop_last(), ..self }
        }
    }

    /// The environment after the bindings of `child`'s innermost frame were
    /// handed down into it.
    pub open spec fn update_global_env(self, child: EnvView) -> EnvView {
        if child.frames.len() == 0 {
            self
        } else {
            self.merge(child.frames.last().variables, child.frames.last().variables.len())
        }
    }

    /// The end of a call: the innermost frame is popped and its bindings are
    /// handed down into the frames below. The global frame is never popped.
    pub open spec fn leave_scope_merging(self) -> EnvView {
        if self.frames.len() <= 1 {
            self
        } else {
            self.leave_scope().update_global_env(self)
        }
    }
}

/// The position of the first binding of `name` among `vars`.
pub fn find_slot(vars: &Vec<VariableSlot>, name: &String) -> (r: Option<usize>)
    ensures
        match r {
            Some(i) => first_index(slots_view(*vars), slot_named(name@)) == Some(i as int),
            None => first_index(slots_view(*vars), slot_named(name@)) is None,
        },
{
    let mut i: usize = 0;
    while i < vars.len()
        invariant
            i <= vars.len(),
            forall|j: int| 0 <= j < i ==> !slot_named(name@)(#[trigger] slots_view(*vars)[j]),
        decreases vars.len() - i,
    {
        if same_text(&vars[i].name, name) {
            proof {
                lemma_first_index(slots_view(*vars), slot_named(name@), i as int);
            }
            return Some(i);
        }
        i += 1;
    }
    proof {
        lemma_first_index_none(slots_view(*vars), slot_named(name@));
    }
    None
}

/// The position of the innermost frame that binds `name`.
pub fn find_frame(frames: &Vec<Frame>, name: &String) -> (r: Option<usize>)
    ensures
        match r {
            Some(k) => last_index(frames_view(*frames), frame_binds(name@)) == Some(k as int),
            None => last_index(frames_view(*frames), frame_binds(name@)) is None,
        },
{
    let mut k: usize = frames.len();
    while k > 0
        invariant
            k <= frames.len(),
            forall|j: int|
                k <= j < frames.len() ==> !frame_binds(name@)(#[trigger] frames_view(*frames)[j]),
        decreases k,
    {
        k -= 1;
        let found = find_slot(&frames[k].variables, name);
        if found.is_some() {
            proof {
                lemma_last_index(frames_view(*frames), frame_binds(name@), k as int);
            }
            return Some(k);
        }
    }
    proof {
        lemma_last_index_none(frames_view(*frames), frame_binds(name@));
    }
    None
}

/// Whether a value has the runtime type that `expected` names.
pub fn value_matches_type(expected: &ValueType, value: &Value) -> (r: bool)
    ensures
        r == matches_type(expected@, value@),
{
    match expected {
        ValueType::Any => true,
        ValueType::Number => matches!(value, Value::Number(_)),
        ValueType::String => matches!(value, Value::String(_)),
        ValueType::Bool => matches!(value, Value::Bool(_)),
        ValueType::Void => matches!(value, Value::Void),
        ValueType::List(_) => matches!(value, Value::List(_)),
        ValueType::Function => matches!(value, Value::Function),
        ValueType::Lambda => matches!(value, Value::Lambda { .. }),
        ValueType::Struct(name) => match value {
            Value::StructInstance { name: n, .. } => same_text(n, name),
            _ => false,
        },
        ValueType::OptionType(_) => false,
        ValueType::ResultType { .. } => false,
    }
}

/// The model of an optional reference to a binding.
pub open spec fn found_slot_view(found: Option<&VariableSlot>) -> Option<SlotView> {
    match found {
        Some(slot) => Some(slot@),
        None => None,
    }
}

/// Puts `slot` in place of the binding of the same name among `vars`, or
/// adds it at the end.
pub fn put_slot(vars: &mut Vec<VariableSlot>, slot: VariableSlot)
    ensures
        slots_view(*final(vars)) == (FrameView {
            label: Seq::empty(),
            variables: slots_view(*old(vars)),
        }).put(slot@).variables,
{
    let found = find_slot(vars, &slot.name);
    let ghost before = slots_view(*vars);
    match found {
        Some(i) => {
            vars.set(i, slot);
            assert(slots_view(*vars) =~= before.update(i as int, slot@));
        },
        None => {
            vars.push(slot);
            assert(slots_view(*vars) =~= before.push(slot@));
        },
    }
}

/// How deep calls may nest in a new environment. The limit stands for the
/// stack of the machine: it lies far beyond what scripts nest, and a script
/// that passes it fails with `RecursionLimit` where the stack would have
/// run out. An environment's own limit can be set higher where the stack
/// allows it.
pub const DEFAULT_CALL_DEPTH_LIMIT: usize = 1000;

impl EnvView {
    /// The environment of a new session: an empty global frame, empty
    /// tables, and the default call depth limit.
    pub open spec fn fresh() -> EnvView {
        EnvView {
            frames: seq![FrameView { label: "global"@, variables: Seq::empty() }],
            functions: Seq::empty(),
            structs: Seq::empty(),
            methods: Seq::empty(),
            builtins: Seq::empty(),
            modules: Seq::empty(),
            output: Seq::empty(),
            call_depth_limit: DEFAULT_CALL_DEPTH_LIMIT,
        }
    }
}

impl Env {
    /// The environment of a new session: an empty global frame, empty
    /// tables, and the default call depth limit.
    pub fn new() -> (r: Env)
        ensures
            r@ == EnvView::fresh(),
    {
        let mut frames: Vec<Frame> = Vec::new();
        frames.push(Frame { label: "global".to_string(), variables: Vec::new() });
        let env = Env {
            frames,
            functions: Vec::new(),
            structs: Vec::new(),
            methods: Vec::new(),
            builtins: Vec::new(),
            modules: Vec::new(),
            output: Vec::new(),
            call_depth_limit: DEFAULT_CALL_DEPTH_LIMIT,
        };
        assert(slots_view(env.frames[0].variables) =~= Seq::<SlotView>::empty());
        assert(env@.frames =~= EnvView::fresh().frames);
        assert(env@.functions =~= EnvView::fresh().functions);
        assert(env@.structs =~= EnvView::fresh().structs);
        assert(env@.methods =~= EnvView::fresh().methods);
        assert(env@.builtins =~= EnvView::fresh().builtins);
        assert(env@.modules =~= EnvView::fresh().modules);
        assert(env@.output =~= EnvView::fresh().output);
        env
    }

    /// The visible binding of `name`: that of the innermost frame that binds
    /// it, searched from the innermost frame out to the global one. With
    /// `expected` given, a binding whose value is of another type counts as
    /// absent.
    pub fn get(&self, name: &String, expected: Option<&ValueType>) -> (r: Option<&VariableSlot>)
        ensures
            found_slot_view(r) == self@.get(
                name@,
                match expected {
                    Some(t) => Some(t@),
                    None => None,
                },
            ),
    {
        match find_frame(&self.frames, name) {
            None => None,
            Some(k) => {
                match find_slot(&self.frames[k].variables, name) {
                    None => None,
                    Some(i) => {
                        let slot = &self.frames[k].variables[i];
                        match expected {
                            Some(t) => if value_matches_type(t, &slot.value) {
                                Some(slot)
                            } else {
                                None
                            },
                            None => Some(slot),
                        }
                    },
                }
            },
        }
    }

    /// Binds `slot` in the innermost frame, in place of a binding of the
    /// same name there.
    pub fn declare(&mut self, slot: VariableSlot)
        ensures
            final(self)@ == old(self)@.declare(slot@),
    {
        let ghost before = self@;
        match self.frames.pop() {
            None => {
                let mut variables: Vec<VariableSlot> = Vec::new();
                variables.push(slot);
                self.frames.push(Frame { label: String::new(), variables });
                assert(slots_view(self.frames[0].variables) =~= seq![slot@]);
                assert(self@.frames =~= before.declare(slot@).frames);
            },
            Some(top) => {
                let mut top = top;
                put_slot(&mut top.variables, slot);
                self.frames.push(top);
                assert(self@.frames =~= before.declare(slot@).frames);
            },
        }
    }

    /// Declares or reassigns a variable.
    ///
    /// With `is_new`, binds the name in the innermost frame with the given
    /// mutability and declared type. Without it, fails with
    /// `ReassignImmutable` where the visible binding of the name is
    /// immutable; where the name is unbound, binds it as a declaration
    /// would; else binds the name in the innermost frame with the new value,
    /// keeping the visible binding's mutability and declared type. The
    /// error carries no position.
    pub fn set(
        &mut self,
        name: String,
        value: Value,
        variable_type: EnvVariableType,
        value_type: ValueType,
        is_new: bool,
    ) -> (r: Result<(), RuntimeError>)
        ensures
            match old(self)@.set(name@, value@, variable_type, value_type@, is_new) {
                Ok(env) => r is Ok && final(self)@ == env,
                Err(kind) => r == Err::<(), RuntimeError>(
                    RuntimeError { kind, line: 0, column: 0 },
                ) && final(self)@ == old(self)@,
            },
    {
        if is_new {
            self.declare(VariableSlot { name, value, variable_type, value_type });
            return Ok(());
        }
        let existing = match self.get(&name, None) {
            None => None,
            Some(slot) => Some((slot.variable_type, slot.value_type.clone())),
        };
        match existing {
            None => {
                self.declare(VariableSlot { name, value, variable_type, value_type });
                Ok(())
            },
            Some((EnvVariableType::Immutable, _)) => Err(
                RuntimeError::new(RuntimeErrorKind::ReassignImmutable, 0, 0),
            ),
            Some((EnvVariableType::Mutable, declared)) => {
                self.declare(
                    VariableSlot {
                        name,
                        value,
                        variable_type: EnvVariableType::Mutable,
                        value_type: declared,
                    },
                );
                Ok(())
            },
        }
    }

    /// Pushes an empty frame with the given label.
    pub fn enter_scope(&mut self, label: String)
        ensures
            final(self)@ == old(self)@.enter_scope(label@),
    {
        let ghost before = self@;
        self.frames.push(Frame { label, variables: Vec::new() });
        assert(slots_view(self.frames[self.frames.len() - 1].variables) =~= Seq::<SlotView>::empty());
        assert(self@.frames =~= before.enter_scope(label@).frames);
    }

    /// Pops the innermost frame and drops its bindings. The global frame
    /// stays.
    pub fn leave_scope(&mut self)
        ensures
            final(self)@ == old(self)@.leave_scope(),
    {
        let ghost before = self@;
        if self.frames.len() > 1 {
            self.frames.pop();
            assert(self@.frames =~= before.leave_scope().frames);
        }
    }

    /// Gives `value` to the visible binding of `name`; does nothing where
    /// the name is unbound.
    pub fn assign_visible(&mut self, name: &String, value: Value)
        ensures
            final(self)@ == old(self)@.assign_visible(name@, value@),
    {
        let ghost before = self@;
        match find_frame(&self.frames, name) {
            None => {},
            Some(k) => {
                match find_slot(&self.frames[k].variables, name) {
                    None => {
                        assert(self@.frames =~= before.assign_visible(name@, value@).frames);
                    },
                    Some(i) => {
                        let ghost old_slot = self.frames[k as int].variables[i as int]@;
                        self.frames[k].variables[i].value = value;
                        assert(self.frames[k as int].variables[i as int]@ == (SlotView {
                            value: value@,
                            ..old_slot
                        }));
                        assert(slots_view(self.frames[k as int].variables) =~= before.frames[k as int].variables.update(
                            i as int,
                            SlotView { value: value@, ..old_slot },
                        ));
                        assert(self@.frames =~= before.assign_visible(name@, value@).frames);
                    },
                }
            },
        }
    }

    /// Hands the bindings of `child`'s innermost frame down into this
    /// environment: each gives its value to the visible binding of its name
    /// here; those whose names are unbound here are dropped.
    pub fn update_global_env(&mut self, child: &Env)
        ensures
            final(self)@ == old(self)@.update_global_env(child@),
    {
        if child.frames.len() == 0 {
            return ;
        }
        let top = &child.frames[child.frames.len() - 1];
        self.merge_frame(top);
    }

    /// Hands the bindings of `frame` down into this environment.
    pub fn merge_frame(&mut self, frame: &Frame)
        ensures
            final(self)@ == old(self)@.merge(frame@.variables, frame@.variables.len()),
    {
        let mut i: usize = 0;
        while i < frame.variables.len()
            invariant
                i <= frame.variables.len(),
                self@ == old(self)@.merge(frame@.variables, i as nat),
            decreases frame.variables.len() - i,
        {
            let value = clone_value(&frame.variables[i].value);
            self.assign_visible(&frame.variables[i].name, value);
            i += 1;
        }
    }

    /// Ends a call: pops the innermost frame and hands its bindings down
    /// into the frames below. The global frame stays.
    pub fn leave_scope_merging(&mut self)
        ensures
            final(self)@ == old(self)@.leave_scope_merging(),
    {
        let ghost before = self@;
        if self.frames.len() > 1 {
            let top = self.frames.pop();
            assert(self@.frames =~= before.leave_scope().frames);
            match top {
                Some(frame) => {
                    self.merge_frame(&frame);
                },
                None => {},
            }
        }
    }
}

/// A binding that was put into a frame is the frame's binding of its name.
pub proof fn lemma_put_lookup(frame: FrameView, slot: SlotView)
    ensures
        frame.put(slot).lookup(slot.name) == Some(slot),
        frame.put(slot).binds(slot.name),
{
    let pred = slot_named(slot.name);
    let vars = frame.variables;
    lemma_first_index_is_first(vars, pred);
    match first_index(vars, pred) {
        Some(i) => {
            let after = vars.update(i, slot);
            assert(after[i] == slot);
            assert forall|j: int| 0 <= j < i implies !pred(#[trigger] after[j]) by {
                assert(after[j] == vars[j]);
            }
            assert(is_first(after, pred, i));
            lemma_first_index(after, pred, i);
        },
        None => {
            let after = vars.push(slot);
            let n = vars.len() as int;
            assert(after[n] == slot);
            assert forall|j: int| 0 <= j < n implies !pred(#[trigger] after[j]) by {
                assert(after[j] == vars[j]);
            }
            assert(is_first(after, pred, n));
            lemma_first_index(after, pred, n);
        },
    }
}

/// A binding that was declared is the visible binding of its name.
pub proof fn lemma_declare_lookup(env: EnvView, slot: SlotView)
    ensures
        env.declare(slot).lookup(slot.name) == Some(slot),
{
    let after = env.declare(slot);
    let pred = frame_binds(slot.name);
    if env.frames.len() == 0 {
        let frame = FrameView { label: Seq::empty(), variables: Seq::empty() };
        lemma_first_index_none(frame.variables, slot_named(slot.name));
        assert(frame.put(slot).variables =~= seq![slot]);
        lemma_put_lookup(frame, slot);
        assert(after.frames[0] == frame.put(slot));
        assert(is_last(after.frames, pred, 0));
        lemma_last_index(after.frames, pred, 0);
    } else {
        let top = env.frames.len() - 1;
        lemma_put_lookup(env.frames.last(), slot);
        assert(after.frames[top] == env.frames.last().put(slot));
        assert(is_last(after.frames, pred, top));
        lemma_last_index(after.frames, pred, top);
    }
}

} // verus!
