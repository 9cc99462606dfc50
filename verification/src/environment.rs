//! The environment: a stack of scope frames over a global frame, and the
//! tables of functions, structs, methods, builtins and modules.

use crate::ast::{
    clone_field_defs, clone_node, clone_nodes, field_defs_view, node_view, nodes_view, ASTNode,
    FieldDef, FieldDefView, NodeView,
};
use crate::value::{
    clone_value, clone_values, value_type_view, value_view, values_view, Value, ValueType,
    ValueTypeView, ValueView,
};
use vstd::prelude::*;

verus! {

/// Whether a binding may be reassigned.
#[derive(Clone, Copy, Debug, PartialEq, Eq)]
pub enum EnvVariableType {
    Mutable,
    Immutable,
}

/// A native function of the language.
#[derive(Clone, Copy, Debug, PartialEq, Eq)]
pub enum Builtin {
    /// `print(value)`: appends the value to the environment's output.
    Print,
    /// `len(list)` or `len(string)`: the number of items or characters.
    Len,
    /// `push(list, value)`: the list with the value appended.
    Push,
}

/// A binding of a frame: a name, its value, its mutability and its declared
/// type.
#[derive(Debug, PartialEq)]
pub struct VariableSlot {
    pub name: String,
    pub value: Value,
    pub variable_type: EnvVariableType,
    pub value_type: ValueType,
}

/// The mathematical model of a [`VariableSlot`].
pub struct SlotView {
    pub name: Seq<char>,
    pub value: ValueView,
    pub variable_type: EnvVariableType,
    pub value_type: ValueTypeView,
}

/// One level of the scope stack.
#[derive(Debug, PartialEq)]
pub struct Frame {
    pub label: String,
    pub variables: Vec<VariableSlot>,
}

/// The mathematical model of a [`Frame`].
pub struct FrameView {
    pub label: Seq<char>,
    pub variables: Seq<SlotView>,
}

/// What a callable name stands for: parameters (`Variable` nodes), a body
/// and a return type, or a builtin.
#[derive(Debug, PartialEq)]
pub struct FunctionInfo {
    pub arguments: Vec<ASTNode>,
    pub body: Option<ASTNode>,
    pub return_type: ValueType,
    pub builtin: Option<Builtin>,
}

/// The mathematical model of a [`FunctionInfo`].
pub struct FunctionInfoView {
    pub arguments: Seq<NodeView>,
    pub body: Option<NodeView>,
    pub return_type: ValueTypeView,
    pub builtin: Option<Builtin>,
}

/// An entry of the function table.
#[derive(Debug, PartialEq)]
pub struct NamedFunction {
    pub name: String,
    pub info: FunctionInfo,
}

/// The mathematical model of a [`NamedFunction`].
pub struct NamedFunctionView {
    pub name: Seq<char>,
    pub info: FunctionInfoView,
}

/// An entry of the struct table: a name and a field schema.
#[derive(Debug, PartialEq)]
pub struct StructInfo {
    pub name: String,
    pub fields: Vec<FieldDef>,
}

/// The mathematical model of a [`StructInfo`].
pub struct StructInfoView {
    pub name: Seq<char>,
    pub fields: Seq<FieldDefView>,
}

/// An entry of the method table, keyed by struct name and method name.
#[derive(Debug, PartialEq)]
pub struct MethodInfo {
    pub struct_name: String,
    pub method_name: String,
    pub info: FunctionInfo,
}

/// The mathematical model of a [`MethodInfo`].
pub struct MethodInfoView {
    pub struct_name: Seq<char>,
    pub method_name: Seq<char>,
    pub info: FunctionInfoView,
}

/// An entry of the builtin registry.
#[derive(Debug, PartialEq)]
pub struct BuiltinEntry {
    pub name: String,
    pub builtin: Builtin,
}

/// The mathematical model of a [`BuiltinEntry`].
pub struct BuiltinEntryView {
    pub name: Seq<char>,
    pub builtin: Builtin,
}

/// A module that `import` can load from: named functions and structs.
#[derive(Debug, PartialEq)]
pub struct Module {
    pub name: String,
    pub functions: Vec<NamedFunction>,
    pub structs: Vec<StructInfo>,
}

/// The mathematical model of a [`Module`].
pub struct ModuleView {
    pub name: Seq<char>,
    pub functions: Seq<NamedFunctionView>,
    pub structs: Seq<StructInfoView>,
}

/// The single piece of mutable state of an evaluation session.
///
/// `frames` is the scope stack: the global frame first, the innermost frame
/// last.
#[derive(Debug, PartialEq)]
pub struct Env {
    pub frames: Vec<Frame>,
    pub functions: Vec<NamedFunction>,
    pub structs: Vec<StructInfo>,
    pub methods: Vec<MethodInfo>,
    pub builtins: Vec<BuiltinEntry>,
    pub modules: Vec<Module>,
    /// What `print` was called with, oldest first.
    pub output: Vec<Value>,
    /// How deep calls may nest.
    pub call_depth_limit: usize,
}

/// The mathematical model of an [`Env`].
pub struct EnvView {
    pub frames: Seq<FrameView>,
    pub functions: Seq<NamedFunctionView>,
    pub structs: Seq<StructInfoView>,
    pub methods: Seq<MethodInfoView>,
    pub builtins: Seq<BuiltinEntryView>,
    pub modules: Seq<ModuleView>,
    pub output: Seq<ValueView>,
    pub call_depth_limit: usize,
}

/// The model of a binding.
pub open spec fn slot_view(slot: VariableSlot) -> SlotView
    decreases slot,
{
    SlotView {
        name: slot.name@,
        value: value_view(slot.value),
        variable_type: slot.variable_type,
        value_type: value_type_view(slot.value_type),
    }
}

/// The models of the bindings of a vector, in order.
pub open spec fn slots_view(slots: Vec<VariableSlot>) -> Seq<SlotView>
    decreases slots,
{
    Seq::new(
        slots.len() as nat,
        |i: int|
            if 0 <= i < slots.len() {
                slot_view(slots[i])
            } else {
                arbitrary()
            },
    )
}

/// The model of a frame.
pub open spec fn frame_view(frame: Frame) -> FrameView
    decreases frame,
{
    FrameView { label: frame.label@, variables: slots_view(frame.variables) }
}

/// The models of the frames of a vector, in order.
pub open spec fn frames_view(frames: Vec<Frame>) -> Seq<FrameView>
    decreases frames,
{
    Seq::new(
        frames.len() as nat,
        |i: int|
            if 0 <= i < frames.len() {
                frame_view(frames[i])
            } else {
                arbitrary()
            },
    )
}

/// The model of a callable.
pub open spec fn function_info_view(info: FunctionInfo) -> FunctionInfoView
    decreases info,
{
    FunctionInfoView {
        arguments: nodes_view(info.arguments),
        body: match info.body {
            Some(b) => Some(node_view(b)),
            None => None,
        },
        return_type: value_type_view(info.return_type),
        builtin: info.builtin,
    }
}

/// The models of the entries of a function table, in order.
pub open spec fn named_functions_view(functions: Vec<NamedFunction>) -> Seq<NamedFunctionView>
    decreases functions,
{
    Seq::new(
        functions.len() as nat,
        |i: int|
            if 0 <= i < functions.len() {
                NamedFunctionView {
                    name: functions[i].name@,
                    info: function_info_view(functions[i].info),
                }
            } else {
                arbitrary()
            },
    )
}

/// The models of the entries of a method table, in order.
pub open spec fn methods_view(methods: Vec<MethodInfo>) -> Seq<MethodInfoView>
    decreases methods,
{
    Seq::new(
        methods.len() as nat,
        |i: int|
            if 0 <= i < methods.len() {
                MethodInfoView {
                    struct_name: methods[i].struct_name@,
                    method_name: methods[i].method_name@,
                    info: function_info_view(methods[i].info),
                }
            } else {
                arbitrary()
            },
    )
}

/// The models of the entries of a struct table, in order.
pub open spec fn structs_view(structs: Vec<StructInfo>) -> Seq<StructInfoView> {
    Seq::new(structs.len() as nat, |i: int| structs[i]@)
}

/// The model of a module.
pub open spec fn module_view(module: Module) -> ModuleView
    decreases module,
{
    ModuleView {
        name: module.name@,
        functions: named_functions_view(module.functions),
        structs: structs_view(module.structs),
    }
}

/// The models of the modules of a vector, in order.
pub open spec fn modules_view(modules: Vec<Module>) -> Seq<ModuleView>
    decreases modules,
{
    Seq::new(
        modules.len() as nat,
        |i: int|
            if 0 <= i < modules.len() {
                module_view(modules[i])
            } else {
                arbitrary()
            },
    )
}

/// The models of the entries of a builtin registry, in order.
pub open spec fn builtins_view(builtins: Vec<BuiltinEntry>) -> Seq<BuiltinEntryView> {
    Seq::new(builtins.len() as nat, |i: int| builtins[i]@)
}

/// The model of an environment.
pub open spec fn env_view(env: Env) -> EnvView
    decreases env,
{
    EnvView {
        frames: frames_view(env.frames),
        functions: named_functions_view(env.functions),
        structs: structs_view(env.structs),
        methods: methods_view(env.methods),
        builtins: builtins_view(env.builtins),
        modules: modules_view(env.modules),
        output: values_view(env.output),
        call_depth_limit: env.call_depth_limit,
    }
}

impl View for VariableSlot {
    type V = SlotView;

    open spec fn view(&self) -> SlotView {
        slot_view(*self)
    }
}

impl View for Frame {
    type V = FrameView;

    open spec fn view(&self) -> FrameView {
        frame_view(*self)
    }
}

impl View for FunctionInfo {
    type V = FunctionInfoView;

    open spec fn view(&self) -> FunctionInfoView {
        function_info_view(*self)
    }
}

impl View for StructInfo {
    type V = StructInfoView;

    open spec fn view(&self) -> StructInfoView {
        StructInfoView { name: self.name@, fields: field_defs_view(self.fields) }
    }
}

impl View for BuiltinEntry {
    type V = BuiltinEntryView;

    open spec fn view(&self) -> BuiltinEntryView {
        BuiltinEntryView { name: self.name@, builtin: self.builtin }
    }
}

impl View for Module {
    type V = ModuleView;

    open spec fn view(&self) -> ModuleView {
        module_view(*self)
    }
}

impl View for Env {
    type V = EnvView;

    open spec fn view(&self) -> EnvView {
        env_view(*self)
    }
}

/// A deep copy of a binding.
pub fn clone_slot(slot: &VariableSlot) -> (r: VariableSlot)
    ensures
        r@ == slot@,
    decreases slot,
{
    VariableSlot {
        name: slot.name.clone(),
        value: clone_value(&slot.value),
        variable_type: slot.variable_type,
        value_type: slot.value_type.clone(),
    }
}

/// A deep copy of the bindings of a frame.
pub fn clone_slots(src: &Vec<VariableSlot>) -> (r: Vec<VariableSlot>)
    ensures
        slots_view(r) == slots_view(*src),
    decreases src,
{
    let mut out: Vec<VariableSlot> = Vec::new();
    let mut i: usize = 0;
    while i < src.len()
        invariant
            i <= src.len(),
            out.len() == i,
            forall|j: int| 0 <= j < i ==> out[j]@ == src[j]@,
        decreases src.len() - i,
    {
        let c = clone_slot(&src[i]);
        out.push(c);
        i += 1;
    }
    assert(slots_view(out) =~= slots_view(*src));
    out
}

/// A deep copy of a frame.
pub fn clone_frame(frame: &Frame) -> (r: Frame)
    ensures
        r@ == frame@,
    decreases frame,
{
    Frame { label: frame.label.clone(), variables: clone_slots(&frame.variables) }
}

/// A deep copy of a stack of frames.
pub fn clone_frames(src: &Vec<Frame>) -> (r: Vec<Frame>)
    ensures
        frames_view(r) == frames_view(*src),
    decreases src,
{
    let mut out: Vec<Frame> = Vec::new();
    let mut i: usize = 0;
    while i < src.len()
        invariant
            i <= src.len(),
            out.len() == i,
            forall|j: int| 0 <= j < i ==> out[j]@ == src[j]@,
        decreases src.len() - i,
    {
        let c = clone_frame(&src[i]);
        out.push(c);
        i += 1;
    }
    assert(frames_view(out) =~= frames_view(*src));
    out
}

/// A deep copy of a callable.
pub fn clone_function_info(info: &FunctionInfo) -> (r: FunctionInfo)
    ensures
        r@ == info@,
    decreases info,
{
    FunctionInfo {
        arguments: clone_nodes(&info.arguments),
        body: match &info.body {
            Some(b) => Some(clone_node(b)),
            None => None,
        },
        return_type: info.return_type.clone(),
        builtin: info.builtin,
    }
}

/// A deep copy of a function table.
pub fn clone_named_functions(src: &Vec<NamedFunction>) -> (r: Vec<NamedFunction>)
    ensures
        named_functions_view(r) == named_functions_view(*src),
    decreases src,
{
    let mut out: Vec<NamedFunction> = Vec::new();
    let mut i: usize = 0;
    while i < src.len()
        invariant
            i <= src.len(),
            out.len() == i,
            forall|j: int| 0 <= j < i ==> out[j].name@ == src[j].name@ && out[j].info@ == src[j].info@,
        decreases src.len() - i,
    {
        let c = NamedFunction { name: src[i].name.clone(), info: clone_function_info(&src[i].info) };
        out.push(c);
        i += 1;
    }
    assert(named_functions_view(out) =~= named_functions_view(*src));
    out
}

/// A deep copy of a method table.
pub fn clone_methods(src: &Vec<MethodInfo>) -> (r: Vec<MethodInfo>)
    ensures
        methods_view(r) == methods_view(*src),
    decreases src,
{
    let mut out: Vec<MethodInfo> = Vec::new();
    let mut i: usize = 0;
    while i < src.len()
        invariant
            i <= src.len(),
            out.len() == i,
            forall|j: int| 0 <= j < i ==> out[j].struct_name@ == src[j].struct_name@ && out[j].method_name@ == src[j].method_name@
                && out[j].info@ == src[j].info@,
        decreases src.len() - i,
    {
        let c = MethodInfo {
            struct_name: src[i].struct_name.clone(),
            method_name: src[i].method_name.clone(),
            info: clone_function_info(&src[i].info),
        };
        out.push(c);
        i += 1;
    }
    assert(methods_view(out) =~= methods_view(*src));
    out
}

/// A copy of a struct table.
pub fn clone_structs(src: &Vec<StructInfo>) -> (r: Vec<StructInfo>)
    ensures
        structs_view(r) == structs_view(*src),
{
    let mut out: Vec<StructInfo> = Vec::new();
    let mut i: usize = 0;
    while i < src.len()
        invariant
            i <= src.len(),
            out.len() == i,
            forall|j: int| 0 <= j < i ==> out[j]@ == src[j]@,
        decreases src.len() - i,
    {
        let c = StructInfo { name: src[i].name.clone(), fields: clone_field_defs(&src[i].fields) };
        out.push(c);
        i += 1;
    }
    assert(structs_view(out) =~= structs_view(*src));
    out
}

/// A copy of a builtin registry.
pub fn clone_builtins(src: &Vec<BuiltinEntry>) -> (r: Vec<BuiltinEntry>)
    ensures
        builtins_view(r) == builtins_view(*src),
{
    let mut out: Vec<BuiltinEntry> = Vec::new();
    let mut i: usize = 0;
    while i < src.len()
        invariant
            i <= src.len(),
            out.len() == i,
            forall|j: int| 0 <= j < i ==> out[j]@ == src[j]@,
        decreases src.len() - i,
    {
        let c = BuiltinEntry { name: src[i].name.clone(), builtin: src[i].builtin };
        out.push(c);
        i += 1;
    }
    assert(builtins_view(out) =~= builtins_view(*src));
    out
}

/// A deep copy of a module.
pub fn clone_module(module: &Module) -> (r: Module)
    ensures
        r@ == module@,
    decreases module,
{
    Module {
        name: module.name.clone(),
        functions: clone_named_functions(&module.functions),
        structs: clone_structs(&module.structs),
    }
}

/// A deep copy of a module table.
pub fn clone_modules(src: &Vec<Module>) -> (r: Vec<Module>)
    ensures
        modules_view(r) == modules_view(*src),
    decreases src,
{
    let mut out: Vec<Module> = Vec::new();
    let mut i: usize = 0;
    while i < src.len()
        invariant
            i <= src.len(),
            out.len() == i,
            forall|j: int| 0 <= j < i ==> out[j]@ == src[j]@,
        decreases src.len() - i,
    {
        let c = clone_module(&src[i]);
        out.push(c);
        i += 1;
    }
    assert(modules_view(out) =~= modules_view(*src));
    out
}

/// A deep copy of an environment: the snapshot that a lambda captures.
pub fn clone_env(env: &Env) -> (r: Env)
    ensures
        r@ == env@,
    decreases env,
{
    Env {
        frames: clone_frames(&env.frames),
        functions: clone_named_functions(&env.functions),
        structs: clone_structs(&env.structs),
        methods: clone_methods(&env.methods),
        builtins: clone_builtins(&env.builtins),
        modules: clone_modules(&env.modules),
        output: clone_values(&env.output),
        call_depth_limit: env.call_depth_limit,
    }
}

impl Clone for Env {
    fn clone(&self) -> (r: Self)
        ensures
            r@ == self@,
    {
        clone_env(self)
    }
}

impl Clone for FunctionInfo {
    fn clone(&self) -> (r: Self)
        ensures
            r@ == self@,
    {
        clone_function_info(self)
    }
}

impl Clone for VariableSlot {
    fn clone(&self) -> (r: Self)
        ensures
            r@ == self@,
    {
        clone_slot(self)
    }
}

} // verus!
