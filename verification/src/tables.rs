//! The tables of an environment: functions, structs, methods, builtins and
//! modules. Each is searched from its first entry; registering a name that
//! is already there replaces that entry.

use crate::ast::{field_defs_view, FieldDef, FieldDefView};
use crate::environment::{
    builtins_view, function_info_view, methods_view, modules_view, named_functions_view,
    structs_view, Builtin, BuiltinEntry, BuiltinEntryView, Env, EnvView, FunctionInfo,
    FunctionInfoView, MethodInfo, MethodInfoView, Module, ModuleView, NamedFunction,
    NamedFunctionView, StructInfo, StructInfoView,
};
use crate::search::{
    first_index, is_first, lemma_first_index, lemma_first_index_is_first, lemma_first_index_none,
};
use crate::token::same_text;

use vstd::prelude::*;

verus! {

/// The function entries with the given name.
pub open spec fn function_named(name: Seq<char>) -> spec_fn(NamedFunctionView) -> bool {
    |f: NamedFunctionView| f.name == name
}

/// The struct entries with the given name.
pub open spec fn struct_named(name: Seq<char>) -> spec_fn(StructInfoView) -> bool {
    |s: StructInfoView| s.name == name
}

/// The method entries of the given struct with the given name.
pub open spec fn method_named(struct_name: Seq<char>, method_name: Seq<char>) -> spec_fn(
    MethodInfoView,
) -> bool {
    |m: MethodInfoView| m.struct_name == struct_name && m.method_name == method_name
}

/// The builtin entries with the given name.
pub open spec fn builtin_named(name: Seq<char>) -> spec_fn(BuiltinEntryView) -> bool {
    |b: BuiltinEntryView| b.name == name
}

/// The modules with the given name.
pub open spec fn module_named(name: Seq<char>) -> spec_fn(ModuleView) -> bool {
    |m: ModuleView| m.name == name
}

/// The field definitions with the given name.
pub open spec fn field_def_named(name: Seq<char>) -> spec_fn(FieldDefView) -> bool {
    |f: FieldDefView| f.name == name
}

/// `items` with `item` in place of the first entry that `pred` holds of, or
/// added at the end where there is none.
pub open spec fn replace_or_push<T>(items: Seq<T>, pred: spec_fn(T) -> bool, item: T) -> Seq<T> {
    match first_index(items, pred) {
        Some(i) => items.update(i, item),
        None => items.push(item),
    }
}

/// The first entry of `items` that `pred` holds of.
pub open spec fn first_match<T>(items: Seq<T>, pred: spec_fn(T) -> bool) -> Option<T> {
    match first_index(items, pred) {
        Some(i) => Some(items[i]),
        None => None,
    }
}

/// How many arguments a builtin takes.
pub open spec fn builtin_arity(builtin: Builtin) -> nat {
    match builtin {
        Builtin::Print => 1,
        Builtin::Len => 1,
        Builtin::Push => 2,
    }
}

impl EnvView {
    /// The function registered under `name`.
    pub open spec fn get_function(self, name: Seq<char>) -> Option<FunctionInfoView> {
        match first_match(self.functions, function_named(name)) {
            Some(f) => Some(f.info),
            None => None,
        }
    }

    /// The environment with `info` registered under `name`.
    pub open spec fn register_function(self, name: Seq<char>, info: FunctionInfoView) -> EnvView {
        EnvView {
            functions: replace_or_push(
                self.functions,
                function_named(name),
                NamedFunctionView { name, info },
            ),
            ..self
        }
    }

    /// The field schema registered under `name`.
    pub open spec fn get_struct(self, name: Seq<char>) -> Option<Seq<FieldDefView>> {
        match first_match(self.structs, struct_named(name)) {
            Some(s) => Some(s.fields),
            None => None,
        }
    }

    /// The environment with the schema `fields` registered under `name`.
    pub open spec fn register_struct(self, name: Seq<char>, fields: Seq<FieldDefView>) -> EnvView {
        EnvView {
            structs: replace_or_push(
                self.structs,
                struct_named(name),
                StructInfoView { name, fields },
            ),
            ..self
        }
    }

    /// The method registered for the struct `struct_name` under
    /// `method_name`.
    pub open spec fn get_method(self, struct_name: Seq<char>, method_name: Seq<char>) -> Option<
        FunctionInfoView,
    > {
        match first_match(self.methods, method_named(struct_name, method_name)) {
            Some(m) => Some(m.info),
            None => None,
        }
    }

    /// The environment with `info` registered for the struct `struct_name`
    /// under `method_name`.
    pub open spec fn register_method(
        self,
        struct_name: Seq<char>,
        method_name: Seq<char>,
        info: FunctionInfoView,
    ) -> EnvView {
        EnvView {
            methods: replace_or_push(
                self.methods,
                method_named(struct_name, method_name),
                MethodInfoView { struct_name, method_name, info },
            ),
            ..self
        }
    }

    /// The builtin registered under `name`.
    pub open spec fn get_builtin(self, name: Seq<char>) -> Option<Builtin> {
        match first_match(self.builtins, builtin_named(name)) {
            Some(b) => Some(b.builtin),
            None => None,
        }
    }

    /// The environment with `builtin` registered under `name`.
    pub open spec fn register_builtin(self, name: Seq<char>, builtin: Builtin) -> EnvView {
        EnvView {
            builtins: replace_or_push(
                self.builtins,
                builtin_named(name),
                BuiltinEntryView { name, builtin },
            ),
            ..self
        }
    }

    /// The module registered under `name`.
    pub open spec fn get_module(self, name: Seq<char>) -> Option<ModuleView> {
        first_match(self.modules, module_named(name))
    }

    /// The environment with `module` registered under its name.
    pub open spec fn register_module(self, module: ModuleView) -> EnvView {
        EnvView {
            modules: replace_or_push(self.modules, module_named(module.name), module),
            ..self
        }
    }
}

/// The position of the first function entry named `name`.
pub fn find_function(items: &Vec<NamedFunction>, name: &String) -> (r: Option<usize>)
    ensures
        match r {
            Some(i) => first_index(named_functions_view(*items), function_named(name@)) == Some(i as int),
            None => first_index(named_functions_view(*items), function_named(name@)) is None,
        },
{
    let mut i: usize = 0;
    while i < items.len()
        invariant
            i <= items.len(),
            forall|j: int| 0 <= j < i ==> !function_named(name@)(#[trigger] named_functions_view(*items)[j]),
        decreases items.len() - i,
    {
        if same_text(&items[i].name, name) {
            proof {
                lemma_first_index(named_functions_view(*items), function_named(name@), i as int);
            }
            return Some(i);
        }
        i += 1;
    }
    proof {
        lemma_first_index_none(named_functions_view(*items), function_named(name@));
    }
    None
}

/// The position of the first struct entry named `name`.
pub fn find_struct(items: &Vec<StructInfo>, name: &String) -> (r: Option<usize>)
    ensures
        match r {
            Some(i) => first_index(structs_view(*items), struct_named(name@)) == Some(i as int),
            None => first_index(structs_view(*items), struct_named(name@)) is None,
        },
{
    let mut i: usize = 0;
    while i < items.len()
        invariant
            i <= items.len(),
            forall|j: int| 0 <= j < i ==> !struct_named(name@)(#[trigger] structs_view(*items)[j]),
        decreases items.len() - i,
    {
        if same_text(&items[i].name, name) {
            proof {
                lemma_first_index(structs_view(*items), struct_named(name@), i as int);
            }
            return Some(i);
        }
        i += 1;
    }
    proof {
        lemma_first_index_none(structs_view(*items), struct_named(name@));
    }
    None
}

/// The position of the first method entry of the struct `struct_name` named `method_name`.
pub fn find_method(items: &Vec<MethodInfo>, struct_name: &String, method_name: &String) -> (r: Option<usize>)
    ensures
        match r {
            Some(i) => first_index(methods_view(*items), method_named(struct_name@, method_name@)) == Some(i as int),
            None => first_index(methods_view(*items), method_named(struct_name@, method_name@)) is None,
        },
{
    let mut i: usize = 0;
    while i < items.len()
        invariant
            i <= items.len(),
            forall|j: int| 0 <= j < i ==> !method_named(struct_name@, method_name@)(#[trigger] methods_view(*items)[j]),
        decreases items.len() - i,
    {
        if same_text(&items[i].struct_name, struct_name) && same_text(&items[i].method_name, method_name) {
            proof {
                lemma_first_index(methods_view(*items), method_named(struct_name@, method_name@), i as int);
            }
            return Some(i);
        }
        i += 1;
    }
    proof {
        lemma_first_index_none(methods_view(*items), method_named(struct_name@, method_name@));
    }
    None
}

/// The position of the first builtin entry named `name`.
pub fn find_builtin(items: &Vec<BuiltinEntry>, name: &String) -> (r: Option<usize>)
    ensures
        match r {
            Some(i) => first_index(builtins_view(*items), builtin_named(name@)) == Some(i as int),
            None => first_index(builtins_view(*items), builtin_named(name@)) is None,
        },
{
    let mut i: usize = 0;
    while i < items.len()
        invariant
            i <= items.len(),
            forall|j: int| 0 <= j < i ==> !builtin_named(name@)(#[trigger] builtins_view(*items)[j]),
        decreases items.len() - i,
    {
        if same_text(&items[i].name, name) {
            proof {
                lemma_first_index(builtins_view(*items), builtin_named(name@), i as int);
            }
            return Some(i);
        }
        i += 1;
    }
    proof {
        lemma_first_index_none(builtins_view(*items), builtin_named(name@));
    }
    None
}

/// The position of the first module named `name`.
pub fn find_module(items: &Vec<Module>, name: &String) -> (r: Option<usize>)
    ensures
        match r {
            Some(i) => first_index(modules_view(*items), module_named(name@)) == Some(i as int),
            None => first_index(modules_view(*items), module_named(name@)) is None,
        },
{
    let mut i: usize = 0;
    while i < items.len()
        invariant
            i <= items.len(),
            forall|j: int| 0 <= j < i ==> !module_named(name@)(#[trigger] modules_view(*items)[j]),
        decreases items.len() - i,
    {
        if same_text(&items[i].name, name) {
            proof {
                lemma_first_index(modules_view(*items), module_named(name@), i as int);
            }
            return Some(i);
        }
        i += 1;
    }
    proof {
        lemma_first_index_none(modules_view(*items), module_named(name@));
    }
    None
}

/// The position of the first field definition named `name`.
pub fn find_field_def(items: &Vec<FieldDef>, name: &String) -> (r: Option<usize>)
    ensures
        match r {
            Some(i) => first_index(field_defs_view(*items), field_def_named(name@)) == Some(i as int),
            None => first_index(field_defs_view(*items), field_def_named(name@)) is None,
        },
{
    let mut i: usize = 0;
    while i < items.len()
        invariant
            i <= items.len(),
            forall|j: int| 0 <= j < i ==> !field_def_named(name@)(#[trigger] field_defs_view(*items)[j]),
        decreases items.len() - i,
    {
        if same_text(&items[i].name, name) {
            proof {
                lemma_first_index(field_defs_view(*items), field_def_named(name@), i as int);
            }
            return Some(i);
        }
        i += 1;
    }
    proof {
        lemma_first_index_none(field_defs_view(*items), field_def_named(name@));
    }
    None
}

impl View for NamedFunction {
    type V = NamedFunctionView;

    open spec fn view(&self) -> NamedFunctionView {
        NamedFunctionView { name: self.name@, info: function_info_view(self.info) }
    }
}

impl View for MethodInfo {
    type V = MethodInfoView;

    open spec fn view(&self) -> MethodInfoView {
        MethodInfoView {
            struct_name: self.struct_name@,
            method_name: self.method_name@,
            info: function_info_view(self.info),
        }
    }
}

impl Builtin {
    /// How many arguments the builtin takes.
    pub fn arity(&self) -> (r: usize)
        ensures
            r == builtin_arity(*self),
    {
        match self {
            Builtin::Print => 1,
            Builtin::Len => 1,
            Builtin::Push => 2,
        }
    }
}

impl Env {

    /// The function registered under `name`.
    pub fn get_function(&self, name: &String) -> (r: Option<&FunctionInfo>)
        ensures
            match r {
                Some(found) => self@.get_function(name@) == Some(found@),
                None => self@.get_function(name@) is None,
            },
    {
        match find_function(&self.functions, name) {
            Some(i) => Some(&self.functions[i].info),
            None => None,
        }
    }

    /// Registers `info` under `name`, in place of an earlier function of that name.
    pub fn register_function(&mut self, name: String, info: FunctionInfo)
        ensures
            final(self)@ == old(self)@.register_function(name@, info@),
    {
        let ghost before = self@;
        let found = find_function(&self.functions, &name);
        let item = NamedFunction { name, info };
        let ghost item_view = item@;
        match found {
            Some(i) => {
                self.functions.set(i, item);
                assert(named_functions_view(self.functions) =~= before.functions.update(i as int, item_view));
            },
            None => {
                self.functions.push(item);
                assert(named_functions_view(self.functions) =~= before.functions.push(item_view));
            },
        }
    }

    /// The field schema registered under `name`.
    pub fn get_struct(&self, name: &String) -> (r: Option<&Vec<FieldDef>>)
        ensures
            match r {
                Some(found) => self@.get_struct(name@) == Some(field_defs_view(*found)),
                None => self@.get_struct(name@) is None,
            },
    {
        match find_struct(&self.structs, name) {
            Some(i) => Some(&self.structs[i].fields),
            None => None,
        }
    }

    /// Registers the schema `fields` under `name`, in place of an earlier struct of that name.
    pub fn register_struct(&mut self, name: String, fields: Vec<FieldDef>)
        ensures
            final(self)@ == old(self)@.register_struct(name@, field_defs_view(fields)),
    {
        let ghost before = self@;
        let found = find_struct(&self.structs, &name);
        let item = StructInfo { name, fields };
        let ghost item_view = item@;
        match found {
            Some(i) => {
                self.structs.set(i, item);
                assert(structs_view(self.structs) =~= before.structs.update(i as int, item_view));
            },
            None => {
                self.structs.push(item);
                assert(structs_view(self.structs) =~= before.structs.push(item_view));
            },
        }
    }

    /// The method registered for the struct `struct_name` under `method_name`.
    pub fn get_method(&self, struct_name: &String, method_name: &String) -> (r: Option<&FunctionInfo>)
        ensures
            match r {
                Some(found) => self@.get_method(struct_name@, method_name@) == Some(found@),
                None => self@.get_method(struct_name@, method_name@) is None,
            },
    {
        match find_method(&self.methods, struct_name, method_name) {
            Some(i) => Some(&self.methods[i].info),
            None => None,
        }
    }

    /// Registers `info` for the struct `struct_name` under `method_name`, in
    /// place of an earlier method of that struct and name.
    pub fn register_method(&mut self, struct_name: String, method_name: String, info: FunctionInfo)
        ensures
            final(self)@ == old(self)@.register_method(struct_name@, method_name@, info@),
    {
        let ghost before = self@;
        let found = find_method(&self.methods, &struct_name, &method_name);
        let item = MethodInfo { struct_name, method_name, info };
        let ghost item_view = item@;
        match found {
            Some(i) => {
                self.methods.set(i, item);
                assert(methods_view(self.methods) =~= before.methods.update(i as int, item_view));
            },
            None => {
                self.methods.push(item);
                assert(methods_view(self.methods) =~= before.methods.push(item_view));
            },
        }
    }

    /// The builtin registered under `name`.
    pub fn get_builtin(&self, name: &String) -> (r: Option<Builtin>)
        ensures
            match r {
                Some(found) => self@.get_builtin(name@) == Some(found),
                None => self@.get_builtin(name@) is None,
            },
    {
        match find_builtin(&self.builtins, name) {
            Some(i) => Some(self.builtins[i].builtin),
            None => None,
        }
    }

    /// Registers `builtin` under `name`, in place of an earlier builtin of that name.
    pub fn register_builtin(&mut self, name: String, builtin: Builtin)
        ensures
            final(self)@ == old(self)@.register_builtin(name@, builtin),
    {
        let ghost before = self@;
        let found = find_builtin(&self.builtins, &name);
        let item = BuiltinEntry { name, builtin };
        let ghost item_view = item@;
        match found {
            Some(i) => {
                self.builtins.set(i, item);
                assert(builtins_view(self.builtins) =~= before.builtins.update(i as int, item_view));
            },
            None => {
                self.builtins.push(item);
                assert(builtins_view(self.builtins) =~= before.builtins.push(item_view));
            },
        }
    }

    /// The module registered under `name`.
    pub fn get_module(&self, name: &String) -> (r: Option<&Module>)
        ensures
            match r {
                Some(found) => self@.get_module(name@) == Some(found@),
                None => self@.get_module(name@) is None,
            },
    {
        match find_module(&self.modules, name) {
            Some(i) => Some(&self.modules[i]),
            None => None,
        }
    }

    /// Registers `module` under its name, in place of an earlier module of that name.
    pub fn register_module(&mut self, module: Module)
        ensures
            final(self)@ == old(self)@.register_module(module@),
    {
        let ghost before = self@;
        let found = find_module(&self.modules, &module.name);
        let item = module;
        let ghost item_view = item@;
        match found {
            Some(i) => {
                self.modules.set(i, item);
                assert(modules_view(self.modules) =~= before.modules.update(i as int, item_view));
            },
            None => {
                self.modules.push(item);
                assert(modules_view(self.modules) =~= before.modules.push(item_view));
            },
        }
    }
}

/// An entry that was registered is the first match of its key.
pub proof fn lemma_replace_or_push_same<T>(items: Seq<T>, pred: spec_fn(T) -> bool, item: T)
    requires
        pred(item),
    ensures
        first_match(replace_or_push(items, pred, item), pred) == Some(item),
{
    lemma_first_index_is_first(items, pred);
    match first_index(items, pred) {
        Some(i) => {
            let after = items.update(i, item);
            assert(after[i] == item);
            assert forall|j: int| 0 <= j < i implies !pred(#[trigger] after[j]) by {
                assert(after[j] == items[j]);
            }
            assert(is_first(after, pred, i));
            lemma_first_index(after, pred, i);
        },
        None => {
            let after = items.push(item);
            let n = items.len() as int;
            assert(after[n] == item);
            assert forall|j: int| 0 <= j < n implies !pred(#[trigger] after[j]) by {
                assert(after[j] == items[j]);
            }
            assert(is_first(after, pred, n));
            lemma_first_index(after, pred, n);
        },
    }
}

/// Registering an entry under one key leaves the first match of every key
/// that shares no entry with it as it was.
pub proof fn lemma_replace_or_push_other<T>(
    items: Seq<T>,
    pred: spec_fn(T) -> bool,
    item: T,
    other: spec_fn(T) -> bool,
)
    requires
        pred(item),
        forall|x: T| #[trigger] pred(x) ==> !other(x),
    ensures
        first_match(replace_or_push(items, pred, item), other) == first_match(items, other),
{
    let after = replace_or_push(items, pred, item);
    lemma_first_index_is_first(items, pred);
    lemma_first_index_is_first(items, other);
    assert forall|j: int| 0 <= j < items.len() implies (other(#[trigger] after[j]) == other(
        items[j],
    )) by {
        match first_index(items, pred) {
            Some(i) => {
                if j == i {
                    assert(pred(items[i]));
                    assert(after[j] == item);
                } else {
                    assert(after[j] == items[j]);
                }
            },
            None => {
                assert(after[j] == items[j]);
            },
        }
    }
    match first_index(items, other) {
        Some(k) => {
            assert(!pred(items[k]));
            assert(after[k] == items[k]);
            assert forall|j: int| 0 <= j < k implies !other(#[trigger] after[j]) by {
                assert(other(after[j]) == other(items[j]));
            }
            assert(is_first(after, other, k));
            lemma_first_index(after, other, k);
        },
        None => {
            assert forall|j: int| 0 <= j < after.len() implies !other(#[trigger] after[j]) by {
                if j < items.len() {
                    assert(other(after[j]) == other(items[j]));
                } else {
                    assert(after[j] == item);
                }
            }
            lemma_first_index_none(after, other);
        },
    }
}

} // verus!
