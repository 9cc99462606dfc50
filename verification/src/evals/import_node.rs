//! `import`: loading symbols of a registered module.

use crate::ast::{clone_field_defs, strings_view};
use crate::environment::{clone_function_info, clone_module, Env, Module};
use crate::error::{RuntimeError, RuntimeErrorKind};
use crate::evals::outcome_of;

use crate::semantics::{import_spec, import_symbol, import_symbols};
use crate::tables::{find_function, find_struct};
use crate::value::Value;

use vstd::prelude::*;

verus! {

/// The model of the result of loading one symbol.
pub open spec fn loaded_view(r: Result<(), RuntimeErrorKind>, env: Env) -> Result<
    crate::environment::EnvView,
    RuntimeErrorKind,
> {
    match r {
        Ok(_) => Ok(env@),
        Err(kind) => Err(kind),
    }
}

/// Loads one symbol of a module: its function of that name, else its struct
/// of that name. Fails with `UnknownSymbol`, and changes nothing, where the
/// module has neither.
pub fn load_symbol(env: &mut Env, module: &Module, symbol: &String) -> (r: Result<
    (),
    RuntimeErrorKind,
>)
    ensures
        loaded_view(r, *final(env)) == import_symbol(old(env)@, module@, symbol@),
        r is Err ==> final(env)@ == old(env)@,
{
    match find_function(&module.functions, symbol) {
        Some(i) => {
            env.register_function(symbol.clone(), clone_function_info(&module.functions[i].info));
            Ok(())
        },
        None => match find_struct(&module.structs, symbol) {
            Some(i) => {
                env.register_struct(symbol.clone(), clone_field_defs(&module.structs[i].fields));
                Ok(())
            },
            None => Err(RuntimeErrorKind::UnknownSymbol),
        },
    }
}

/// One step of the loading of symbols.
proof fn lemma_import_step(
    env: crate::environment::EnvView,
    module: crate::environment::ModuleView,
    symbols: Seq<Seq<char>>,
    i: nat,
    line: usize,
    column: usize,
)
    requires
        i < symbols.len(),
    ensures
        import_symbols(env, module, symbols, i, line, column) == match import_symbol(
            env,
            module,
            symbols[i as int],
        ) {
            Err(kind) => crate::semantics::fail(kind, line, column, env),
            Ok(next) => import_symbols(next, module, symbols, i + 1, line, column),
        },
{
    reveal(import_symbols);
}

/// The end of the loading of symbols.
proof fn lemma_import_end(
    env: crate::environment::EnvView,
    module: crate::environment::ModuleView,
    symbols: Seq<Seq<char>>,
    i: nat,
    line: usize,
    column: usize,
)
    requires
        i >= symbols.len(),
    ensures
        import_symbols(env, module, symbols, i, line, column) == crate::semantics::done(
            crate::value::ValueView::Void,
            env,
        ),
{
    reveal(import_symbols);
}

/// Evaluates an `import`: loads the named symbols of the named module, in
/// order, into the function and struct tables.
///
/// Fails with `UnknownModule` where no module of that name is registered,
/// and with `UnknownSymbol` at the first symbol that the module does not
/// have; the symbols before it stay loaded.
pub fn import_node(
    module_name: &String,
    symbols: &Vec<String>,
    line: usize,
    column: usize,
    env: &mut Env,
) -> (r: Result<Value, RuntimeError>)
    ensures
        outcome_of(r, *final(env)) == import_spec(
            old(env)@,
            module_name@,
            strings_view(*symbols),
            line,
            column,
        ),
{
    let module = match env.get_module(module_name) {
        None => {
            return Err(RuntimeError::new(RuntimeErrorKind::UnknownModule, line, column));
        },
        Some(m) => clone_module(m),
    };
    let ghost goal = import_symbols(env@, module@, strings_view(*symbols), 0, line, column);
    let ghost syms = strings_view(*symbols);
    let ghost mv = module@;
    let mut i: usize = 0;
    while i < symbols.len()
        invariant
            i <= symbols.len(),
            syms == strings_view(*symbols),
            mv == module@,
            import_symbols(env@, mv, syms, i as nat, line, column) == goal,
            import_spec(old(env)@, module_name@, syms, line, column) == goal,
        decreases symbols.len() - i,
    {
        let ghost before = env@;
        let loaded = load_symbol(env, &module, &symbols[i]);
        proof {
            assert(syms[i as int] == symbols[i as int]@);
            assert(syms.len() == symbols.len());
            lemma_import_step(before, mv, syms, i as nat, line, column);
        }
        match loaded {
            Ok(_) => {},
            Err(kind) => {
                return Err(RuntimeError::new(kind, line, column));
            },
        }
        i += 1;
    }
    proof {
        assert(syms.len() == symbols.len());
        lemma_import_end(env@, mv, syms, i as nat, line, column);
    }
    Ok(Value::Void)
}

} // verus!
