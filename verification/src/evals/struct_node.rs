//! Structs: declarations, methods, instances and fields.

use crate::ast::{
    clone_field_defs, clone_node, clone_nodes, field_defs_view, field_inits_view, nodes_view,
    ASTNode, FieldDef, FieldInit,
};
use crate::environment::{Env, EnvVariableType, FunctionInfo};
use crate::error::{RuntimeError, RuntimeErrorKind};
use crate::evals::binary_op::kind_result_view;

use crate::evals::{eval_node, outcome_of};
use crate::search::{first_index, lemma_first_index, lemma_first_index_none};
use crate::semantics::{
    all_functions, field_access_spec, field_assign_spec, field_init_named, field_value_named,
    fields_spec, impl_spec, instance_fields, missing_field, register_methods, schema_spec,
    unexpected_field, with_field, FieldsOutcome,
};
use crate::tables::{field_def_named, find_field_def};
use crate::token::same_text;

use crate::value::{clone_value, field_values_view, FieldValue, Value, ValueType};
use vstd::prelude::*;

verus! {

/// The position of the first field named `name`.
pub fn find_field_value(fields: &Vec<FieldValue>, name: &String) -> (r: Option<usize>)
    ensures
        match r {
            Some(i) => first_index(field_values_view(*fields), field_value_named(name@)) == Some(
                i as int,
            ),
            None => first_index(field_values_view(*fields), field_value_named(name@)) is None,
        },
{
    let mut i: usize = 0;
    while i < fields.len()
        invariant
            i <= fields.len(),
            forall|j: int|
                0 <= j < i ==> !field_value_named(name@)(#[trigger] field_values_view(*fields)[j]),
        decreases fields.len() - i,
    {
        if same_text(&fields[i].name, name) {
            proof {
                lemma_first_index(field_values_view(*fields), field_value_named(name@), i as int);
            }
            return Some(i);
        }
        i += 1;
    }
    proof {
        lemma_first_index_none(field_values_view(*fields), field_value_named(name@));
    }
    None
}

/// The position of the first initialiser named `name`.
pub fn find_field_init(inits: &Vec<FieldInit>, name: &String) -> (r: Option<usize>)
    ensures
        match r {
            Some(i) => first_index(field_inits_view(*inits), field_init_named(name@)) == Some(
                i as int,
            ),
            None => first_index(field_inits_view(*inits), field_init_named(name@)) is None,
        },
{
    let mut i: usize = 0;
    while i < inits.len()
        invariant
            i <= inits.len(),
            forall|j: int|
                0 <= j < i ==> !field_init_named(name@)(#[trigger] field_inits_view(*inits)[j]),
        decreases inits.len() - i,
    {
        if same_text(&inits[i].name, name) {
            proof {
                lemma_first_index(field_inits_view(*inits), field_init_named(name@), i as int);
            }
            return Some(i);
        }
        i += 1;
    }
    proof {
        lemma_first_index_none(field_inits_view(*inits), field_init_named(name@));
    }
    None
}

/// Reads a field of a struct instance.
///
/// Fails with `TypeMismatch` where the value is no struct instance, and
/// with `UnknownField` where the instance has no field of that name.
pub fn struct_field_access_node(instance: &Value, field_name: &String) -> (r: Result<
    Value,
    RuntimeErrorKind,
>)
    ensures
        kind_result_view(r) == field_access_spec(instance@, field_name@),
{
    match instance {
        Value::StructInstance { fields, .. } => match find_field_value(fields, field_name) {
            Some(i) => {
                assert(field_values_view(*fields)[i as int].value == fields[i as int].value@);
                Ok(clone_value(&fields[i].value))
            },
            None => Err(RuntimeErrorKind::UnknownField),
        },
        _ => Err(RuntimeErrorKind::TypeMismatch),
    }
}

/// The instance with `value` as the value of its first field named
/// `field_name`; the value itself where it is no instance or has no such
/// field.
pub fn set_field(instance: Value, field_name: &String, value: Value) -> (r: Value)
    ensures
        r@ == with_field(instance@, field_name@, value@),
{
    match instance {
        Value::StructInstance { name, fields } => {
            let mut fields = fields;
            let ghost before = field_values_view(fields);
            match find_field_value(&fields, field_name) {
                Some(i) => {
                    fields.set(i, FieldValue { name: field_name.clone(), value });
                    assert(field_values_view(fields) =~= before.update(
                        i as int,
                        crate::value::FieldValueView { name: field_name@, value: value@ },
                    ));
                    Value::StructInstance { name, fields }
                },
                None => Value::StructInstance { name, fields },
            }
        },
        other => other,
    }
}

/// Whether some initialiser names no field of the schema.
pub fn has_unexpected_field(schema: &Vec<FieldDef>, inits: &Vec<FieldInit>) -> (r: bool)
    ensures
        r == unexpected_field(field_defs_view(*schema), field_inits_view(*inits)),
{
    let mut i: usize = 0;
    while i < inits.len()
        invariant
            i <= inits.len(),
            forall|j: int|
                0 <= j < i ==> first_index(
                    field_defs_view(*schema),
                    field_def_named(#[trigger] field_inits_view(*inits)[j].name),
                ) is Some,
        decreases inits.len() - i,
    {
        if find_field_def(schema, &inits[i].name).is_none() {
            assert(field_inits_view(*inits)[i as int].name == inits[i as int].name@);
            return true;
        }
        assert(field_inits_view(*inits)[i as int].name == inits[i as int].name@);
        i += 1;
    }
    false
}

/// Whether some field of the schema has no initialiser.
pub fn has_missing_field(schema: &Vec<FieldDef>, inits: &Vec<FieldInit>) -> (r: bool)
    ensures
        r == missing_field(field_defs_view(*schema), field_inits_view(*inits)),
{
    let mut i: usize = 0;
    while i < schema.len()
        invariant
            i <= schema.len(),
            forall|j: int|
                0 <= j < i ==> first_index(
                    field_inits_view(*inits),
                    field_init_named(#[trigger] field_defs_view(*schema)[j].name),
                ) is Some,
        decreases schema.len() - i,
    {
        if find_field_init(inits, &schema[i].name).is_none() {
            assert(field_defs_view(*schema)[i as int].name == schema[i as int].name@);
            return true;
        }
        assert(field_defs_view(*schema)[i as int].name == schema[i as int].name@);
        i += 1;
    }
    false
}

/// The fields of an instance, in schema order: each has the value of the
/// first of `values` with its name, or `Void` where there is none.
pub fn build_instance_fields(schema: &Vec<FieldDef>, values: &Vec<FieldValue>) -> (r: Vec<FieldValue>)
    ensures
        field_values_view(r) == instance_fields(field_defs_view(*schema), field_values_view(*values)),
{
    let mut out: Vec<FieldValue> = Vec::new();
    let mut i: usize = 0;
    while i < schema.len()
        invariant
            i <= schema.len(),
            out.len() == i,
            forall|j: int|
                0 <= j < i ==> (#[trigger] out[j])@ == instance_fields(
                    field_defs_view(*schema),
                    field_values_view(*values),
                )[j],
        decreases schema.len() - i,
    {
        let value = match find_field_value(values, &schema[i].name) {
            Some(k) => {
                assert(field_values_view(*values)[k as int].value == values[k as int].value@);
                clone_value(&values[k].value)
            },
            None => Value::Void,
        };
        assert(field_defs_view(*schema)[i as int].name == schema[i as int].name@);
        out.push(FieldValue { name: schema[i].name.clone(), value });
        i += 1;
    }
    assert(field_values_view(out) =~= instance_fields(
        field_defs_view(*schema),
        field_values_view(*values),
    ));
    out
}

/// Whether every node is a `Function` node.
pub fn are_functions(methods: &Vec<ASTNode>) -> (r: bool)
    ensures
        r == all_functions(nodes_view(*methods)),
{
    let mut i: usize = 0;
    while i < methods.len()
        invariant
            i <= methods.len(),
            forall|j: int| 0 <= j < i ==> (#[trigger] nodes_view(*methods)[j]) is Function,
        decreases methods.len() - i,
    {
        match &methods[i] {
            ASTNode::Function { .. } => {},
            _ => {
                assert(!(nodes_view(*methods)[i as int] is Function));
                return false;
            },
        }
        i += 1;
    }
    true
}

/// Evaluates a struct declaration: registers the schema under the name.
pub fn struct_node(name: &String, fields: &Vec<FieldDef>, env: &mut Env) -> (r: Value)
    ensures
        r == Value::Void,
        final(env)@ == old(env)@.register_struct(name@, field_defs_view(*fields)),
{
    env.register_struct(name.clone(), clone_field_defs(fields));
    Value::Void
}

/// Evaluates an `impl`: registers each method under the struct's name and
/// its own.
///
/// Fails with `Unsupported`, and registers nothing, where a method is no
/// `Function` node.
pub fn impl_node(
    base_struct: &String,
    methods: &Vec<ASTNode>,
    line: usize,
    column: usize,
    env: &mut Env,
) -> (r: Result<Value, RuntimeError>)
    ensures
        outcome_of(r, *final(env)) == impl_spec(
            old(env)@,
            base_struct@,
            nodes_view(*methods),
            line,
            column,
        ),
{
    if !are_functions(methods) {
        return Err(RuntimeError::new(RuntimeErrorKind::Unsupported, line, column));
    }
    let mut i: usize = 0;
    while i < methods.len()
        invariant
            i <= methods.len(),
            env@ == register_methods(old(env)@, base_struct@, nodes_view(*methods), i as nat),
        decreases methods.len() - i,
    {
        assert(nodes_view(*methods)[i as int] == methods[i as int]@);
        match &methods[i] {
            ASTNode::Function { name, arguments, body, return_type, .. } => {
                env.register_method(
                    base_struct.clone(),
                    name.clone(),
                    FunctionInfo {
                        arguments: clone_nodes(arguments),
                        body: Some(clone_node(body)),
                        return_type: return_type.clone(),
                        builtin: None,
                    },
                );
            },
            _ => {},
        }
        i += 1;
    }
    assert(nodes_view(*methods).len() == methods.len());
    Ok(Value::Void)
}

/// The model of a schema or the reason why there is none.
pub open spec fn schema_view(r: Result<Vec<FieldDef>, RuntimeErrorKind>) -> Result<
    Seq<crate::ast::FieldDefView>,
    RuntimeErrorKind,
> {
    match r {
        Ok(schema) => Ok(field_defs_view(schema)),
        Err(kind) => Err(kind),
    }
}

/// The schema that an instantiation is checked against.
///
/// Fails with `UnknownStruct` where no struct of that name is registered,
/// with `UnexpectedField` where an initialiser names no field of the
/// schema, and with `MissingField` where a field of the schema has no
/// initialiser.
pub fn checked_schema(name: &String, inits: &Vec<FieldInit>, env: &Env) -> (r: Result<
    Vec<FieldDef>,
    RuntimeErrorKind,
>)
    ensures
        schema_view(r) == schema_spec(name@, field_inits_view(*inits), env@),
{
    let schema = match env.get_struct(name) {
        None => {
            return Err(RuntimeErrorKind::UnknownStruct);
        },
        Some(fields) => clone_field_defs(fields),
    };
    if has_unexpected_field(&schema, inits) {
        return Err(RuntimeErrorKind::UnexpectedField);
    }
    if has_missing_field(&schema, inits) {
        return Err(RuntimeErrorKind::MissingField);
    }
    Ok(schema)
}

/// The outcome that a list of fields, or an error, and the environment
/// left behind stand for.
pub open spec fn fields_outcome_of(r: Result<Vec<FieldValue>, RuntimeError>, env: Env) -> FieldsOutcome {
    FieldsOutcome {
        result: match r {
            Ok(fields) => Ok(field_values_view(fields)),
            Err(e) => Err(e),
        },
        env: env@,
    }
}

/// Evaluates the field initialisers of an instantiation, in order.
pub fn eval_fields(inits: &Vec<FieldInit>, env: &mut Env, depth: usize) -> (r: Result<
    Vec<FieldValue>,
    RuntimeError,
>)
    ensures
        fields_outcome_of(r, *final(env)) == fields_spec(
            field_inits_view(*inits),
            0,
            Seq::empty(),
            old(env)@,
            depth as nat,
        ),
    decreases depth, inits, 2nat,
{
    let ghost goal = fields_spec(field_inits_view(*inits), 0, Seq::empty(), env@, depth as nat);
    let mut fields: Vec<FieldValue> = Vec::new();
    assert(field_values_view(fields) =~= Seq::empty());
    let mut i: usize = 0;
    while i < inits.len()
        invariant
            i <= inits.len(),
            fields_spec(field_inits_view(*inits), i as nat, field_values_view(fields), env@, depth as nat)
                == goal,
            goal == fields_spec(field_inits_view(*inits), 0, Seq::empty(), old(env)@, depth as nat),
        decreases inits.len() - i,
    {
        assert(field_inits_view(*inits)[i as int] == inits[i as int]@);
        assert(field_inits_view(*inits).len() == inits.len());
        let ghost before = field_values_view(fields);
        let value = eval_node(&inits[i].value, env, depth)?;
        let field = FieldValue { name: inits[i].name.clone(), value };
        let ghost field_view = field@;
        fields.push(field);
        assert(field_values_view(fields) =~= before.push(field_view));
        i += 1;
    }
    assert(field_inits_view(*inits).len() == inits.len());
    Ok(fields)
}

/// Assigns an evaluated value to a field of an evaluated instance.
///
/// Where the instance expression is a variable, the variable is reassigned
/// to the changed instance, which fails with `ReassignImmutable` where its
/// visible binding is immutable. The assignment evaluates to the value.
pub fn struct_field_assign_node(
    instance: &ASTNode,
    target: Value,
    field_name: &String,
    assigned: Value,
    line: usize,
    column: usize,
    env: &mut Env,
) -> (r: Result<Value, RuntimeError>)
    ensures
        outcome_of(r, *final(env)) == field_assign_spec(
            instance@,
            target@,
            field_name@,
            assigned@,
            line,
            column,
            old(env)@,
        ),
{
    match instance {
        ASTNode::Variable { name, .. } => {
            let changed = set_field(target, field_name, clone_value(&assigned));
            match env.set(name.clone(), changed, EnvVariableType::Mutable, ValueType::Any, false) {
                Ok(_) => Ok(assigned),
                Err(e) => Err(RuntimeError::new(e.kind, line, column)),
            }
        },
        _ => Ok(assigned),
    }
}

} // verus!
