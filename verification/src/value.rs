//! Runtime values and declared types.

use crate::ast::{clone_node, clone_nodes, node_view, nodes_view, ASTNode, NodeView};
use crate::environment::{clone_env, env_view, Env, EnvView};
use crate::error::ValueKind;

use crate::number::Number;

use vstd::prelude::*;

verus! {

/// A declared type. Annotations are advisory: they are recorded, and consulted
/// only where a lookup asks for a value of a given type.
#[derive(Debug, PartialEq)]
pub enum ValueType {
    Any,
    Number,
    String,
    Bool,
    Void,
    List(Box<ValueType>),
    OptionType(Box<ValueType>),
    ResultType { success: Box<ValueType>, failure: Box<ValueType> },
    Function,
    Lambda,
    /// A struct, by its name.
    Struct(String),
}

/// The mathematical model of a [`ValueType`].
pub enum ValueTypeView {
    Any,
    Number,
    String,
    Bool,
    Void,
    List(Box<ValueTypeView>),
    OptionType(Box<ValueTypeView>),
    ResultType { success: Box<ValueTypeView>, failure: Box<ValueTypeView> },
    Function,
    Lambda,
    Struct(Seq<char>),
}

/// The model of a declared type.
pub open spec fn value_type_view(t: ValueType) -> ValueTypeView
    decreases t,
{
    match t {
        ValueType::Any => ValueTypeView::Any,
        ValueType::Number => ValueTypeView::Number,
        ValueType::String => ValueTypeView::String,
        ValueType::Bool => ValueTypeView::Bool,
        ValueType::Void => ValueTypeView::Void,
        ValueType::List(e) => ValueTypeView::List(Box::new(value_type_view(*e))),
        ValueType::OptionType(e) => ValueTypeView::OptionType(Box::new(value_type_view(*e))),
        ValueType::ResultType { success, failure } => ValueTypeView::ResultType {
            success: Box::new(value_type_view(*success)),
            failure: Box::new(value_type_view(*failure)),
        },
        ValueType::Function => ValueTypeView::Function,
        ValueType::Lambda => ValueTypeView::Lambda,
        ValueType::Struct(name) => ValueTypeView::Struct(name@),
    }
}

impl View for ValueType {
    type V = ValueTypeView;

    open spec fn view(&self) -> ValueTypeView {
        value_type_view(*self)
    }
}

impl Clone for ValueType {
    fn clone(&self) -> (r: Self)
        ensures
            r == *self,
        decreases self,
    {
        match self {
            ValueType::Any => ValueType::Any,
            ValueType::Number => ValueType::Number,
            ValueType::String => ValueType::String,
            ValueType::Bool => ValueType::Bool,
            ValueType::Void => ValueType::Void,
            ValueType::List(e) => ValueType::List(Box::new((**e).clone())),
            ValueType::OptionType(e) => ValueType::OptionType(Box::new((**e).clone())),
            ValueType::ResultType { success, failure } => ValueType::ResultType {
                success: Box::new((**success).clone()),
                failure: Box::new((**failure).clone()),
            },
            ValueType::Function => ValueType::Function,
            ValueType::Lambda => ValueType::Lambda,
            ValueType::Struct(name) => ValueType::Struct(name.clone()),
        }
    }
}

/// A field of a struct instance.
#[derive(Debug, PartialEq)]
pub struct FieldValue {
    pub name: String,
    pub value: Value,
}

/// The mathematical model of a [`FieldValue`].
pub struct FieldValueView {
    pub name: Seq<char>,
    pub value: ValueView,
}

/// A runtime value.
#[derive(Debug, PartialEq)]
pub enum Value {
    /// An exact rational.
    Number(Number),
    String(String),
    Bool(bool),
    List(Vec<Value>),
    Void,
    /// The sentinel that `return` produces. Blocks and loops pass it on; a
    /// call unwraps it.
    Return(Box<Value>),
    /// What a function declaration evaluates to.
    Function,
    /// A closure: its parameters, its body and the environment as it was
    /// when the lambda was evaluated.
    Lambda { arguments: Vec<ASTNode>, body: Box<ASTNode>, env: Box<Env> },
    /// An instance of a struct, with its fields in schema order.
    StructInstance { name: String, fields: Vec<FieldValue> },
}

/// The mathematical model of a [`Value`].
pub enum ValueView {
    Number(Number),
    String(Seq<char>),
    Bool(bool),
    List(Seq<ValueView>),
    Void,
    Return(Box<ValueView>),
    Function,
    Lambda { arguments: Seq<NodeView>, body: Box<NodeView>, env: Box<EnvView> },
    StructInstance { name: Seq<char>, fields: Seq<FieldValueView> },
}

/// The model of a value.
pub open spec fn value_view(v: Value) -> ValueView
    decreases v,
{
    match v {
        Value::Number(n) => ValueView::Number(n),
        Value::String(s) => ValueView::String(s@),
        Value::Bool(b) => ValueView::Bool(b),
        Value::List(items) => ValueView::List(values_view(items)),
        Value::Void => ValueView::Void,
        Value::Return(inner) => ValueView::Return(Box::new(value_view(*inner))),
        Value::Function => ValueView::Function,
        Value::Lambda { arguments, body, env } => ValueView::Lambda {
            arguments: nodes_view(arguments),
            body: Box::new(node_view(*body)),
            env: Box::new(env_view(*env)),
        },
        Value::StructInstance { name, fields } => ValueView::StructInstance {
            name: name@,
            fields: field_values_view(fields),
        },
    }
}

/// The models of the values of a vector, in order.
pub open spec fn values_view(items: Vec<Value>) -> Seq<ValueView>
    decreases items,
{
    Seq::new(
        items.len() as nat,
        |i: int|
            if 0 <= i < items.len() {
                value_view(items[i])
            } else {
                ValueView::Void
            },
    )
}

/// The models of the fields of a vector, in order.
pub open spec fn field_values_view(fields: Vec<FieldValue>) -> Seq<FieldValueView>
    decreases fields,
{
    Seq::new(
        fields.len() as nat,
        |i: int|
            if 0 <= i < fields.len() {
                FieldValueView { name: fields[i].name@, value: value_view(fields[i].value) }
            } else {
                FieldValueView { name: Seq::empty(), value: ValueView::Void }
            },
    )
}

impl View for Value {
    type V = ValueView;

    open spec fn view(&self) -> ValueView {
        value_view(*self)
    }
}

impl View for FieldValue {
    type V = FieldValueView;

    open spec fn view(&self) -> FieldValueView {
        FieldValueView { name: self.name@, value: value_view(self.value) }
    }
}

impl ValueView {
    /// The runtime shape of this value.
    pub open spec fn kind(self) -> ValueKind {
        match self {
            ValueView::Number(_) => ValueKind::Number,
            ValueView::String(_) => ValueKind::String,
            ValueView::Bool(_) => ValueKind::Bool,
            ValueView::List(_) => ValueKind::List,
            ValueView::Void => ValueKind::Void,
            ValueView::Return(_) => ValueKind::Return,
            ValueView::Function => ValueKind::Function,
            ValueView::Lambda { .. } => ValueKind::Lambda,
            ValueView::StructInstance { .. } => ValueKind::StructInstance,
        }
    }

    /// The value that a call hands to its caller: what a `Return` sentinel
    /// holds, or the value itself.
    pub open spec fn unwrap_return(self) -> ValueView {
        match self {
            ValueView::Return(inner) => *inner,
            _ => self,
        }
    }
}

/// A deep copy of a value.
pub fn clone_value(v: &Value) -> (r: Value)
    ensures
        r@ == v@,
    decreases v,
{
    match v {
        Value::Number(n) => Value::Number(*n),
        Value::String(s) => Value::String(s.clone()),
        Value::Bool(b) => Value::Bool(*b),
        Value::List(items) => Value::List(clone_values(items)),
        Value::Void => Value::Void,
        Value::Return(inner) => Value::Return(Box::new(clone_value(inner))),
        Value::Function => Value::Function,
        Value::Lambda { arguments, body, env } => Value::Lambda {
            arguments: clone_nodes(arguments),
            body: Box::new(clone_node(body)),
            env: Box::new(clone_env(env)),
        },
        Value::StructInstance { name, fields } => Value::StructInstance {
            name: name.clone(),
            fields: clone_field_values(fields),
        },
    }
}

/// A deep copy of a vector of values.
pub fn clone_values(items: &Vec<Value>) -> (r: Vec<Value>)
    ensures
        values_view(r) == values_view(*items),
    decreases items,
{
    let mut out: Vec<Value> = Vec::new();
    let mut i: usize = 0;
    while i < items.len()
        invariant
            i <= items.len(),
            out.len() == i,
            forall|j: int| 0 <= j < i ==> value_view(out[j]) == value_view(items[j]),
        decreases items.len() - i,
    {
        let c = clone_value(&items[i]);
        out.push(c);
        i += 1;
    }
    assert(values_view(out) =~= values_view(*items));
    out
}

/// A deep copy of the fields of a struct instance.
pub fn clone_field_values(fields: &Vec<FieldValue>) -> (r: Vec<FieldValue>)
    ensures
        field_values_view(r) == field_values_view(*fields),
    decreases fields,
{
    let mut out: Vec<FieldValue> = Vec::new();
    let mut i: usize = 0;
    while i < fields.len()
        invariant
            i <= fields.len(),
            out.len() == i,
            forall|j: int| 0 <= j < i ==> out[j]@ == fields[j]@,
        decreases fields.len() - i,
    {
        let c = FieldValue { name: fields[i].name.clone(), value: clone_value(&fields[i].value) };
        out.push(c);
        i += 1;
    }
    assert(field_values_view(out) =~= field_values_view(*fields));
    out
}

impl Clone for Value {
    fn clone(&self) -> (r: Self)
        ensures
            r@ == self@,
    {
        clone_value(self)
    }
}

impl Clone for FieldValue {
    fn clone(&self) -> (r: Self)
        ensures
            r@ == self@,
    {
        FieldValue { name: self.name.clone(), value: clone_value(&self.value) }
    }
}

} // verus!
