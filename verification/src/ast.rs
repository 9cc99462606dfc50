//! The syntax tree that parsing produces and evaluation consumes.

use crate::environment::EnvVariableType;

use crate::token::{TokenKind, TokenKindView};
use crate::value::{
    clone_value, value_type_view, value_view, Value, ValueType, ValueTypeView, ValueView,
};
use vstd::prelude::*;

verus! {

/// A field of a struct schema: its name and declared type.
#[derive(Debug, PartialEq)]
pub struct FieldDef {
    pub name: String,
    pub value_type: ValueType,
}

/// The mathematical model of a [`FieldDef`].
pub struct FieldDefView {
    pub name: Seq<char>,
    pub value_type: ValueTypeView,
}

/// A field of an instantiation: its name and the expression for its value.
#[derive(Debug, PartialEq)]
pub struct FieldInit {
    pub name: String,
    pub value: ASTNode,
}

/// The mathematical model of a [`FieldInit`].
pub struct FieldInitView {
    pub name: Seq<char>,
    pub value: NodeView,
}

/// A node of the syntax tree. Every node carries the source position of the
/// construct it stands for.
#[derive(Debug, PartialEq)]
#[allow(inconsistent_fields)]
pub enum ASTNode {
    /// Loads named symbols of a module into the environment.
    Import { module_name: String, symbols: Vec<String>, line: usize, column: usize },
    /// Marks its inner declaration as public.
    Public { node: Box<ASTNode>, line: usize, column: usize },
    /// A literal value.
    Literal { value: Value, line: usize, column: usize },
    /// A name, read when evaluated; as a parameter, a name with its declared type.
    Variable { name: String, value_type: Option<ValueType>, line: usize, column: usize },
    /// An arithmetic operator between two expressions.
    BinaryOp {
        left: Box<ASTNode>,
        op: TokenKind,
        right: Box<ASTNode>,
        line: usize,
        column: usize,
    },
    /// An operator before an expression.
    PrefixOp { op: TokenKind, expr: Box<ASTNode>, line: usize, column: usize },
    /// `left == right`
    Eq { left: Box<ASTNode>, right: Box<ASTNode>, line: usize, column: usize },
    /// `left >= right`
    Gte { left: Box<ASTNode>, right: Box<ASTNode>, line: usize, column: usize },
    /// `left > right`
    Gt { left: Box<ASTNode>, right: Box<ASTNode>, line: usize, column: usize },
    /// `left <= right`
    Lte { left: Box<ASTNode>, right: Box<ASTNode>, line: usize, column: usize },
    /// `left < right`
    Lt { left: Box<ASTNode>, right: Box<ASTNode>, line: usize, column: usize },
    /// A declaration (`is_new`) or a reassignment of a variable.
    Assign {
        name: String,
        value: Box<ASTNode>,
        variable_type: EnvVariableType,
        value_type: ValueType,
        is_new: bool,
        line: usize,
        column: usize,
    },
    /// Statements, evaluated in order.
    Block { nodes: Vec<ASTNode>, line: usize, column: usize },
    /// `return expr`
    Return { expr: Box<ASTNode>, line: usize, column: usize },
    /// A conditional with an optional `else` branch.
    If {
        condition: Box<ASTNode>,
        then: Box<ASTNode>,
        else_: Option<Box<ASTNode>>,
        value_type: ValueType,
        line: usize,
        column: usize,
    },
    /// A loop over the items of a list.
    For {
        variable: String,
        iterable: Box<ASTNode>,
        body: Box<ASTNode>,
        line: usize,
        column: usize,
    },
    /// A function declaration; its parameters are `Variable` nodes.
    Function {
        name: String,
        arguments: Vec<ASTNode>,
        body: Box<ASTNode>,
        return_type: ValueType,
        line: usize,
        column: usize,
    },
    /// A call by name; `arguments` is a `FunctionCallArgs` node.
    FunctionCall { name: String, arguments: Box<ASTNode>, line: usize, column: usize },
    /// The argument expressions of a call.
    FunctionCallArgs { args: Vec<ASTNode>, line: usize, column: usize },
    /// A lambda literal; its parameters are `Variable` nodes.
    Lambda { arguments: Vec<ASTNode>, body: Box<ASTNode>, line: usize, column: usize },
    /// A call of a lambda expression.
    LambdaCall { lambda: Box<ASTNode>, arguments: Vec<ASTNode>, line: usize, column: usize },
    /// A struct declaration: a name and a field schema.
    Struct { name: String, fields: Vec<FieldDef>, line: usize, column: usize },
    /// Methods for a struct; each is a `Function` node.
    Impl { base_struct: String, methods: Vec<ASTNode>, line: usize, column: usize },
    /// An instantiation of a struct.
    StructInstance { name: String, fields: Vec<FieldInit>, line: usize, column: usize },
    /// `instance.field_name`
    StructFieldAccess { instance: Box<ASTNode>, field_name: String, line: usize, column: usize },
    /// `instance.field_name = value`
    StructFieldAssign {
        instance: Box<ASTNode>,
        field_name: String,
        value: Box<ASTNode>,
        line: usize,
        column: usize,
    },
    /// `caller.method_name(arguments)`; `builtin` selects the builtin registry.
    MethodCall {
        method_name: String,
        caller: Box<ASTNode>,
        arguments: Vec<ASTNode>,
        builtin: bool,
        line: usize,
        column: usize,
    },
    /// A comment.
    CommentBlock { comment: String, line: usize, column: usize },
    /// `continue`
    Continue { line: usize, column: usize },
}

/// The mathematical model of an [`ASTNode`]: vectors are sequences, text is a
/// sequence of characters.
#[allow(inconsistent_fields)]
pub enum NodeView {
    Import { module_name: Seq<char>, symbols: Seq<Seq<char>>, line: usize, column: usize },
    Public { node: Box<NodeView>, line: usize, column: usize },
    Literal { value: ValueView, line: usize, column: usize },
    Variable { name: Seq<char>, value_type: Option<ValueTypeView>, line: usize, column: usize },
    BinaryOp {
        left: Box<NodeView>,
        op: TokenKindView,
        right: Box<NodeView>,
        line: usize,
        column: usize,
    },
    PrefixOp { op: TokenKindView, expr: Box<NodeView>, line: usize, column: usize },
    Eq { left: Box<NodeView>, right: Box<NodeView>, line: usize, column: usize },
    Gte { left: Box<NodeView>, right: Box<NodeView>, line: usize, column: usize },
    Gt { left: Box<NodeView>, right: Box<NodeView>, line: usize, column: usize },
    Lte { left: Box<NodeView>, right: Box<NodeView>, line: usize, column: usize },
    Lt { left: Box<NodeView>, right: Box<NodeView>, line: usize, column: usize },
    Assign {
        name: Seq<char>,
        value: Box<NodeView>,
        variable_type: EnvVariableType,
        value_type: ValueTypeView,
        is_new: bool,
        line: usize,
        column: usize,
    },
    Block { nodes: Seq<NodeView>, line: usize, column: usize },
    Return { expr: Box<NodeView>, line: usize, column: usize },
    If {
        condition: Box<NodeView>,
        then: Box<NodeView>,
        else_: Option<Box<NodeView>>,
        value_type: ValueTypeView,
        line: usize,
        column: usize,
    },
    For {
        variable: Seq<char>,
        iterable: Box<NodeView>,
        body: Box<NodeView>,
        line: usize,
        column: usize,
    },
    Function {
        name: Seq<char>,
        arguments: Seq<NodeView>,
        body: Box<NodeView>,
        return_type: ValueTypeView,
        line: usize,
        column: usize,
    },
    FunctionCall { name: Seq<char>, arguments: Box<NodeView>, line: usize, column: usize },
    FunctionCallArgs { args: Seq<NodeView>, line: usize, column: usize },
    Lambda { arguments: Seq<NodeView>, body: Box<NodeView>, line: usize, column: usize },
    LambdaCall { lambda: Box<NodeView>, arguments: Seq<NodeView>, line: usize, column: usize },
    Struct { name: Seq<char>, fields: Seq<FieldDefView>, line: usize, column: usize },
    Impl { base_struct: Seq<char>, methods: Seq<NodeView>, line: usize, column: usize },
    StructInstance { name: Seq<char>, fields: Seq<FieldInitView>, line: usize, column: usize },
    StructFieldAccess {
        instance: Box<NodeView>,
        field_name: Seq<char>,
        line: usize,
        column: usize,
    },
    StructFieldAssign {
        instance: Box<NodeView>,
        field_name: Seq<char>,
        value: Box<NodeView>,
        line: usize,
        column: usize,
    },
    MethodCall {
        method_name: Seq<char>,
        caller: Box<NodeView>,
        arguments: Seq<NodeView>,
        builtin: bool,
        line: usize,
        column: usize,
    },
    CommentBlock { comment: Seq<char>, line: usize, column: usize },
    Continue { line: usize, column: usize },
}

/// The model of a node.
pub open spec fn node_view(node: ASTNode) -> NodeView
    decreases node,
{
    match node {
        ASTNode::Import { module_name, symbols, line, column } => NodeView::Import {
            module_name: module_name@,
            symbols: strings_view(symbols),
            line,
            column,
        },
        ASTNode::Public { node, line, column } => NodeView::Public {
            node: Box::new(node_view(*node)),
            line,
            column,
        },
        ASTNode::Literal { value, line, column } => NodeView::Literal {
            value: value_view(value),
            line,
            column,
        },
        ASTNode::Variable { name, value_type, line, column } => NodeView::Variable {
            name: name@,
            value_type: match value_type { Some(t) => Some(value_type_view(t)), None => None },
            line,
            column,
        },
        ASTNode::BinaryOp { left, op, right, line, column } => NodeView::BinaryOp {
            left: Box::new(node_view(*left)),
            op: op@,
            right: Box::new(node_view(*right)),
            line,
            column,
        },
        ASTNode::PrefixOp { op, expr, line, column } => NodeView::PrefixOp {
            op: op@,
            expr: Box::new(node_view(*expr)),
            line,
            column,
        },
        ASTNode::Eq { left, right, line, column } => NodeView::Eq {
            left: Box::new(node_view(*left)),
            right: Box::new(node_view(*right)),
            line,
            column,
        },
        ASTNode::Gte { left, right, line, column } => NodeView::Gte {
            left: Box::new(node_view(*left)),
            right: Box::new(node_view(*right)),
            line,
            column,
        },
        ASTNode::Gt { left, right, line, column } => NodeView::Gt {
            left: Box::new(node_view(*left)),
            right: Box::new(node_view(*right)),
            line,
            column,
        },
        ASTNode::Lte { left, right, line, column } => NodeView::Lte {
            left: Box::new(node_view(*left)),
            right: Box::new(node_view(*right)),
            line,
            column,
        },
        ASTNode::Lt { left, right, line, column } => NodeView::Lt {
            left: Box::new(node_view(*left)),
            right: Box::new(node_view(*right)),
            line,
            column,
        },
        ASTNode::Assign {
            name,
            value,
            variable_type,
            value_type,
            is_new,
            line,
            column,
        } => NodeView::Assign {
            name: name@,
            value: Box::new(node_view(*value)),
            variable_type: variable_type,
            value_type: value_type_view(value_type),
            is_new: is_new,
            line,
            column,
        },
        ASTNode::Block { nodes, line, column } => NodeView::Block {
            nodes: nodes_view(nodes),
            line,
            column,
        },
        ASTNode::Return { expr, line, column } => NodeView::Return {
            expr: Box::new(node_view(*expr)),
            line,
            column,
        },
        ASTNode::If { condition, then, else_, value_type, line, column } => NodeView::If {
            condition: Box::new(node_view(*condition)),
            then: Box::new(node_view(*then)),
            else_: match else_ { Some(e) => Some(Box::new(node_view(*e))), None => None },
            value_type: value_type_view(value_type),
            line,
            column,
        },
        ASTNode::For { variable, iterable, body, line, column } => NodeView::For {
            variable: variable@,
            iterable: Box::new(node_view(*iterable)),
            body: Box::new(node_view(*body)),
            line,
            column,
        },
        ASTNode::Function {
            name,
            arguments,
            body,
            return_type,
            line,
            column,
        } => NodeView::Function {
            name: name@,
            arguments: nodes_view(arguments),
            body: Box::new(node_view(*body)),
            return_type: value_type_view(return_type),
            line,
            column,
        },
        ASTNode::FunctionCall { name, arguments, line, column } => NodeView::FunctionCall {
            name: name@,
            arguments: Box::new(node_view(*arguments)),
            line,
            column,
        },
        ASTNode::FunctionCallArgs { args, line, column } => NodeView::FunctionCallArgs {
            args: nodes_view(args),
            line,
            column,
        },
        ASTNode::Lambda { arguments, body, line, column } => NodeView::Lambda {
            arguments: nodes_view(arguments),
            body: Box::new(node_view(*body)),
            line,
            column,
        },
        ASTNode::LambdaCall { lambda, arguments, line, column } => NodeView::LambdaCall {
            lambda: Box::new(node_view(*lambda)),
            arguments: nodes_view(arguments),
            line,
            column,
        },
        ASTNode::Struct { name, fields, line, column } => NodeView::Struct {
            name: name@,
            fields: field_defs_view(fields),
            line,
            column,
        },
        ASTNode::Impl { base_struct, methods, line, column } => NodeView::Impl {
            base_struct: base_struct@,
            methods: nodes_view(methods),
            line,
            column,
        },
        ASTNode::StructInstance { name, fields, line, column } => NodeView::StructInstance {
            name: name@,
            fields: field_inits_view(fields),
            line,
            column,
        },
        ASTNode::StructFieldAccess {
            instance,
            field_name,
            line,
            column,
        } => NodeView::StructFieldAccess {
            instance: Box::new(node_view(*instance)),
            field_name: field_name@,
            line,
            column,
        },
        ASTNode::StructFieldAssign {
            instance,
            field_name,
            value,
            line,
            column,
        } => NodeView::StructFieldAssign {
            instance: Box::new(node_view(*instance)),
            field_name: field_name@,
            value: Box::new(node_view(*value)),
            line,
            column,
        },
        ASTNode::MethodCall {
            method_name,
            caller,
            arguments,
            builtin,
            line,
            column,
        } => NodeView::MethodCall {
            method_name: method_name@,
            caller: Box::new(node_view(*caller)),
            arguments: nodes_view(arguments),
            builtin: builtin,
            line,
            column,
        },
        ASTNode::CommentBlock { comment, line, column } => NodeView::CommentBlock {
            comment: comment@,
            line,
            column,
        },
        ASTNode::Continue { line, column } => NodeView::Continue { line, column },
    }
}

/// The models of the nodes of a vector, in order.
pub open spec fn nodes_view(nodes: Vec<ASTNode>) -> Seq<NodeView>
    decreases nodes,
{
    Seq::new(
        nodes.len() as nat,
        |i: int|
            if 0 <= i < nodes.len() {
                node_view(nodes[i])
            } else {
                NodeView::Continue { line: 0, column: 0 }
            },
    )
}

/// The models of the field initialisers of a vector, in order.
pub open spec fn field_inits_view(fields: Vec<FieldInit>) -> Seq<FieldInitView>
    decreases fields,
{
    Seq::new(
        fields.len() as nat,
        |i: int|
            if 0 <= i < fields.len() {
                FieldInitView { name: fields[i].name@, value: node_view(fields[i].value) }
            } else {
                FieldInitView {
                    name: Seq::empty(),
                    value: NodeView::Continue { line: 0, column: 0 },
                }
            },
    )
}

/// The models of the field definitions of a vector, in order.
pub open spec fn field_defs_view(fields: Vec<FieldDef>) -> Seq<FieldDefView> {
    Seq::new(fields.len() as nat, |i: int| fields[i]@)
}

/// The texts of the strings of a vector, in order.
pub open spec fn strings_view(strings: Vec<String>) -> Seq<Seq<char>> {
    Seq::new(strings.len() as nat, |i: int| strings[i]@)
}

impl View for ASTNode {
    type V = NodeView;

    open spec fn view(&self) -> NodeView {
        node_view(*self)
    }
}

impl View for FieldDef {
    type V = FieldDefView;

    open spec fn view(&self) -> FieldDefView {
        FieldDefView { name: self.name@, value_type: value_type_view(self.value_type) }
    }
}

impl View for FieldInit {
    type V = FieldInitView;

    open spec fn view(&self) -> FieldInitView {
        FieldInitView { name: self.name@, value: node_view(self.value) }
    }
}

impl NodeView {
    /// The source line of the node.
    pub open spec fn line(self) -> usize {
        match self {
            NodeView::Import { line, .. } => line,
            NodeView::Public { line, .. } => line,
            NodeView::Literal { line, .. } => line,
            NodeView::Variable { line, .. } => line,
            NodeView::BinaryOp { line, .. } => line,
            NodeView::PrefixOp { line, .. } => line,
            NodeView::Eq { line, .. } => line,
            NodeView::Gte { line, .. } => line,
            NodeView::Gt { line, .. } => line,
            NodeView::Lte { line, .. } => line,
            NodeView::Lt { line, .. } => line,
            NodeView::Assign { line, .. } => line,
            NodeView::Block { line, .. } => line,
            NodeView::Return { line, .. } => line,
            NodeView::If { line, .. } => line,
            NodeView::For { line, .. } => line,
            NodeView::Function { line, .. } => line,
            NodeView::FunctionCall { line, .. } => line,
            NodeView::FunctionCallArgs { line, .. } => line,
            NodeView::Lambda { line, .. } => line,
            NodeView::LambdaCall { line, .. } => line,
            NodeView::Struct { line, .. } => line,
            NodeView::Impl { line, .. } => line,
            NodeView::StructInstance { line, .. } => line,
            NodeView::StructFieldAccess { line, .. } => line,
            NodeView::StructFieldAssign { line, .. } => line,
            NodeView::MethodCall { line, .. } => line,
            NodeView::CommentBlock { line, .. } => line,
            NodeView::Continue { line, .. } => line,
        }
    }

    /// The source column of the node.
    pub open spec fn column(self) -> usize {
        match self {
            NodeView::Import { column, .. } => column,
            NodeView::Public { column, .. } => column,
            NodeView::Literal { column, .. } => column,
            NodeView::Variable { column, .. } => column,
            NodeView::BinaryOp { column, .. } => column,
            NodeView::PrefixOp { column, .. } => column,
            NodeView::Eq { column, .. } => column,
            NodeView::Gte { column, .. } => column,
            NodeView::Gt { column, .. } => column,
            NodeView::Lte { column, .. } => column,
            NodeView::Lt { column, .. } => column,
            NodeView::Assign { column, .. } => column,
            NodeView::Block { column, .. } => column,
            NodeView::Return { column, .. } => column,
            NodeView::If { column, .. } => column,
            NodeView::For { column, .. } => column,
            NodeView::Function { column, .. } => column,
            NodeView::FunctionCall { column, .. } => column,
            NodeView::FunctionCallArgs { column, .. } => column,
            NodeView::Lambda { column, .. } => column,
            NodeView::LambdaCall { column, .. } => column,
            NodeView::Struct { column, .. } => column,
            NodeView::Impl { column, .. } => column,
            NodeView::StructInstance { column, .. } => column,
            NodeView::StructFieldAccess { column, .. } => column,
            NodeView::StructFieldAssign { column, .. } => column,
            NodeView::MethodCall { column, .. } => column,
            NodeView::CommentBlock { column, .. } => column,
            NodeView::Continue { column, .. } => column,
        }
    }
}

impl ASTNode {
    /// The source position of the node, as line and column.
    pub fn position(&self) -> (r: (usize, usize))
        ensures
            r.0 == self@.line(),
            r.1 == self@.column(),
    {
        match self {
            ASTNode::Import { line, column, .. } => (*line, *column),
            ASTNode::Public { line, column, .. } => (*line, *column),
            ASTNode::Literal { line, column, .. } => (*line, *column),
            ASTNode::Variable { line, column, .. } => (*line, *column),
            ASTNode::BinaryOp { line, column, .. } => (*line, *column),
            ASTNode::PrefixOp { line, column, .. } => (*line, *column),
            ASTNode::Eq { line, column, .. } => (*line, *column),
            ASTNode::Gte { line, column, .. } => (*line, *column),
            ASTNode::Gt { line, column, .. } => (*line, *column),
            ASTNode::Lte { line, column, .. } => (*line, *column),
            ASTNode::Lt { line, column, .. } => (*line, *column),
            ASTNode::Assign { line, column, .. } => (*line, *column),
            ASTNode::Block { line, column, .. } => (*line, *column),
            ASTNode::Return { line, column, .. } => (*line, *column),
            ASTNode::If { line, column, .. } => (*line, *column),
            ASTNode::For { line, column, .. } => (*line, *column),
            ASTNode::Function { line, column, .. } => (*line, *column),
            ASTNode::FunctionCall { line, column, .. } => (*line, *column),
            ASTNode::FunctionCallArgs { line, column, .. } => (*line, *column),
            ASTNode::Lambda { line, column, .. } => (*line, *column),
            ASTNode::LambdaCall { line, column, .. } => (*line, *column),
            ASTNode::Struct { line, column, .. } => (*line, *column),
            ASTNode::Impl { line, column, .. } => (*line, *column),
            ASTNode::StructInstance { line, column, .. } => (*line, *column),
            ASTNode::StructFieldAccess { line, column, .. } => (*line, *column),
            ASTNode::StructFieldAssign { line, column, .. } => (*line, *column),
            ASTNode::MethodCall { line, column, .. } => (*line, *column),
            ASTNode::CommentBlock { line, column, .. } => (*line, *column),
            ASTNode::Continue { line, column, .. } => (*line, *column),
        }
    }
}

/// A deep copy of a node.
pub fn clone_node(node: &ASTNode) -> (r: ASTNode)
    ensures
        r@ == node@,
    decreases node,
{
    match node {
        ASTNode::Import { module_name, symbols, line, column } => ASTNode::Import {
            module_name: module_name.clone(),
            symbols: clone_strings(symbols),
            line: *line,
            column: *column,
        },
        ASTNode::Public { node, line, column } => ASTNode::Public {
            node: Box::new(clone_node(node)),
            line: *line,
            column: *column,
        },
        ASTNode::Literal { value, line, column } => ASTNode::Literal {
            value: clone_value(value),
            line: *line,
            column: *column,
        },
        ASTNode::Variable { name, value_type, line, column } => ASTNode::Variable {
            name: name.clone(),
            value_type: match value_type { Some(t) => Some(t.clone()), None => None },
            line: *line,
            column: *column,
        },
        ASTNode::BinaryOp { left, op, right, line, column } => ASTNode::BinaryOp {
            left: Box::new(clone_node(left)),
            op: op.clone(),
            right: Box::new(clone_node(right)),
            line: *line,
            column: *column,
        },
        ASTNode::PrefixOp { op, expr, line, column } => ASTNode::PrefixOp {
            op: op.clone(),
            expr: Box::new(clone_node(expr)),
            line: *line,
            column: *column,
        },
        ASTNode::Eq { left, right, line, column } => ASTNode::Eq {
            left: Box::new(clone_node(left)),
            right: Box::new(clone_node(right)),
            line: *line,
            column: *column,
        },
        ASTNode::Gte { left, right, line, column } => ASTNode::Gte {
            left: Box::new(clone_node(left)),
            right: Box::new(clone_node(right)),
            line: *line,
            column: *column,
        },
        ASTNode::Gt { left, right, line, column } => ASTNode::Gt {
            left: Box::new(clone_node(left)),
            right: Box::new(clone_node(right)),
            line: *line,
            column: *column,
        },
        ASTNode::Lte { left, right, line, column } => ASTNode::Lte {
            left: Box::new(clone_node(left)),
            right: Box::new(clone_node(right)),
            line: *line,
            column: *column,
        },
        ASTNode::Lt { left, right, line, column } => ASTNode::Lt {
            left: Box::new(clone_node(left)),
            right: Box::new(clone_node(right)),
            line: *line,
            column: *column,
        },
        ASTNode::Assign {
            name,
            value,
            variable_type,
            value_type,
            is_new,
            line,
            column,
        } => ASTNode::Assign {
            name: name.clone(),
            value: Box::new(clone_node(value)),
            variable_type: *variable_type,
            value_type: value_type.clone(),
            is_new: *is_new,
            line: *line,
            column: *column,
        },
        ASTNode::Block { nodes, line, column } => ASTNode::Block {
            nodes: clone_nodes(nodes),
            line: *line,
            column: *column,
        },
        ASTNode::Return { expr, line, column } => ASTNode::Return {
            expr: Box::new(clone_node(expr)),
            line: *line,
            column: *column,
        },
        ASTNode::If { condition, then, else_, value_type, line, column } => ASTNode::If {
            condition: Box::new(clone_node(condition)),
            then: Box::new(clone_node(then)),
            else_: match else_ { Some(e) => Some(Box::new(clone_node(e))), None => None },
            value_type: value_type.clone(),
            line: *line,
            column: *column,
        },
        ASTNode::For { variable, iterable, body, line, column } => ASTNode::For {
            variable: variable.clone(),
            iterable: Box::new(clone_node(iterable)),
            body: Box::new(clone_node(body)),
            line: *line,
            column: *column,
        },
        ASTNode::Function {
            name,
            arguments,
            body,
            return_type,
            line,
            column,
        } => ASTNode::Function {
            name: name.clone(),
            arguments: clone_nodes(arguments),
            body: Box::new(clone_node(body)),
            return_type: return_type.clone(),
            line: *line,
            column: *column,
        },
        ASTNode::FunctionCall { name, arguments, line, column } => ASTNode::FunctionCall {
            name: name.clone(),
            arguments: Box::new(clone_node(arguments)),
            line: *line,
            column: *column,
        },
        ASTNode::FunctionCallArgs { args, line, column } => ASTNode::FunctionCallArgs {
            args: clone_nodes(args),
            line: *line,
            column: *column,
        },
        ASTNode::Lambda { arguments, body, line, column } => ASTNode::Lambda {
            arguments: clone_nodes(arguments),
            body: Box::new(clone_node(body)),
            line: *line,
            column: *column,
        },
        ASTNode::LambdaCall { lambda, arguments, line, column } => ASTNode::LambdaCall {
            lambda: Box::new(clone_node(lambda)),
            arguments: clone_nodes(arguments),
            line: *line,
            column: *column,
        },
        ASTNode::Struct { name, fields, line, column } => ASTNode::Struct {
            name: name.clone(),
            fields: clone_field_defs(fields),
            line: *line,
            column: *column,
        },
        ASTNode::Impl { base_struct, methods, line, column } => ASTNode::Impl {
            base_struct: base_struct.clone(),
            methods: clone_nodes(methods),
            line: *line,
            column: *column,
        },
        ASTNode::StructInstance { name, fields, line, column } => ASTNode::StructInstance {
            name: name.clone(),
            fields: clone_field_inits(fields),
            line: *line,
            column: *column,
        },
        ASTNode::StructFieldAccess {
            instance,
            field_name,
            line,
            column,
        } => ASTNode::StructFieldAccess {
            instance: Box::new(clone_node(instance)),
            field_name: field_name.clone(),
            line: *line,
            column: *column,
        },
        ASTNode::StructFieldAssign {
            instance,
            field_name,
            value,
            line,
            column,
        } => ASTNode::StructFieldAssign {
            instance: Box::new(clone_node(instance)),
            field_name: field_name.clone(),
            value: Box::new(clone_node(value)),
            line: *line,
            column: *column,
        },
        ASTNode::MethodCall {
            method_name,
            caller,
            arguments,
            builtin,
            line,
            column,
        } => ASTNode::MethodCall {
            method_name: method_name.clone(),
            caller: Box::new(clone_node(caller)),
            arguments: clone_nodes(arguments),
            builtin: *builtin,
            line: *line,
            column: *column,
        },
        ASTNode::CommentBlock { comment, line, column } => ASTNode::CommentBlock {
            comment: comment.clone(),
            line: *line,
            column: *column,
        },
        ASTNode::Continue { line, column } => ASTNode::Continue { line: *line, column: *column },
    }
}

/// A deep copy of a vector of nodes.
pub fn clone_nodes(nodes: &Vec<ASTNode>) -> (r: Vec<ASTNode>)
    ensures
        nodes_view(r) == nodes_view(*nodes),
    decreases nodes,
{
    let mut out: Vec<ASTNode> = Vec::new();
    let mut i: usize = 0;
    while i < nodes.len()
        invariant
            i <= nodes.len(),
            out.len() == i,
            forall|j: int| 0 <= j < i ==> node_view(out[j]) == node_view(nodes[j]),
        decreases nodes.len() - i,
    {
        let c = clone_node(&nodes[i]);
        out.push(c);
        i += 1;
    }
    assert(nodes_view(out) =~= nodes_view(*nodes));
    out
}

/// A deep copy of a vector of field initialisers.
pub fn clone_field_inits(fields: &Vec<FieldInit>) -> (r: Vec<FieldInit>)
    ensures
        field_inits_view(r) == field_inits_view(*fields),
    decreases fields,
{
    let mut out: Vec<FieldInit> = Vec::new();
    let mut i: usize = 0;
    while i < fields.len()
        invariant
            i <= fields.len(),
            out.len() == i,
            forall|j: int| 0 <= j < i ==> out[j]@ == fields[j]@,
        decreases fields.len() - i,
    {
        let c = FieldInit { name: fields[i].name.clone(), value: clone_node(&fields[i].value) };
        out.push(c);
        i += 1;
    }
    assert(field_inits_view(out) =~= field_inits_view(*fields));
    out
}

/// A copy of a field schema.
pub fn clone_field_defs(fields: &Vec<FieldDef>) -> (r: Vec<FieldDef>)
    ensures
        field_defs_view(r) == field_defs_view(*fields),
{
    let mut out: Vec<FieldDef> = Vec::new();
    let mut i: usize = 0;
    while i < fields.len()
        invariant
            i <= fields.len(),
            out.len() == i,
            forall|j: int| 0 <= j < i ==> out[j]@ == fields[j]@,
        decreases fields.len() - i,
    {
        let c = FieldDef { name: fields[i].name.clone(), value_type: fields[i].value_type.clone() };
        out.push(c);
        i += 1;
    }
    assert(field_defs_view(out) =~= field_defs_view(*fields));
    out
}

/// A copy of a vector of strings.
pub fn clone_strings(strings: &Vec<String>) -> (r: Vec<String>)
    ensures
        strings_view(r) == strings_view(*strings),
{
    let mut out: Vec<String> = Vec::new();
    let mut i: usize = 0;
    while i < strings.len()
        invariant
            i <= strings.len(),
            out.len() == i,
            forall|j: int| 0 <= j < i ==> out[j]@ == strings[j]@,
        decreases strings.len() - i,
    {
        let c = strings[i].clone();
        out.push(c);
        i += 1;
    }
    assert(strings_view(out) =~= strings_view(*strings));
    out
}

impl Clone for ASTNode {
    fn clone(&self) -> (r: Self)
        ensures
            r@ == self@,
    {
        clone_node(self)
    }
}

} // verus!
