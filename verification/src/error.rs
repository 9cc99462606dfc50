//! The two kinds of failure: of parsing and of evaluation.

use vstd::prelude::*;
use vstd::string::StringExecFns;

verus! {

/// The runtime shape of a value, as an error names it.
#[derive(Clone, Copy, Debug, PartialEq, Eq)]
pub enum ValueKind {
    Number,
    String,
    Bool,
    List,
    Void,
    Return,
    Function,
    Lambda,
    StructInstance,
}

/// The operator that an error names.
#[derive(Clone, Copy, Debug, PartialEq, Eq)]
pub enum OperatorKind {
    Plus,
    Minus,
    Mul,
    Div,
    Eq,
    Lt,
    Lte,
    Gt,
    Gte,
    /// A token that is no operator.
    Other,
}

/// Why an evaluation failed.
#[derive(Clone, Copy, Debug, PartialEq, Eq)]
pub enum RuntimeErrorKind {
    /// A name was read that no visible scope binds.
    UndefinedVariable,
    /// A name was called that is no function, builtin or lambda.
    UndefinedFunction,
    /// An immutable binding was reassigned.
    ReassignImmutable,
    /// A call gave another number of arguments than the callee declares.
    ArityMismatch { expected: usize, found: usize },
    /// A value had another shape than its place demands.
    TypeMismatch,
    /// An operator met operands it is not defined on. A prefix operator has
    /// no left operand.
    UnsupportedOperation { op: OperatorKind, left: Option<ValueKind>, right: ValueKind },
    /// A struct was named that was never declared.
    UnknownStruct,
    /// A field was named that the instance does not have.
    UnknownField,
    /// An instantiation left out a field of the schema.
    MissingField,
    /// An instantiation gave a field that the schema does not have.
    UnexpectedField,
    /// The node is of a kind that cannot be evaluated.
    Unsupported,
    /// An operand has a zero denominator, or the divisor is zero.
    DivisionByZero,
    /// The exact result of an arithmetic operation does not fit in 64 bits.
    NumericOverflow,
    /// Calls are nested deeper than the environment's limit.
    RecursionLimit,
    /// A module was named that is not registered.
    UnknownModule,
    /// A symbol was imported that its module does not have.
    UnknownSymbol,
}

/// A failure of evaluation and the source position of the node that failed.
#[derive(Clone, Copy, Debug, PartialEq, Eq)]
pub struct RuntimeError {
    pub kind: RuntimeErrorKind,
    pub line: usize,
    pub column: usize,
}

/// Why parsing failed.
#[derive(Clone, Copy, Debug, PartialEq, Eq)]
pub enum ParseErrorKind {
    /// A token stands where it cannot.
    UnexpectedToken,
    /// A token that the grammar requires is absent.
    ExpectedToken,
    /// A closing delimiter is absent.
    UnterminatedConstruct,
    /// The syntax nests deeper than the parser's limit.
    NestingLimit,
}

/// A failure of parsing and the source position where it was noticed.
#[derive(Clone, Copy, Debug, PartialEq, Eq)]
pub struct ParseError {
    pub kind: ParseErrorKind,
    pub line: usize,
    pub column: usize,
}

impl RuntimeError {
    /// An error of the given kind at the given place.
    pub fn new(kind: RuntimeErrorKind, line: usize, column: usize) -> (r: RuntimeError)
        ensures
            r == (RuntimeError { kind, line, column }),
    {
        RuntimeError { kind, line, column }
    }
}

impl ParseError {
    /// An error of the given kind at the given place.
    pub fn new(kind: ParseErrorKind, line: usize, column: usize) -> (r: ParseError)
        ensures
            r == (ParseError { kind, line, column }),
    {
        ParseError { kind, line, column }
    }
}

/// The name of an operator.
pub open spec fn operator_text(op: OperatorKind) -> Seq<char> {
    match op {
        OperatorKind::Plus => "Plus"@,
        OperatorKind::Minus => "Minus"@,
        OperatorKind::Mul => "Mul"@,
        OperatorKind::Div => "Div"@,
        OperatorKind::Eq => "Eq"@,
        OperatorKind::Lt => "Lt"@,
        OperatorKind::Lte => "Lte"@,
        OperatorKind::Gt => "Gt"@,
        OperatorKind::Gte => "Gte"@,
        OperatorKind::Other => "Other"@,
    }
}

/// The name of the shape of a value.
pub open spec fn value_kind_text(kind: ValueKind) -> Seq<char> {
    match kind {
        ValueKind::Number => "Number"@,
        ValueKind::String => "String"@,
        ValueKind::Bool => "Bool"@,
        ValueKind::List => "List"@,
        ValueKind::Void => "Void"@,
        ValueKind::Return => "Return"@,
        ValueKind::Function => "Function"@,
        ValueKind::Lambda => "Lambda"@,
        ValueKind::StructInstance => "StructInstance"@,
    }
}

/// What an error of evaluation says.
pub open spec fn runtime_message(kind: RuntimeErrorKind) -> Seq<char> {
    match kind {
        RuntimeErrorKind::UndefinedVariable => "Undefined variable"@,
        RuntimeErrorKind::UndefinedFunction => "Function is missing"@,
        RuntimeErrorKind::ReassignImmutable => "Cannot reassign to immutable variable"@,
        RuntimeErrorKind::ArityMismatch { .. } => "does not match arguments length"@,
        RuntimeErrorKind::TypeMismatch => "Type mismatch"@,
        RuntimeErrorKind::UnsupportedOperation { op, left, right } => match left {
            Some(l) => "Unsupported operation: "@ + operator_text(op) + " on "@ + value_kind_text(l)
                + " and "@ + value_kind_text(right),
            None => "Unexpected prefix op: "@ + operator_text(op) + " on "@ + value_kind_text(
                right,
            ),
        },
        RuntimeErrorKind::UnknownStruct => "Unknown struct"@,
        RuntimeErrorKind::UnknownField => "Unknown field"@,
        RuntimeErrorKind::MissingField => "Missing field"@,
        RuntimeErrorKind::UnexpectedField => "Unexpected field"@,
        RuntimeErrorKind::Unsupported => "Unsupported ast node"@,
        RuntimeErrorKind::DivisionByZero => "Division by zero"@,
        RuntimeErrorKind::NumericOverflow => "Numeric overflow"@,
        RuntimeErrorKind::RecursionLimit => "Calls are nested too deep"@,
        RuntimeErrorKind::UnknownModule => "Unknown module"@,
        RuntimeErrorKind::UnknownSymbol => "Unknown symbol"@,
    }
}

/// What an error of parsing says.
pub open spec fn parse_message(kind: ParseErrorKind) -> Seq<char> {
    match kind {
        ParseErrorKind::UnexpectedToken => "Unexpected token"@,
        ParseErrorKind::ExpectedToken => "Expected token"@,
        ParseErrorKind::UnterminatedConstruct => "Unterminated construct"@,
        ParseErrorKind::NestingLimit => "The syntax nests too deep"@,
    }
}

/// The name of an operator.
pub fn operator_name(op: OperatorKind) -> (r: &'static str)
    ensures
        r@ == operator_text(op),
{
    match op {
        OperatorKind::Plus => "Plus",
        OperatorKind::Minus => "Minus",
        OperatorKind::Mul => "Mul",
        OperatorKind::Div => "Div",
        OperatorKind::Eq => "Eq",
        OperatorKind::Lt => "Lt",
        OperatorKind::Lte => "Lte",
        OperatorKind::Gt => "Gt",
        OperatorKind::Gte => "Gte",
        OperatorKind::Other => "Other",
    }
}

/// The name of the shape of a value.
pub fn value_kind_name(kind: ValueKind) -> (r: &'static str)
    ensures
        r@ == value_kind_text(kind),
{
    match kind {
        ValueKind::Number => "Number",
        ValueKind::String => "String",
        ValueKind::Bool => "Bool",
        ValueKind::List => "List",
        ValueKind::Void => "Void",
        ValueKind::Return => "Return",
        ValueKind::Function => "Function",
        ValueKind::Lambda => "Lambda",
        ValueKind::StructInstance => "StructInstance",
    }
}

impl RuntimeError {
    /// What the error says. An unsupported operation names the operator and
    /// the shapes of its operands.
    pub fn message(&self) -> (r: String)
        ensures
            r@ == runtime_message(self.kind),
    {
        match self.kind {
            RuntimeErrorKind::UndefinedVariable => "Undefined variable".to_string(),
            RuntimeErrorKind::UndefinedFunction => "Function is missing".to_string(),
            RuntimeErrorKind::ReassignImmutable => "Cannot reassign to immutable variable".to_string(),
            RuntimeErrorKind::ArityMismatch { .. } => "does not match arguments length".to_string(),
            RuntimeErrorKind::TypeMismatch => "Type mismatch".to_string(),
            RuntimeErrorKind::UnsupportedOperation { op, left, right } => match left {
                Some(l) => "Unsupported operation: ".to_string().concat(operator_name(op)).concat(
                    " on ",
                ).concat(value_kind_name(l)).concat(" and ").concat(value_kind_name(right)),
                None => "Unexpected prefix op: ".to_string().concat(operator_name(op)).concat(
                    " on ",
                ).concat(value_kind_name(right)),
            },
            RuntimeErrorKind::UnknownStruct => "Unknown struct".to_string(),
            RuntimeErrorKind::UnknownField => "Unknown field".to_string(),
            RuntimeErrorKind::MissingField => "Missing field".to_string(),
            RuntimeErrorKind::UnexpectedField => "Unexpected field".to_string(),
            RuntimeErrorKind::Unsupported => "Unsupported ast node".to_string(),
            RuntimeErrorKind::DivisionByZero => "Division by zero".to_string(),
            RuntimeErrorKind::NumericOverflow => "Numeric overflow".to_string(),
            RuntimeErrorKind::RecursionLimit => "Calls are nested too deep".to_string(),
            RuntimeErrorKind::UnknownModule => "Unknown module".to_string(),
            RuntimeErrorKind::UnknownSymbol => "Unknown symbol".to_string(),
        }
    }
}

impl ParseError {
    /// What the error says.
    pub fn message(&self) -> (r: String)
        ensures
            r@ == parse_message(self.kind),
    {
        match self.kind {
            ParseErrorKind::UnexpectedToken => "Unexpected token".to_string(),
            ParseErrorKind::ExpectedToken => "Expected token".to_string(),
            ParseErrorKind::UnterminatedConstruct => "Unterminated construct".to_string(),
            ParseErrorKind::NestingLimit => "The syntax nests too deep".to_string(),
        }
    }
}

} // verus!
