use crate::shell_error::ShellError;
use crate::span::Span;
use vstd::prelude::*;

verus! {

/// The type of a value, as far as the commands here tell types apart.
#[derive(Clone, Debug, PartialEq, Eq)]
pub enum Type {
    Int,
    List,
    Error,
    /// Any other type, by its name.
    Other(String),
}

/// A value as it travels through a pipeline.
#[derive(Debug, PartialEq, Eq)]
#[allow(inconsistent_fields)]
pub enum Value {
    Int { val: i64, span: Span },
    List { vals: Vec<Value>, span: Span },
    Error { error: ShellError },
    /// A value of a type that none of the commands here works on; it may come
    /// from no place in the source.
    Other { ty: String, span: Option<Span> },
}

impl Value {
    pub open spec fn type_spec(&self) -> Type {
        match *self {
            Value::Int { .. } => Type::Int,
            Value::List { .. } => Type::List,
            Value::Error { .. } => Type::Error,
            Value::Other { ty, .. } => Type::Other(ty),
        }
    }

    /// The place in the source the value came from, where it has one.
    pub open spec fn span_spec(&self) -> Option<Span> {
        match *self {
            Value::Int { span, .. } => Some(span),
            Value::List { span, .. } => Some(span),
            Value::Error { error } => Some(error.span()),
            Value::Other { span, .. } => span,
        }
    }

    #[verifier::when_used_as_spec(type_spec)]
    pub fn get_type(&self) -> (ty: Type)
        ensures
            ty == self.type_spec(),
    {
        match self {
            Value::Int { .. } => Type::Int,
            Value::List { .. } => Type::List,
            Value::Error { .. } => Type::Error,
            Value::Other { ty, .. } => Type::Other(ty.clone()),
        }
    }

    #[verifier::when_used_as_spec(span_spec)]
    pub fn span(&self) -> (span: Option<Span>)
        ensures
            span == self.span_spec(),
    {
        match self {
            Value::Int { span, .. } => Some(*span),
            Value::List { span, .. } => Some(*span),
            Value::Error { error } => Some(error.span()),
            Value::Other { span, .. } => *span,
        }
    }

    /// An integer with the span of test data.
    pub fn test_int(val: i64) -> (value: Value)
        ensures
            value == (Value::Int { val, span: Span { start: 0, end: 0 } }),
    {
        Value::Int { val, span: Span::test_data() }
    }
}

} // verus!
