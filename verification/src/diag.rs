//! Diagnostics produced while validating an interface declaration.
//!
//! Validation is fail-fast: the first violation aborts generation for the
//! whole interface, and the diagnostic carries the span of the offending
//! construct so a caller can point back at the original source.

use vstd::prelude::*;

verus! {

/// A validation failure, reported at the span of the offending construct.
#[derive(Debug, PartialEq, Eq)]
pub enum ApiError {
    /// A method carries none of the six recognized endpoint attributes.
    /// The span is the method's.
    MissingEndpointAnnotation { span: u64 },
    /// An endpoint attribute's argument is not a single string literal.
    /// The span is the attribute's; the message is passed through from the
    /// failed literal parse.
    MalformedEndpointArgument { span: u64, message: String },
    /// A method with a valid endpoint attribute is not asynchronous.
    /// The span is the method's.
    NotAsynchronous { span: u64 },
}

/// The mathematical value of an [`ApiError`].
pub enum ApiErrorV {
    MissingEndpointAnnotation { span: u64 },
    MalformedEndpointArgument { span: u64, message: Seq<char> },
    NotAsynchronous { span: u64 },
}

impl View for ApiError {
    type V = ApiErrorV;

    open spec fn view(&self) -> ApiErrorV {
        match self {
            ApiError::MissingEndpointAnnotation { span } => ApiErrorV::MissingEndpointAnnotation { span: *span },
            ApiError::MalformedEndpointArgument { span, message } => ApiErrorV::MalformedEndpointArgument { span: *span, message: message@ },
            ApiError::NotAsynchronous { span } => ApiErrorV::NotAsynchronous { span: *span },
        }
    }
}

impl ApiError {
    /// The span of the construct the diagnostic points at.
    pub fn span(&self) -> (r: u64)
        ensures
            (match self@ {
                ApiErrorV::MissingEndpointAnnotation { span } => r == span,
                ApiErrorV::MalformedEndpointArgument { span, .. } => r == span,
                ApiErrorV::NotAsynchronous { span } => r == span,
            }),
    {
        match self {
            ApiError::MissingEndpointAnnotation { span } => *span,
            ApiError::MalformedEndpointArgument { span, .. } => *span,
            ApiError::NotAsynchronous { span } => *span,
        }
    }
}

} // verus!
