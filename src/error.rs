use crate::config::ConfigError;
use crate::input::ShapeError;
use vstd::prelude::*;

verus! {

/// The kinds of failure a request or start-up can meet.
#[derive(Clone, Copy, Debug, PartialEq, Eq, Structural)]
pub enum ErrorType {
    /// The engine failed its health check.
    Unhealthy,
    /// The compute backend failed during inference.
    Backend,
    /// The concurrency ceiling is reached: back off and retry later.
    Overloaded,
    /// The input's shape, or a limit derived from the descriptor, is violated.
    Validation,
    /// Loading the tokenizer, or tokenizing, failed.
    Tokenizer,
}

/// An error as the plain dialect reports it.
#[derive(Debug)]
pub struct ErrorResponse {
    pub error: String,
    pub error_type: ErrorType,
}

/// An error as the OpenAI-compatible dialect reports it: the same message
/// and kind, with a numeric status code.
#[derive(Debug)]
pub struct OpenAICompatErrorResponse {
    pub message: String,
    pub code: u16,
    pub error_type: ErrorType,
}

pub const INVALID_LENGTH: &'static str = "invalid length: expected a string, a pair of strings or a batch";

pub const INVALID_ELEMENT_LENGTH: &'static str =
    "invalid length: each batch element must hold one or two strings";

pub const INVALID_TYPE: &'static str =
    "invalid type: expected a string, a pair of strings or a batch of mixed strings and pairs";

/// The client message of each kind of shape error.
pub open spec fn shape_error_message(e: ShapeError) -> Seq<char> {
    match e {
        ShapeError::InvalidLength { .. } => INVALID_LENGTH@,
        ShapeError::InvalidElementLength { .. } => INVALID_ELEMENT_LENGTH@,
        ShapeError::InvalidType => INVALID_TYPE@,
    }
}

impl ShapeError {
    /// Every shape error is a validation error.
    pub fn error_type(&self) -> (r: ErrorType)
        ensures
            r == ErrorType::Validation,
    {
        ErrorType::Validation
    }

    /// A message for the client, one for each kind of shape error.
    pub fn message(&self) -> (r: String)
        ensures
            r@ == shape_error_message(*self),
    {
        match self {
            ShapeError::InvalidLength { .. } => String::from_str(INVALID_LENGTH),
            ShapeError::InvalidElementLength { .. } => String::from_str(INVALID_ELEMENT_LENGTH),
            ShapeError::InvalidType => String::from_str(INVALID_TYPE),
        }
    }

    /// The plain-dialect response for this error.
    pub fn to_response(&self) -> (r: ErrorResponse)
        ensures
            r.error@ == shape_error_message(*self),
            r.error_type == ErrorType::Validation,
    {
        ErrorResponse { error: self.message(), error_type: self.error_type() }
    }
}

impl ConfigError {
    /// A descriptor whose limits are unusable is a validation error.
    pub fn error_type(&self) -> (r: ErrorType)
        ensures
            r == ErrorType::Validation,
    {
        ErrorType::Validation
    }
}

impl ErrorResponse {
    /// The same error in the OpenAI-compatible dialect, with status `code`.
    pub fn to_openai(self, code: u16) -> (r: OpenAICompatErrorResponse)
        ensures
            r.message@ == self.error@,
            r.code == code,
            r.error_type == self.error_type,
    {
        OpenAICompatErrorResponse { message: self.error, code, error_type: self.error_type }
    }
}

} // verus!
