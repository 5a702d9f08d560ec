//! The error envelope: a protocol error code paired with its cause.
use vstd::prelude::*;

verus! {

/// Error codes of the protocol's own error-code space.
#[derive(Clone, Copy, Debug, PartialEq, Eq, Structural)]
pub enum ErrorCode {
    ParseError,
    InvalidRequest,
    MethodNotFound,
    InvalidParams,
    InternalError,
    ServerErrorStart,
    ServerErrorEnd,
    ServerNotInitialized,
    UnknownErrorCode,
    RequestCanceled,
    ContentModified,
    ServerCancelled,
    RequestFailed,
}

impl ErrorCode {
    /// The number that stands for the code on the wire.
    pub open spec fn spec_value(self) -> int {
        match self {
            ErrorCode::ParseError => -32700,
            ErrorCode::InvalidRequest => -32600,
            ErrorCode::MethodNotFound => -32601,
            ErrorCode::InvalidParams => -32602,
            ErrorCode::InternalError => -32603,
            ErrorCode::ServerErrorStart => -32099,
            ErrorCode::ServerErrorEnd => -32000,
            ErrorCode::ServerNotInitialized => -32002,
            ErrorCode::UnknownErrorCode => -32001,
            ErrorCode::RequestCanceled => -32800,
            ErrorCode::ContentModified => -32801,
            ErrorCode::ServerCancelled => -32802,
            ErrorCode::RequestFailed => -32803,
        }
    }

    pub fn value(&self) -> (r: i32)
        ensures
            r as int == self.spec_value(),
    {
        match self {
            ErrorCode::ParseError => -32700,
            ErrorCode::InvalidRequest => -32600,
            ErrorCode::MethodNotFound => -32601,
            ErrorCode::InvalidParams => -32602,
            ErrorCode::InternalError => -32603,
            ErrorCode::ServerErrorStart => -32099,
            ErrorCode::ServerErrorEnd => -32000,
            ErrorCode::ServerNotInitialized => -32002,
            ErrorCode::UnknownErrorCode => -32001,
            ErrorCode::RequestCanceled => -32800,
            ErrorCode::ContentModified => -32801,
            ErrorCode::ServerCancelled => -32802,
            ErrorCode::RequestFailed => -32803,
        }
    }
}

/// A failure of a handler: exactly one error code and one cause. The code is
/// wire metadata; the rendered text is the cause's alone.
#[derive(Debug)]
pub struct LSPError {
    pub code: ErrorCode,
    pub error: String,
}

pub type LSPResult<T> = Result<T, LSPError>;

impl LSPError {
    pub fn new(error: String, code: ErrorCode) -> (r: Self)
        ensures
            r.code == code,
            r.error == error,
    {
        LSPError { code, error }
    }

    /// The text of the error: the cause's message, without the code.
    pub fn message(&self) -> (r: String)
        ensures
            r@ == self.error@,
    {
        self.error.clone()
    }
}

/// Conversion of a result whose error is a plain message into an [`LSPResult`].
pub trait LSPResultEx<T>: Sized {
    spec fn spec_with_failure_code(self, code: ErrorCode) -> Result<T, LSPError>;

    fn with_failure_code(self, code: ErrorCode) -> (r: Result<T, LSPError>)
        ensures
            r == self.spec_with_failure_code(code),
    ;
}

impl<T> LSPResultEx<T> for Result<T, String> {
    open spec fn spec_with_failure_code(self, code: ErrorCode) -> Result<T, LSPError> {
        match self {
            Ok(v) => Ok(v),
            Err(e) => Err(LSPError { code, error: e }),
        }
    }

    fn with_failure_code(self, code: ErrorCode) -> (r: Result<T, LSPError>) {
        match self {
            Ok(v) => Ok(v),
            Err(e) => Err(LSPError::new(e, code)),
        }
    }
}

} // verus!
