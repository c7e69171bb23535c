//! The messages of JSON-RPC.

use vstd::prelude::*;
use crate::json::JsonValue;

verus! {

/// A request.
#[derive(Debug)]
pub struct JSONRPCRequest {
    pub jsonrpc: String,
    pub id: Option<JsonValue>,
    pub method: String,
    pub params: Option<JsonValue>,
}

/// An error that answers a request.
#[derive(Debug)]
pub struct JSONRPCError {
    code: i32,
    message: String,
}

impl JSONRPCError {
    /// An error with the given code and message.
    pub fn new(code: i32, message: String) -> (error: Self)
        ensures
            error.spec_code() == code,
            error.spec_message() == message@,
    {
        JSONRPCError { code, message }
    }

    /// The code of the error.
    pub closed spec fn spec_code(&self) -> i32 {
        self.code
    }

    /// The message of the error.
    pub closed spec fn spec_message(&self) -> Seq<char> {
        self.message@
    }

    /// The code of the error.
    pub fn code(&self) -> (code: i32)
        ensures
            code == self.spec_code(),
    {
        self.code
    }

    /// The message of the error.
    pub fn message(&self) -> (message: &str)
        ensures
            message@ == self.spec_message(),
    {
        self.message.as_str()
    }
}

/// An answer to a request: a result or an error.
#[derive(Debug)]
pub struct JSONRPCResponse {
    jsonrpc: String,
    id: Option<JsonValue>,
    result: Option<JsonValue>,
    error: Option<JSONRPCError>,
}

impl JSONRPCResponse {
    /// An answer made of its parts.
    pub fn new(
        jsonrpc: String,
        id: Option<JsonValue>,
        result: Option<JsonValue>,
        error: Option<JSONRPCError>,
    ) -> (response: Self)
        ensures
            response.is_error() == (error is Some),
            response.spec_result() == result,
    {
        JSONRPCResponse { jsonrpc, id, result, error }
    }

    /// Whether the answer is an error.
    pub closed spec fn is_error(&self) -> bool {
        self.error is Some
    }

    /// The result of the answer.
    pub closed spec fn spec_result(&self) -> Option<JsonValue> {
        self.result
    }

    /// The error, if the answer is one.
    pub fn error(&self) -> (error: Option<&JSONRPCError>)
        ensures
            (error is Some) == self.is_error(),
    {
        self.error.as_ref()
    }

    /// The result, if the answer has one.
    pub fn result(&self) -> (result: Option<&JsonValue>)
        ensures
            match result {
                Some(v) => self.spec_result() == Some(*v),
                None => self.spec_result() is None,
            },
    {
        self.result.as_ref()
    }
}

} // verus!
