//! The errors the HTTP handlers answer with, and the response each maps to.
use vstd::prelude::*;

use crate::json::{json_string, push_json_string};

verus! {

/// A handler error: the device accepted no connection (the caller's fault,
/// 4xx) or an operation failed after the call was accepted (5xx).
#[derive(Debug)]
pub enum ApiError {
    InternalServerError,
    BadRequest(String),
}

impl ApiError {
    /// The message the error's response body quotes.
    pub open spec fn message_view(&self) -> Seq<char> {
        match self {
            ApiError::InternalServerError => "Internal Server Error"@,
            ApiError::BadRequest(m) => m@,
        }
    }

    /// The HTTP status code of the response this error maps to.
    pub fn status_code(&self) -> (code: u16)
        ensures
            code == 500 <==> self is InternalServerError,
            code == 400 <==> self is BadRequest,
    {
        match self {
            ApiError::InternalServerError => 500,
            ApiError::BadRequest(_) => 400,
        }
    }

    /// The JSON body of the response: the message as a JSON string literal.
    pub fn response_body(&self) -> (body: String)
        ensures
            body@ == json_string(self.message_view()),
    {
        let mut body = String::new();
        match self {
            ApiError::InternalServerError => {
                push_json_string(&mut body, "Internal Server Error");
            },
            ApiError::BadRequest(m) => {
                push_json_string(&mut body, m.as_str());
            },
        }
        proof {
            assert(body@ =~= json_string(self.message_view()));
        }
        body
    }
}

} // verus!
