//! Responses of the chat platform's bot API.

use crate::text::{push_signed_decimal, signed_decimal};
use vstd::prelude::*;
use vstd::string::StringExecFns;

verus! {

/// What the API answers to a call.
#[derive(Debug, Clone, PartialEq, Eq)]
pub enum Response<T> {
    Success { result: T },
    Failure { description: String, error_code: i32, retry_after_secs: Option<u64> },
}

/// An error that the API reported.
#[derive(Debug, Clone, PartialEq, Eq)]
pub struct ApiError {
    pub error_code: i32,
    pub description: String,
    /// Seconds to wait before the call is made again, where the API asks
    /// for that.
    pub retry_after_secs: Option<u64>,
}

impl ApiError {
    /// Text of the error.
    pub open spec fn text(&self) -> Seq<char> {
        "API error "@ + signed_decimal(self.error_code as int) + ": "@ + self.description@
    }

    /// Writes the error as text.
    pub fn to_text(&self) -> (r: String)
        ensures
            r@ == self.text(),
    {
        let mut out = String::from_str("API error ");
        push_signed_decimal(&mut out, self.error_code as i64);
        out.append(": ");
        out.append(self.description.as_str());
        out
    }
}

impl<T> Response<T> {
    /// The result of a call, or the error that the API reported.
    pub fn into_result(self) -> (r: Result<T, ApiError>)
        ensures
            match self {
                Response::Success { result } => r == Ok::<T, ApiError>(result),
                Response::Failure { description, error_code, retry_after_secs } => r == Err::<
                    T,
                    ApiError,
                >(ApiError { error_code, description, retry_after_secs }),
            },
    {
        match self {
            Response::Success { result } => Ok(result),
            Response::Failure { description, error_code, retry_after_secs } => Err(
                ApiError { error_code, description, retry_after_secs },
            ),
        }
    }
}

} // verus!
