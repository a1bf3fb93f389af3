//! The completion gateway's side of a turn: what the backend answers, and
//! what becomes of each answer.

use crate::error::{AppError, GatewayError};
use vstd::prelude::*;

verus! {

/// The reply given when the backend answers without content.
pub const FALLBACK_REPLY: &'static str = "I can't respond to that.";

/// The backend's answer to a completion request.
#[derive(Debug)]
pub struct APIResponse {
    pub code: i32,
    pub message: String,
    pub content: Option<String>,
    pub images: Option<Vec<String>>,
}

impl APIResponse {
    /// The text a response stands for: its content, or the fallback where it
    /// has none.
    pub open spec fn reply(self) -> Seq<char> {
        match self.content {
            Some(text) => text@,
            None => FALLBACK_REPLY@,
        }
    }
}

/// What a completion comes to, for each outcome of the call to the backend.
pub open spec fn completion(outcome: Result<APIResponse, GatewayError>) -> Result<
    Seq<char>,
    AppError,
> {
    match outcome {
        Ok(response) => Ok(response.reply()),
        Err(failure) => Err(AppError::ReqwestError(failure)),
    }
}

/// Settles a completion once the backend has been called: the reply it gave,
/// the fallback where it answered without content, or the failure. Nothing
/// is retried.
#[allow(non_snake_case)]
pub fn ChatCompletion(outcome: Result<APIResponse, GatewayError>) -> (settled: Result<
    String,
    AppError,
>)
    ensures
        match completion(outcome) {
            Ok(reply) => settled matches Ok(text) && text@ == reply,
            Err(error) => settled == Err::<String, AppError>(error),
        },
{
    match outcome {
        Ok(response) => match response.content {
            Some(text) => Ok(text),
            None => Ok(FALLBACK_REPLY.to_owned()),
        },
        Err(failure) => Err(AppError::ReqwestError(failure)),
    }
}

} // verus!
