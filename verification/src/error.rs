//! What can go wrong, by kind.

use vstd::prelude::*;

verus! {

/// Why a message cannot be built or stored.
#[derive(Debug, Clone, Copy, PartialEq, Eq, Structural)]
pub enum ValidationError {
    /// A user's turn has to say something.
    EmptyUserContent,
    /// A system prompt can only open a conversation.
    SystemNotFirst,
}

/// How a call to the backend can fail.
#[derive(Debug, Clone, Copy, PartialEq, Eq, Structural)]
pub enum GatewayError {
    /// The request did not get through, or the backend refused it.
    Transport,
    /// An answer came back that could not be read.
    Protocol,
}

/// What stops the handling of an inbound message.
#[derive(Debug, Clone, Copy, PartialEq, Eq, Structural)]
pub enum AppError {
    /// The messaging transport failed to deliver or edit a message.
    Teloxide,
    /// The completion backend could not be reached or understood.
    ReqwestError(GatewayError),
}

/// The outcome of handling an inbound message.
pub type HandleResult = Result<(), AppError>;

} // verus!
