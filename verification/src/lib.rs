//! Conversation state and turn orchestration for a chat relay: per-user
//! histories, the rules that keep them well formed, and the decisions taken
//! around each call to the completion backend.

pub mod error;
pub mod gateway;
pub mod history;
pub mod laws;
pub mod message;
pub mod orchestrator;
pub mod text;

pub use error::{AppError, GatewayError, HandleResult, ValidationError};
pub use gateway::{APIResponse, ChatCompletion, FALLBACK_REPLY};
pub use history::{ChatHistories, ChatMessages};
pub use message::{ChatCompletionRequestMessage, MessageView, Role};
pub use orchestrator::{Command, Turn, TurnAction, TurnEvent};
