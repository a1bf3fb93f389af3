//! The message model: one turn of a conversation, independent of where it is
//! stored or how it is sent.

use crate::error::ValidationError;
use vstd::prelude::*;

verus! {

/// Who is speaking in a turn.
#[derive(Debug, Clone, Copy, PartialEq, Eq, Structural, Hash)]
pub enum Role {
    System,
    User,
    Assistant,
}

impl Role {
    /// The capitalised name under which a role is shown to people.
    pub open spec fn label(self) -> Seq<char> {
        match self {
            Role::System => "System"@,
            Role::User => "User"@,
            Role::Assistant => "Assistant"@,
        }
    }

    /// The lower-case name under which a role travels to the backend.
    pub open spec fn wire_name(self) -> Seq<char> {
        match self {
            Role::System => "system"@,
            Role::User => "user"@,
            Role::Assistant => "assistant"@,
        }
    }

    /// Renders the role for display.
    pub fn to_string(&self) -> (text: String)
        ensures
            text@ == self.label(),
    {
        match self {
            Role::System => "System".to_owned(),
            Role::User => "User".to_owned(),
            Role::Assistant => "Assistant".to_owned(),
        }
    }

    /// The role's name in a request to the backend.
    pub fn as_wire(&self) -> (name: &'static str)
        ensures
            name@ == self.wire_name(),
    {
        match self {
            Role::System => "system",
            Role::User => "user",
            Role::Assistant => "assistant",
        }
    }
}

impl Default for Role {
    /// A turn is the user's unless said otherwise.
    fn default() -> (role: Role)
        ensures
            role == Role::User,
    {
        Role::User
    }
}

/// A message as contracts see it.
pub struct MessageView {
    pub role: Role,
    pub content: Seq<char>,
    pub name: Option<Seq<char>>,
}

impl MessageView {
    /// A user's message is never empty; the other roles may say anything.
    pub open spec fn valid(self) -> bool {
        self.role == Role::User ==> self.content.len() > 0
    }

    /// The system prompt that opens a conversation.
    pub open spec fn system(text: Seq<char>) -> MessageView {
        MessageView { role: Role::System, content: text, name: None }
    }

    /// What a user said.
    pub open spec fn user(text: Seq<char>) -> MessageView {
        MessageView { role: Role::User, content: text, name: None }
    }

    /// What the backend answered.
    pub open spec fn assistant(text: Seq<char>) -> MessageView {
        MessageView { role: Role::Assistant, content: text, name: None }
    }
}

/// One turn of a conversation: who spoke, what was said, and optionally the
/// speaker's name.
#[derive(Debug)]
pub struct ChatCompletionRequestMessage {
    pub role: Role,
    pub content: String,
    pub name: Option<String>,
}

impl View for ChatCompletionRequestMessage {
    type V = MessageView;

    open spec fn view(&self) -> MessageView {
        MessageView {
            role: self.role,
            content: self.content@,
            name: match self.name {
                Some(n) => Some(n@),
                None => None,
            },
        }
    }
}

impl Clone for ChatCompletionRequestMessage {
    fn clone(&self) -> (copy: Self)
        ensures
            copy@ == self@,
    {
        let name = match &self.name {
            Some(n) => Some(n.clone()),
            None => None,
        };
        ChatCompletionRequestMessage { role: self.role, content: self.content.clone(), name }
    }
}

impl ChatCompletionRequestMessage {
    /// Builds a message, refusing a user's turn that says nothing.
    pub fn new(role: Role, content: String, name: Option<String>) -> (built: Result<
        ChatCompletionRequestMessage,
        ValidationError,
    >)
        ensures
            built is Err <==> role == Role::User && content@.len() == 0,
            match built {
                Ok(message) => message.role == role && message.content == content && message.name
                    == name && message@.valid(),
                Err(error) => error == ValidationError::EmptyUserContent && role == Role::User
                    && content@.len() == 0,
            },
    {
        if role == Role::User && content.as_str().is_empty() {
            Err(ValidationError::EmptyUserContent)
        } else {
            Ok(ChatCompletionRequestMessage { role, content, name })
        }
    }
}

} // verus!
