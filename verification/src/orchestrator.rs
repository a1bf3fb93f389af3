//! The conversation orchestrator: what each inbound message does to the
//! histories and what is to be sent in return.
//!
//! Sending and calling the backend are the caller's work. The orchestrator
//! decides: it answers each inbound message with an action, and each event
//! that the action led to with the next one, until it says stop.

use crate::error::{AppError, GatewayError, HandleResult};
use crate::gateway::{completion, APIResponse, ChatCompletion};
use crate::history::{all_well_formed, conversation, messages_view, ChatHistories, ChatMessages};
use crate::message::{MessageView, Role};
use crate::text::{lowercase, lowercased, starts_with, substitute, substituted, trim, trimmed};
use vstd::prelude::*;
use vstd::string::StringExecFns;

verus! {

/// Where a prompt wants the user's display name.
pub const NAME_TOKEN: &'static str = "[name]";

/// Free text that begins with this word, in any case, is meant for the
/// assistant.
pub const WAKE_WORD: &'static str = "akeno";

/// Shown at once in answer to a chat message, and replaced by the reply.
pub const PLACEHOLDER: &'static str = "\u{1F4AD}";

/// Confirms a new system prompt.
pub const PROMPT_SET: &'static str = "Prompt set.";

/// Confirms a cleared history.
pub const HISTORIES_CLEARED: &'static str = "Chat histories cleared.";

/// Stands for a history with nothing in it.
pub const EMPTY_HISTORY: &'static str = "Empty chat history.";

/// The commands a user can give.
#[derive(Debug)]
pub enum Command {
    /// See all available commands.
    Help,
    /// Set the system prompt.
    Prompt(String),
    /// Chat with the assistant.
    Chat(String),
    /// Chat with the assistant.
    Askgpt(String),
    /// View the chat history.
    View,
    /// Clear the chat history.
    Clear,
    /// Clear the chat history.
    Reset,
    /// Where the source lives.
    Source,
}

impl Clone for Command {
    fn clone(&self) -> (copy: Command)
        ensures
            copy == *self,
    {
        match self {
            Command::Help => Command::Help,
            Command::Prompt(text) => Command::Prompt(text.clone()),
            Command::Chat(text) => Command::Chat(text.clone()),
            Command::Askgpt(text) => Command::Askgpt(text.clone()),
            Command::View => Command::View,
            Command::Clear => Command::Clear,
            Command::Reset => Command::Reset,
            Command::Source => Command::Source,
        }
    }
}

/// How far the handling of one inbound message has come.
#[derive(Debug)]
pub enum Turn {
    /// The user's message is in the history; the placeholder is on its way.
    Ingested { user: u64, history: ChatMessages },
    /// The placeholder is visible and the backend is being asked.
    Completing { user: u64 },
    /// Nothing more will change.
    Closed,
}

/// A turn as contracts see it.
pub enum TurnView {
    Ingested { user: u64, history: Seq<MessageView> },
    Completing { user: u64 },
    Closed,
}

impl View for Turn {
    type V = TurnView;

    open spec fn view(&self) -> TurnView {
        match self {
            Turn::Ingested { user, history } => TurnView::Ingested {
                user: *user,
                history: messages_view(history@),
            },
            Turn::Completing { user } => TurnView::Completing { user: *user },
            Turn::Closed => TurnView::Closed,
        }
    }
}

/// What came of the last action.
#[derive(Debug)]
pub enum TurnEvent {
    /// The message went out, or the edit was made.
    Sent,
    /// The transport could not send or edit.
    SendFailed,
    /// The call to the backend returned.
    Completion(Result<APIResponse, GatewayError>),
}

/// What the caller is to do next.
#[derive(Debug)]
pub enum TurnAction {
    /// Send this text in reply to the inbound message.
    Reply(String),
    /// Ask the backend to continue this conversation.
    Complete(ChatMessages),
    /// Put this text in place of the reply sent before.
    Edit(String),
    /// Do nothing more; this is how the handling ended.
    Stop(HandleResult),
}

/// An action as contracts see it.
pub enum ActionView {
    Reply(Seq<char>),
    Complete(Seq<MessageView>),
    Edit(Seq<char>),
    Stop(HandleResult),
}

impl View for TurnAction {
    type V = ActionView;

    open spec fn view(&self) -> ActionView {
        match self {
            TurnAction::Reply(text) => ActionView::Reply(text@),
            TurnAction::Complete(history) => ActionView::Complete(messages_view(history@)),
            TurnAction::Edit(text) => ActionView::Edit(text@),
            TurnAction::Stop(result) => ActionView::Stop(*result),
        }
    }
}

/// A prompt with the user's display name in place of each name token.
pub open spec fn personalized(prompt: Seq<char>, name: Seq<char>) -> Seq<char> {
    substituted(prompt, NAME_TOKEN@, name)
}

/// Whether free text calls on the assistant: in lower case it begins with
/// the wake word.
pub open spec fn wakes(text: Seq<char>) -> bool {
    WAKE_WORD@.is_prefix_of(lowercased(text))
}

/// The histories once a user's message has been taken in: an empty
/// conversation is first opened with the personalised system prompt.
pub open spec fn ingested(
    histories: Map<u64, Seq<MessageView>>,
    user: u64,
    name: Seq<char>,
    persona: Seq<char>,
    content: Seq<char>,
) -> Map<u64, Seq<MessageView>> {
    let before = conversation(histories, user);
    let opened = if before.len() == 0 {
        seq![MessageView::system(personalized(persona, name))]
    } else {
        before
    };
    histories.insert(user, opened.push(MessageView::user(content)))
}

/// The histories once a reply has been committed to a user's conversation,
/// whatever that conversation has become in the meantime.
pub open spec fn committed(
    histories: Map<u64, Seq<MessageView>>,
    user: u64,
    reply: Seq<char>,
) -> Map<u64, Seq<MessageView>> {
    histories.insert(user, conversation(histories, user).push(MessageView::assistant(reply)))
}

/// How a chat message is answered. An empty message changes nothing and
/// asks for nothing. Any other is taken into the history, and the
/// placeholder goes out before anything else happens.
pub open spec fn chat_begun(
    histories: Map<u64, Seq<MessageView>>,
    user: u64,
    name: Seq<char>,
    persona: Seq<char>,
    content: Seq<char>,
) -> (Map<u64, Seq<MessageView>>, TurnView, ActionView) {
    if content.len() == 0 {
        (histories, TurnView::Closed, ActionView::Stop(Ok(())))
    } else {
        let after = ingested(histories, user, name, persona, content);
        (
            after,
            TurnView::Ingested { user, history: after[user] },
            ActionView::Reply(PLACEHOLDER@),
        )
    }
}

/// How a turn goes on after an event.
///
/// Once the placeholder is out, the backend is asked with the history as it
/// stood when the message was taken in. Its reply is committed and replaces
/// the placeholder; its failure ends the turn with the history untouched. A
/// failure to send ends the turn wherever it stands. An event that the turn
/// does not await ends it too, and nothing comes of it.
pub open spec fn stepped(
    histories: Map<u64, Seq<MessageView>>,
    turn: TurnView,
    event: TurnEvent,
) -> (Map<u64, Seq<MessageView>>, TurnView, ActionView) {
    match (turn, event) {
        (_, TurnEvent::SendFailed) => (
            histories,
            TurnView::Closed,
            ActionView::Stop(Err(AppError::Teloxide)),
        ),
        (TurnView::Ingested { user, history }, TurnEvent::Sent) => (
            histories,
            TurnView::Completing { user },
            ActionView::Complete(history),
        ),
        (TurnView::Completing { user }, TurnEvent::Completion(outcome)) => match completion(
            outcome,
        ) {
            Ok(reply) => (
                committed(histories, user, reply),
                TurnView::Closed,
                ActionView::Edit(reply),
            ),
            Err(error) => (histories, TurnView::Closed, ActionView::Stop(Err(error))),
        },
        _ => (histories, TurnView::Closed, ActionView::Stop(Ok(()))),
    }
}

/// One message of a history as it is shown: its role in brackets, then its
/// content without the white space around it.
pub open spec fn history_line(message: MessageView) -> Seq<char> {
    "["@ + message.role.label() + "]: "@ + trimmed(message.content)
}

/// The messages of a conversation as they are shown, oldest first, a blank
/// line between each two.
pub open spec fn transcript(conversation: Seq<MessageView>) -> Seq<char>
    decreases conversation.len(),
{
    if conversation.len() == 0 {
        Seq::empty()
    } else if conversation.len() == 1 {
        history_line(conversation[0])
    } else {
        transcript(conversation.drop_last()) + "\n\n"@ + history_line(conversation.last())
    }
}

/// What a user is shown of a conversation.
pub open spec fn history_text(conversation: Seq<MessageView>) -> Seq<char> {
    if conversation.len() == 0 {
        EMPTY_HISTORY@
    } else {
        transcript(conversation)
    }
}

/// How a command is answered.
///
/// A prompt replaces the conversation by that prompt, personalised, as its
/// system message. The two chat commands begin a turn. Viewing changes
/// nothing. Clearing and resetting empty the conversation. The orchestrator
/// has no part in the other commands.
pub open spec fn commanded(
    histories: Map<u64, Seq<MessageView>>,
    user: u64,
    name: Seq<char>,
    persona: Seq<char>,
    command: Command,
) -> (Map<u64, Seq<MessageView>>, TurnView, ActionView) {
    match command {
        Command::Prompt(prompt) => (
            histories.insert(user, seq![MessageView::system(personalized(prompt@, name))]),
            TurnView::Closed,
            ActionView::Reply(PROMPT_SET@),
        ),
        Command::Chat(content) => chat_begun(histories, user, name, persona, content@),
        Command::Askgpt(content) => chat_begun(histories, user, name, persona, content@),
        Command::View => (
            histories,
            TurnView::Closed,
            ActionView::Reply(history_text(conversation(histories, user))),
        ),
        Command::Clear => (
            histories.insert(user, Seq::empty()),
            TurnView::Closed,
            ActionView::Reply(HISTORIES_CLEARED@),
        ),
        Command::Reset => (
            histories.insert(user, Seq::empty()),
            TurnView::Closed,
            ActionView::Reply(HISTORIES_CLEARED@),
        ),
        Command::Help => (histories, TurnView::Closed, ActionView::Stop(Ok(()))),
        Command::Source => (histories, TurnView::Closed, ActionView::Stop(Ok(()))),
    }
}

/// How an inbound message is answered. A command goes first. Free text
/// begins a turn if it opens with the wake word or answers the assistant's
/// own message. Anything else is ignored.
pub open spec fn dispatched(
    histories: Map<u64, Seq<MessageView>>,
    user: u64,
    name: Seq<char>,
    persona: Seq<char>,
    command: Option<Command>,
    text: Seq<char>,
    answers_assistant: bool,
) -> (Map<u64, Seq<MessageView>>, TurnView, ActionView) {
    match command {
        Some(command) => commanded(histories, user, name, persona, command),
        None => if wakes(text) || answers_assistant {
            chat_begun(histories, user, name, persona, text)
        } else {
            (histories, TurnView::Closed, ActionView::Stop(Ok(())))
        },
    }
}

/// Puts the user's display name in place of each name token of a prompt.
pub fn personalize(prompt: &str, name: &str) -> (text: String)
    ensures
        text@ == personalized(prompt@, name@),
{
    substitute(prompt, NAME_TOKEN, name)
}

/// Whether free text calls on the assistant.
pub fn is_wake_call(text: &str) -> (called: bool)
    ensures
        called == wakes(text@),
{
    let lower = lowercase(text);
    starts_with(lower.as_str(), WAKE_WORD)
}

/// Takes a chat message in and says how to answer it.
pub fn complete_chat(
    store: &mut ChatHistories,
    user: u64,
    name: &str,
    persona: &str,
    content: String,
) -> (next: (Turn, TurnAction))
    ensures
        (final(store)@, next.0@, next.1@) == chat_begun(
            old(store)@,
            user,
            name@,
            persona@,
            content@,
        ),
        all_well_formed(final(store)@),
{
    proof {
        use_type_invariant(&*store);
    }
    if content.as_str().is_empty() {
        return (Turn::Closed, TurnAction::Stop(Ok(())));
    }
    let ghost said = content@;
    store.append_system_if_empty(user, personalize(persona, name));
    let _ = store.append(user, Role::User, content);
    let history = store.snapshot(user);
    assert(store@ =~= ingested(old(store)@, user, name@, persona@, said));
    (Turn::Ingested { user, history }, TurnAction::Reply(PLACEHOLDER.to_owned()))
}

/// Carries a turn on after an event.
pub fn advance(store: &mut ChatHistories, turn: Turn, event: TurnEvent) -> (next: (
    Turn,
    TurnAction,
))
    ensures
        (final(store)@, next.0@, next.1@) == stepped(old(store)@, turn@, event),
        all_well_formed(final(store)@),
{
    proof {
        use_type_invariant(&*store);
    }
    match (turn, event) {
        (_, TurnEvent::SendFailed) => (Turn::Closed, TurnAction::Stop(Err(AppError::Teloxide))),
        (Turn::Ingested { user, history }, TurnEvent::Sent) => (
            Turn::Completing { user },
            TurnAction::Complete(history),
        ),
        (Turn::Completing { user }, TurnEvent::Completion(outcome)) => {
            match ChatCompletion(outcome) {
                Ok(reply) => {
                    let _ = store.append(user, Role::Assistant, reply.clone());
                    (Turn::Closed, TurnAction::Edit(reply))
                },
                Err(error) => (Turn::Closed, TurnAction::Stop(Err(error))),
            }
        },
        _ => (Turn::Closed, TurnAction::Stop(Ok(()))),
    }
}

/// Replaces the user's conversation by a system prompt, personalised, and
/// gives the confirmation to send.
pub fn set_prompt(store: &mut ChatHistories, user: u64, name: &str, prompt: String) -> (reply:
    String)
    ensures
        final(store)@ == old(store)@.insert(
            user,
            seq![MessageView::system(personalized(prompt@, name@))],
        ),
        reply@ == PROMPT_SET@,
        all_well_formed(final(store)@),
{
    store.reset_with_system(user, personalize(prompt.as_str(), name));
    PROMPT_SET.to_owned()
}

/// Renders one message of a history.
fn render_line(role: Role, content: &str) -> (line: String)
    ensures
        line@ == history_line((MessageView { role, content: content@, name: None })),
{
    let mut line = "[".to_owned();
    line.append(role.to_string().as_str());
    line.append("]: ");
    line.append(trim(content).as_str());
    line
}

/// Renders a conversation for its user.
pub fn render_history(history: &ChatMessages) -> (text: String)
    ensures
        text@ == history_text(messages_view(history@)),
{
    if history.len() == 0 {
        return EMPTY_HISTORY.to_owned();
    }
    let ghost shown = messages_view(history@);
    let mut text = render_line(history[0].role, history[0].content.as_str());
    assert(shown.take(1).len() == 1 && shown.take(1)[0] == shown[0]);
    let mut i: usize = 1;
    while i < history.len()
        invariant
            1 <= i <= history.len(),
            shown == messages_view(history@),
            text@ == transcript(shown.take(i as int)),
        decreases history.len() - i,
    {
        text.append("\n\n");
        text.append(render_line(history[i].role, history[i].content.as_str()).as_str());
        proof {
            let upto = shown.take(i + 1);
            assert(upto.drop_last() =~= shown.take(i as int));
            assert(upto.last() == shown[i as int]);
        }
        i += 1;
    }
    assert(shown.take(i as int) =~= shown);
    text
}

/// What the user is shown of the user's own history. Nothing changes.
pub fn view_histories(store: &ChatHistories, user: u64) -> (text: String)
    ensures
        text@ == history_text(conversation(store@, user)),
{
    let history = store.snapshot(user);
    render_history(&history)
}

/// Empties the user's conversation and gives the confirmation to send.
pub fn clear_history(store: &mut ChatHistories, user: u64) -> (reply: String)
    ensures
        final(store)@ == old(store)@.insert(user, Seq::empty()),
        reply@ == HISTORIES_CLEARED@,
        all_well_formed(final(store)@),
{
    store.clear(user);
    HISTORIES_CLEARED.to_owned()
}

/// Answers a command.
pub fn handle_command(
    store: &mut ChatHistories,
    user: u64,
    name: &str,
    persona: &str,
    command: Command,
) -> (next: (Turn, TurnAction))
    ensures
        (final(store)@, next.0@, next.1@) == commanded(
            old(store)@,
            user,
            name@,
            persona@,
            command,
        ),
        all_well_formed(final(store)@),
{
    proof {
        use_type_invariant(&*store);
    }
    match command {
        Command::Prompt(prompt) => {
            let reply = set_prompt(store, user, name, prompt);
            (Turn::Closed, TurnAction::Reply(reply))
        },
        Command::Chat(content) => complete_chat(store, user, name, persona, content),
        Command::Askgpt(content) => complete_chat(store, user, name, persona, content),
        Command::View => {
            let text = view_histories(store, user);
            (Turn::Closed, TurnAction::Reply(text))
        },
        Command::Clear => {
            let reply = clear_history(store, user);
            (Turn::Closed, TurnAction::Reply(reply))
        },
        Command::Reset => {
            let reply = clear_history(store, user);
            (Turn::Closed, TurnAction::Reply(reply))
        },
        Command::Help => (Turn::Closed, TurnAction::Stop(Ok(()))),
        Command::Source => (Turn::Closed, TurnAction::Stop(Ok(()))),
    }
}

/// Answers an inbound message: a command if it is one, free text
/// otherwise.
pub fn handle_message(
    store: &mut ChatHistories,
    user: u64,
    name: &str,
    persona: &str,
    command: Option<Command>,
    text: &str,
    answers_assistant: bool,
) -> (next: (Turn, TurnAction))
    ensures
        (final(store)@, next.0@, next.1@) == dispatched(
            old(store)@,
            user,
            name@,
            persona@,
            command,
            text@,
            answers_assistant,
        ),
        all_well_formed(final(store)@),
{
    proof {
        use_type_invariant(&*store);
    }
    match command {
        Some(command) => handle_command(store, user, name, persona, command),
        None => {
            if is_wake_call(text) || answers_assistant {
                complete_chat(store, user, name, persona, text.to_owned())
            } else {
                (Turn::Closed, TurnAction::Stop(Ok(())))
            }
        },
    }
}

} // verus!
