//! What holds of the orchestrator whatever the histories, the users and the
//! messages are.

use crate::error::{AppError, GatewayError};
use crate::gateway::{APIResponse, FALLBACK_REPLY};
use crate::history::{
    all_well_formed, conversation, lemma_well_formed_has_one_system_at_most, system_count,
    well_formed,
};
use crate::message::MessageView;
use crate::orchestrator::{
    chat_begun, commanded, committed, dispatched, ingested, personalized, stepped, ActionView,
    Command, TurnEvent, TurnView, NAME_TOKEN,
};
use crate::text::{lemma_substituted_holds_replacement, lemma_substituted_without_token, occurs_in};
use vstd::prelude::*;

verus! {

/// A turn is bound to its histories when the history it carries is a
/// well-formed one.
pub open spec fn turn_well_formed(turn: TurnView) -> bool {
    turn matches TurnView::Ingested { history, .. } ==> well_formed(history)
}

/// The first message of a user without an entry leaves a conversation of
/// two: the persona as system prompt, with the user's display name in it,
/// then what the user said.
pub proof fn first_message_opens_the_conversation(
    histories: Map<u64, Seq<MessageView>>,
    user: u64,
    name: Seq<char>,
    persona: Seq<char>,
    content: Seq<char>,
)
    requires
        !histories.contains_key(user),
        content.len() > 0,
    ensures
        conversation(chat_begun(histories, user, name, persona, content).0, user) == seq![
            MessageView::system(personalized(persona, name)),
            MessageView::user(content),
        ],
        conversation(chat_begun(histories, user, name, persona, content).0, user).len() == 2,
        occurs_in(NAME_TOKEN@, persona) ==> occurs_in(name, personalized(persona, name)),
        !occurs_in(NAME_TOKEN@, persona) ==> personalized(persona, name) == persona,
{
    let after = conversation(chat_begun(histories, user, name, persona, content).0, user);
    assert(after =~= seq![
        MessageView::system(personalized(persona, name)),
        MessageView::user(content),
    ]);
    reveal_strlit("[name]");
    if occurs_in(NAME_TOKEN@, persona) {
        lemma_substituted_holds_replacement(persona, NAME_TOKEN@, name);
    } else {
        lemma_substituted_without_token(persona, NAME_TOKEN@, name);
    }
}

/// Whatever message comes in, well-formed histories stay well formed: no
/// conversation ever holds a second system prompt, and the turn that is
/// begun carries a well-formed history.
pub proof fn messages_keep_one_system_prompt(
    histories: Map<u64, Seq<MessageView>>,
    user: u64,
    name: Seq<char>,
    persona: Seq<char>,
    command: Option<Command>,
    text: Seq<char>,
    answers_assistant: bool,
)
    requires
        all_well_formed(histories),
    ensures
        all_well_formed(
            dispatched(histories, user, name, persona, command, text, answers_assistant).0,
        ),
        turn_well_formed(
            dispatched(histories, user, name, persona, command, text, answers_assistant).1,
        ),
        forall|other: u64|
            system_count(
                #[trigger] conversation(
                    dispatched(histories, user, name, persona, command, text, answers_assistant).0,
                    other,
                ),
            ) <= 1,
{
    let after = dispatched(histories, user, name, persona, command, text, answers_assistant).0;
    let before = conversation(histories, user);
    assert(well_formed(before));
    assert forall|content: Seq<char>| content.len() > 0 implies well_formed(
        #[trigger] ingested(histories, user, name, persona, content)[user],
    ) by {
        let opened = if before.len() == 0 {
            seq![MessageView::system(personalized(persona, name))]
        } else {
            before
        };
        assert(well_formed(opened));
        assert(well_formed(opened.push(MessageView::user(content))));
    }
    assert(well_formed(seq![MessageView::system(Seq::<char>::empty())])) by {
        assert(seq![MessageView::system(Seq::<char>::empty())].len() == 1);
    }
    assert forall|prompt: Seq<char>| well_formed(#[trigger] seq![MessageView::system(prompt)]) by {
        assert(seq![MessageView::system(prompt)].len() == 1);
    }
    assert(well_formed(Seq::<MessageView>::empty()));
    assert(all_well_formed(after));
    assert forall|other: u64| system_count(#[trigger] conversation(after, other)) <= 1 by {
        lemma_well_formed_has_one_system_at_most(conversation(after, other));
    }
}

/// Whatever event a turn meets, well-formed histories stay well formed,
/// with one system prompt at most in each conversation.
pub proof fn events_keep_one_system_prompt(
    histories: Map<u64, Seq<MessageView>>,
    turn: TurnView,
    event: TurnEvent,
)
    requires
        all_well_formed(histories),
    ensures
        all_well_formed(stepped(histories, turn, event).0),
        turn_well_formed(stepped(histories, turn, event).1),
        forall|other: u64|
            system_count(#[trigger] conversation(stepped(histories, turn, event).0, other)) <= 1,
{
    let after = stepped(histories, turn, event).0;
    assert forall|user: u64, reply: Seq<char>|
        well_formed(#[trigger] committed(histories, user, reply)[user]) by {
        assert(well_formed(conversation(histories, user)));
    }
    assert(all_well_formed(after));
    assert forall|other: u64| system_count(#[trigger] conversation(after, other)) <= 1 by {
        lemma_well_formed_has_one_system_at_most(conversation(after, other));
    }
}

/// Setting a prompt leaves exactly one system prompt, and nothing else, in
/// the user's conversation.
pub proof fn prompt_resets_to_one_system_prompt(
    histories: Map<u64, Seq<MessageView>>,
    user: u64,
    name: Seq<char>,
    persona: Seq<char>,
    prompt: String,
)
    ensures
        conversation(commanded(histories, user, name, persona, Command::Prompt(prompt)).0, user)
            == seq![MessageView::system(personalized(prompt@, name))],
        system_count(
            conversation(
                commanded(histories, user, name, persona, Command::Prompt(prompt)).0,
                user,
            ),
        ) == 1,
        !occurs_in(NAME_TOKEN@, prompt@) ==> personalized(prompt@, name) == prompt@,
{
    let after = seq![MessageView::system(personalized(prompt@, name))];
    assert(after.len() == 1);
    assert(well_formed(after));
    lemma_well_formed_has_one_system_at_most(after);
    if !occurs_in(NAME_TOKEN@, prompt@) {
        lemma_substituted_without_token(prompt@, NAME_TOKEN@, name);
    }
}

/// An empty chat message changes no history and ends its turn at once, and
/// a turn that has ended never asks the backend for anything.
pub proof fn empty_message_is_a_no_op(
    histories: Map<u64, Seq<MessageView>>,
    user: u64,
    name: Seq<char>,
    persona: Seq<char>,
    event: TurnEvent,
)
    ensures
        chat_begun(histories, user, name, persona, Seq::empty()) == (
            histories,
            TurnView::Closed,
            ActionView::Stop(Ok(())),
        ),
        stepped(histories, TurnView::Closed, event).0 == histories,
        stepped(histories, TurnView::Closed, event).1 == TurnView::Closed,
        stepped(histories, TurnView::Closed, event).2 is Stop,
{
}

/// The backend is asked only once the placeholder is out, and with the
/// history that the turn took in; histories change only when a reply is
/// committed.
pub proof fn placeholder_comes_before_completion(
    histories: Map<u64, Seq<MessageView>>,
    turn: TurnView,
    event: TurnEvent,
)
    ensures
        stepped(histories, turn, event).2 is Complete ==> event is Sent && (
        turn matches TurnView::Ingested { history, .. } && stepped(histories, turn, event).2
            == ActionView::Complete(history)),
        stepped(histories, turn, event).0 != histories ==> turn is Completing && (
        event matches TurnEvent::Completion(outcome) && outcome is Ok),
{
}

/// Clearing empties a conversation and keeps its entry, and the next chat
/// message opens it afresh with the personalised system prompt.
pub proof fn clear_empties_but_keeps_the_entry(
    histories: Map<u64, Seq<MessageView>>,
    user: u64,
    name: Seq<char>,
    persona: Seq<char>,
    content: Seq<char>,
)
    requires
        content.len() > 0,
    ensures
        commanded(histories, user, name, persona, Command::Clear).0.contains_key(user),
        conversation(commanded(histories, user, name, persona, Command::Clear).0, user)
            == Seq::<MessageView>::empty(),
        commanded(histories, user, name, persona, Command::Reset) == commanded(
            histories,
            user,
            name,
            persona,
            Command::Clear,
        ),
        conversation(
            chat_begun(
                commanded(histories, user, name, persona, Command::Clear).0,
                user,
                name,
                persona,
                content,
            ).0,
            user,
        ) == seq![MessageView::system(personalized(persona, name)), MessageView::user(content)],
{
    let cleared = commanded(histories, user, name, persona, Command::Clear).0;
    let after = conversation(chat_begun(cleared, user, name, persona, content).0, user);
    assert(after =~= seq![
        MessageView::system(personalized(persona, name)),
        MessageView::user(content),
    ]);
}

/// A reply without content is the fallback text, and that text is what is
/// committed and shown.
pub proof fn missing_content_commits_the_fallback(
    histories: Map<u64, Seq<MessageView>>,
    user: u64,
    response: APIResponse,
)
    requires
        response.content is None,
    ensures
        stepped(histories, TurnView::Completing { user }, TurnEvent::Completion(Ok(response))) == (
            committed(histories, user, FALLBACK_REPLY@),
            TurnView::Closed,
            ActionView::Edit(FALLBACK_REPLY@),
        ),
        conversation(committed(histories, user, FALLBACK_REPLY@), user).last()
            == MessageView::assistant(FALLBACK_REPLY@),
{
}

/// What one user's message does leaves every other user's entry as it was.
pub proof fn messages_touch_one_user(
    histories: Map<u64, Seq<MessageView>>,
    user: u64,
    name: Seq<char>,
    persona: Seq<char>,
    command: Option<Command>,
    text: Seq<char>,
    answers_assistant: bool,
    other: u64,
)
    requires
        other != user,
    ensures
        dispatched(histories, user, name, persona, command, text, answers_assistant).0.contains_key(
            other,
        ) == histories.contains_key(other),
        conversation(
            dispatched(histories, user, name, persona, command, text, answers_assistant).0,
            other,
        ) == conversation(histories, other),
{
}

/// What an event does to one user's turn leaves every other user's entry
/// as it was.
pub proof fn events_touch_one_user(
    histories: Map<u64, Seq<MessageView>>,
    turn: TurnView,
    event: TurnEvent,
    other: u64,
)
    requires
        turn matches TurnView::Completing { user } ==> other != user,
    ensures
        stepped(histories, turn, event).0.contains_key(other) == histories.contains_key(other),
        conversation(stepped(histories, turn, event).0, other) == conversation(histories, other),
{
}

/// What a user's message leads to depends on that user's conversation
/// alone: with histories that agree on it, the turn, the action and the
/// user's conversation come out the same.
pub proof fn messages_see_one_user(
    first: Map<u64, Seq<MessageView>>,
    second: Map<u64, Seq<MessageView>>,
    user: u64,
    name: Seq<char>,
    persona: Seq<char>,
    command: Option<Command>,
    text: Seq<char>,
    answers_assistant: bool,
)
    requires
        conversation(first, user) == conversation(second, user),
    ensures
        dispatched(first, user, name, persona, command, text, answers_assistant).1 == dispatched(
            second,
            user,
            name,
            persona,
            command,
            text,
            answers_assistant,
        ).1,
        dispatched(first, user, name, persona, command, text, answers_assistant).2 == dispatched(
            second,
            user,
            name,
            persona,
            command,
            text,
            answers_assistant,
        ).2,
        conversation(
            dispatched(first, user, name, persona, command, text, answers_assistant).0,
            user,
        ) == conversation(
            dispatched(second, user, name, persona, command, text, answers_assistant).0,
            user,
        ),
{
}

/// What an event leads to depends on the conversation of the turn's user
/// alone.
pub proof fn events_see_one_user(
    first: Map<u64, Seq<MessageView>>,
    second: Map<u64, Seq<MessageView>>,
    turn: TurnView,
    event: TurnEvent,
)
    requires
        turn matches TurnView::Completing { user } ==> conversation(first, user) == conversation(
            second,
            user,
        ),
    ensures
        stepped(first, turn, event).1 == stepped(second, turn, event).1,
        stepped(first, turn, event).2 == stepped(second, turn, event).2,
        turn matches TurnView::Completing { user } ==> conversation(
            stepped(first, turn, event).0,
            user,
        ) == conversation(stepped(second, turn, event).0, user),
{
}

/// The messages of two users can be handled in either order: the histories
/// come out the same, and so does what each user is answered.
pub proof fn users_do_not_interfere(
    histories: Map<u64, Seq<MessageView>>,
    persona: Seq<char>,
    one: u64,
    one_name: Seq<char>,
    one_command: Option<Command>,
    one_text: Seq<char>,
    one_answers_assistant: bool,
    two: u64,
    two_name: Seq<char>,
    two_command: Option<Command>,
    two_text: Seq<char>,
    two_answers_assistant: bool,
)
    requires
        one != two,
    ensures
        ({
            let one_first = dispatched(
                histories,
                one,
                one_name,
                persona,
                one_command,
                one_text,
                one_answers_assistant,
            );
            let two_second = dispatched(
                one_first.0,
                two,
                two_name,
                persona,
                two_command,
                two_text,
                two_answers_assistant,
            );
            let two_first = dispatched(
                histories,
                two,
                two_name,
                persona,
                two_command,
                two_text,
                two_answers_assistant,
            );
            let one_second = dispatched(
                two_first.0,
                one,
                one_name,
                persona,
                one_command,
                one_text,
                one_answers_assistant,
            );
            &&& two_second.0 == one_second.0
            &&& (one_first.1, one_first.2) == (one_second.1, one_second.2)
            &&& (two_first.1, two_first.2) == (two_second.1, two_second.2)
        }),
{
    let one_first = dispatched(
        histories,
        one,
        one_name,
        persona,
        one_command,
        one_text,
        one_answers_assistant,
    );
    let two_first = dispatched(
        histories,
        two,
        two_name,
        persona,
        two_command,
        two_text,
        two_answers_assistant,
    );
    messages_touch_one_user(
        histories,
        one,
        one_name,
        persona,
        one_command,
        one_text,
        one_answers_assistant,
        two,
    );
    messages_touch_one_user(
        histories,
        two,
        two_name,
        persona,
        two_command,
        two_text,
        two_answers_assistant,
        one,
    );
    messages_see_one_user(
        histories,
        two_first.0,
        one,
        one_name,
        persona,
        one_command,
        one_text,
        one_answers_assistant,
    );
    messages_see_one_user(
        histories,
        one_first.0,
        two,
        two_name,
        persona,
        two_command,
        two_text,
        two_answers_assistant,
    );
    let two_second = dispatched(
        one_first.0,
        two,
        two_name,
        persona,
        two_command,
        two_text,
        two_answers_assistant,
    );
    let one_second = dispatched(
        two_first.0,
        one,
        one_name,
        persona,
        one_command,
        one_text,
        one_answers_assistant,
    );
    assert(two_second.0 =~= one_second.0);
}

/// A reply can be committed for one user before or after another user's
/// message is handled: the histories come out the same.
pub proof fn replies_do_not_interfere(
    histories: Map<u64, Seq<MessageView>>,
    persona: Seq<char>,
    one: u64,
    event: TurnEvent,
    two: u64,
    two_name: Seq<char>,
    two_command: Option<Command>,
    two_text: Seq<char>,
    two_answers_assistant: bool,
)
    requires
        one != two,
    ensures
        ({
            let turn = TurnView::Completing { user: one };
            let message_first = dispatched(
                histories,
                two,
                two_name,
                persona,
                two_command,
                two_text,
                two_answers_assistant,
            );
            let event_first = stepped(histories, turn, event);
            stepped(message_first.0, turn, event).0 == dispatched(
                event_first.0,
                two,
                two_name,
                persona,
                two_command,
                two_text,
                two_answers_assistant,
            ).0
        }),
{
    let turn = TurnView::Completing { user: one };
    let message_first = dispatched(
        histories,
        two,
        two_name,
        persona,
        two_command,
        two_text,
        two_answers_assistant,
    );
    let event_first = stepped(histories, turn, event);
    let left = stepped(message_first.0, turn, event).0;
    let right = dispatched(
        event_first.0,
        two,
        two_name,
        persona,
        two_command,
        two_text,
        two_answers_assistant,
    ).0;
    assert(left =~= right);
}

/// When the backend fails, the turn ends with that failure and the
/// histories are what they were once the message had been taken in: the
/// user's message is there and no reply follows it.
pub proof fn gateway_failure_commits_nothing(
    histories: Map<u64, Seq<MessageView>>,
    user: u64,
    name: Seq<char>,
    persona: Seq<char>,
    content: Seq<char>,
    failure: GatewayError,
)
    requires
        content.len() > 0,
    ensures
        ({
            let begun = chat_begun(histories, user, name, persona, content);
            let shown = stepped(begun.0, begun.1, TurnEvent::Sent);
            let failed = stepped(shown.0, shown.1, TurnEvent::Completion(Err(failure)));
            &&& shown.0 == begun.0
            &&& shown.2 == ActionView::Complete(conversation(begun.0, user))
            &&& failed == (
                begun.0,
                TurnView::Closed,
                ActionView::Stop(Err(AppError::ReqwestError(failure))),
            )
            &&& conversation(failed.0, user).len() == conversation(begun.0, user).len()
            &&& conversation(failed.0, user).last() == MessageView::user(content)
        }),
{
}

} // verus!
