//! The history store: each user's conversation, kept well formed.

use crate::error::ValidationError;
use crate::message::{ChatCompletionRequestMessage, MessageView, Role};
use std::collections::HashMap;
use vstd::prelude::*;

verus! {

broadcast use vstd::std_specs::hash::group_hash_axioms;

/// An ordered run of messages, oldest first.
pub type ChatMessages = Vec<ChatCompletionRequestMessage>;

/// What a run of messages looks like to contracts.
pub open spec fn messages_view(messages: Seq<ChatCompletionRequestMessage>) -> Seq<MessageView> {
    messages.map_values(|message: ChatCompletionRequestMessage| message@)
}

/// A conversation is well formed when every message in it is valid and a
/// system prompt, if there is one, opens it: so there is at most one.
pub open spec fn well_formed(conversation: Seq<MessageView>) -> bool {
    &&& forall|i: int| 0 <= i < conversation.len() ==> (#[trigger] conversation[i]).valid()
    &&& forall|i: int|
        0 < i < conversation.len() ==> (#[trigger] conversation[i]).role != Role::System
}

/// Every conversation of a store is well formed.
pub open spec fn all_well_formed(histories: Map<u64, Seq<MessageView>>) -> bool {
    forall|user: u64| histories.contains_key(user) ==> well_formed(#[trigger] histories[user])
}

/// A user's conversation: empty until the user has an entry.
pub open spec fn conversation(histories: Map<u64, Seq<MessageView>>, user: u64) -> Seq<
    MessageView,
> {
    if histories.contains_key(user) {
        histories[user]
    } else {
        Seq::empty()
    }
}

/// How many system prompts a conversation holds.
pub open spec fn system_count(conversation: Seq<MessageView>) -> nat
    decreases conversation.len(),
{
    if conversation.len() == 0 {
        0
    } else {
        system_count(conversation.drop_last()) + if conversation.last().role == Role::System {
            1nat
        } else {
            0nat
        }
    }
}

/// A well-formed conversation holds one system prompt if it opens with one,
/// and none otherwise.
pub proof fn lemma_well_formed_has_one_system_at_most(conversation: Seq<MessageView>)
    requires
        well_formed(conversation),
    ensures
        system_count(conversation) == if conversation.len() > 0 && conversation[0].role
            == Role::System {
            1nat
        } else {
            0nat
        },
        system_count(conversation) <= 1,
    decreases conversation.len(),
{
    if conversation.len() > 0 {
        let before = conversation.drop_last();
        assert forall|i: int| 0 <= i < before.len() implies (#[trigger] before[i]).valid() by {
            assert(before[i] == conversation[i]);
        }
        assert forall|i: int| 0 < i < before.len() implies (#[trigger] before[i]).role
            != Role::System by {
            assert(before[i] == conversation[i]);
        }
        lemma_well_formed_has_one_system_at_most(before);
        if conversation.len() > 1 {
            assert(before[0] == conversation[0]);
            assert(conversation[conversation.len() - 1].role != Role::System);
        }
    }
}

/// Why a conversation refuses a message, if it does: a user's turn that
/// says nothing, or a system prompt anywhere but at the start.
pub open spec fn refusal(conversation: Seq<MessageView>, message: MessageView) -> Option<
    ValidationError,
> {
    if message.role == Role::User && message.content.len() == 0 {
        Some(ValidationError::EmptyUserContent)
    } else if message.role == Role::System && conversation.len() > 0 {
        Some(ValidationError::SystemNotFirst)
    } else {
        None
    }
}

/// A message taken in keeps a well-formed conversation well formed.
pub proof fn lemma_push_keeps_well_formed(conversation: Seq<MessageView>, message: MessageView)
    requires
        well_formed(conversation),
        refusal(conversation, message) is None,
    ensures
        well_formed(conversation.push(message)),
{
}

/// Copies a run of messages.
pub fn copy_messages(messages: &ChatMessages) -> (copy: ChatMessages)
    ensures
        messages_view(copy@) == messages_view(messages@),
{
    let mut copy: ChatMessages = Vec::new();
    let mut i: usize = 0;
    while i < messages.len()
        invariant
            i <= messages.len(),
            copy.len() == i,
            forall|j: int| 0 <= j < i ==> copy[j]@ == messages[j]@,
        decreases messages.len() - i,
    {
        copy.push(messages[i].clone());
        i += 1;
    }
    assert(messages_view(copy@) =~= messages_view(messages@));
    copy
}

/// The histories of all users, keyed by user identity.
pub struct ChatHistories {
    histories: HashMap<u64, ChatMessages>,
}

impl View for ChatHistories {
    type V = Map<u64, Seq<MessageView>>;

    closed spec fn view(&self) -> Map<u64, Seq<MessageView>> {
        Map::new(
            |user: u64| self.histories@.contains_key(user),
            |user: u64| messages_view(self.histories@[user]@),
        )
    }
}

impl ChatHistories {
    /// Holds of every store at all times: each conversation is well formed.
    #[verifier::type_invariant]
    pub open spec fn sound(self) -> bool {
        all_well_formed(self@)
    }

    /// A store in which nobody has spoken yet.
    pub fn new() -> (store: ChatHistories)
        ensures
            store@ == Map::<u64, Seq<MessageView>>::empty(),
            all_well_formed(store@),
    {
        let store = ChatHistories { histories: HashMap::new() };
        assert(store@ =~= Map::<u64, Seq<MessageView>>::empty());
        store
    }

    /// How many messages a user's conversation holds.
    fn length(&self, user: u64) -> (length: usize)
        ensures
            length == conversation(self@, user).len(),
    {
        match self.histories.get(&user) {
            Some(messages) => messages.len(),
            None => 0,
        }
    }

    /// Takes a user's conversation out of the store, entry and all.
    fn take(&mut self, user: u64) -> (messages: ChatMessages)
        ensures
            messages_view(messages@) == conversation(old(self)@, user),
            well_formed(messages_view(messages@)),
            final(self)@ == old(self)@.remove(user),
    {
        proof {
            use_type_invariant(&*self);
        }
        let mut histories = HashMap::new();
        std::mem::swap(&mut histories, &mut self.histories);
        let messages = match histories.remove(&user) {
            Some(messages) => messages,
            None => Vec::new(),
        };
        assert(messages_view(messages@) =~= conversation(old(self)@, user));
        assert(Map::new(
            |u: u64| histories@.contains_key(u),
            |u: u64| messages_view(histories@[u]@),
        ) =~= old(self)@.remove(user));
        self.histories = histories;
        messages
    }

    /// Stores a well-formed conversation as the user's own.
    fn put(&mut self, user: u64, messages: ChatMessages)
        requires
            well_formed(messages_view(messages@)),
        ensures
            final(self)@ == old(self)@.insert(user, messages_view(messages@)),
    {
        proof {
            use_type_invariant(&*self);
        }
        let mut histories = HashMap::new();
        std::mem::swap(&mut histories, &mut self.histories);
        histories.insert(user, messages);
        assert(Map::new(
            |u: u64| histories@.contains_key(u),
            |u: u64| messages_view(histories@[u]@),
        ) =~= old(self)@.insert(user, messages_view(messages@)));
        self.histories = histories;
    }

    /// A copy of the user's conversation, for use while the store is free
    /// for others. Nothing is created.
    pub fn snapshot(&self, user: u64) -> (copy: ChatMessages)
        ensures
            messages_view(copy@) == conversation(self@, user),
            well_formed(messages_view(copy@)),
    {
        proof {
            use_type_invariant(self);
        }
        match self.histories.get(&user) {
            Some(messages) => copy_messages(messages),
            None => {
                let copy: ChatMessages = Vec::new();
                assert(messages_view(copy@) =~= Seq::<MessageView>::empty());
                copy
            },
        }
    }

    /// The user's conversation, which is given an entry, empty, if it had
    /// none.
    pub fn get_or_create(&mut self, user: u64) -> (copy: ChatMessages)
        ensures
            messages_view(copy@) == conversation(old(self)@, user),
            final(self)@ == old(self)@.insert(user, conversation(old(self)@, user)),
            all_well_formed(final(self)@),
    {
        let messages = self.take(user);
        let copy = copy_messages(&messages);
        self.put(user, messages);
        assert(self@ =~= old(self)@.insert(user, conversation(old(self)@, user)));
        proof {
            use_type_invariant(&*self);
        }
        copy
    }

    /// Opens the user's conversation with a system prompt if it is empty, and
    /// leaves it alone otherwise.
    pub fn append_system_if_empty(&mut self, user: u64, text: String)
        ensures
            final(self)@ == if conversation(old(self)@, user).len() == 0 {
                old(self)@.insert(user, seq![MessageView::system(text@)])
            } else {
                old(self)@
            },
            all_well_formed(final(self)@),
    {
        if self.length(user) == 0 {
            let mut messages: ChatMessages = Vec::new();
            messages.push(
                ChatCompletionRequestMessage { role: Role::System, content: text, name: None },
            );
            assert(messages_view(messages@) =~= seq![MessageView::system(text@)]);
            self.put(user, messages);
        }
        proof {
            use_type_invariant(&*self);
        }
    }

    /// Appends a message to the end of the user's conversation, unless the
    /// conversation refuses it; a refused message changes nothing.
    pub fn append(&mut self, user: u64, role: Role, text: String) -> (done: Result<
        (),
        ValidationError,
    >)
        ensures
            match refusal(
                conversation(old(self)@, user),
                (MessageView { role, content: text@, name: None }),
            ) {
                Some(error) => done == Err::<(), ValidationError>(error) && final(self)@ == old(
                    self,
                )@,
                None => done == Ok::<(), ValidationError>(()) && final(self)@ == old(
                    self,
                )@.insert(
                    user,
                    conversation(old(self)@, user).push(
                        (MessageView { role, content: text@, name: None }),
                    ),
                ),
            },
            all_well_formed(final(self)@),
    {
        proof {
            use_type_invariant(&*self);
        }
        if role == Role::User && text.as_str().is_empty() {
            return Err(ValidationError::EmptyUserContent);
        }
        if role == Role::System && self.length(user) > 0 {
            return Err(ValidationError::SystemNotFirst);
        }
        let ghost message = MessageView { role, content: text@, name: None };
        let mut messages = self.take(user);
        messages.push(ChatCompletionRequestMessage { role, content: text, name: None });
        proof {
            assert(messages_view(messages@) =~= conversation(old(self)@, user).push(message));
            lemma_push_keeps_well_formed(conversation(old(self)@, user), message);
        }
        self.put(user, messages);
        assert(self@ =~= old(self)@.insert(user, conversation(old(self)@, user).push(message)));
        proof {
            use_type_invariant(&*self);
        }
        Ok(())
    }

    /// Replaces the user's conversation by a system prompt alone.
    pub fn reset_with_system(&mut self, user: u64, text: String)
        ensures
            final(self)@ == old(self)@.insert(user, seq![MessageView::system(text@)]),
            all_well_formed(final(self)@),
    {
        let mut messages: ChatMessages = Vec::new();
        messages.push(
            ChatCompletionRequestMessage { role: Role::System, content: text, name: None },
        );
        assert(messages_view(messages@) =~= seq![MessageView::system(text@)]);
        self.put(user, messages);
        proof {
            use_type_invariant(&*self);
        }
    }

    /// Empties a user's conversation. The entry stays, without a system prompt.
    pub fn clear(&mut self, user: u64)
        ensures
            final(self)@ == old(self)@.insert(user, Seq::empty()),
            all_well_formed(final(self)@),
    {
        let messages: ChatMessages = Vec::new();
        assert(messages_view(messages@) =~= Seq::<MessageView>::empty());
        self.put(user, messages);
        proof {
            use_type_invariant(&*self);
        }
    }
}

} // verus!
