use akeno::orchestrator::{
    advance, clear_history, complete_chat, handle_command, handle_message, is_wake_call,
    personalize, render_history, set_prompt, view_histories, EMPTY_HISTORY, HISTORIES_CLEARED,
    NAME_TOKEN, PLACEHOLDER, PROMPT_SET, WAKE_WORD,
};
use akeno::{
    APIResponse, AppError, ChatCompletionRequestMessage, ChatHistories, Command, GatewayError,
    Role, Turn, TurnAction, TurnEvent,
};

const PERSONA: &str = "You are Akeno. You are talking to [name].";

fn shape(history: &[ChatCompletionRequestMessage]) -> Vec<(Role, String)> {
    history.iter().map(|message| (message.role, message.content.clone())).collect()
}

fn pair(role: Role, text: &str) -> (Role, String) {
    (role, text.to_string())
}

fn answer(content: Option<&str>) -> APIResponse {
    APIResponse {
        code: 0,
        message: "ok".to_string(),
        content: content.map(str::to_string),
        images: None,
    }
}

fn reply_text(action: &TurnAction) -> &str {
    match action {
        TurnAction::Reply(text) => text,
        other => panic!("expected a reply, got {:?}", other),
    }
}

fn parsed(body: &str) -> APIResponse {
    let value: serde_json::Value = serde_json::from_str(body).unwrap();
    APIResponse {
        code: value["code"].as_i64().unwrap() as i32,
        message: value["message"].as_str().unwrap().to_string(),
        content: value.get("content").and_then(|content| content.as_str()).map(str::to_string),
        images: None,
    }
}

#[test]
fn fixed_texts_are_what_users_see() {
    assert_eq!(NAME_TOKEN, "[name]");
    assert_eq!(WAKE_WORD, "akeno");
    assert_eq!(PLACEHOLDER, "\u{1F4AD}");
    assert_eq!(PROMPT_SET, "Prompt set.");
    assert_eq!(HISTORIES_CLEARED, "Chat histories cleared.");
    assert_eq!(EMPTY_HISTORY, "Empty chat history.");
}

#[test]
fn personalize_puts_the_name_in() {
    assert_eq!(personalize(PERSONA, "Ann"), "You are Akeno. You are talking to Ann.");
    assert_eq!(personalize("plain prompt", "Ann"), "plain prompt");
    assert_eq!(personalize("[name], [name]!", ""), ", !");
}

#[test]
fn first_message_opens_with_the_persona() {
    let mut store = ChatHistories::new();
    let (turn, action) = complete_chat(&mut store, 7, "Ann", PERSONA, "hello".to_string());
    let expected = vec![
        pair(Role::System, "You are Akeno. You are talking to Ann."),
        pair(Role::User, "hello"),
    ];
    assert_eq!(store.snapshot(7).len(), 2);
    assert_eq!(shape(&store.snapshot(7)), expected);
    assert_eq!(reply_text(&action), "\u{1F4AD}");
    match turn {
        Turn::Ingested { user, history } => {
            assert_eq!(user, 7);
            assert_eq!(shape(&history), expected);
        }
        other => panic!("expected an ingested turn, got {:?}", other),
    }
}

#[test]
fn later_messages_add_no_system_prompt() {
    let mut store = ChatHistories::new();
    for round in 0..3 {
        let (turn, _) = complete_chat(&mut store, 7, "Ann", PERSONA, format!("question {}", round));
        let (turn, _) = advance(&mut store, turn, TurnEvent::Sent);
        let (_, _) = advance(&mut store, turn, TurnEvent::Completion(Ok(answer(Some("answer")))));
    }
    let history = store.snapshot(7);
    assert_eq!(history.len(), 7);
    assert_eq!(history.iter().filter(|message| message.role == Role::System).count(), 1);
    assert_eq!(history[0].role, Role::System);
    assert_eq!(
        shape(&history)[1..],
        [
            pair(Role::User, "question 0"),
            pair(Role::Assistant, "answer"),
            pair(Role::User, "question 1"),
            pair(Role::Assistant, "answer"),
            pair(Role::User, "question 2"),
            pair(Role::Assistant, "answer"),
        ]
    );
}

#[test]
fn prompt_always_resets_to_one_system_message() {
    let mut store = ChatHistories::new();
    let _ = complete_chat(&mut store, 7, "Ann", PERSONA, "hello".to_string());
    let confirmation = set_prompt(&mut store, 7, "Ann", "Speak to [name] in verse.".to_string());
    assert_eq!(confirmation, "Prompt set.");
    assert_eq!(shape(&store.snapshot(7)), vec![pair(Role::System, "Speak to Ann in verse.")]);
    assert_eq!(set_prompt(&mut store, 7, "Ann", "No token.".to_string()), "Prompt set.");
    assert_eq!(shape(&store.snapshot(7)), vec![pair(Role::System, "No token.")]);
}

#[test]
fn a_message_after_a_prompt_keeps_that_prompt() {
    let mut store = ChatHistories::new();
    let _ = set_prompt(&mut store, 7, "Ann", "Be brief.".to_string());
    let _ = complete_chat(&mut store, 7, "Ann", PERSONA, "hello".to_string());
    assert_eq!(
        shape(&store.snapshot(7)),
        vec![pair(Role::System, "Be brief."), pair(Role::User, "hello")]
    );
}

#[test]
fn empty_message_is_a_no_op() {
    let mut store = ChatHistories::new();
    let (turn, action) = complete_chat(&mut store, 7, "Ann", PERSONA, String::new());
    assert!(matches!(turn, Turn::Closed));
    assert!(matches!(action, TurnAction::Stop(Ok(()))));
    assert!(store.snapshot(7).is_empty());
    let (turn, action) = advance(&mut store, turn, TurnEvent::Sent);
    assert!(matches!(turn, Turn::Closed));
    assert!(matches!(action, TurnAction::Stop(Ok(()))));
}

#[test]
fn empty_message_leaves_a_conversation_under_way_alone() {
    let mut store = ChatHistories::new();
    let _ = complete_chat(&mut store, 7, "Ann", PERSONA, "hello".to_string());
    let before = shape(&store.snapshot(7));
    let (turn, action) =
        handle_command(&mut store, 7, "Ann", PERSONA, Command::Chat(String::new()));
    assert!(matches!(turn, Turn::Closed));
    assert!(matches!(action, TurnAction::Stop(Ok(()))));
    assert_eq!(shape(&store.snapshot(7)), before);
}

#[test]
fn backend_is_asked_once_the_placeholder_is_out() {
    let mut store = ChatHistories::new();
    let (turn, _) = complete_chat(&mut store, 7, "Ann", PERSONA, "hello".to_string());
    let (turn, action) = advance(&mut store, turn, TurnEvent::Sent);
    assert!(matches!(turn, Turn::Completing { user: 7 }));
    match action {
        TurnAction::Complete(history) => assert_eq!(
            shape(&history),
            vec![
                pair(Role::System, "You are Akeno. You are talking to Ann."),
                pair(Role::User, "hello"),
            ]
        ),
        other => panic!("expected a completion request, got {:?}", other),
    }
}

#[test]
fn reply_is_committed_and_replaces_the_placeholder() {
    let mut store = ChatHistories::new();
    let (turn, _) = complete_chat(&mut store, 7, "Ann", PERSONA, "hello".to_string());
    let (turn, _) = advance(&mut store, turn, TurnEvent::Sent);
    let (turn, action) =
        advance(&mut store, turn, TurnEvent::Completion(Ok(answer(Some("hi, Ann")))));
    assert!(matches!(turn, Turn::Closed));
    match action {
        TurnAction::Edit(text) => assert_eq!(text, "hi, Ann"),
        other => panic!("expected an edit, got {:?}", other),
    }
    assert_eq!(
        shape(&store.snapshot(7)),
        vec![
            pair(Role::System, "You are Akeno. You are talking to Ann."),
            pair(Role::User, "hello"),
            pair(Role::Assistant, "hi, Ann"),
        ]
    );
    let (turn, action) = advance(&mut store, turn, TurnEvent::Sent);
    assert!(matches!(turn, Turn::Closed));
    assert!(matches!(action, TurnAction::Stop(Ok(()))));
}

#[test]
fn null_content_commits_the_fallback() {
    let mut store = ChatHistories::new();
    let (turn, _) = complete_chat(&mut store, 7, "Ann", PERSONA, "hello".to_string());
    let (turn, _) = advance(&mut store, turn, TurnEvent::Sent);
    let response = parsed("{\"code\":0,\"message\":\"ok\",\"content\":null}");
    assert_eq!(response.content, None);
    let (_, action) = advance(&mut store, turn, TurnEvent::Completion(Ok(response)));
    match action {
        TurnAction::Edit(text) => assert_eq!(text, "I can't respond to that."),
        other => panic!("expected an edit, got {:?}", other),
    }
    let history = store.snapshot(7);
    assert_eq!(history.len(), 3);
    assert_eq!(history[2].role, Role::Assistant);
    assert_eq!(history[2].content, "I can't respond to that.");
}

#[test]
fn gateway_failure_commits_nothing() {
    for failure in [GatewayError::Transport, GatewayError::Protocol] {
        let mut store = ChatHistories::new();
        let (turn, _) = complete_chat(&mut store, 7, "Ann", PERSONA, "hello".to_string());
        let after_ingest = shape(&store.snapshot(7));
        let (turn, _) = advance(&mut store, turn, TurnEvent::Sent);
        let (turn, action) = advance(&mut store, turn, TurnEvent::Completion(Err(failure)));
        assert!(matches!(turn, Turn::Closed));
        match action {
            TurnAction::Stop(result) => assert_eq!(result, Err(AppError::ReqwestError(failure))),
            other => panic!("expected a stop, got {:?}", other),
        }
        assert_eq!(store.snapshot(7).len(), 2);
        assert_eq!(shape(&store.snapshot(7)), after_ingest);
        assert_eq!(store.snapshot(7)[1].role, Role::User);
    }
}

#[test]
fn failure_to_send_ends_the_turn() {
    let mut store = ChatHistories::new();
    let (turn, _) = complete_chat(&mut store, 7, "Ann", PERSONA, "hello".to_string());
    let (turn, action) = advance(&mut store, turn, TurnEvent::SendFailed);
    assert!(matches!(turn, Turn::Closed));
    assert!(matches!(action, TurnAction::Stop(Err(AppError::Teloxide))));
    assert_eq!(store.snapshot(7).len(), 2);
}

#[test]
fn failure_to_edit_is_surfaced_and_the_reply_stays() {
    let mut store = ChatHistories::new();
    let (turn, _) = complete_chat(&mut store, 7, "Ann", PERSONA, "hello".to_string());
    let (turn, _) = advance(&mut store, turn, TurnEvent::Sent);
    let (turn, _) = advance(&mut store, turn, TurnEvent::Completion(Ok(answer(Some("hi")))));
    let (_, action) = advance(&mut store, turn, TurnEvent::SendFailed);
    assert!(matches!(action, TurnAction::Stop(Err(AppError::Teloxide))));
    assert_eq!(store.snapshot(7).len(), 3);
}

#[test]
fn a_completion_before_the_placeholder_is_dropped() {
    let mut store = ChatHistories::new();
    let (turn, _) = complete_chat(&mut store, 7, "Ann", PERSONA, "hello".to_string());
    let (turn, action) =
        advance(&mut store, turn, TurnEvent::Completion(Ok(answer(Some("too early")))));
    assert!(matches!(turn, Turn::Closed));
    assert!(matches!(action, TurnAction::Stop(Ok(()))));
    assert_eq!(store.snapshot(7).len(), 2);
}

#[test]
fn an_unawaited_send_ends_a_completing_turn() {
    let mut store = ChatHistories::new();
    let (turn, action) = advance(&mut store, Turn::Completing { user: 7 }, TurnEvent::Sent);
    assert!(matches!(turn, Turn::Closed));
    assert!(matches!(action, TurnAction::Stop(Ok(()))));
    assert!(store.snapshot(7).is_empty());
}

#[test]
fn a_closed_turn_commits_nothing() {
    let mut store = ChatHistories::new();
    let (turn, action) =
        advance(&mut store, Turn::Closed, TurnEvent::Completion(Ok(answer(Some("stray")))));
    assert!(matches!(turn, Turn::Closed));
    assert!(matches!(action, TurnAction::Stop(Ok(()))));
    assert!(store.snapshot(7).is_empty());
}

#[test]
fn a_reply_lands_on_whatever_the_conversation_has_become() {
    let mut store = ChatHistories::new();
    let (turn, _) = complete_chat(&mut store, 7, "Ann", PERSONA, "hello".to_string());
    let (turn, _) = advance(&mut store, turn, TurnEvent::Sent);
    let _ = clear_history(&mut store, 7);
    let _ = advance(&mut store, turn, TurnEvent::Completion(Ok(answer(Some("late")))));
    assert_eq!(shape(&store.snapshot(7)), vec![pair(Role::Assistant, "late")]);
    let _ = complete_chat(&mut store, 7, "Ann", PERSONA, "again".to_string());
    assert_eq!(
        shape(&store.snapshot(7)),
        vec![pair(Role::Assistant, "late"), pair(Role::User, "again")]
    );
}

#[test]
fn clear_empties_but_does_not_delete() {
    let mut store = ChatHistories::new();
    let _ = complete_chat(&mut store, 7, "Ann", PERSONA, "hello".to_string());
    assert_eq!(clear_history(&mut store, 7), "Chat histories cleared.");
    assert!(store.get_or_create(7).is_empty());
    let _ = complete_chat(&mut store, 7, "Bea", PERSONA, "hello again".to_string());
    assert_eq!(
        shape(&store.snapshot(7)),
        vec![
            pair(Role::System, "You are Akeno. You are talking to Bea."),
            pair(Role::User, "hello again"),
        ]
    );
}

#[test]
fn view_renders_the_conversation() {
    let mut store = ChatHistories::new();
    store.reset_with_system(7, "a".to_string());
    assert_eq!(store.append(7, Role::User, "b".to_string()), Ok(()));
    assert_eq!(store.append(7, Role::Assistant, "c".to_string()), Ok(()));
    assert_eq!(view_histories(&store, 7), "[System]: a\n\n[User]: b\n\n[Assistant]: c");
}

#[test]
fn view_trims_each_message() {
    let mut store = ChatHistories::new();
    store.reset_with_system(7, "  a \n".to_string());
    assert_eq!(store.append(7, Role::User, "\tb b ".to_string()), Ok(()));
    assert_eq!(view_histories(&store, 7), "[System]: a\n\n[User]: b b");
}

#[test]
fn view_of_one_message_has_no_blank_line() {
    let mut store = ChatHistories::new();
    store.reset_with_system(7, "only".to_string());
    assert_eq!(view_histories(&store, 7), "[System]: only");
}

#[test]
fn view_of_nothing_says_so() {
    let mut store = ChatHistories::new();
    assert_eq!(view_histories(&store, 7), "Empty chat history.");
    store.clear(7);
    assert_eq!(view_histories(&store, 7), "Empty chat history.");
    assert_eq!(render_history(&Vec::new()), "Empty chat history.");
}

#[test]
fn view_changes_nothing() {
    let mut store = ChatHistories::new();
    let _ = complete_chat(&mut store, 7, "Ann", PERSONA, "hello".to_string());
    let before = shape(&store.snapshot(7));
    let _ = view_histories(&store, 7);
    assert_eq!(shape(&store.snapshot(7)), before);
}

#[test]
fn render_history_ignores_names() {
    let history = vec![
        ChatCompletionRequestMessage::new(Role::User, "hi".to_string(), Some("Ann".to_string()))
            .unwrap(),
    ];
    assert_eq!(render_history(&history), "[User]: hi");
}

#[test]
fn commands_are_answered() {
    let mut store = ChatHistories::new();
    let (turn, action) =
        handle_command(&mut store, 7, "Ann", PERSONA, Command::Prompt("Hi [name]".to_string()));
    assert!(matches!(turn, Turn::Closed));
    assert_eq!(reply_text(&action), "Prompt set.");
    assert_eq!(shape(&store.snapshot(7)), vec![pair(Role::System, "Hi Ann")]);

    let (turn, action) = handle_command(&mut store, 7, "Ann", PERSONA, Command::View);
    assert!(matches!(turn, Turn::Closed));
    assert_eq!(reply_text(&action), "[System]: Hi Ann");

    let (turn, action) = handle_command(&mut store, 7, "Ann", PERSONA, Command::Clear);
    assert!(matches!(turn, Turn::Closed));
    assert_eq!(reply_text(&action), "Chat histories cleared.");
    assert!(store.snapshot(7).is_empty());

    let (_, action) = handle_command(&mut store, 7, "Ann", PERSONA, Command::View);
    assert_eq!(reply_text(&action), "Empty chat history.");
}

#[test]
fn reset_is_clear_by_another_name() {
    let mut store = ChatHistories::new();
    let _ = complete_chat(&mut store, 7, "Ann", PERSONA, "hello".to_string());
    let (turn, action) = handle_command(&mut store, 7, "Ann", PERSONA, Command::Reset);
    assert!(matches!(turn, Turn::Closed));
    assert_eq!(reply_text(&action), "Chat histories cleared.");
    assert!(store.snapshot(7).is_empty());
}

#[test]
fn both_chat_commands_begin_a_turn() {
    for command in [Command::Chat("hello".to_string()), Command::Askgpt("hello".to_string())] {
        let mut store = ChatHistories::new();
        let (turn, action) = handle_command(&mut store, 7, "Ann", PERSONA, command);
        assert!(matches!(turn, Turn::Ingested { user: 7, .. }));
        assert_eq!(reply_text(&action), "\u{1F4AD}");
        assert_eq!(store.snapshot(7).len(), 2);
    }
}

#[test]
fn help_and_source_leave_the_histories_alone() {
    for command in [Command::Help, Command::Source] {
        let mut store = ChatHistories::new();
        let _ = complete_chat(&mut store, 7, "Ann", PERSONA, "hello".to_string());
        let (turn, action) = handle_command(&mut store, 7, "Ann", PERSONA, command);
        assert!(matches!(turn, Turn::Closed));
        assert!(matches!(action, TurnAction::Stop(Ok(()))));
        assert_eq!(store.snapshot(7).len(), 2);
    }
}

#[test]
fn command_clone_is_the_same_command() {
    let command = Command::Prompt("p".to_string());
    assert!(matches!(command.clone(), Command::Prompt(text) if text == "p"));
    assert!(matches!(Command::View.clone(), Command::View));
}

#[test]
fn wake_word_is_told_in_any_case() {
    assert!(is_wake_call("akeno, are you there?"));
    assert!(is_wake_call("AKENO"));
    assert!(is_wake_call("Akeno-san"));
    assert!(is_wake_call("aKeNo hi"));
    assert!(!is_wake_call(" akeno"));
    assert!(!is_wake_call("hey akeno"));
    assert!(!is_wake_call("aken"));
    assert!(!is_wake_call(""));
}

#[test]
fn wake_word_is_told_as_lower_casing_tells_it() {
    assert!(is_wake_call("a\u{212A}eno"));
    assert_eq!(is_wake_call("a\u{212A}eno"), "a\u{212A}eno".to_lowercase().starts_with("akeno"));
}

#[test]
fn free_text_with_the_wake_word_begins_a_turn() {
    let mut store = ChatHistories::new();
    let (turn, action) =
        handle_message(&mut store, 7, "Ann", PERSONA, None, "Akeno, hello", false);
    assert!(matches!(turn, Turn::Ingested { user: 7, .. }));
    assert_eq!(reply_text(&action), "\u{1F4AD}");
    assert_eq!(
        shape(&store.snapshot(7)),
        vec![
            pair(Role::System, "You are Akeno. You are talking to Ann."),
            pair(Role::User, "Akeno, hello"),
        ]
    );
}

#[test]
fn an_answer_to_the_assistant_begins_a_turn() {
    let mut store = ChatHistories::new();
    let (turn, _) = handle_message(&mut store, 7, "Ann", PERSONA, None, "and then?", true);
    assert!(matches!(turn, Turn::Ingested { user: 7, .. }));
    assert_eq!(store.snapshot(7)[1].content, "and then?");
}

#[test]
fn an_empty_answer_to_the_assistant_is_a_no_op() {
    let mut store = ChatHistories::new();
    let (turn, action) = handle_message(&mut store, 7, "Ann", PERSONA, None, "", true);
    assert!(matches!(turn, Turn::Closed));
    assert!(matches!(action, TurnAction::Stop(Ok(()))));
    assert!(store.snapshot(7).is_empty());
}

#[test]
fn other_free_text_is_ignored() {
    let mut store = ChatHistories::new();
    let (turn, action) =
        handle_message(&mut store, 7, "Ann", PERSONA, None, "just chatting", false);
    assert!(matches!(turn, Turn::Closed));
    assert!(matches!(action, TurnAction::Stop(Ok(()))));
    assert!(store.snapshot(7).is_empty());
}

#[test]
fn a_command_goes_before_the_wake_word() {
    let mut store = ChatHistories::new();
    let (turn, action) =
        handle_message(&mut store, 7, "Ann", PERSONA, Some(Command::View), "akeno", true);
    assert!(matches!(turn, Turn::Closed));
    assert_eq!(reply_text(&action), "Empty chat history.");
    assert!(store.snapshot(7).is_empty());
}

#[test]
fn users_do_not_see_each_other() {
    let mut store = ChatHistories::new();
    let (one, _) = complete_chat(&mut store, 1, "Ann", PERSONA, "from one".to_string());
    let (two, _) = complete_chat(&mut store, 2, "Bob", PERSONA, "from two".to_string());
    let (one, _) = advance(&mut store, one, TurnEvent::Sent);
    let (two, _) = advance(&mut store, two, TurnEvent::Sent);
    let _ = advance(&mut store, two, TurnEvent::Completion(Ok(answer(Some("to two")))));
    let _ = advance(&mut store, one, TurnEvent::Completion(Err(GatewayError::Transport)));
    assert_eq!(
        shape(&store.snapshot(1)),
        vec![
            pair(Role::System, "You are Akeno. You are talking to Ann."),
            pair(Role::User, "from one"),
        ]
    );
    assert_eq!(
        shape(&store.snapshot(2)),
        vec![
            pair(Role::System, "You are Akeno. You are talking to Bob."),
            pair(Role::User, "from two"),
            pair(Role::Assistant, "to two"),
        ]
    );
    let _ = clear_history(&mut store, 1);
    assert_eq!(store.snapshot(2).len(), 3);
}

#[test]
fn order_between_users_does_not_matter() {
    let mut first = ChatHistories::new();
    let _ = complete_chat(&mut first, 1, "Ann", PERSONA, "a".to_string());
    let _ = complete_chat(&mut first, 2, "Bob", PERSONA, "b".to_string());
    let mut second = ChatHistories::new();
    let _ = complete_chat(&mut second, 2, "Bob", PERSONA, "b".to_string());
    let _ = complete_chat(&mut second, 1, "Ann", PERSONA, "a".to_string());
    assert_eq!(shape(&first.snapshot(1)), shape(&second.snapshot(1)));
    assert_eq!(shape(&first.snapshot(2)), shape(&second.snapshot(2)));
}
