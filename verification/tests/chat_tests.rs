use chatbot::chat::{
    connect_messages, copy_messages, first_reply, initial_messages, load_history, step,
    unquote, visible_messages, AiChoice, AiMessage, AiOutput, Incoming, Message, Turn,
    TurnAction, TurnEvent, HISTORY_KEY, MODEL, SYSTEM_PROMPT,
};

fn msg(role: &str, content: &str) -> Message {
    Message { role: role.to_string(), content: content.to_string() }
}

fn pairs(v: &[Message]) -> Vec<(String, String)> {
    v.iter().map(|m| (m.role.clone(), m.content.clone())).collect()
}

fn p(role: &str, content: &str) -> (String, String) {
    (role.to_string(), content.to_string())
}

fn output(texts: &[&str]) -> AiOutput {
    AiOutput {
        choices: texts
            .iter()
            .map(|t| AiChoice { message: AiMessage { content: t.to_string() } })
            .collect(),
    }
}

#[test]
fn initial_conversation_is_the_system_prompt() {
    let v = initial_messages();
    assert_eq!(pairs(&v), vec![p("system", SYSTEM_PROMPT)]);
    assert!(SYSTEM_PROMPT.starts_with("\nYou are the official BIOAT chatbot"));
    assert!(SYSTEM_PROMPT.ends_with("unless the user asks for detail.\n"));
    assert_eq!(HISTORY_KEY, "messages");
}

#[test]
fn load_history_prefers_what_is_stored() {
    let stored = vec![msg("user", "a"), msg("assistant", "b")];
    assert_eq!(pairs(&load_history(Some(stored))), vec![p("user", "a"), p("assistant", "b")]);
    assert_eq!(pairs(&load_history(None)), vec![p("system", SYSTEM_PROMPT)]);
    assert!(load_history(Some(Vec::new())).is_empty());
}

#[test]
fn visible_messages_drop_system_and_keep_order() {
    let h = vec![
        msg("system", "rules"),
        msg("user", "hi"),
        msg("assistant", "hello"),
        msg("system", "more rules"),
        msg("user", "bye"),
    ];
    assert_eq!(
        pairs(&visible_messages(&h)),
        vec![p("user", "hi"), p("assistant", "hello"), p("user", "bye")]
    );
    // showing what is shown changes nothing
    let shown = visible_messages(&h);
    assert_eq!(pairs(&visible_messages(&shown)), pairs(&shown));
    // a role is compared exactly
    let odd = vec![msg("System", "x"), msg("system ", "y")];
    assert_eq!(pairs(&visible_messages(&odd)), vec![p("System", "x"), p("system ", "y")]);
}

#[test]
fn new_room_shows_nothing_on_connect() {
    assert!(connect_messages(None).is_empty());
    let stored = vec![msg("system", SYSTEM_PROMPT), msg("user", "x"), msg("assistant", "y")];
    assert_eq!(pairs(&connect_messages(Some(stored))), vec![p("user", "x"), p("assistant", "y")]);
}

#[test]
fn copy_keeps_every_message() {
    let h = vec![msg("user", "1"), msg("assistant", "2")];
    assert_eq!(pairs(&copy_messages(&h)), pairs(&h));
    let d = h[0].duplicate();
    assert_eq!((d.role, d.content), p("user", "1"));
}

#[test]
fn unquote_cuts_first_and_last_character() {
    assert_eq!(unquote("\"Hallo\""), "Hallo");
    assert_eq!(unquote("\"grüß dich\""), "grüß dich");
    assert_eq!(unquote("ab"), "");
    assert_eq!(unquote("\"a\\\"b\""), "a\\\"b");
}

#[test]
fn first_reply_takes_the_first_choice() {
    assert_eq!(first_reply(&output(&["eins", "zwei"])), "eins");
}

fn expect_load(a: TurnAction) {
    assert!(matches!(a, TurnAction::Load));
}

#[test]
fn a_full_turn_on_a_new_room() {
    let (s, a) = step(Turn::Ready, TurnEvent::Arrived(Incoming::Text("\"Hallo\"".to_string())));
    expect_load(a);
    match &s {
        Turn::Loading { text } => assert_eq!(text, "Hallo"),
        _ => panic!("expected loading"),
    }
    let (s, a) = step(s, TurnEvent::Loaded(None));
    match a {
        TurnAction::Ask { model, input } => {
            assert_eq!(model, MODEL);
            assert_eq!(model, "@cf/moonshotai/kimi-k2.6");
            assert_eq!(
                pairs(&input.messages),
                vec![p("system", SYSTEM_PROMPT), p("user", "Hallo")]
            );
        }
        _ => panic!("expected ask"),
    }
    let (s, a) = step(s, TurnEvent::Replied(output(&["Servus", "Moin"])));
    let saved = match a {
        TurnAction::Save { messages } => messages,
        _ => panic!("expected save"),
    };
    assert_eq!(
        pairs(&saved),
        vec![p("system", SYSTEM_PROMPT), p("user", "Hallo"), p("assistant", "Servus")]
    );
    let (s, a) = step(s, TurnEvent::Saved);
    let sent = match a {
        TurnAction::Send { messages } => messages,
        _ => panic!("expected send"),
    };
    assert_eq!(pairs(&sent), vec![p("user", "Hallo"), p("assistant", "Servus")]);
    assert!(matches!(s, Turn::Finished));
    // a client that connects afterwards sees what the turn sent
    assert_eq!(pairs(&connect_messages(Some(saved))), pairs(&sent));
}

#[test]
fn a_turn_appends_to_a_stored_conversation() {
    let stored = vec![msg("system", "rules"), msg("user", "a"), msg("assistant", "b")];
    let (s, _) = step(Turn::Ready, TurnEvent::Arrived(Incoming::Text("'c'".to_string())));
    let (s, a) = step(s, TurnEvent::Loaded(Some(stored)));
    match a {
        TurnAction::Ask { input, .. } => assert_eq!(
            pairs(&input.messages),
            vec![p("system", "rules"), p("user", "a"), p("assistant", "b"), p("user", "c")]
        ),
        _ => panic!("expected ask"),
    }
    let (s, _) = step(s, TurnEvent::Replied(output(&["d"])));
    let (_, a) = step(s, TurnEvent::Saved);
    match a {
        TurnAction::Send { messages } => assert_eq!(
            pairs(&messages),
            vec![p("user", "a"), p("assistant", "b"), p("user", "c"), p("assistant", "d")]
        ),
        _ => panic!("expected send"),
    }
}

#[test]
fn binary_message_ends_the_turn() {
    let (s, a) = step(Turn::Ready, TurnEvent::Arrived(Incoming::Binary(vec![1, 2, 3])));
    assert!(matches!(s, Turn::Finished));
    assert!(matches!(a, TurnAction::Idle));
}

#[test]
fn out_of_place_event_changes_nothing() {
    let (s, a) = step(Turn::Ready, TurnEvent::Saved);
    assert!(matches!(s, Turn::Ready));
    assert!(matches!(a, TurnAction::Idle));
    let (s, a) = step(Turn::Loading { text: "x".to_string() }, TurnEvent::Replied(output(&[])));
    assert!(matches!(a, TurnAction::Idle));
    match s {
        Turn::Loading { text } => assert_eq!(text, "x"),
        _ => panic!("expected loading"),
    }
    let (s, a) = step(Turn::Finished, TurnEvent::Loaded(None));
    assert!(matches!(s, Turn::Finished));
    assert!(matches!(a, TurnAction::Idle));
}
