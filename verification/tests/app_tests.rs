use chatbot::app::{
    chat_url, message_class, session_id, status_style, Timer, Widget, WidgetEffect, WidgetEvent,
    ANIMATION_MS,
};
use chatbot::chat::Message;

fn typed(w: &mut Widget, text: &str) {
    assert!(w.handle(WidgetEvent::Typed(text.to_string())).is_empty());
}

fn sent_text(effects: &[WidgetEffect]) -> Option<String> {
    effects.iter().find_map(|e| match e {
        WidgetEffect::Send(t) => Some(t.clone()),
        _ => None,
    })
}

#[test]
fn new_widget_is_closed_and_empty() {
    let w = Widget::new();
    assert!(w.messages.is_empty());
    assert!(!w.loading && !w.unfolded && !w.full);
    assert_eq!(w.input, "");
    assert!(!w.can_send());
}

#[test]
fn send_click_sends_typed_text() {
    let mut w = Widget::new();
    typed(&mut w, "Hallo");
    assert!(w.can_send());
    let fx = w.handle(WidgetEvent::SendClicked);
    assert_eq!(fx.len(), 2);
    assert_eq!(sent_text(&fx), Some("Hallo".to_string()));
    assert!(matches!(fx[1], WidgetEffect::ScrollToBottom));
    assert!(w.loading);
    assert_eq!(w.input, "");
    assert_eq!(w.messages.len(), 1);
    assert_eq!(w.messages[0].role, "user");
    assert_eq!(w.messages[0].content, "Hallo");
}

#[test]
fn empty_input_is_not_sent() {
    let mut w = Widget::new();
    assert!(w.handle(WidgetEvent::SendClicked).is_empty());
    assert!(w.messages.is_empty());
    assert!(!w.loading);
}

#[test]
fn nothing_is_sent_while_a_reply_is_awaited() {
    let mut w = Widget::new();
    typed(&mut w, "eins");
    w.handle(WidgetEvent::SendClicked);
    typed(&mut w, "zwei");
    assert!(!w.can_send());
    assert!(w.handle(WidgetEvent::SendClicked).is_empty());
    assert_eq!(w.input, "zwei");
    assert_eq!(w.messages.len(), 1);
    let reply = vec![
        Message { role: "user".to_string(), content: "eins".to_string() },
        Message { role: "assistant".to_string(), content: "Servus".to_string() },
    ];
    let fx = w.handle(WidgetEvent::Received(reply));
    assert_eq!(fx.len(), 1);
    assert!(matches!(fx[0], WidgetEffect::ScrollToBottom));
    assert!(!w.loading);
    assert_eq!(w.messages.len(), 2);
    assert_eq!(w.messages[1].content, "Servus");
    assert!(w.can_send());
}

#[test]
fn enter_key_sends_and_is_swallowed() {
    let mut w = Widget::new();
    typed(&mut w, "hi");
    let fx = w.handle(WidgetEvent::KeyPressed("Enter".to_string()));
    assert_eq!(fx.len(), 3);
    assert_eq!(sent_text(&fx), Some("hi".to_string()));
    assert!(matches!(fx[2], WidgetEffect::PreventDefault));
    // Enter with nothing to send is swallowed all the same
    let fx = w.handle(WidgetEvent::KeyPressed("Enter".to_string()));
    assert_eq!(fx.len(), 1);
    assert!(matches!(fx[0], WidgetEffect::PreventDefault));
}

#[test]
fn other_keys_do_nothing() {
    let mut w = Widget::new();
    typed(&mut w, "hi");
    assert!(w.handle(WidgetEvent::KeyPressed("a".to_string())).is_empty());
    assert!(w.handle(WidgetEvent::KeyPressed("enter".to_string())).is_empty());
    assert_eq!(w.input, "hi");
    assert!(!w.loading);
}

#[test]
fn icon_opens_with_animation() {
    let mut w = Widget::new();
    let fx = w.handle(WidgetEvent::IconClicked);
    assert!(w.unfolded && w.full);
    assert_eq!(fx.len(), 2);
    match &fx[0] {
        WidgetEffect::Post(m) => assert_eq!(m, "open"),
        _ => panic!("expected post"),
    }
    assert!(matches!(fx[1], WidgetEffect::Start(Timer::Opened)));
    assert!(w.handle(WidgetEvent::TimerFired(Timer::Opened)).is_empty());
    assert!(w.unfolded && !w.full);
    assert_eq!(ANIMATION_MS, 250);
}

#[test]
fn close_button_closes_after_animation() {
    let mut w = Widget::new();
    w.handle(WidgetEvent::IconClicked);
    w.handle(WidgetEvent::TimerFired(Timer::Opened));
    let fx = w.handle(WidgetEvent::CloseClicked);
    assert!(w.full && w.unfolded);
    assert_eq!(fx.len(), 1);
    assert!(matches!(fx[0], WidgetEffect::Start(Timer::Closed)));
    let fx = w.handle(WidgetEvent::TimerFired(Timer::Closed));
    assert!(!w.full && !w.unfolded);
    assert_eq!(fx.len(), 1);
    match &fx[0] {
        WidgetEffect::Post(m) => assert_eq!(m, "close"),
        _ => panic!("expected post"),
    }
}

#[test]
fn clear_button_forgets_the_room_and_reloads() {
    let mut w = Widget::new();
    w.handle(WidgetEvent::IconClicked);
    let fx = w.handle(WidgetEvent::ClearClicked);
    assert_eq!(fx.len(), 2);
    assert!(matches!(fx[0], WidgetEffect::ForgetId));
    assert!(matches!(fx[1], WidgetEffect::Start(Timer::Cleared)));
    assert!(w.full);
    let fx = w.handle(WidgetEvent::TimerFired(Timer::Cleared));
    assert_eq!(fx.len(), 2);
    match &fx[0] {
        WidgetEffect::Post(m) => assert_eq!(m, "close"),
        _ => panic!("expected post"),
    }
    assert!(matches!(fx[1], WidgetEffect::Reload));
    assert!(!w.full && !w.unfolded);
}

#[test]
fn message_classes() {
    assert_eq!(message_class("user"), "message user");
    assert_eq!(message_class("assistant"), "message bot");
    assert_eq!(message_class("system"), "message bot");
    assert_eq!(message_class("User"), "message bot");
}

#[test]
fn status_light() {
    assert_eq!(status_style(true), "background-color: green;");
    assert_eq!(status_style(false), "background-color: red;");
}

#[test]
fn chat_url_names_the_room() {
    assert_eq!(chat_url("abc"), "/api/chat?id=abc");
    assert_eq!(chat_url(""), "/api/chat?id=");
}

#[test]
fn stored_session_id_is_kept() {
    assert_eq!(session_id("room-7".to_string()), "room-7");
}

#[test]
fn missing_session_id_gets_a_random_uuid() {
    let a = session_id(String::new());
    let b = session_id(String::new());
    assert_eq!(a.len(), 36);
    assert_ne!(a, b);
    for (i, c) in a.chars().enumerate() {
        if i == 8 || i == 13 || i == 18 || i == 23 {
            assert_eq!(c, '-');
        } else {
            assert!(c.is_ascii_digit() || ('a'..='f').contains(&c));
        }
    }
    assert_eq!(a.chars().nth(14), Some('4'));
}
