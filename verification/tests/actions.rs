use rust_ws::message::Message;
use rust_ws::modules::auth::{send_auth, AuthState};
use rust_ws::modules::subscription::{send_subscriptions, SubscriptionState};
use rust_ws::outbox::{Effect, Outbox};
use rust_ws::state::Conn;

fn print(line: &str) -> Effect {
    Effect::Print(line.to_string())
}

fn send(text: &str) -> Effect {
    Effect::Send(Message::Text(text.to_string()))
}

#[test]
fn outbox_starts_empty_and_keeps_order() {
    let mut out = Outbox::new();
    assert_eq!(out.effects, vec![]);
    out.print("one".to_string());
    out.send(Message::Pong(vec![2]));
    assert_eq!(out.effects, vec![print("one"), Effect::Send(Message::Pong(vec![2]))]);
}

#[test]
fn auth_default_has_nothing_to_send() {
    let mut state = AuthState::default();
    assert_eq!(state.auth_message, None);
    assert!(!state.authenticated);
    let mut out = Outbox::new();
    send_auth(&mut out, &mut state, ());
    assert_eq!(out.effects, vec![]);
    assert!(!state.authenticated);
    assert_eq!(state.auth_message, None);
}

#[test]
fn auth_is_shown_and_sent() {
    let message = "{\"action\": \"auth\", \"token\": \"secret\"}";
    let mut state = AuthState { auth_message: Some(message.to_string()), authenticated: false };
    let mut out = Outbox::new();
    send_auth(&mut out, &mut state, ());
    assert_eq!(
        out.effects,
        vec![
            print("🔐 Sending Auth: {\"action\": \"auth\", \"token\": \"secret\"}"),
            send(message),
        ]
    );
    assert!(state.authenticated);
    assert_eq!(state.auth_message, Some(message.to_string()));
}

#[test]
fn auth_is_sent_only_once() {
    let mut state = AuthState { auth_message: Some("let me in".to_string()), authenticated: false };
    let mut out = Outbox::new();
    send_auth(&mut out, &mut state, ());
    send_auth(&mut out, &mut state, ());
    send_auth(&mut out, &mut state, ());
    assert_eq!(out.effects, vec![print("🔐 Sending Auth: let me in"), send("let me in")]);
}

#[test]
fn auth_already_done_sends_nothing() {
    let mut state = AuthState { auth_message: Some("let me in".to_string()), authenticated: true };
    let mut out = Outbox::new();
    send_auth(&mut out, &mut state, ());
    assert_eq!(out.effects, vec![]);
    assert!(state.authenticated);
}

#[test]
fn auth_waits_for_a_message() {
    let mut state = AuthState::default();
    let mut out = Outbox::new();
    send_auth(&mut out, &mut state, ());
    state.auth_message = Some(String::new());
    send_auth(&mut out, &mut state, ());
    assert_eq!(out.effects, vec![print("🔐 Sending Auth: "), send("")]);
    assert!(state.authenticated);
}

#[test]
fn auth_comes_after_what_is_already_asked_for() {
    let mut state = AuthState { auth_message: Some("m".to_string()), authenticated: false };
    let mut out = Outbox::new();
    out.print("first".to_string());
    send_auth(&mut out, &mut state, ());
    assert_eq!(out.effects, vec![print("first"), print("🔐 Sending Auth: m"), send("m")]);
}

#[test]
fn subscription_default_has_nothing_to_send() {
    let mut state = SubscriptionState::default();
    assert!(state.subscriptions.is_empty());
    assert!(!state.subscribed);
    let mut out = Outbox::new();
    send_subscriptions(&mut out, &mut state, ());
    assert_eq!(out.effects, vec![]);
    assert!(!state.subscribed);
}

#[test]
fn subscriptions_are_shown_and_sent_in_order() {
    let mut state = SubscriptionState {
        subscriptions: vec!["ticker".to_string(), "book".to_string(), "ticker".to_string()],
        subscribed: false,
    };
    let mut out = Outbox::new();
    send_subscriptions(&mut out, &mut state, ());
    assert_eq!(
        out.effects,
        vec![
            print("📡 Subscribing: ticker"),
            send("ticker"),
            print("📡 Subscribing: book"),
            send("book"),
            print("📡 Subscribing: ticker"),
            send("ticker"),
        ]
    );
    assert!(state.subscribed);
    assert_eq!(state.subscriptions.len(), 3);
}

#[test]
fn subscriptions_are_sent_only_once() {
    let mut state = SubscriptionState { subscriptions: vec!["a".to_string()], subscribed: false };
    let mut out = Outbox::new();
    send_subscriptions(&mut out, &mut state, ());
    state.subscriptions.push("b".to_string());
    send_subscriptions(&mut out, &mut state, ());
    assert_eq!(out.effects, vec![print("📡 Subscribing: a"), send("a")]);
}

#[test]
fn subscriptions_added_later_are_sent() {
    let mut state = SubscriptionState::default();
    let mut out = Outbox::new();
    send_subscriptions(&mut out, &mut state, ());
    state.subscriptions.push("a".to_string());
    send_subscriptions(&mut out, &mut state, ());
    assert_eq!(out.effects, vec![print("📡 Subscribing: a"), send("a")]);
    assert!(state.subscribed);
}

#[test]
fn connection_starts_closed() {
    assert!(!Conn::default().connected);
}

#[test]
fn copies_of_actions_keep_the_state() {
    let auth = AuthState { auth_message: Some("m".to_string()), authenticated: true };
    let copy = auth.clone();
    assert_eq!(copy.auth_message, Some("m".to_string()));
    assert!(copy.authenticated);
    let subs = SubscriptionState { subscriptions: vec!["a".to_string()], subscribed: true };
    let copy = subs.clone();
    assert_eq!(copy.subscriptions, vec!["a".to_string()]);
    assert!(copy.subscribed);
}
