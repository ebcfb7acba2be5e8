use rust_ws::app;
use rust_ws::channel::Sender;
use rust_ws::message::{CloseFrame, Frame, Message};
use rust_ws::modules::forwarder::{forward_messages, forward_parsed, ForwarderState, MessageParser};
use rust_ws::modules::logging::{log_text, log_text_at, received_line, LastMsg};
use rust_ws::modules::ping_pong::{
    check_timeout, check_timeout_after, handle_ping_pong, handle_ping_pong_at, PingState,
};
use rust_ws::outbox::{Effect, Outbox};
use rust_ws::state::{Conn, Heartbeat};
use rust_ws::time::{elapsed_since, utc_now, Duration, Timestamp};
use rust_ws::types::HandlerOutcome;
use std::time::Instant;
use tokio::sync::mpsc::unbounded_channel;

fn text(s: &str) -> Message {
    Message::Text(s.to_string())
}

fn not_text() -> Vec<Message> {
    vec![
        Message::Binary(vec![1, 2]),
        Message::Ping(vec![3]),
        Message::Pong(vec![4]),
        Message::Close(None),
        Message::Close(Some(CloseFrame { code: 1000, reason: "bye".to_string() })),
        Message::Frame(Frame {
            is_final: true,
            rsv1: false,
            rsv2: false,
            rsv3: false,
            opcode: 1,
            mask: None,
            payload: vec![],
        }),
    ]
}

const LONG_AGO: Timestamp = Timestamp { secs: 5, nanos: 7 };

fn wait() {
    let start = Instant::now();
    while start.elapsed() < std::time::Duration::from_millis(5) {}
}

#[test]
fn text_is_shown_and_timed() {
    let now = Timestamp { secs: 1_700_000_000, nanos: 42 };
    let mut state = LastMsg { last_msg: LONG_AGO };
    let mut out = Outbox::new();
    let reply = log_text_at(&mut out, &mut state, &text("hello"), now).unwrap();
    assert_eq!(reply, HandlerOutcome::Continue);
    assert_eq!(out.effects, vec![Effect::Print("📜 Received: hello".to_string())]);
    assert_eq!(state.last_msg, now);
}

#[test]
fn only_text_is_logged() {
    for msg in not_text() {
        let mut state = LastMsg { last_msg: LONG_AGO };
        let mut out = Outbox::new();
        assert_eq!(log_text(&mut out, &mut state, &msg).unwrap(), HandlerOutcome::Continue);
        assert_eq!(
            log_text_at(&mut out, &mut state, &msg, Timestamp { secs: 9, nanos: 9 }).unwrap(),
            HandlerOutcome::Continue
        );
        assert_eq!(app::log_text(&mut out, &mut state, &msg).unwrap(), HandlerOutcome::Continue);
        assert_eq!(out.effects, vec![]);
        assert_eq!(state.last_msg, LONG_AGO);
        assert_eq!(received_line(&msg), None);
    }
}

#[test]
fn received_line_shows_the_text() {
    assert_eq!(received_line(&text("héllo")), Some("📜 Received: héllo".to_string()));
    assert_eq!(received_line(&text("")), Some("📜 Received: ".to_string()));
}

#[test]
fn log_text_reads_the_clock() {
    let before = chrono::Utc::now();
    let mut state = LastMsg { last_msg: LONG_AGO };
    let mut out = Outbox::new();
    assert_eq!(log_text(&mut out, &mut state, &text("x")).unwrap(), HandlerOutcome::Continue);
    let first = chrono::DateTime::from_timestamp(state.last_msg.secs, state.last_msg.nanos).unwrap();
    assert!(before <= first && first <= chrono::Utc::now());
    assert_eq!(app::log_text(&mut out, &mut state, &text("y")).unwrap(), HandlerOutcome::Continue);
    let second = chrono::DateTime::from_timestamp(state.last_msg.secs, state.last_msg.nanos).unwrap();
    assert!(first <= second);
    assert_eq!(
        out.effects,
        vec![
            Effect::Print("📜 Received: x".to_string()),
            Effect::Print("📜 Received: y".to_string()),
        ]
    );
}

#[test]
fn last_msg_starts_now() {
    let before = chrono::Utc::now().timestamp();
    let state = LastMsg::default();
    assert!(before <= state.last_msg.secs && state.last_msg.secs <= chrono::Utc::now().timestamp());
    assert!(utc_now().nanos < 1_000_000_000);
}

#[test]
fn pong_updates_the_heartbeat() {
    let start = Heartbeat::default();
    let mut state = start.clone();
    wait();
    assert_eq!(app::update_pong(&mut state, &Message::Pong(vec![])).unwrap(), HandlerOutcome::Continue);
    assert!(state.last_pong > start.last_pong);
    let noted = Instant::now();
    app::update_pong_at(&mut state, &Message::Pong(vec![1]), noted).unwrap();
    assert_eq!(state.last_pong, noted);
}

#[test]
fn only_pong_updates_the_heartbeat() {
    let start = Heartbeat::default();
    wait();
    for msg in [text("pong"), Message::Ping(vec![1]), Message::Binary(vec![]), Message::Close(None)] {
        let mut state = start.clone();
        assert_eq!(app::update_pong(&mut state, &msg).unwrap(), HandlerOutcome::Continue);
        app::update_pong_at(&mut state, &msg, Instant::now()).unwrap();
        assert_eq!(state.last_pong, start.last_pong);
    }
}

#[test]
fn ping_is_answered_with_its_payload() {
    let mut state = PingState::default();
    let start = state.clone();
    let mut out = Outbox::new();
    let reply = handle_ping_pong(&mut out, &mut state, &Message::Ping(vec![1, 2, 3])).unwrap();
    assert_eq!(reply, HandlerOutcome::Continue);
    assert_eq!(out.effects, vec![Effect::Send(Message::Pong(vec![1, 2, 3]))]);
    assert_eq!(state.last_pong, start.last_pong);
}

#[test]
fn pong_is_timed_and_not_answered() {
    let mut state = PingState::default();
    let start = state.clone();
    let mut out = Outbox::new();
    wait();
    assert_eq!(
        handle_ping_pong(&mut out, &mut state, &Message::Pong(vec![1])).unwrap(),
        HandlerOutcome::Continue
    );
    assert_eq!(out.effects, vec![]);
    assert!(state.last_pong > start.last_pong);
    let noted = Instant::now();
    handle_ping_pong_at(&mut out, &mut state, &Message::Pong(vec![]), noted).unwrap();
    assert_eq!(state.last_pong, noted);
    assert_eq!(state.ping_interval, start.ping_interval);
    assert_eq!(state.pong_timeout, start.pong_timeout);
}

#[test]
fn other_messages_are_no_ping_pong() {
    for msg in [text("ping"), Message::Binary(vec![9]), Message::Close(None)] {
        let mut state = PingState::default();
        let start = state.clone();
        let mut out = Outbox::new();
        wait();
        assert_eq!(
            handle_ping_pong(&mut out, &mut state, &msg).unwrap(),
            HandlerOutcome::Continue
        );
        handle_ping_pong_at(&mut out, &mut state, &msg, Instant::now()).unwrap();
        assert_eq!(out.effects, vec![]);
        assert_eq!(state.last_pong, start.last_pong);
    }
}

#[test]
fn an_answer_is_not_answered() {
    let mut state = PingState::default();
    let mut out = Outbox::new();
    handle_ping_pong(&mut out, &mut state, &Message::Ping(vec![8])).unwrap();
    let answer = match out.effects.pop() {
        Some(Effect::Send(answer)) => answer,
        other => panic!("no answer: {other:?}"),
    };
    assert_eq!(answer, Message::Pong(vec![8]));
    handle_ping_pong(&mut out, &mut state, &answer).unwrap();
    assert_eq!(out.effects, vec![]);
}

#[test]
fn overdue_stays_overdue_as_time_passes() {
    let mut state = PingState {
        last_pong: Instant::now(),
        ping_interval: Duration::new(2, 500_000_000),
        pong_timeout: Duration::new(1, 500_000_000),
    };
    let mut out = Outbox::new();
    for elapsed in [Duration::new(4, 1), Duration::from_secs(5), Duration::from_secs(u64::MAX)] {
        check_timeout_after(&mut out, &mut state, elapsed);
    }
    assert_eq!(out.effects.len(), 3);
    check_timeout_after(&mut out, &mut state, Duration::from_secs(4));
    assert_eq!(out.effects.len(), 3);
}

#[test]
fn default_ping_state_waits_forty_seconds() {
    let mut state = PingState::default();
    assert_eq!(state.ping_interval, Duration::from_secs(30));
    assert_eq!(state.pong_timeout, Duration::from_secs(10));
    let mut out = Outbox::new();
    check_timeout_after(&mut out, &mut state, Duration::from_secs(40));
    assert_eq!(out.effects, vec![]);
    check_timeout_after(&mut out, &mut state, Duration::new(40, 1));
    assert_eq!(
        out.effects,
        vec![Effect::Print("⏰ Ping timeout! Reconnecting...".to_string())]
    );
}

#[test]
fn check_timeout_reads_the_clock() {
    let mut state = PingState {
        last_pong: Instant::now(),
        ping_interval: Duration::from_secs(0),
        pong_timeout: Duration::new(0, 1_000_000),
    };
    let noted = state.last_pong;
    wait();
    let mut out = Outbox::new();
    check_timeout(&mut out, &mut state);
    assert_eq!(
        out.effects,
        vec![Effect::Print("⏰ Ping timeout! Reconnecting...".to_string())]
    );
    assert_eq!(state.last_pong, noted);

    let mut patient = PingState::default();
    let mut quiet = Outbox::new();
    check_timeout(&mut quiet, &mut patient);
    assert_eq!(quiet.effects, vec![]);
}

#[test]
fn elapsed_time_grows() {
    let start = Instant::now();
    wait();
    let elapsed = elapsed_since(&start);
    assert!(elapsed.exceeds(Duration::new(0, 4_000_000)));
    assert!(Duration::from_secs(600).exceeds(elapsed));
}

#[test]
fn a_length_of_time_gives_back_its_parts() {
    assert_eq!(Duration::new(1, 3_000_000_005).parts(), (4, 5));
    assert_eq!(Duration::new(0, 999_999_999).parts(), (0, 999_999_999));
    assert_eq!(Duration::from_secs(30).parts(), (30, 0));
    assert_eq!(Duration::new(u64::MAX, 999_999_999).parts(), (u64::MAX, 999_999_999));
}

#[test]
fn durations_add_with_carry() {
    let sum = Duration::new(1, 600_000_000).checked_plus(Duration::new(2, 700_000_000));
    assert_eq!(sum, Some(Duration::new(4, 300_000_000)));
    let plain = Duration::new(1, 100).checked_plus(Duration::new(2, 200));
    assert_eq!(plain, Some(Duration::new(3, 300)));
    assert_eq!(Duration::new(1, 3_000_000_005), Duration::new(4, 5));
}

#[test]
fn durations_too_long_do_not_add() {
    let longest = Duration::new(u64::MAX, 999_999_999);
    assert_eq!(longest.checked_plus(Duration::new(0, 1)), None);
    assert_eq!(longest.checked_plus(Duration::from_secs(1)), None);
    assert_eq!(longest.checked_plus(Duration::from_secs(0)), Some(longest));
}

#[test]
fn durations_compare_by_length() {
    assert!(Duration::new(2, 0).exceeds(Duration::new(1, 999_999_999)));
    assert!(Duration::new(1, 1).exceeds(Duration::from_secs(1)));
    assert!(!Duration::new(1, 1).exceeds(Duration::new(1, 1)));
    assert!(!Duration::new(1, 5).exceeds(Duration::new(2, 0)));
}

struct TextLength;

impl MessageParser<usize> for TextLength {
    fn parse(&self, msg: &Message) -> Option<usize> {
        match msg {
            Message::Text(t) => Some(t.len()),
            _ => None,
        }
    }
}

#[test]
fn parsed_messages_are_forwarded() {
    let (tx, mut rx) = unbounded_channel();
    let mut state = ForwarderState { sender: Sender::new(tx) };
    let mut out = Outbox::new();
    for msg in [text("four"), Message::Binary(vec![1]), text("")] {
        assert_eq!(
            forward_messages(&mut out, &mut state, &msg, &TextLength).unwrap(),
            HandlerOutcome::Continue
        );
    }
    assert_eq!(rx.try_recv().ok(), Some(4));
    assert_eq!(rx.try_recv().ok(), Some(0));
    assert_eq!(rx.try_recv().ok(), None);
    assert_eq!(out.effects, vec![]);
}

#[test]
fn forwarding_outlives_the_receiver() {
    let (tx, rx) = unbounded_channel();
    drop(rx);
    let mut state = ForwarderState { sender: Sender::new(tx) };
    let mut out = Outbox::new();
    assert_eq!(
        forward_messages(&mut out, &mut state, &text("four"), &TextLength).unwrap(),
        HandlerOutcome::Continue
    );
    let refused = forward_parsed(&mut state, Some(4)).unwrap().unwrap_err();
    assert_eq!(refused.0, 4);
    assert!(forward_parsed(&mut state, None).is_none());
}

#[test]
fn cloned_forwarders_share_the_channel() {
    let (tx, mut rx) = unbounded_channel();
    let state = ForwarderState { sender: Sender::new(tx) };
    let mut copy = state.clone();
    assert_eq!(forward_parsed(&mut copy, Some(7)), Some(Ok(())));
    assert_eq!(rx.try_recv().ok(), Some(7));
}

#[test]
fn senders_give_the_channels_reply() {
    let (tx, mut rx) = unbounded_channel();
    let mut sender = Sender::new(tx);
    assert_eq!(sender.send("a"), Ok(()));
    assert_eq!(sender.send("b"), Ok(()));
    assert_eq!(rx.try_recv().ok(), Some("a"));
    assert_eq!(rx.try_recv().ok(), Some("b"));
    assert_eq!(rx.try_recv().ok(), None);
    drop(rx);
    assert_eq!(sender.send("c").unwrap_err().0, "c");
}

#[test]
fn what_is_parsed_arrives_in_order_and_once() {
    let (tx, mut rx) = unbounded_channel();
    let mut state = ForwarderState { sender: Sender::new(tx) };
    let mut out = Outbox::new();
    let msgs = [text("a"), Message::Ping(vec![]), text("bbb"), text("a"), Message::Close(None), text("")];
    for msg in &msgs {
        forward_messages(&mut out, &mut state, msg, &TextLength).unwrap();
    }
    let expected: Vec<usize> = msgs.iter().filter_map(|msg| TextLength.parse(msg)).collect();
    assert_eq!(expected, vec![1, 3, 1, 0]);
    let mut arrived = Vec::new();
    while let Ok(value) = rx.try_recv() {
        arrived.push(value);
    }
    assert_eq!(arrived, expected);
}

#[test]
fn copies_keep_the_state() {
    let last = LastMsg { last_msg: LONG_AGO };
    assert_eq!(last.clone().last_msg, LONG_AGO);
    assert!(Conn { connected: true }.clone().connected);
    assert!(!Conn { connected: false }.clone().connected);
}

#[test]
fn copies_of_effects_are_equal() {
    let mut out = Outbox::new();
    out.print("line".to_string());
    out.send(text("t"));
    for msg in not_text() {
        assert_eq!(msg.clone(), msg);
        out.send(msg);
    }
    assert_eq!(out.clone(), out);
}
