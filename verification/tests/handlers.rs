use anyhow::Result;
use frunk::{HCons, HNil};
use rust_ws::handler::{to_handler, WsHandler};
use rust_ws::message::Message;
use rust_ws::types::HandlerOutcome;

fn text(s: &str) -> Message {
    Message::Text(s.to_string())
}

fn append_a(log: &mut String, _msg: &Message) -> Result<HandlerOutcome> {
    log.push('a');
    Ok(HandlerOutcome::Continue)
}

fn append_b(log: &mut String, _msg: &Message) -> Result<HandlerOutcome> {
    log.push('b');
    Ok(HandlerOutcome::Continue)
}

fn stop(log: &mut String, _msg: &Message) -> Result<HandlerOutcome> {
    log.push('s');
    Ok(HandlerOutcome::Stop)
}

fn reconnect(log: &mut String, _msg: &Message) -> Result<HandlerOutcome> {
    log.push('r');
    Ok(HandlerOutcome::Reconnect)
}

fn fail(log: &mut String, _msg: &Message) -> Result<HandlerOutcome> {
    log.push('f');
    Err(anyhow::Error::msg("no good"))
}

#[test]
fn empty_chain_continues() {
    let mut log = String::from("x");
    let outcome = HNil.handle(&mut log, &text("hi")).unwrap();
    assert_eq!(outcome, HandlerOutcome::Continue);
    assert_eq!(log, "x");
}

#[test]
fn handlers_run_in_order() {
    let chain = HCons {
        head: to_handler(append_a),
        tail: HCons { head: to_handler(append_b), tail: HNil },
    };
    let mut log = String::new();
    assert_eq!(chain.handle(&mut log, &text("hi")).unwrap(), HandlerOutcome::Continue);
    assert_eq!(log, "ab");
}

#[test]
fn stop_ends_the_chain() {
    let chain = HCons {
        head: to_handler(append_a),
        tail: HCons {
            head: to_handler(stop),
            tail: HCons { head: to_handler(append_b), tail: HNil },
        },
    };
    let mut log = String::new();
    assert_eq!(chain.handle(&mut log, &text("hi")).unwrap(), HandlerOutcome::Stop);
    assert_eq!(log, "as");
}

#[test]
fn reconnect_ends_the_chain() {
    let chain = HCons {
        head: to_handler(reconnect),
        tail: HCons { head: to_handler(append_b), tail: HNil },
    };
    let mut log = String::new();
    assert_eq!(chain.handle(&mut log, &text("hi")).unwrap(), HandlerOutcome::Reconnect);
    assert_eq!(log, "r");
}

#[test]
fn error_ends_the_chain_and_is_passed_on() {
    let chain = HCons {
        head: to_handler(append_a),
        tail: HCons {
            head: to_handler(fail),
            tail: HCons { head: to_handler(append_b), tail: HNil },
        },
    };
    let mut log = String::new();
    let error = chain.handle(&mut log, &text("hi")).unwrap_err();
    assert_eq!(error.to_string(), "no good");
    assert_eq!(log, "af");
}

#[test]
fn chain_of_one_does_what_its_handler_does() {
    let chain = HCons { head: to_handler(stop), tail: HNil };
    let mut log = String::new();
    assert_eq!(chain.handle(&mut log, &text("hi")).unwrap(), HandlerOutcome::Stop);
    assert_eq!(log, "s");
}

#[test]
fn chains_nest() {
    let inner = HCons {
        head: to_handler(append_a),
        tail: HCons { head: to_handler(append_b), tail: HNil },
    };
    let chain = HCons { head: inner, tail: HCons { head: to_handler(stop), tail: HNil } };
    let mut log = String::new();
    assert_eq!(chain.handle(&mut log, &text("hi")).unwrap(), HandlerOutcome::Stop);
    assert_eq!(log, "abs");
}

#[test]
fn closures_are_handlers() {
    let limit = 2usize;
    let handler = to_handler(move |seen: &mut usize, msg: &Message| {
        if let Message::Text(t) = msg {
            *seen += t.len();
        }
        Ok(if *seen > limit { HandlerOutcome::Stop } else { HandlerOutcome::Continue })
    });
    let mut seen = 0usize;
    assert_eq!(handler.handle(&mut seen, &text("ab")).unwrap(), HandlerOutcome::Continue);
    assert_eq!(handler.handle(&mut seen, &Message::Binary(vec![1])).unwrap(), HandlerOutcome::Continue);
    assert_eq!(handler.handle(&mut seen, &text("c")).unwrap(), HandlerOutcome::Stop);
    assert_eq!(seen, 3);
}

#[test]
fn a_function_is_a_handler_as_it_stands() {
    let mut log = String::from("x");
    assert_eq!(append_a.handle(&mut log, &text("hi")).unwrap(), HandlerOutcome::Continue);
    assert_eq!(reconnect.handle(&mut log, &text("hi")).unwrap(), HandlerOutcome::Reconnect);
    assert_eq!(fail.handle(&mut log, &text("hi")).unwrap_err().to_string(), "no good");
    assert_eq!(log, "xarf");
}

#[test]
fn functions_chain_as_they_stand() {
    let chain = HCons {
        head: append_a,
        tail: HCons { head: stop, tail: HCons { head: append_b, tail: HNil } },
    };
    let mut log = String::new();
    assert_eq!(chain.handle(&mut log, &text("hi")).unwrap(), HandlerOutcome::Stop);
    assert_eq!(log, "as");
}

#[test]
fn closures_chain_as_they_stand() {
    let limit = 2usize;
    let chain = HCons {
        head: |seen: &mut usize, msg: &Message| -> Result<HandlerOutcome> {
            if let Message::Text(t) = msg {
                *seen += t.len();
            }
            Ok(HandlerOutcome::Continue)
        },
        tail: HCons {
            head: move |seen: &mut usize, _msg: &Message| -> Result<HandlerOutcome> {
                Ok(if *seen > limit { HandlerOutcome::Stop } else { HandlerOutcome::Continue })
            },
            tail: HNil,
        },
    };
    let mut seen = 0usize;
    assert_eq!(chain.handle(&mut seen, &text("ab")).unwrap(), HandlerOutcome::Continue);
    assert_eq!(chain.handle(&mut seen, &text("c")).unwrap(), HandlerOutcome::Stop);
    assert_eq!(seen, 3);
}

#[test]
fn functions_and_made_handlers_mix() {
    let chain = HCons {
        head: append_a,
        tail: HCons { head: to_handler(append_b), tail: HCons { head: stop, tail: HNil } },
    };
    let mut log = String::new();
    assert_eq!(chain.handle(&mut log, &text("hi")).unwrap(), HandlerOutcome::Stop);
    assert_eq!(log, "abs");
}

struct Upper;

impl WsHandler<Vec<String>> for Upper {
    fn handle(&self, state: &mut Vec<String>, msg: &Message) -> Result<HandlerOutcome> {
        if let Message::Text(t) = msg {
            state.push(t.to_uppercase());
        }
        Ok(HandlerOutcome::Continue)
    }
}

#[test]
fn types_can_be_handlers() {
    let chain = HCons { head: Upper, tail: HCons { head: Upper, tail: HNil } };
    let mut seen = Vec::new();
    assert_eq!(chain.handle(&mut seen, &text("hi")).unwrap(), HandlerOutcome::Continue);
    assert_eq!(seen, vec!["HI".to_string(), "HI".to_string()]);
}

#[test]
fn an_empty_list_in_front_changes_nothing() {
    let chain = HCons { head: HNil, tail: HCons { head: to_handler(stop), tail: HNil } };
    let mut log = String::new();
    assert_eq!(chain.handle(&mut log, &text("hi")).unwrap(), HandlerOutcome::Stop);
    assert_eq!(log, "s");
}

#[test]
fn a_refusal_in_a_nested_list_ends_the_whole() {
    let inner = HCons {
        head: to_handler(append_a),
        tail: HCons { head: to_handler(reconnect), tail: HNil },
    };
    let chain = HCons { head: inner, tail: HCons { head: to_handler(append_b), tail: HNil } };
    let mut log = String::new();
    assert_eq!(chain.handle(&mut log, &text("hi")).unwrap(), HandlerOutcome::Reconnect);
    assert_eq!(log, "ar");
}
