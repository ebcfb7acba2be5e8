# rust_ws

A modular, composable WebSocket client library, written and proved in Verus.

- `src/handler.rs`: handlers for incoming messages, chained into a `frunk` list. A
  message passes from one to the next until one of them reconnects, stops or fails.
- `src/chain.rs`: what such a chain does, whatever its length.
- `src/modules/`: authentication, subscriptions, forwarding, keep-alive and logging, each
  with its own piece of state.
- `src/app.rs`, `src/state.rs`: the handlers and the state of the default session.
- `src/outbox.rs`: the effects that the modules ask for. They never do I/O themselves.
- `src/channel.rs`: the sending half of a channel, with a record of what went into it.
- `src/message.rs`, `src/time.rs`, `src/types.rs`: messages, points and lengths of time,
  and the outcome of a handler.
- `src/foreign.rs`: what is taken on trust of other crates, beside the two clock readings
  in `src/time.rs`.
- `app/`: a client on `tokio-tungstenite`. It keeps the connection open, offers messages
  to the handlers, performs the effects, and finds each module's piece of state in a
  `frunk` list.

## Handlers

Functions and closures are handlers as they stand:

```rust
let handlers = hlist![update_pong, log_text];
```

`to_handler` makes a handler of a closure where its argument types would otherwise have to
be written out.
