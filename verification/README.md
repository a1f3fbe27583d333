# tui_client

A terminal client for The Answer Protocol game server, whose decisions are written
in Verus and proved against their contracts.

## Layout

- `src/` — the verified library.
  - `session/` — the game session: how server events (`events.rs`), responses to
    requests (`responses.rs`), connection changes (`network.rs`) and typed command
    lines (`input.rs`) change the session, and what they ask of the application
    (`Effect`); `laws.rs` proves properties that span several events.
  - `states/` — the session's state (player, room, group, chat, dialogues,
    notifications).
  - `api/` — requests, responses and server events as plain values.
  - `commands/` — the command registry, the typed-line handling and the follow-up of
    command replies.
  - `events/` — the event routing of the application (network, interface and game
    events) as functions from state and event to state and actions.
  - `components/`, `handlers/` — the screens' key handling and what their drawing
    computes (titles, header line, layout of overlays and menus).
  - `collections.rs`, `table.rs`, `text.rs` — the selectable list, the bounded log,
    a text-keyed table and the text operations the rest relies on.
  - `connection.rs`, `network.rs`, `state.rs` — the connection task's decisions and the
    older event handling of the client.
- `tests/` — tests of the library on concrete values.
- `app/` — the program: terminal, event loop, drawing, asset loading and the
  connection task, which carry out what the library decides.
