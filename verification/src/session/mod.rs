pub mod events;
pub mod responses;
pub mod laws;
pub mod network;
pub mod input;

use crate::api::events::FightStartData;
use crate::commands::ClientRequest;
use crate::states::game::GameState;
use crate::states::ui::{note_view, note_views, Notification, UiState};
use crate::states::SessionState;
use crate::text::{to_uppercase, uppercase_of, views};
use vstd::prelude::*;
use vstd::string::*;

verus! {

/// What the application must do after the session handled an event or a response.
#[derive(Debug, Clone)]
pub enum Effect {
    /// Send the request to the server.
    Send(ClientRequest),
    /// Open the fight view for this fight, then report how that went with
    /// `SessionState::begin_fight`.
    OpenFightView(FightStartData),
    /// Go back to the game view.
    ShowGameView,
    /// Stop any connection task, then start one that connects to the server and logs in.
    StartConnection { server_ip: String, server_port: String, player_name: String },
    /// Stop the connection task.
    StopConnection,
}

/// The text in `o`, or `default` when there is none.
pub open spec fn text_or(o: Option<String>, default: Seq<char>) -> Seq<char> {
    match o {
        Some(s) => s@,
        None => default,
    }
}

/// `new` is `old` with `line` appended to the action log, and nothing else changed.
pub open spec fn only_logged(old: SessionState, new: SessionState, line: Seq<char>) -> bool {
    &&& views(new.game.action_log@) == views(old.game.action_log@).push(line)
    &&& new == (SessionState { game: GameState { action_log: new.game.action_log, ..old.game }, ..old })
}

/// The action log of `new` is that of `old` with `line` appended.
pub open spec fn logged(old: SessionState, new: SessionState, line: Seq<char>) -> bool {
    views(new.game.action_log@) == views(old.game.action_log@).push(line)
}

/// The notifications of `new` are those of `old` with `note` appended.
pub open spec fn notified(
    old: SessionState,
    new: SessionState,
    note: (crate::states::ui::NotificationLevel, Seq<char>, Option<u64>),
) -> bool {
    note_views(new.ui.notifications@) == note_views(old.ui.notifications@).push(note)
}

/// `new` is `old` with `note` shown, and nothing else changed.
pub open spec fn only_notified(
    old: SessionState,
    new: SessionState,
    note: (crate::states::ui::NotificationLevel, Seq<char>, Option<u64>),
) -> bool {
    &&& notified(old, new, note)
    &&& new == (SessionState { ui: UiState { notifications: new.ui.notifications, ..old.ui }, ..old })
}

/// `s` with `trace_log` as its trace log.
pub open spec fn with_trace(s: SessionState, trace_log: Vec<String>) -> SessionState {
    SessionState { ui: UiState { trace_log, ..s.ui }, ..s }
}

/// `s` with `event_history` as its event history.
pub open spec fn with_history(s: SessionState, event_history: Vec<String>) -> SessionState {
    SessionState { ui: UiState { event_history, ..s.ui }, ..s }
}

/// A line of the trace log: the time, the title in capitals, and the text.
pub open spec fn trace_line(time: Seq<char>, title: Seq<char>, text: Seq<char>) -> Seq<char> {
    "["@ + time + "] ["@ + uppercase_of(title) + "] "@ + text
}

/// `a` followed by `b`.
pub fn cat2(a: &str, b: &str) -> (r: String)
    ensures
        r@ == a@ + b@,
{
    String::from_str(a).concat(b)
}

/// `a`, `b` and `c`, one after the other.
pub fn cat3(a: &str, b: &str, c: &str) -> (r: String)
    ensures
        r@ == a@ + b@ + c@,
{
    String::from_str(a).concat(b).concat(c)
}

/// The text in `o`, or `default` when there is none.
pub fn text_or_default(o: &Option<String>, default: &str) -> (r: String)
    ensures
        r@ == text_or(*o, default@),
{
    match o {
        Some(s) => s.clone(),
        None => String::from_str(default),
    }
}

impl SessionState {
    /// Shows a notification.
    pub fn notify(&mut self, note: Notification)
        ensures
            only_notified(*old(self), *final(self), note_view(note)),
    {
        self.ui.notify(note);
    }

    /// Appends to the trace log the line `[time] [TITLE] text`, the title in capitals;
    /// nothing else changes.
    pub fn record_trace(&mut self, time: &str, title: &str, text: &str)
        ensures
            views(final(self).ui.trace_log@) == views(old(self).ui.trace_log@).push(
                trace_line(time@, title@, text@),
            ),
            *final(self) == with_trace(*old(self), final(self).ui.trace_log),
    {
        let title = to_uppercase(title);
        let line = cat3("[", time, "] [").concat(title.as_str()).concat("] ").concat(text);
        let ghost before = self.ui.trace_log@;
        self.ui.trace_log.push(line);
        assert(views(self.ui.trace_log@) =~= views(before).push(line@));
    }

    /// Traces a request sent to the server at the time `time`: its identifier and the
    /// protocol client's rendering of it.
    pub fn trace_request(&mut self, time: &str, id: &str, request_text: &str)
        ensures
            views(final(self).ui.trace_log@) == views(old(self).ui.trace_log@).push(
                trace_line(time@, "api request"@, id@ + " - "@ + request_text@),
            ),
            *final(self) == with_trace(*old(self), final(self).ui.trace_log),
    {
        let text = cat3(id, " - ", request_text);
        self.record_trace(time, "api request", text.as_str());
    }

    /// Records a line in the action log.
    pub fn log_action(&mut self, line: String)
        ensures
            only_logged(*old(self), *final(self), line@),
    {
        self.game.log_action(line);
    }
}

} // verus!
