use super::{cat2, notified, with_history, Effect};
use crate::commands::ClientRequest;
use crate::connection::NOTIF_ID_CONNECTION_ATTEMPT;
use crate::events::types::NetworkEvent;
use crate::states::game::{GameState, PlayerState};
use crate::states::ui::{
    event_line, has_id, history_after, law_removed_notifications_are_gone, note_view, note_views,
    notes_without, Notification, NotificationLevel, UiState,
};
use crate::text::views;
use crate::states::{NetworkStatus, SessionState};
use vstd::prelude::*;
use vstd::string::*;

verus! {

/// The requests that fill a fresh session once logged in.
pub open spec fn session_requests() -> Seq<Effect> {
    seq![
        Effect::Send(ClientRequest::Who),
        Effect::Send(ClientRequest::Status),
        Effect::Send(ClientRequest::Inventory),
        Effect::Send(ClientRequest::Quests),
    ]
}

/// What a change of the connection does, given whether a connection task runs.
///
/// An attempt (re)starts the task. Once connected, the attempt's notification is taken
/// down and success is notified, the server and the player's name are kept, the
/// session's data is asked for when a task runs, and the game view is shown. A failure
/// stops the task, takes the attempt's notification down and is notified. A lost
/// connection changes nothing.
pub open spec fn network_event_done(
    old: SessionState,
    new: SessionState,
    event: NetworkEvent,
    has_connection: bool,
    effects: Seq<Effect>,
) -> bool {
    let without_attempt = notes_without(old.ui.notifications@, NOTIF_ID_CONNECTION_ATTEMPT@);
    let notes = new.ui.notifications@;
    // Once connected or failed, the notifications are those that do not bear the
    // attempt's identifier, in order, then one new one without an identifier: none is
    // left that bears it.
    let attempt_taken_down = {
        &&& notes.len() == without_attempt.len() + 1
        &&& notes.subrange(0, without_attempt.len() as int) == without_attempt
        &&& notes.last().id is None
        &&& forall|i: int| 0 <= i < notes.len() ==> !has_id(#[trigger] notes[i], NOTIF_ID_CONNECTION_ATTEMPT@)
    };
    match event {
        NetworkEvent::ConnectionAttemptStarted { server_ip, server_port, player_name } => {
            &&& new == old
            &&& effects == seq![Effect::StartConnection { server_ip, server_port, player_name }]
        },
        NetworkEvent::ConnectionEstablished { server_ip, server_port, player_name } => {
            &&& note_views(new.ui.notifications@) == note_views(without_attempt).push(
                (NotificationLevel::Info, "Connected to the server successfully!"@, None),
            )
            &&& attempt_taken_down
            &&& new == (SessionState {
                game: GameState {
                    player: PlayerState { name: Some(player_name), ..old.game.player },
                    ..old.game
                },
                ui: UiState { notifications: new.ui.notifications, ..old.ui },
                network: NetworkStatus { server_ip, server_port, ..old.network },
                ..old
            })
            &&& effects == (if has_connection { session_requests() } else { Seq::empty() }).push(
                Effect::ShowGameView,
            )
        },
        NetworkEvent::ConnectionFailed { error_message } => {
            &&& note_views(new.ui.notifications@) == note_views(without_attempt).push(
                (NotificationLevel::Error, "Connection failed: "@ + error_message@, None),
            )
            &&& attempt_taken_down
            &&& new == (SessionState { ui: UiState { notifications: new.ui.notifications, ..old.ui }, ..old })
            &&& effects == seq![Effect::StopConnection]
        },
        NetworkEvent::ConnectionLost { .. } => new == old && effects.len() == 0,
    }
}

/// What `handle_network_event` does: the event is added to the event history at `time`
/// as `text`, and the rest of the session changes as `network_event_done` says.
pub open spec fn network_handled(
    old: SessionState,
    new: SessionState,
    time: Seq<char>,
    text: Seq<char>,
    event: NetworkEvent,
    has_connection: bool,
    effects: Seq<Effect>,
) -> bool {
    &&& views(new.ui.event_history@) == history_after(
        views(old.ui.event_history@),
        event_line(time, "network"@, text),
    )
    &&& network_event_done(with_history(old, new.ui.event_history), new, event, has_connection, effects)
}

/// A notification without an identifier pushed after those that do not bear the
/// attempt's identifier leaves none that bears it.
proof fn lemma_pushed_after_removal(before: Seq<Notification>, after: Seq<Notification>, note: Notification)
    requires
        forall|i: int| 0 <= i < before.len() ==> !has_id(#[trigger] before[i], NOTIF_ID_CONNECTION_ATTEMPT@),
        after == before.push(note),
        note.id is None,
    ensures
        after.subrange(0, before.len() as int) == before,
        forall|i: int| 0 <= i < after.len() ==> !has_id(#[trigger] after[i], NOTIF_ID_CONNECTION_ATTEMPT@),
{
    assert(after.subrange(0, before.len() as int) =~= before);
    assert forall|i: int| 0 <= i < after.len() implies !has_id(#[trigger] after[i], NOTIF_ID_CONNECTION_ATTEMPT@) by {
        if i < before.len() {
            assert(after[i] == before[i]);
        }
    }
}

impl SessionState {
    /// Handles a change of the connection, and says what the application must do next.
    ///
    /// The change is first added to the event history at the time `time`, as
    /// `event_text`: the application's rendering of it.
    pub fn handle_network_event(
        &mut self,
        event: NetworkEvent,
        has_connection: bool,
        time: &str,
        event_text: &str,
    ) -> (effects: Vec<Effect>)
        ensures
            network_handled(*old(self), *final(self), time@, event_text@, event, has_connection, effects@),
    {
        self.ui.push_event(time, "network", event_text);
        self.apply_network_event(event, has_connection)
    }

    fn apply_network_event(&mut self, event: NetworkEvent, has_connection: bool) -> (effects: Vec<Effect>)
        ensures
            network_event_done(*old(self), *final(self), event, has_connection, effects@),
    {
        let mut effects: Vec<Effect> = Vec::new();
        match event {
            NetworkEvent::ConnectionAttemptStarted { server_ip, server_port, player_name } => {
                effects.push(Effect::StartConnection { server_ip, server_port, player_name });
                assert(effects@ =~= seq![Effect::StartConnection { server_ip, server_port, player_name }]);
            },
            NetworkEvent::ConnectionEstablished { server_ip, server_port, player_name } => {
                if has_connection {
                    effects.push(Effect::Send(ClientRequest::Who));
                    effects.push(Effect::Send(ClientRequest::Status));
                    effects.push(Effect::Send(ClientRequest::Inventory));
                    effects.push(Effect::Send(ClientRequest::Quests));
                }
                let ghost prior = self.ui.notifications@;
                self.ui.remove_notification(NOTIF_ID_CONNECTION_ATTEMPT);
                let ghost before = self.ui.notifications@;
                let note = Notification::info(String::from_str("Connected to the server successfully!"));
                self.ui.notifications.push(note);
                assert(note_views(self.ui.notifications@) =~= note_views(before).push(note_view(note)));
                proof {
                    law_removed_notifications_are_gone(prior, NOTIF_ID_CONNECTION_ATTEMPT@);
                    lemma_pushed_after_removal(before, self.ui.notifications@, note);
                }
                self.network.server_ip = server_ip;
                self.network.server_port = server_port;
                self.game.player.name = Some(player_name);
                effects.push(Effect::ShowGameView);
                assert(effects@ =~= (if has_connection { session_requests() } else { Seq::empty() }).push(
                    Effect::ShowGameView,
                ));
            },
            NetworkEvent::ConnectionFailed { error_message } => {
                effects.push(Effect::StopConnection);
                assert(effects@ =~= seq![Effect::StopConnection]);
                let ghost prior = self.ui.notifications@;
                self.ui.remove_notification(NOTIF_ID_CONNECTION_ATTEMPT);
                let ghost before = self.ui.notifications@;
                let note = Notification::error(cat2("Connection failed: ", error_message.as_str()));
                self.ui.notifications.push(note);
                assert(note_views(self.ui.notifications@) =~= note_views(before).push(note_view(note)));
                proof {
                    law_removed_notifications_are_gone(prior, NOTIF_ID_CONNECTION_ATTEMPT@);
                    lemma_pushed_after_removal(before, self.ui.notifications@, note);
                }
            },
            NetworkEvent::ConnectionLost { .. } => {},
        }
        effects
    }
}

/// What submitting the login form does: a blank user name is refused with an error;
/// otherwise a connection attempt to the server is started.
pub open spec fn login_submitted(
    old: SessionState,
    new: SessionState,
    username: Seq<char>,
    address: Seq<char>,
    port: Seq<char>,
    r: Option<NetworkEvent>,
) -> bool {
    if crate::text::is_blank(username) {
        r is None && super::only_notified(
            old,
            new,
            (NotificationLevel::Error, "Username cannot be empty!"@, None),
        )
    } else {
        new == old && (r matches Some(
            NetworkEvent::ConnectionAttemptStarted { server_ip, server_port, player_name },
        ) && server_ip@ == address && server_port@ == port && player_name@ == username)
    }
}

impl SessionState {
    /// Submits the login form.
    pub fn submit_login(&mut self, username: &str, address: &str, port: &str) -> (r: Option<NetworkEvent>)
        ensures
            login_submitted(*old(self), *final(self), username@, address@, port@, r),
    {
        if crate::text::is_blank_str(username) {
            self.notify(Notification::error(String::from_str("Username cannot be empty!")));
            return None;
        }
        Some(
            NetworkEvent::ConnectionAttemptStarted {
                server_ip: String::from_str(address),
                server_port: String::from_str(port),
                player_name: String::from_str(username),
            },
        )
    }
}

} // verus!
