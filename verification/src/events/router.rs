use super::game::game_event_follow_ups;
use super::game::ERROR_NOTICE_TICKS;
use super::net::{net_event_done, net_event_fits};
use super::ui::ui_event_done;
use super::{is_notice, notice, Action, AppEvent, CommandError, GameEvent, NetEvent, UiEvent};
use crate::server_event::{ChatMessage, GroupEvent, RoomEvent, ServerEvent};
use crate::state::{
    bounded_push, notice_views, AppState, GameState, NotificationType, UiState, MAX_GAME_OUTPUT,
};
use crate::text::views;
use vstd::prelude::*;
use vstd::string::*;

verus! {

/// `events`, each to be put on the application's queue.
pub open spec fn emitted(events: Seq<AppEvent>) -> Seq<Action> {
    events.map_values(|e: AppEvent| Action::Emit(e))
}

/// What routing an application event does, given whether the application holds the
/// channel of a connection task and, on a tick, whether the client it holds is still
/// connected (`None` when there is none or it is busy).
///
/// A line for the game output, and a notification, are first recorded in the state.
/// Then the event goes to its handler (`game::handle`, `net::handle` or `ui::handle`),
/// and after that through the router's own dispatch, which handles the same events a
/// second time: a game event's notices are queued twice; a network event is handled
/// twice, except that a lost link is answered the second time only by the login screen
/// and its notice; a terminal event goes through the shortcuts and to the active
/// component twice (so a Control toggle comes back to where it was, and Esc with a panel
/// open closes it and then quits); a tick that finds the client disconnected reports the
/// loss of the link.
pub open spec fn route_done(
    old: AppState,
    new: AppState,
    event: AppEvent,
    link_open: bool,
    client_alive: Option<bool>,
    actions: Seq<Action>,
) -> bool {
    match event {
        AppEvent::Game(e) => {
            &&& exists|first: Seq<AppEvent>, second: Seq<AppEvent>|
                #![trigger game_event_follow_ups(e, first), game_event_follow_ups(e, second)]
                game_event_follow_ups(e, first) && game_event_follow_ups(e, second) && actions
                    == emitted(first) + emitted(second)
            &&& match e {
                GameEvent::PushGameOutput(line) => {
                    &&& views(new.game.game_output@) == bounded_push(
                        views(old.game.game_output@),
                        line@,
                        MAX_GAME_OUTPUT as nat,
                    )
                    &&& new == (AppState {
                        game: GameState { game_output: new.game.game_output, ..old.game },
                        ..old
                    })
                },
                _ => new == old,
            }
        },
        AppEvent::Network(NetEvent::ApiDisconnected) => {
            &&& new == old
            &&& actions.len() == 5
            &&& actions[0] == Action::DropLink
            &&& actions[1] == Action::ShowLogin
            &&& is_notice(actions[2], "Disconnected from server"@, NotificationType::Error, ERROR_NOTICE_TICKS)
            &&& actions[3] == Action::ShowLogin
            &&& is_notice(actions[4], "Disconnected from server"@, NotificationType::Error, ERROR_NOTICE_TICKS)
        },
        AppEvent::Network(e) => exists|mid: AppState, first: Seq<Action>, second: Seq<Action>|
            #![trigger net_event_done(old, mid, e, link_open, first), net_event_done(mid, new, e, link_open, second)]
            net_event_done(old, mid, e, link_open, first) && net_event_done(mid, new, e, link_open, second)
                && actions == first + second,
        AppEvent::Ui(UiEvent::Tick) => new == old && actions == (if client_alive == Some(false) {
            seq![Action::Emit(AppEvent::Network(NetEvent::ApiDisconnected))]
        } else {
            Seq::<Action>::empty()
        }),
        AppEvent::Ui(UiEvent::Notification(text, level, ticks)) => {
            &&& notice_views(new.ui.notifications@) == notice_views(old.ui.notifications@).push(
                (text@, level, ticks),
            )
            &&& new == (AppState { ui: UiState { notifications: new.ui.notifications, ..old.ui }, ..old })
            &&& actions.len() == 0
        },
        AppEvent::Ui(e) => exists|mid: AppState, first: Seq<Action>, second: Seq<Action>|
            #![trigger ui_event_done(old, mid, e, first), ui_event_done(mid, new, e, second)]
            ui_event_done(old, mid, e, first) && ui_event_done(mid, new, e, second) && actions
                == first + second,
    }
}

/// What routing an event needs of the state: a player who connects is counted by both
/// dispatches, so there must be room for two more players online.
pub open spec fn route_fits(s: AppState, event: AppEvent) -> bool {
    event matches AppEvent::Network(NetEvent::Api(evt)) ==> (evt is Connect ==> s.game.online_players
        + 1 < u32::MAX)
}

/// Appends the events `follow_ups` to `actions`, each to be queued.
fn emit_all(actions: &mut Vec<Action>, follow_ups: Vec<AppEvent>)
    ensures
        final(actions)@ == old(actions)@ + emitted(follow_ups@),
{
    let mut follow_ups = follow_ups;
    let ghost start = actions@;
    let ghost all = follow_ups@;
    while follow_ups.len() > 0
        invariant
            start + emitted(all) == actions@ + emitted(follow_ups@),
        decreases follow_ups.len(),
    {
        let ghost before = follow_ups@;
        let next = follow_ups.remove(0);
        proof {
            assert(emitted(before) =~= seq![Action::Emit(next)] + emitted(follow_ups@));
        }
        let ghost done = actions@;
        actions.push(Action::Emit(next));
        assert(actions@ + emitted(follow_ups@) =~= done + (seq![Action::Emit(next)] + emitted(follow_ups@)));
    }
    assert(emitted(follow_ups@) =~= Seq::<Action>::empty());
    assert(actions@ =~= actions@ + emitted(follow_ups@));
}

/// Routes an application event to its handler and then through the router's own
/// dispatch, and says what the application must do next.
pub fn route(state: &mut AppState, event: AppEvent, link_open: bool, client_alive: Option<bool>) -> (actions: Vec<Action>)
    requires
        route_fits(*old(state), event),
    ensures
        route_done(*old(state), *final(state), event, link_open, client_alive, actions@),
{
    let mut actions: Vec<Action> = Vec::new();
    match event {
        AppEvent::Game(e) => {
            if let GameEvent::PushGameOutput(line) = &e {
                state.game.push_game_output(line.clone());
            }
            let again = match &e {
                GameEvent::CommandError(err) => Some(
                    GameEvent::CommandError(CommandError { code: err.code, message: err.message.clone() }),
                ),
                GameEvent::UnknowCommand(cmd) => Some(GameEvent::UnknowCommand(cmd.clone())),
                _ => None,
            };
            let first = super::game::handle(e);
            let ghost f = first@;
            emit_all(&mut actions, first);
            let second = match again {
                Some(copy) => super::game::handle(copy),
                None => Vec::new(),
            };
            let ghost g = second@;
            emit_all(&mut actions, second);
            assert(actions@ =~= emitted(f) + emitted(g));
        },
        AppEvent::Network(NetEvent::ApiDisconnected) => {
            actions = super::net::handle(state, NetEvent::ApiDisconnected, link_open);
            actions.push(Action::ShowLogin);
            let text = String::from_str("Disconnected from server");
            actions.push(Action::Emit(notice(text, NotificationType::Error, ERROR_NOTICE_TICKS)));
        },
        AppEvent::Network(e) => {
            let ghost s0 = *state;
            let again = copy_net_event(&e);
            let first = super::net::handle(state, again, link_open);
            let ghost s1 = *state;
            proof {
                lemma_fits_after_first(s0, s1, e, link_open, first@);
            }
            let mut second = super::net::handle(state, e, link_open);
            let ghost a1 = first@;
            let ghost a2 = second@;
            actions = first;
            actions.append(&mut second);
            assert(actions@ =~= a1 + a2);
        },
        AppEvent::Ui(UiEvent::Tick) => {
            if client_alive == Some(false) {
                actions.push(Action::Emit(AppEvent::Network(NetEvent::ApiDisconnected)));
                assert(actions@ =~= seq![Action::Emit(AppEvent::Network(NetEvent::ApiDisconnected))]);
            }
        },
        AppEvent::Ui(UiEvent::Notification(text, level, ticks)) => {
            state.ui.push_notification(text, level, ticks);
        },
        AppEvent::Ui(UiEvent::TerminalEvent(input)) => {
            let mut first = super::ui::handle(state, UiEvent::TerminalEvent(input));
            let mut second = super::ui::handle(state, UiEvent::TerminalEvent(input));
            let ghost a1 = first@;
            let ghost a2 = second@;
            first.append(&mut second);
            actions = first;
            assert(actions@ =~= a1 + a2);
        },
    }
    actions
}

fn copy_chat(c: &ChatMessage) -> (r: ChatMessage)
    ensures
        r == *c,
{
    ChatMessage { sender: c.sender.clone(), message: c.message.clone() }
}

fn copy_server_event(e: &ServerEvent) -> (r: ServerEvent)
    ensures
        r == *e,
{
    match e {
        ServerEvent::Connect(n) => ServerEvent::Connect(n.clone()),
        ServerEvent::Quit(n) => ServerEvent::Quit(n.clone()),
        ServerEvent::Room(RoomEvent::PresenceEnter(n)) => ServerEvent::Room(RoomEvent::PresenceEnter(n.clone())),
        ServerEvent::Room(RoomEvent::PresenceLeave(n)) => ServerEvent::Room(RoomEvent::PresenceLeave(n.clone())),
        ServerEvent::Room(RoomEvent::Chat(c)) => ServerEvent::Room(RoomEvent::Chat(copy_chat(c))),
        ServerEvent::Group(GroupEvent::Chat(c)) => ServerEvent::Group(GroupEvent::Chat(copy_chat(c))),
        ServerEvent::Group(GroupEvent::Invite(n)) => ServerEvent::Group(GroupEvent::Invite(n.clone())),
        ServerEvent::Group(GroupEvent::Join(n)) => ServerEvent::Group(GroupEvent::Join(n.clone())),
        ServerEvent::Group(GroupEvent::Leave(n)) => ServerEvent::Group(GroupEvent::Leave(n.clone())),
        ServerEvent::GlobalChat(c) => ServerEvent::GlobalChat(copy_chat(c)),
        ServerEvent::PrivateChat(c) => ServerEvent::PrivateChat(copy_chat(c)),
        ServerEvent::Stats(n) => ServerEvent::Stats(*n),
        ServerEvent::Unknown(raw) => ServerEvent::Unknown(raw.clone()),
    }
}

fn copy_net_event(e: &NetEvent) -> (r: NetEvent)
    ensures
        r == *e,
{
    match e {
        NetEvent::Api(evt) => NetEvent::Api(copy_server_event(evt)),
        NetEvent::ClientConnected => NetEvent::ClientConnected,
        NetEvent::AttemptConnect(a, b, c) => NetEvent::AttemptConnect(a.clone(), b.clone(), c.clone()),
        NetEvent::ExecuteConnect(n) => NetEvent::ExecuteConnect(n.clone()),
        NetEvent::LoginSuccess(n) => NetEvent::LoginSuccess(n.clone()),
        NetEvent::ApiDisconnected => NetEvent::ApiDisconnected,
        NetEvent::NetworkError(t) => NetEvent::NetworkError(t.clone()),
        NetEvent::TapError(t) => NetEvent::TapError(t.clone()),
    }
}

/// After the first dispatch, the event still fits the state for the second.
proof fn lemma_fits_after_first(s0: AppState, s1: AppState, e: NetEvent, link_open: bool, actions: Seq<Action>)
    requires
        route_fits(s0, AppEvent::Network(e)),
        net_event_done(s0, s1, e, link_open, actions),
    ensures
        net_event_fits(s1, e),
{
}

} // verus!
