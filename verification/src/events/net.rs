use super::{
    is_notice, is_output, notice, Action, AppEvent, CommandError, GameEvent, NetEvent,
};
use crate::network::{handle_server_event, server_event_applied};
use crate::session::{cat2, cat3};
use crate::state::{AppState, NotificationType};
use super::game::ERROR_NOTICE_TICKS;
use vstd::prelude::*;
use vstd::string::*;

verus! {

/// What the interface asks of the connection task once the link is up.
#[derive(Debug, Clone)]
pub enum NetworkCommand {
    /// Log in under the given player name.
    ExecuteConnect(String),
    /// Ask for the number of players online.
    RequestWho,
}

/// How long the notification of a connection attempt stays, in ticks.
pub const CONNECTING_NOTICE_TICKS: u32 = 10;

/// The address of a server, as the connection task dials it.
pub open spec fn address(ip: Seq<char>, port: Seq<char>) -> Seq<char> {
    ip + ":"@ + port
}

/// What a network event does, given whether the application holds the channel of a
/// connection task.
///
/// A connection attempt is notified and starts the task; a login is handed to the task;
/// a successful login shows the game, greets the player and asks for the online count;
/// errors are notified; a lost link drops the channel, shows the login screen and is
/// notified; a server event is applied to the state. Only the last changes the state.
pub open spec fn net_event_done(
    old: AppState,
    new: AppState,
    event: NetEvent,
    link_open: bool,
    actions: Seq<Action>,
) -> bool {
    match event {
        NetEvent::Api(evt) => server_event_applied(old, new, evt) && actions.len() == 0,
        NetEvent::AttemptConnect(name, ip, port) => {
            &&& new == old
            &&& actions.len() == 2
            &&& is_notice(
                actions[0],
                "Connecting to "@ + address(ip@, port@) + "..."@,
                NotificationType::Info,
                CONNECTING_NOTICE_TICKS,
            )
            &&& actions[1] matches Action::OpenConnection { player_name, address: a }
                && player_name == name && a@ == address(ip@, port@)
        },
        NetEvent::ExecuteConnect(name) => {
            &&& new == old
            &&& actions == (if link_open {
                seq![Action::Command(NetworkCommand::ExecuteConnect(name))]
            } else {
                Seq::<Action>::empty()
            })
        },
        NetEvent::LoginSuccess(name) => {
            &&& new == old
            &&& actions.len() == (if link_open { 3int } else { 2int })
            &&& actions[0] == Action::ShowGame
            &&& is_output(actions[1], "Welcome, "@ + name@ + "!"@)
            &&& link_open ==> actions[2] == Action::Command(NetworkCommand::RequestWho)
        },
        NetEvent::NetworkError(err) => {
            &&& new == old
            &&& actions.len() == 1
            &&& is_notice(actions[0], "Network error: "@ + err@, NotificationType::Error, ERROR_NOTICE_TICKS)
        },
        NetEvent::TapError(err) => {
            &&& new == old
            &&& actions.len() == 1
            &&& is_notice(actions[0], "Tap error: "@ + err@, NotificationType::Error, ERROR_NOTICE_TICKS)
        },
        NetEvent::ClientConnected => {
            &&& new == old
            &&& actions.len() == 2
            &&& actions[0] == Action::KeepLink
            &&& is_output(actions[1], "TCP connection established."@)
        },
        NetEvent::ApiDisconnected => {
            &&& new == old
            &&& actions.len() == 3
            &&& actions[0] == Action::DropLink
            &&& actions[1] == Action::ShowLogin
            &&& is_notice(actions[2], "Disconnected from server"@, NotificationType::Error, ERROR_NOTICE_TICKS)
        },
    }
}

/// What a network event needs of the state: room for one more player online when a
/// player connects.
pub open spec fn net_event_fits(s: AppState, event: NetEvent) -> bool {
    event matches NetEvent::Api(evt) ==> (evt is Connect ==> s.game.online_players < u32::MAX)
}

/// Handles a network event, and says what the application must do next.
pub fn handle(state: &mut AppState, event: NetEvent, link_open: bool) -> (actions: Vec<Action>)
    requires
        net_event_fits(*old(state), event),
    ensures
        net_event_done(*old(state), *final(state), event, link_open, actions@),
{
    let mut actions: Vec<Action> = Vec::new();
    match event {
        NetEvent::AttemptConnect(name, ip, port) => {
            let address = cat3(ip.as_str(), ":", port.as_str());
            let text = cat3("Connecting to ", address.as_str(), "...");
            actions.push(Action::Emit(notice(text, NotificationType::Info, CONNECTING_NOTICE_TICKS)));
            actions.push(Action::OpenConnection { player_name: name, address });
        },
        NetEvent::ExecuteConnect(name) => {
            if link_open {
                actions.push(Action::Command(NetworkCommand::ExecuteConnect(name)));
                assert(actions@ =~= seq![Action::Command(NetworkCommand::ExecuteConnect(name))]);
            } else {
                assert(actions@ =~= Seq::<Action>::empty());
            }
        },
        NetEvent::LoginSuccess(name) => {
            actions.push(Action::ShowGame);
            let greeting = cat3("Welcome, ", name.as_str(), "!");
            actions.push(Action::Emit(AppEvent::Game(GameEvent::PushGameOutput(greeting))));
            if link_open {
                actions.push(Action::Command(NetworkCommand::RequestWho));
            }
        },
        NetEvent::NetworkError(err) => {
            let text = cat2("Network error: ", err.as_str());
            actions.push(Action::Emit(notice(text, NotificationType::Error, ERROR_NOTICE_TICKS)));
        },
        NetEvent::TapError(err) => {
            let text = cat2("Tap error: ", err.as_str());
            actions.push(Action::Emit(notice(text, NotificationType::Error, ERROR_NOTICE_TICKS)));
        },
        NetEvent::ClientConnected => {
            actions.push(Action::KeepLink);
            let line = String::from_str("TCP connection established.");
            actions.push(Action::Emit(AppEvent::Game(GameEvent::PushGameOutput(line))));
        },
        NetEvent::ApiDisconnected => {
            actions.push(Action::DropLink);
            actions.push(Action::ShowLogin);
            let text = String::from_str("Disconnected from server");
            actions.push(Action::Emit(notice(text, NotificationType::Error, ERROR_NOTICE_TICKS)));
        },
        NetEvent::Api(evt) => {
            handle_server_event(state, evt);
        },
    }
    actions
}

/// How the connection task's dial of the server went.
pub open spec fn dial_follow_ups(player_name: String, dialed: Result<(), Seq<char>>, follow_ups: Seq<AppEvent>) -> bool {
    match dialed {
        Ok(_) => follow_ups == seq![
            AppEvent::Network(NetEvent::ClientConnected),
            AppEvent::Network(NetEvent::ExecuteConnect(player_name)),
        ],
        Err(error) => {
            &&& follow_ups.len() == 2
            &&& follow_ups[0] matches AppEvent::Network(NetEvent::TapError(e)) && e@ == error
            &&& follow_ups[1] == AppEvent::Network(NetEvent::ApiDisconnected)
        },
    }
}

/// What the connection task queues once it dialed the server: the link is up and the
/// login follows, or the error and the loss of the link.
pub fn dialed(player_name: String, outcome: Result<(), String>) -> (follow_ups: Vec<AppEvent>)
    ensures
        dial_follow_ups(
            player_name,
            match outcome {
                Ok(_) => Ok(()),
                Err(e) => Err(e@),
            },
            follow_ups@,
        ),
{
    let mut follow_ups: Vec<AppEvent> = Vec::new();
    match outcome {
        Ok(_) => {
            follow_ups.push(AppEvent::Network(NetEvent::ClientConnected));
            follow_ups.push(AppEvent::Network(NetEvent::ExecuteConnect(player_name)));
            assert(follow_ups@ =~= seq![
                AppEvent::Network(NetEvent::ClientConnected),
                AppEvent::Network(NetEvent::ExecuteConnect(player_name)),
            ]);
        },
        Err(error) => {
            follow_ups.push(AppEvent::Network(NetEvent::TapError(error)));
            follow_ups.push(AppEvent::Network(NetEvent::ApiDisconnected));
        },
    }
    follow_ups
}

/// How a login through the connection task went.
#[derive(Debug, Clone)]
pub enum LoginOutcome {
    LoggedIn,
    /// The server refused the login.
    Refused(CommandError),
    /// The exchange itself failed, with the error's text.
    Failed(String),
}

/// What the connection task queues after a command: a login succeeds or is refused
/// (and the link is then dropped); an online count that came back is reported.
pub open spec fn login_follow_ups(player_name: String, outcome: LoginOutcome, follow_ups: Seq<AppEvent>) -> bool {
    match outcome {
        LoginOutcome::LoggedIn => follow_ups == seq![AppEvent::Network(NetEvent::LoginSuccess(player_name))],
        LoginOutcome::Refused(err) => follow_ups == seq![
            AppEvent::Game(GameEvent::CommandError(err)),
            AppEvent::Network(NetEvent::ApiDisconnected),
        ],
        LoginOutcome::Failed(err) => follow_ups == seq![
            AppEvent::Network(NetEvent::TapError(err)),
            AppEvent::Network(NetEvent::ApiDisconnected),
        ],
    }
}

/// What the connection task queues after a login.
pub fn logged_in(player_name: String, outcome: LoginOutcome) -> (follow_ups: Vec<AppEvent>)
    ensures
        login_follow_ups(player_name, outcome, follow_ups@),
{
    let mut follow_ups: Vec<AppEvent> = Vec::new();
    match outcome {
        LoginOutcome::LoggedIn => {
            follow_ups.push(AppEvent::Network(NetEvent::LoginSuccess(player_name)));
            assert(follow_ups@ =~= seq![AppEvent::Network(NetEvent::LoginSuccess(player_name))]);
        },
        LoginOutcome::Refused(err) => {
            follow_ups.push(AppEvent::Game(GameEvent::CommandError(err)));
            follow_ups.push(AppEvent::Network(NetEvent::ApiDisconnected));
            assert(follow_ups@ =~= seq![
                AppEvent::Game(GameEvent::CommandError(err)),
                AppEvent::Network(NetEvent::ApiDisconnected),
            ]);
        },
        LoginOutcome::Failed(err) => {
            follow_ups.push(AppEvent::Network(NetEvent::TapError(err)));
            follow_ups.push(AppEvent::Network(NetEvent::ApiDisconnected));
            assert(follow_ups@ =~= seq![
                AppEvent::Network(NetEvent::TapError(err)),
                AppEvent::Network(NetEvent::ApiDisconnected),
            ]);
        },
    }
    follow_ups
}

/// What the connection task queues after asking who is online: the count, when the
/// server answered with one.
pub fn counted(player_count: Option<u32>) -> (follow_ups: Vec<AppEvent>)
    ensures
        follow_ups@ == (match player_count {
            Some(n) => seq![AppEvent::Game(GameEvent::UpdateOnlinePlayers(n))],
            None => Seq::<AppEvent>::empty(),
        }),
{
    let mut follow_ups: Vec<AppEvent> = Vec::new();
    if let Some(n) = player_count {
        follow_ups.push(AppEvent::Game(GameEvent::UpdateOnlinePlayers(n)));
        assert(follow_ups@ =~= seq![AppEvent::Game(GameEvent::UpdateOnlinePlayers(n))]);
    } else {
        assert(follow_ups@ =~= Seq::<AppEvent>::empty());
    }
    follow_ups
}

} // verus!
