use tui_client::commands::dispatch::{send_result, Reply};
use tui_client::events::game::handle as handle_game_event;
use tui_client::events::net::{counted, dialed, handle as handle_net_event, logged_in, LoginOutcome, NetworkCommand};
use tui_client::events::router::route;
use tui_client::events::ui::{handle as handle_ui_event, handle_key};
use tui_client::events::{Action, AppEvent, CommandError, GameEvent, NetEvent, TerminalInput, UiEvent};
use tui_client::keys::{Key, KeyPress};
use tui_client::network::handle_server_event;
use tui_client::server_event::{ChatMessage, GroupEvent, RoomEvent, ServerEvent};
use tui_client::state::{AppState, ChatScope, NotificationType};

fn state() -> AppState {
    AppState::new("127.0.0.1".to_string(), "4000".to_string())
}

fn notice_of(a: &AppEvent) -> Option<(String, NotificationType, u32)> {
    match a {
        AppEvent::Ui(UiEvent::Notification(m, l, t)) => Some((m.clone(), *l, *t)),
        _ => None,
    }
}

fn emitted_notice(a: &Action) -> Option<(String, NotificationType, u32)> {
    match a {
        Action::Emit(e) => notice_of(e),
        _ => None,
    }
}

#[test]
fn command_errors_are_notified() {
    let fx = handle_game_event(GameEvent::CommandError(CommandError { code: Some(404), message: "no such npc".into() }));
    assert_eq!(notice_of(&fx[0]), Some(("[404] Command error: no such npc".to_string(), NotificationType::Error, 16)));
    let fx = handle_game_event(GameEvent::CommandError(CommandError { code: None, message: "bad".into() }));
    assert_eq!(notice_of(&fx[0]), Some(("Command error: bad".to_string(), NotificationType::Error, 16)));
    let fx = handle_game_event(GameEvent::UnknowCommand("dance".into()));
    assert_eq!(notice_of(&fx[0]), Some(("Unknow command: dance".to_string(), NotificationType::Error, 16)));
    assert!(handle_game_event(GameEvent::UpdateOnlinePlayers(3)).is_empty());
}

#[test]
fn connection_attempt_is_notified_and_started() {
    let mut s = state();
    let fx = handle_net_event(&mut s, NetEvent::AttemptConnect("alice".into(), "10.0.0.1".into(), "7777".into()), false);
    assert_eq!(emitted_notice(&fx[0]), Some(("Connecting to 10.0.0.1:7777...".to_string(), NotificationType::Info, 10)));
    assert!(matches!(&fx[1], Action::OpenConnection { player_name, address } if player_name == "alice" && address == "10.0.0.1:7777"));
}

#[test]
fn login_goes_through_the_link_when_there_is_one() {
    let mut s = state();
    let fx = handle_net_event(&mut s, NetEvent::ExecuteConnect("alice".into()), true);
    assert!(matches!(&fx[..], [Action::Command(NetworkCommand::ExecuteConnect(n))] if n == "alice"));
    assert!(handle_net_event(&mut s, NetEvent::ExecuteConnect("alice".into()), false).is_empty());
    let fx = handle_net_event(&mut s, NetEvent::LoginSuccess("alice".into()), true);
    assert!(matches!(fx[0], Action::ShowGame));
    assert!(matches!(&fx[1], Action::Emit(AppEvent::Game(GameEvent::PushGameOutput(l))) if l == "Welcome, alice!"));
    assert!(matches!(fx[2], Action::Command(NetworkCommand::RequestWho)));
    assert_eq!(handle_net_event(&mut s, NetEvent::LoginSuccess("alice".into()), false).len(), 2);
}

#[test]
fn link_events() {
    let mut s = state();
    let fx = handle_net_event(&mut s, NetEvent::ClientConnected, false);
    assert!(matches!(fx[0], Action::KeepLink));
    assert!(matches!(&fx[1], Action::Emit(AppEvent::Game(GameEvent::PushGameOutput(l))) if l == "TCP connection established."));
    let fx = handle_net_event(&mut s, NetEvent::ApiDisconnected, true);
    assert!(matches!(fx[0], Action::DropLink));
    assert!(matches!(fx[1], Action::ShowLogin));
    assert_eq!(emitted_notice(&fx[2]), Some(("Disconnected from server".to_string(), NotificationType::Error, 16)));
    let fx = handle_net_event(&mut s, NetEvent::NetworkError("reset".into()), true);
    assert_eq!(emitted_notice(&fx[0]), Some(("Network error: reset".to_string(), NotificationType::Error, 16)));
    let fx = handle_net_event(&mut s, NetEvent::TapError("bad frame".into()), true);
    assert_eq!(emitted_notice(&fx[0]), Some(("Tap error: bad frame".to_string(), NotificationType::Error, 16)));
}

#[test]
fn server_events_reach_the_state() {
    let mut s = state();
    let fx = handle_net_event(&mut s, NetEvent::Api(ServerEvent::Connect("bob".into())), true);
    assert!(fx.is_empty());
    assert_eq!(s.game.online_players, 1);
    assert_eq!(s.game.game_output.last().unwrap(), "-> bob connected.");
    assert_eq!(s.ui.notifications.last().unwrap().message, "bob connected");
}

#[test]
fn connection_task_replies() {
    let fx = dialed("alice".into(), Ok(()));
    assert!(matches!(fx[0], AppEvent::Network(NetEvent::ClientConnected)));
    assert!(matches!(&fx[1], AppEvent::Network(NetEvent::ExecuteConnect(n)) if n == "alice"));
    let fx = dialed("alice".into(), Err("refused".into()));
    assert!(matches!(&fx[0], AppEvent::Network(NetEvent::TapError(e)) if e == "refused"));
    assert!(matches!(fx[1], AppEvent::Network(NetEvent::ApiDisconnected)));
    let fx = logged_in("alice".into(), LoginOutcome::LoggedIn);
    assert!(matches!(&fx[..], [AppEvent::Network(NetEvent::LoginSuccess(n))] if n == "alice"));
    let fx = logged_in("alice".into(), LoginOutcome::Refused(CommandError { code: Some(1), message: "taken".into() }));
    assert!(matches!(&fx[0], AppEvent::Game(GameEvent::CommandError(e)) if e.message == "taken"));
    assert!(matches!(fx[1], AppEvent::Network(NetEvent::ApiDisconnected)));
    let fx = logged_in("alice".into(), LoginOutcome::Failed("eof".into()));
    assert!(matches!(&fx[0], AppEvent::Network(NetEvent::TapError(e)) if e == "eof"));
    assert!(matches!(&counted(Some(4))[..], [AppEvent::Game(GameEvent::UpdateOnlinePlayers(4))]));
    assert!(counted(None).is_empty());
}

#[test]
fn global_shortcuts() {
    let mut s = state();
    assert!(handle_key(&mut s, KeyPress { key: Key::Char('d'), control: true }));
    assert!(s.ui.show_debug);
    assert!(handle_key(&mut s, KeyPress { key: Key::Esc, control: false }));
    assert!(!s.ui.show_debug);
    assert!(!s.should_quit);
    assert!(handle_key(&mut s, KeyPress { key: Key::Esc, control: false }));
    assert!(s.should_quit);
    let mut s = state();
    assert!(!handle_key(&mut s, KeyPress { key: Key::Char('d'), control: false }));
    assert!(handle_key(&mut s, KeyPress { key: Key::Char('t'), control: true }));
    assert!(s.ui.show_chat);
}

#[test]
fn interface_events() {
    let mut s = state();
    let press = KeyPress { key: Key::Char('x'), control: false };
    let fx = handle_ui_event(&mut s, UiEvent::TerminalEvent(TerminalInput::Key(press)));
    assert!(matches!(fx[..], [Action::Forward(TerminalInput::Key(p))] if p == press));
    let fx = handle_ui_event(&mut s, UiEvent::TerminalEvent(TerminalInput::Key(KeyPress { key: Key::Char('h'), control: true })));
    assert!(fx.is_empty());
    assert!(s.ui.show_help);
    assert!(matches!(handle_ui_event(&mut s, UiEvent::TerminalEvent(TerminalInput::Other))[..], [Action::Forward(TerminalInput::Other)]));
    assert!(handle_ui_event(&mut s, UiEvent::Tick).is_empty());
}

#[test]
fn routing() {
    let mut s = state();
    let fx = route(&mut s, AppEvent::Ui(UiEvent::Tick), true, Some(false));
    assert!(matches!(fx[..], [Action::Emit(AppEvent::Network(NetEvent::ApiDisconnected))]));
    assert!(route(&mut s, AppEvent::Ui(UiEvent::Tick), true, Some(true)).is_empty());
    assert!(route(&mut s, AppEvent::Ui(UiEvent::Tick), true, None).is_empty());
    let fx = route(&mut s, AppEvent::Ui(UiEvent::Notification("hi".into(), NotificationType::Info, 5)), true, None);
    assert!(fx.is_empty());
    assert_eq!(s.ui.notifications.last().unwrap().message, "hi");
    route(&mut s, AppEvent::Game(GameEvent::PushGameOutput("line".into())), true, None);
    assert_eq!(s.game.game_output.last().unwrap(), "line");
    let fx = route(&mut s, AppEvent::Game(GameEvent::UnknowCommand("x".into())), true, None);
    assert_eq!(fx.len(), 2);
    assert_eq!(emitted_notice(&fx[0]), Some(("Unknow command: x".to_string(), NotificationType::Error, 16)));
    assert_eq!(emitted_notice(&fx[1]), Some(("Unknow command: x".to_string(), NotificationType::Error, 16)));
    let fx = route(&mut s, AppEvent::Network(NetEvent::ClientConnected), false, None);
    assert_eq!(fx.len(), 4);
    assert!(matches!(fx[0], Action::KeepLink));
    assert!(matches!(fx[2], Action::KeepLink));
}

#[test]
fn routing_dispatches_each_event_twice() {
    let mut s = state();
    let ctrl_d = KeyPress { key: Key::Char('d'), control: true };
    let fx = route(&mut s, AppEvent::Ui(UiEvent::TerminalEvent(TerminalInput::Key(ctrl_d))), true, None);
    assert!(fx.is_empty());
    assert!(!s.ui.show_debug);
    s.ui.show_help = true;
    let esc = KeyPress { key: Key::Esc, control: false };
    route(&mut s, AppEvent::Ui(UiEvent::TerminalEvent(TerminalInput::Key(esc))), true, None);
    assert!(!s.ui.show_help);
    assert!(s.should_quit);
    let x = KeyPress { key: Key::Char('x'), control: false };
    let fx = route(&mut s, AppEvent::Ui(UiEvent::TerminalEvent(TerminalInput::Key(x))), true, None);
    assert!(matches!(fx[..], [Action::Forward(TerminalInput::Key(a)), Action::Forward(TerminalInput::Key(b))] if a == x && b == x));
    let fx = route(&mut s, AppEvent::Network(NetEvent::ApiDisconnected), true, None);
    assert!(matches!(fx[..], [Action::DropLink, Action::ShowLogin, Action::Emit(_), Action::ShowLogin, Action::Emit(_)]));
    assert_eq!(emitted_notice(&fx[4]), Some(("Disconnected from server".to_string(), NotificationType::Error, 16)));
    let online = s.game.online_players;
    route(&mut s, AppEvent::Network(NetEvent::Api(ServerEvent::Connect("bob".into()))), true, None);
    assert_eq!(s.game.online_players, online + 2);
}

#[test]
fn older_server_events() {
    let mut s = state();
    handle_server_event(&mut s, ServerEvent::Room(RoomEvent::PresenceEnter("bob".into())));
    assert_eq!(s.game.game_output.last().unwrap(), "[Room] bob entered.");
    handle_server_event(&mut s, ServerEvent::Group(GroupEvent::Invite("carol".into())));
    assert_eq!(s.game.game_output.last().unwrap(), "[Group] carol invited you.");
    let n = s.ui.notifications.last().unwrap();
    assert_eq!((n.message.as_str(), n.lifetime), ("carol invited you to group", 20));
    handle_server_event(&mut s, ServerEvent::GlobalChat(ChatMessage { sender: "dan".into(), message: "yo".into() }));
    let c = s.game.chat_messages.last().unwrap();
    assert!(matches!(c.scope, ChatScope::Global));
    handle_server_event(&mut s, ServerEvent::Quit("bob".into()));
    assert_eq!(s.game.online_players, 0);
    handle_server_event(&mut s, ServerEvent::Stats(9));
    assert_eq!(s.game.online_players, 9);
    handle_server_event(&mut s, ServerEvent::Unknown("??".into()));
    assert_eq!(s.game.game_output.last().unwrap(), "Unknown event: ??");
}

#[test]
fn game_output_keeps_the_newest_thousand_lines() {
    let mut s = state();
    for i in 0..1005u32 {
        s.game.push_game_output(i.to_string());
    }
    assert_eq!(s.game.game_output.len(), 1000);
    assert_eq!(s.game.game_output[0], "5");
}

#[test]
fn law_connect_then_quit_keeps_online_on_values() {
    let mut s = state();
    s.game.online_players = 7;
    handle_server_event(&mut s, ServerEvent::Connect("bob".into()));
    handle_server_event(&mut s, ServerEvent::Quit("carol".into()));
    assert_eq!(s.game.online_players, 7);
}

#[test]
fn command_replies_become_events() {
    assert!(matches!(send_result(Reply::Answered("ok".into())), AppEvent::Game(GameEvent::CommandResult(t)) if t == "ok"));
    assert!(matches!(
        send_result(Reply::Refused(CommandError { code: None, message: "no".into() })),
        AppEvent::Game(GameEvent::CommandError(e)) if e.message == "no"
    ));
    assert!(matches!(send_result(Reply::Failed("eof".into())), AppEvent::Network(NetEvent::TapError(t)) if t == "eof"));
}
