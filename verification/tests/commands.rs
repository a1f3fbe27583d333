use tui_client::commands::action::{AttackCommand, MoveCommand, TakeCommand};
use tui_client::commands::chat::{ChatGlobalCommand, ChatPrivateCommand, TalkCommand};
use tui_client::commands::group::GroupJoinCommand;
use tui_client::commands::info::LookCommand;
use tui_client::commands::{handle_command, ClientRequest, CommandDispatch, CommandKind, CommandRegistry, Execution};
use tui_client::commands::dispatch::{command_call, command_reply, command_request, Answer, Outcome};
use tui_client::events::{AppEvent, CommandError, GameEvent, NetEvent};
use tui_client::state::{AppState, ChatScope};

fn args(words: &[&str]) -> Vec<String> {
    words.iter().map(|w| w.to_string()).collect()
}

#[test]
fn move_sends_the_direction_in_upper_case() {
    assert_eq!(MoveCommand.name(), "move");
    assert!(matches!(MoveCommand.request(&args(&["north"])), Some(ClientRequest::Move(d)) if d == "NORTH"));
    assert!(MoveCommand.request(&args(&[])).is_none());
}

#[test]
fn commands_build_their_requests() {
    assert!(matches!(TakeCommand.request(&args(&["coin", "extra"])), Some(ClientRequest::Take(i)) if i == "coin"));
    assert!(matches!(AttackCommand.request(&args(&["rat"])), Some(ClientRequest::Attack(n)) if n == "rat"));
    assert!(matches!(ChatGlobalCommand.request(&args(&["hello", "all"])), Some(ClientRequest::ChatGlobal(m)) if m == "hello all"));
    assert!(matches!(
        ChatPrivateCommand.request(&args(&["bob", "see", "you"])),
        Some(ClientRequest::ChatPrivate { to, message }) if to == "bob" && message == "see you"
    ));
    assert!(ChatPrivateCommand.request(&args(&["bob"])).is_none());
    assert!(matches!(TalkCommand.request(&args(&["old", "man"])), Some(ClientRequest::Talk(n)) if n == "old man"));
    assert!(matches!(GroupJoinCommand.request(&args(&["bob"])), Some(ClientRequest::GroupJoin(l)) if l == "bob"));
    assert!(matches!(LookCommand.request(&args(&["anything"])), Some(ClientRequest::Look)));
}

#[test]
fn registry_resolves_names() {
    let registry = CommandRegistry::new();
    assert_eq!(registry.find("who"), Some(CommandKind::Who));
    assert_eq!(registry.find("dance"), None);
    assert!(matches!(registry.execute("dance", &args(&[])), Execution::Unknown));
    assert!(matches!(registry.execute("take", &args(&[])), Execution::Ignored));
    assert!(matches!(registry.execute("move", &args(&["west"])), Execution::Send(ClientRequest::Move(d)) if d == "WEST"));
}

#[test]
fn command_lines() {
    let mut s = AppState::new("h".into(), "p".into());
    assert!(matches!(handle_command(&mut s, "   ".into(), true), CommandDispatch::Ignored));
    assert!(s.game.game_output.is_empty());
    let r = handle_command(&mut s, "say  hi there".into(), true);
    assert!(matches!(&r, CommandDispatch::Run { name, args } if name == "say" && args == &vec!["hi".to_string(), "there".to_string()]));
    assert_eq!(s.game.game_output.last().unwrap(), "> say  hi there");
    assert!(matches!(handle_command(&mut s, "look".into(), false), CommandDispatch::NotConnected));
    assert_eq!(s.game.game_output.last().unwrap(), "Not connected.");
    assert!(matches!(handle_command(&mut s, "quit".into(), false), CommandDispatch::Quit));
    assert!(s.should_quit);
}

#[test]
fn typed_commands_need_their_exact_arguments() {
    assert!(matches!(command_request("take", &args(&["coin"])), Some(ClientRequest::Take(i)) if i == "coin"));
    assert!(command_request("take", &args(&["coin", "gem"])).is_none());
    assert!(matches!(command_request("move", &args(&["east"])), Some(ClientRequest::Move(d)) if d == "EAST"));
    assert!(command_request("group_join", &args(&[])).is_none());
    assert!(matches!(command_request("quest", &args(&["find", "key"])), Some(ClientRequest::Quest(q)) if q == "find key"));
    assert!(matches!(command_request("chat_global", &args(&[])), Some(ClientRequest::ChatGlobal(m)) if m.is_empty()));
    assert!(command_request("chat_private", &args(&["bob"])).is_none());
    assert!(command_request("dance", &args(&[])).is_none());
}

#[test]
fn command_replies() {
    let look = Outcome::Answered {
        answer: Answer::Room { room_id: "r1".into(), room_display_name: "Hall".into(), npcs: args(&["rat"]) },
        description: "LookResponse".into(),
    };
    let events = command_reply(&ClientRequest::Look, look);
    assert!(matches!(&events[0], AppEvent::Game(GameEvent::UpdateRoomContext { room_id, .. }) if room_id == "r1"));
    assert!(matches!(&events[1], AppEvent::Game(GameEvent::CommandResult(t)) if t == "LookResponse"));
    let events = command_reply(
        &ClientRequest::ChatPrivate { to: "bob".into(), message: "hi".into() },
        Outcome::Answered { answer: Answer::Plain, description: "ok".into() },
    );
    assert!(matches!(&events[..], [AppEvent::Game(GameEvent::LocalChatSent(ChatScope::Private, m))] if m == "to bob: hi"));
    let events = command_reply(&ClientRequest::GroupLeave, Outcome::Answered { answer: Answer::Plain, description: "left".into() });
    assert!(matches!(events[0], AppEvent::Game(GameEvent::UpdateGroup(None))));
    let events = command_reply(&ClientRequest::Take("coin".into()), Outcome::Answered { answer: Answer::Plain, description: "taken".into() });
    assert!(matches!(&events[..], [AppEvent::Game(GameEvent::CommandResult(t))] if t == "taken"));
    let events = command_reply(&ClientRequest::Who, Outcome::Refused(CommandError { code: Some(5), message: "no".into() }));
    assert!(matches!(&events[..], [AppEvent::Game(GameEvent::CommandError(e))] if e.message == "no"));
    let events = command_reply(&ClientRequest::Who, Outcome::Failed("eof".into()));
    assert!(matches!(&events[..], [AppEvent::Network(NetEvent::TapError(t))] if t == "eof"));
}

#[test]
fn unknown_or_ill_formed_commands_are_reported_by_name() {
    assert!(matches!(
        command_call("dance", &args(&["wildly"])),
        Err(AppEvent::Game(GameEvent::UnknowCommand(n))) if n == "dance"
    ));
    assert!(matches!(
        command_call("move", &args(&[])),
        Err(AppEvent::Game(GameEvent::UnknowCommand(n))) if n == "move"
    ));
    assert!(matches!(
        command_call("chat_private", &args(&["bob"])),
        Err(AppEvent::Game(GameEvent::UnknowCommand(n))) if n == "chat_private"
    ));
    assert!(matches!(command_call("move", &args(&["east"])), Ok(ClientRequest::Move(d)) if d == "EAST"));
}
