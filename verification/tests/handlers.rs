use tui_client::components::login::LoginField;
use tui_client::handlers::game::{handle_key as game_key, ActionFocus, GameKeyAction, GameScreen};
use tui_client::handlers::login::{dial_result, handle_key as login_key, DialEvent, LoginKeyAction, LoginScreen};
use tui_client::keys::Key;
use tui_client::state::ConnectionState;

fn screen(field: LoginField) -> LoginScreen {
    LoginScreen {
        login_field: field,
        state: ConnectionState::Disconnected,
        server_ip: String::new(),
        server_port: String::new(),
    }
}

#[test]
fn login_tab_reaches_the_button_only_when_disconnected() {
    let mut s = screen(LoginField::Port);
    login_key(&mut s, Key::Tab, "", "", "");
    assert_eq!(s.login_field, LoginField::Button);
    login_key(&mut s, Key::BackTab, "", "", "");
    assert_eq!(s.login_field, LoginField::Port);
    s.state = ConnectionState::Connecting;
    login_key(&mut s, Key::Tab, "", "", "");
    assert_eq!(s.login_field, LoginField::Username);
    login_key(&mut s, Key::BackTab, "", "", "");
    assert_eq!(s.login_field, LoginField::Port);
}

#[test]
fn login_enter_dials_with_complete_fields() {
    let mut s = screen(LoginField::Button);
    assert!(matches!(login_key(&mut s, Key::Enter, "alice", "", "80"), LoginKeyAction::Nothing));
    assert!(matches!(s.state, ConnectionState::Disconnected));
    let a = login_key(&mut s, Key::Enter, "alice", "1.2.3.4", "80");
    assert!(matches!(&a, LoginKeyAction::Dial { username, address } if username == "alice" && address == "1.2.3.4:80"));
    assert!(matches!(s.state, ConnectionState::Connecting));
    assert_eq!((s.server_ip.as_str(), s.server_port.as_str()), ("1.2.3.4", "80"));
    assert!(matches!(login_key(&mut s, Key::Char('x'), "", "", ""), LoginKeyAction::Nothing));
    let mut s = screen(LoginField::Address);
    assert!(matches!(login_key(&mut s, Key::Char('x'), "", "", ""), LoginKeyAction::Edit(LoginField::Address)));
}

#[test]
fn dialing_results() {
    assert!(matches!(&dial_result("alice".into(), true)[..], [DialEvent::ClientConnected, DialEvent::ExecuteConnect(n)] if n == "alice"));
    assert!(matches!(dial_result("alice".into(), false)[..], [DialEvent::ApiDisconnected]));
}

#[test]
fn game_screen_keys() {
    let mut s = GameScreen { game_focus: ActionFocus::Input, selected_action: 0, game_scroll_offset: 0 };
    game_key(&mut s, Key::Up, 3, false);
    assert_eq!(s.game_scroll_offset, 1);
    game_key(&mut s, Key::Down, 3, false);
    game_key(&mut s, Key::Down, 3, false);
    assert_eq!(s.game_scroll_offset, 0);
    assert_eq!(game_key(&mut s, Key::Enter, 3, true), GameKeyAction::SubmitInput { run: false });
    assert_eq!(game_key(&mut s, Key::Enter, 3, false), GameKeyAction::SubmitInput { run: true });
    assert_eq!(game_key(&mut s, Key::Char('x'), 3, false), GameKeyAction::Edit);
    game_key(&mut s, Key::Tab, 3, false);
    assert_eq!(s.game_focus, ActionFocus::Actions);
    for _ in 0..5 {
        game_key(&mut s, Key::Down, 3, false);
    }
    assert_eq!(s.selected_action, 2);
    game_key(&mut s, Key::Up, 3, false);
    assert_eq!(s.selected_action, 1);
    assert_eq!(game_key(&mut s, Key::Enter, 3, false), GameKeyAction::ExecuteAction);
    assert_eq!(game_key(&mut s, Key::Char('x'), 3, false), GameKeyAction::Nothing);
}
