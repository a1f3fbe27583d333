use tui_client::assets::Manifest as AssetManifest;
use tui_client::components::game::context_menu::ContextMenuComponent;
use tui_client::components::game::input::InputComponent;
use tui_client::components::game::logs::LogsComponent;
use tui_client::components::game::scene::SceneComponent;
use tui_client::components::game::{GameAction, GameComponent, GameFocus, LogKey};
use tui_client::components::layout::{bottom_line, compass, events_scroll, menu_area, overlay_area, Area};
use tui_client::components::login::{connect_label, LoginAction, LoginComponent, LoginField};
use tui_client::components::view::{entities_line, header_text, menu_entries, scene_room, scene_title};
use tui_client::commands::CommandDispatch;
use tui_client::events::types::NetworkEvent;
use tui_client::keys::{Key, KeyPress};
use tui_client::state::{AppState, ConnectionState};

fn fresh_state() -> AppState {
    AppState::new("127.0.0.1".to_string(), "4000".to_string())
}

fn key(k: Key) -> KeyPress {
    KeyPress { key: k, control: false }
}

#[test]
fn context_menu_offers_talk_and_attack() {
    assert_eq!(ContextMenuComponent.get_available_actions("rat"), vec!["Talk", "Attack"]);
}

#[test]
fn tab_cycles_focus_and_selects_first_entity() {
    let mut s = fresh_state();
    s.game.npcs_in_room = vec!["rat".into()];
    let mut c = GameComponent::new();
    assert!(matches!(c.handle_event(&mut s, key(Key::Tab), "", true), GameAction::Nothing));
    assert_eq!(c.focus, GameFocus::Scene);
    assert_eq!(c.selected_entity_idx, Some(0));
    c.handle_event(&mut s, key(Key::Tab), "", true);
    assert_eq!(c.focus, GameFocus::SystemLogs);
    assert!(matches!(c.handle_event(&mut s, key(Key::Left), "", true), GameAction::Logger(LogKey::Left)));
    c.handle_event(&mut s, key(Key::Tab), "", true);
    assert_eq!(c.focus, GameFocus::Input);
}

#[test]
fn scene_keys_move_and_open_the_menu() {
    let mut s = fresh_state();
    s.game.npcs_in_room = vec!["Rat".into(), "Goblin".into()];
    let mut c = GameComponent::new();
    c.handle_event(&mut s, key(Key::Tab), "", true);
    let r = c.handle_event(&mut s, key(Key::Char('n')), "", true);
    assert!(matches!(&r, GameAction::Command(CommandDispatch::Run { name, args }) if name == "move" && args == &vec!["north".to_string()]));
    assert_eq!(s.game.game_output.last().unwrap(), "> move north");
    c.handle_event(&mut s, key(Key::PageDown), "", true);
    assert_eq!(c.selected_entity_idx, Some(1));
    c.handle_event(&mut s, key(Key::PageDown), "", true);
    assert_eq!(c.selected_entity_idx, Some(1));
    c.handle_event(&mut s, key(Key::Enter), "", true);
    assert!(c.context_menu_open);
    c.handle_event(&mut s, key(Key::Down), "", true);
    assert_eq!(c.context_menu_idx, 1);
    let r = c.handle_event(&mut s, key(Key::Enter), "", true);
    assert!(!c.context_menu_open);
    assert!(matches!(&r, GameAction::Command(CommandDispatch::Run { name, args }) if name == "attack" && args == &vec!["goblin".to_string()]));
}

#[test]
fn input_keys_scroll_and_submit() {
    let mut s = fresh_state();
    let mut c = GameComponent::new();
    c.handle_event(&mut s, key(Key::Up), "", true);
    assert_eq!(s.ui.game_scroll_offset, 1);
    c.handle_event(&mut s, key(Key::Down), "", true);
    c.handle_event(&mut s, key(Key::Down), "", true);
    assert_eq!(s.ui.game_scroll_offset, 0);
    assert!(matches!(c.handle_event(&mut s, key(Key::Char('a')), "", true), GameAction::EditInput));
    assert!(matches!(c.handle_event(&mut s, key(Key::Enter), "   ", true), GameAction::SubmitInput(CommandDispatch::Ignored)));
    assert!(matches!(c.handle_event(&mut s, key(Key::Enter), "look", false), GameAction::SubmitInput(CommandDispatch::NotConnected)));
    assert_eq!(s.game.game_output.last().unwrap(), "Not connected.");
}

#[test]
fn login_form_moves_and_submits() {
    let mut form = LoginComponent::new();
    assert_eq!(form.login_field, LoginField::Username);
    assert_eq!(form.handle_event(key(Key::Char('a'))), LoginAction::Edit(LoginField::Username));
    form.handle_event(key(Key::BackTab));
    assert_eq!(form.login_field, LoginField::Button);
    assert_eq!(form.handle_event(key(Key::Enter)), LoginAction::Submit);
    let mut s = fresh_state();
    assert!(form.submit(&mut s, "  ", "1.2.3.4", "80").is_none());
    assert_eq!(s.ui.notifications.last().unwrap().message, "Username cannot be empty!");
    let ev = form.submit(&mut s, "alice", "1.2.3.4", "80");
    assert!(matches!(ev, Some(NetworkEvent::ConnectionAttemptStarted { ref player_name, .. }) if player_name == "alice"));
    assert!(matches!(s.net.connection_state, ConnectionState::Connecting));
    assert_eq!(connect_label(&s), " CONNECTING... ");
    s.net.connection_state = ConnectionState::Disconnected;
    assert_eq!(connect_label(&s), " CONNECT ");
}

#[test]
fn scene_layout() {
    let inner = Area { x: 10, y: 5, width: 40, height: 20 };
    let c = compass(inner);
    assert_eq!(c.north, Area { x: 27, y: 5, width: 7, height: 1 });
    assert_eq!(c.south, Area { x: 27, y: 24, width: 7, height: 1 });
    assert_eq!(c.east, Area { x: 44, y: 15, width: 6, height: 1 });
    assert_eq!(c.west, Area { x: 10, y: 15, width: 6, height: 1 });
    let tiny = compass(Area { x: 0, y: 0, width: 2, height: 0 });
    assert_eq!(tiny.north.x, 0);
    assert_eq!(tiny.south.y, 0);
    assert_eq!(bottom_line(inner), Area { x: 10, y: 24, width: 40, height: 1 });
    assert_eq!(menu_area(inner, 2), Area { x: 12, y: 7, width: 15, height: 4 });
}

#[test]
fn event_log_scroll() {
    assert_eq!(events_scroll(50, 10, 0), 42);
    assert_eq!(events_scroll(50, 10, 5), 37);
    assert_eq!(events_scroll(50, 10, 100), 0);
    assert_eq!(events_scroll(3, 10, 0), 0);
    assert_eq!(events_scroll(65536 + 20, 10, 0), 12);
}

#[test]
fn overlay_is_four_fifths_and_centred() {
    assert_eq!(overlay_area(Area { x: 0, y: 0, width: 100, height: 50 }), Area { x: 10, y: 5, width: 80, height: 40 });
    assert_eq!(overlay_area(Area { x: 0, y: 0, width: 1000, height: 10 }).width, 655);
}

#[test]
fn header_and_titles() {
    let mut s = fresh_state();
    s.net.connection_state = ConnectionState::Connected("alice".into());
    s.game.group_name = Some("g1".into());
    s.game.online_players = 3;
    assert_eq!(
        header_text(&s, 125),
        " Time: 02:05 | Player: alice | Group: g1 | HP: 100/100 | Online: 3 "
    );
    let fresh = fresh_state();
    assert_eq!(header_text(&fresh, 0), " Time: 00:00 | Player: Unknown | Group: None | HP: 100/100 | Online: 0 ");
    assert_eq!(scene_title(&fresh), " Scene: Unknown Location ");
    assert_eq!(scene_room(&fresh), "default");
    s.game.current_room_name = "Hall".into();
    s.game.current_room = "hall".into();
    assert_eq!(scene_title(&s), " Scene: Hall ");
    assert_eq!(scene_room(&s), "hall");
}

#[test]
fn entity_line_and_menu_entries() {
    let mut assets = AssetManifest::new();
    assets.display_names.insert("rat".into(), "Giant Rat".into());
    let npcs: Vec<String> = vec!["rat".into(), "bat".into()];
    assert_eq!(entities_line(&assets, &npcs, Some(1)), " Entities: Giant Rat  [bat] ");
    assert_eq!(entities_line(&assets, &npcs, None), " Entities: Giant Rat  bat ");
    assert_eq!(menu_entries(&vec!["Talk", "Attack"], 0), vec!["> Talk", "  Attack"]);
}

#[test]
fn scene_component_keys() {
    let mut s = fresh_state();
    s.game.npcs_in_room = vec!["Rat".into(), "Bat".into()];
    let mut view = GameComponent::new();
    let r = SceneComponent.handle_event(&mut view, &mut s, Key::Left, true);
    assert!(matches!(&r, GameAction::Command(CommandDispatch::Run { name, args }) if name == "move" && args == &vec!["west".to_string()]));
    assert_eq!(view.focus, GameFocus::Input);
    SceneComponent.handle_event(&mut view, &mut s, Key::PageDown, true);
    assert_eq!(view.selected_entity_idx, Some(1));
    SceneComponent.handle_event(&mut view, &mut s, Key::Enter, true);
    assert!(view.context_menu_open);
    assert_eq!(view.context_menu_idx, 0);
    assert!(matches!(SceneComponent.handle_event(&mut view, &mut s, Key::Tab, true), GameAction::Nothing));
}

#[test]
fn context_menu_component_keys() {
    let mut s = fresh_state();
    s.game.npcs_in_room = vec!["Old_Man".into()];
    let mut view = GameComponent::new();
    ContextMenuComponent.handle_event(&mut view, &mut s, Key::Down, true);
    assert_eq!(view.context_menu_idx, 1);
    assert!(!view.context_menu_open);
    ContextMenuComponent.handle_event(&mut view, &mut s, Key::Up, true);
    assert_eq!(view.context_menu_idx, 0);
    view.context_menu_open = true;
    let r = ContextMenuComponent.handle_event(&mut view, &mut s, Key::Enter, true);
    assert!(matches!(&r, GameAction::Command(CommandDispatch::Run { name, args }) if name == "talk" && args == &vec!["old_man".to_string()]));
    assert!(!view.context_menu_open);
    view.context_menu_open = true;
    ContextMenuComponent.handle_event(&mut view, &mut s, Key::Esc, true);
    assert!(!view.context_menu_open);
}

#[test]
fn input_and_logs_components() {
    let mut s = fresh_state();
    let view = GameComponent::new();
    InputComponent.handle_event(&view, &mut s, Key::Up, "", true);
    assert_eq!(s.ui.game_scroll_offset, 1);
    assert!(matches!(InputComponent.handle_event(&view, &mut s, Key::Tab, "", true), GameAction::EditInput));
    let r = InputComponent.handle_event(&view, &mut s, Key::Enter, "who", true);
    assert!(matches!(&r, GameAction::SubmitInput(CommandDispatch::Run { name, .. }) if name == "who"));
    assert!(matches!(LogsComponent.handle_event(Key::Right), GameAction::Logger(LogKey::Right)));
    assert!(matches!(LogsComponent.handle_event(Key::Enter), GameAction::Nothing));
}

#[test]
fn session_header_shows_time_player_group_health_and_count() {
    let mut s = tui_client::states::SessionState::new(tui_client::data::manifest::Manifest::new(), "[END]".into());
    assert_eq!(
        tui_client::components::view::session_header(&s, 0),
        " Time: 00:00 | Player: Unknown | Group: None | HP: 100/100 | Online: 0 "
    );
    s.game.player.name = Some("alice".into());
    s.game.group.id = Some("g1".into());
    s.game.player.hp = 42;
    s.game.server.online_players_count = 3;
    assert_eq!(
        tui_client::components::view::session_header(&s, 125),
        " Time: 02:05 | Player: alice | Group: g1 | HP: 42/100 | Online: 3 "
    );
}

#[test]
fn session_scene_title_names_the_room_or_the_fight() {
    let mut s = tui_client::states::SessionState::new(tui_client::data::manifest::Manifest::new(), "[END]".into());
    assert_eq!(tui_client::components::view::session_scene_title(&s, false), " Scene: Unknown Location ");
    s.game.room.name = Some("Hall".into());
    assert_eq!(tui_client::components::view::session_scene_title(&s, false), " Scene: Hall ");
    assert_eq!(tui_client::components::view::session_scene_title(&s, true), " Fight ");
}
