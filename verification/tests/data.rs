use tui_client::assets::{Manifest as AssetManifest, MappingRule};
use tui_client::api::{ApiResponse, ResponseEnvelope};
use tui_client::connection::{
    after_request, connection_result, request_failed, server_address, ConnectOutcome, ConnectionTask,
    RequestOutcome, TaskInput, TaskOutput, TaskPhase, TaskReport,
};
use tui_client::data::manifest::{ItemEntry, Manifest, NpcEntry, NpcKind};
use tui_client::events::types::NetworkEvent;
use tui_client::session::Effect;
use tui_client::states::ui::{Notification, NotificationLevel};
use tui_client::states::SessionState;
use tui_client::table::Table;
use tui_client::commands::ClientRequest;

#[test]
fn manifest_names_fall_back_to_identifiers() {
    let mut m = Manifest::new();
    m.npcs.insert(
        "rat".into(),
        NpcEntry { name: "Giant Rat".into(), kind: NpcKind::Enemy, image_path: None, image_paths: None, frame_ms: None },
    );
    m.items.insert("key".into(), ItemEntry { name: "Old Key".into(), description: "".into(), image_path: None });
    assert_eq!(m.npc_name("rat"), "Giant Rat");
    assert_eq!(m.npc_name("bat"), "bat");
    assert_eq!(m.item_name("key"), "Old Key");
    assert_eq!(m.item_name("coin"), "coin");
    assert_eq!(NpcKind::default(), NpcKind::Normal);
}

#[test]
fn table_replaces_on_insert() {
    let mut t: Table<u32> = Table::new();
    t.insert("a".into(), 1);
    t.insert("b".into(), 2);
    t.insert("a".into(), 3);
    assert_eq!(t.get("a"), Some(&3));
    assert_eq!(t.get("b"), Some(&2));
    assert_eq!(t.get("c"), None);
}

fn rule(room: Option<&str>, npc: Option<&str>, image: &str) -> MappingRule {
    MappingRule { room: room.map(|s| s.to_string()), npc: npc.map(|s| s.to_string()), image: image.to_string() }
}

#[test]
fn image_selection_prefers_the_most_specific_rule() {
    let mut m = AssetManifest::new();
    m.mappings = vec![
        rule(Some("default"), None, "default.png"),
        rule(Some("hall"), None, "hall.png"),
        rule(Some("hall"), Some("rat"), "hall_rat.png"),
        rule(None, Some("rat"), "rat.png"),
    ];
    let none: Vec<String> = vec![];
    let rat: Vec<String> = vec!["rat".into()];
    assert_eq!(m.select_image("hall", &none), Some("hall.png".to_string()));
    assert_eq!(m.select_image("hall", &rat), Some("hall_rat.png".to_string()));
    assert_eq!(m.select_image("cellar", &none), Some("default.png".to_string()));
    assert_eq!(AssetManifest::new().select_image("hall", &rat), None);
    m.display_names.insert("rat".into(), "Giant Rat".into());
    assert_eq!(m.display_name("rat"), "Giant Rat");
    assert_eq!(m.display_name("bat"), "bat");
}

#[test]
fn connection_task_results() {
    assert_eq!(server_address("10.0.0.1", "7777"), "10.0.0.1:7777");
    let ev = connection_result("h".into(), "p".into(), "alice".into(), ConnectOutcome::Connected);
    assert!(matches!(ev, NetworkEvent::ConnectionEstablished { ref player_name, .. } if player_name == "alice"));
    let ev = connection_result("h".into(), "p".into(), "alice".into(), ConnectOutcome::Refused("name taken".into()));
    assert!(matches!(ev, NetworkEvent::ConnectionFailed { ref error_message } if error_message == "name taken"));
    let ev = connection_result("h".into(), "p".into(), "a".into(), ConnectOutcome::CommunicationError("Eof".into()));
    assert!(matches!(ev, NetworkEvent::ConnectionFailed { ref error_message } if error_message == "Communication error: Eof"));
    let ev = connection_result("h".into(), "p".into(), "a".into(), ConnectOutcome::TcpError("refused".into()));
    assert!(matches!(ev, NetworkEvent::ConnectionFailed { ref error_message } if error_message == "TCP error: refused"));
    assert!(matches!(request_failed("Timeout"), NetworkEvent::ConnectionLost { ref reason } if reason == "Failed to send request: Timeout"));
}

#[test]
fn session_follows_the_connection() {
    let mut s = SessionState::new(Manifest::new(), "[END]".into());
    s.ui.notify(Notification::info("Connecting...".into()).with_id("notif_connection_attempt".into()));
    s.ui.notify(Notification::info("other".into()));
    let fx = s.handle_network_event(
        NetworkEvent::ConnectionAttemptStarted { server_ip: "h".into(), server_port: "p".into(), player_name: "alice".into() },
        false,
        "10:00:00",
        "ConnectionAttemptStarted",
    );
    assert!(matches!(&fx[..], [Effect::StartConnection { player_name, .. }] if player_name == "alice"));
    let fx = s.handle_network_event(
        NetworkEvent::ConnectionEstablished { server_ip: "h".into(), server_port: "p".into(), player_name: "alice".into() },
        true,
        "10:00:01",
        "ConnectionEstablished",
    );
    assert!(matches!(
        fx[..],
        [
            Effect::Send(ClientRequest::Who),
            Effect::Send(ClientRequest::Status),
            Effect::Send(ClientRequest::Inventory),
            Effect::Send(ClientRequest::Quests),
            Effect::ShowGameView,
        ]
    ));
    assert_eq!(s.game.player.name, Some("alice".into()));
    assert_eq!(s.network.server_ip, "h");
    let messages: Vec<&str> = s.ui.notifications.iter().map(|n| n.message.as_str()).collect();
    assert_eq!(messages, vec!["other", "Connected to the server successfully!"]);
    s.ui.notify(Notification::info("Connecting again...".into()).with_id("notif_connection_attempt".into()));
    let fx = s.handle_network_event(
        NetworkEvent::ConnectionFailed { error_message: "boom".into() },
        true,
        "10:00:02",
        "ConnectionFailed { error_message: \"boom\" }",
    );
    assert!(matches!(fx[..], [Effect::StopConnection]));
    let last = s.ui.notifications.last().unwrap();
    assert_eq!(last.level, NotificationLevel::Error);
    assert_eq!(last.message, "Connection failed: boom");
    assert!(s.ui.notifications.iter().all(|n| n.id.as_deref() != Some("notif_connection_attempt")));
    assert!(s.handle_network_event(NetworkEvent::ConnectionLost { reason: "x".into() }, true, "10:00:03", "Lost").is_empty());
    assert_eq!(
        s.ui.event_history,
        vec![
            "[10:00:00] [NETWORK] ConnectionAttemptStarted",
            "[10:00:01] [NETWORK] ConnectionEstablished",
            "[10:00:02] [NETWORK] ConnectionFailed { error_message: \"boom\" }",
            "[10:00:03] [NETWORK] Lost",
        ]
    );
}

#[test]
fn event_history_keeps_its_newest_lines() {
    let mut s = SessionState::new(Manifest::new(), "[END]".into());
    for i in 0..105 {
        s.ui.push_event("10:00:00", "network", &i.to_string());
    }
    assert_eq!(s.ui.event_history.len(), 100);
    assert_eq!(s.ui.event_history[0], "[10:00:00] [NETWORK] 5");
    assert_eq!(s.ui.event_history[99], "[10:00:00] [NETWORK] 104");
}

#[test]
fn law_removed_notifications_are_gone_on_values() {
    let mut s = SessionState::new(Manifest::new(), "[END]".into());
    for text in ["a", "b", "c"] {
        s.ui.notify(Notification::info(text.into()).with_id("x".into()));
        s.ui.notify(Notification::info(text.into()));
    }
    s.ui.remove_notification("x");
    assert_eq!(s.ui.notifications.len(), 3);
    assert!(s.ui.notifications.iter().all(|n| n.id.is_none()));
}

#[test]
fn table_lists_each_key_once() {
    let mut t: Table<u32> = Table::new();
    t.insert("a".into(), 1);
    t.insert("b".into(), 2);
    t.insert("a".into(), 3);
    let keys: Vec<&str> = t.entries().iter().map(|(k, _)| k.as_str()).collect();
    assert_eq!(keys, vec!["a", "b"]);
    let entries = t.into_entries();
    assert_eq!(entries, vec![("a".to_string(), 3), ("b".to_string(), 2)]);
}

#[test]
fn login_submission() {
    let mut s = SessionState::new(Manifest::new(), "[END]".into());
    assert!(s.submit_login(" ", "h", "p").is_none());
    assert_eq!(s.ui.notifications.last().unwrap().message, "Username cannot be empty!");
    let ev = s.submit_login("alice", "h", "p");
    assert!(matches!(ev, Some(NetworkEvent::ConnectionAttemptStarted { ref server_ip, ref player_name, .. }) if server_ip == "h" && player_name == "alice"));
}

#[test]
fn connection_task_stops_after_a_failed_request() {
    let envelope = ResponseEnvelope {
        id: "r1".into(),
        original_request: ClientRequest::Who,
        response: ApiResponse::Who { player_count: 2 },
        response_text: "Who(Ok(..))".into(),
    };
    let (report, keep_going) = after_request(RequestOutcome::Answered(envelope));
    assert!(keep_going);
    assert!(matches!(report, TaskReport::Response(ref e) if e.id == "r1"));
    let (report, keep_going) = after_request(RequestOutcome::Failed("Timeout".into()));
    assert!(!keep_going);
    assert!(matches!(
        report,
        TaskReport::Network(NetworkEvent::ConnectionLost { ref reason }) if reason == "Failed to send request: Timeout"
    ));
}

#[test]
fn connection_task_reports_in_order_and_stops_after_a_failure() {
    let mut task = ConnectionTask::new();
    let out = task.step(TaskInput::Connected {
        server_ip: "h".into(),
        server_port: "p".into(),
        player_name: "alice".into(),
        outcome: ConnectOutcome::Connected,
    });
    assert!(matches!(
        &out[..],
        [TaskOutput::Report(TaskReport::Network(NetworkEvent::ConnectionEstablished { player_name, .. }))] if player_name == "alice"
    ));
    assert_eq!(task.phase, TaskPhase::Serving);
    let out = task.step(TaskInput::Request { id: "r1".into(), request: ClientRequest::Who, text: "Who".into() });
    assert!(matches!(
        &out[..],
        [TaskOutput::Report(TaskReport::RequestSent { id, text }), TaskOutput::Execute(ClientRequest::Who)]
            if id == "r1" && text == "Who"
    ));
    let envelope = ResponseEnvelope {
        id: "r1".into(),
        original_request: ClientRequest::Who,
        response: ApiResponse::Who { player_count: 1 },
        response_text: "Who".into(),
    };
    let out = task.step(TaskInput::Done(RequestOutcome::Answered(envelope)));
    assert!(matches!(&out[..], [TaskOutput::Report(TaskReport::Response(e))] if e.id == "r1"));
    assert!(!task.is_stopped());
    let out = task.step(TaskInput::Done(RequestOutcome::Failed("Broken pipe".into())));
    assert!(matches!(
        &out[..],
        [TaskOutput::Report(TaskReport::Network(NetworkEvent::ConnectionLost { reason }))] if reason == "Failed to send request: Broken pipe"
    ));
    assert!(task.is_stopped());
    let out = task.step(TaskInput::Request { id: "r2".into(), request: ClientRequest::Look, text: "Look".into() });
    assert!(out.is_empty());
}

#[test]
fn connection_task_stops_when_login_fails() {
    let mut task = ConnectionTask::new();
    let out = task.step(TaskInput::Connected {
        server_ip: "h".into(),
        server_port: "p".into(),
        player_name: "alice".into(),
        outcome: ConnectOutcome::Refused("name taken".into()),
    });
    assert!(matches!(
        &out[..],
        [TaskOutput::Report(TaskReport::Network(NetworkEvent::ConnectionFailed { error_message }))] if error_message == "name taken"
    ));
    assert!(task.is_stopped());
}
