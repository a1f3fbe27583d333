use tui_client::api::events::{
    ChatData, DeathData, FightResultData, FightStartData, GameServerEvent, GroupEvent, KillData,
    RoomEvent, ServerEvent, SpawnData,
};
use tui_client::api::{ApiResponse, CombatResult, LookResponse, ResponseEnvelope, RoomInfo};
use tui_client::commands::{ClientRequest, CommandRegistry};
use tui_client::data::manifest::{ItemEntry, Manifest, NpcEntry, NpcKind};
use tui_client::session::Effect;
use tui_client::states::game::{ChatChannel, Npc};
use tui_client::states::ui::NotificationLevel;
use tui_client::states::SessionState;

const TAG: &str = "[END]";

fn manifest() -> Manifest {
    let mut m = Manifest::new();
    m.npcs.insert(
        "goblin_king".to_string(),
        NpcEntry {
            name: "Goblin King".to_string(),
            kind: NpcKind::Enemy,
            image_path: None,
            image_paths: None,
            frame_ms: None,
        },
    );
    m.items.insert(
        "old_key".to_string(),
        ItemEntry { name: "Old Key".to_string(), description: "Rusty.".to_string(), image_path: None },
    );
    m
}

fn session() -> SessionState {
    let mut s = SessionState::new(manifest(), TAG.to_string());
    s.game.player.name = Some("alice".to_string());
    s
}

fn last_log(s: &SessionState) -> &str {
    s.game.action_log.last().map(|l| l.as_str()).unwrap_or("")
}

fn respond(s: &mut SessionState, request: ClientRequest, response: ApiResponse) -> Vec<Effect> {
    let envelope = ResponseEnvelope {
        id: "req-1".into(),
        original_request: request,
        response,
        response_text: "Response".into(),
    };
    s.handle_api_response(envelope, "12:00:00.000")
}

fn event(s: &mut SessionState, e: ServerEvent) -> Vec<Effect> {
    s.handle_server_event(e, "12:00:00.000", "Event")
}

fn npc_ids(s: &SessionState) -> Vec<String> {
    s.game.room.npcs.as_slice().iter().map(|n: &Npc| n.id.clone()).collect()
}

// ---- server events ----

#[test]
fn player_joining_the_server_is_counted_and_logged() {
    let mut s = session();
    let fx = event(&mut s, ServerEvent::Connect("bob".into()));
    assert!(fx.is_empty());
    assert_eq!(s.game.server.online_players_count, 1);
    assert_eq!(last_log(&s), "bob joined the server.");
}

#[test]
fn npc_spawn_uses_manifest_name() {
    let mut s = session();
    event(&mut s, ServerEvent::Spawn(SpawnData { kind: "NPC".into(), id: "goblin_king".into() }));
    assert_eq!(last_log(&s), "Goblin King has respawn");
    assert_eq!(s.game.room.npcs.as_slice()[0].name, "Goblin King");
    event(&mut s, ServerEvent::Spawn(SpawnData { kind: "NPC".into(), id: "rat".into() }));
    assert_eq!(last_log(&s), "rat has respawn");
    assert_eq!(npc_ids(&s), vec!["goblin_king", "rat"]);
}

#[test]
fn item_spawn_and_unknown_spawn() {
    let mut s = session();
    event(&mut s, ServerEvent::Spawn(SpawnData { kind: "ITEM".into(), id: "old_key".into() }));
    assert_eq!(last_log(&s), "Old Key has been catapulted here");
    assert_eq!(s.game.room.items.as_slice(), &["old_key".to_string()]);
    event(&mut s, ServerEvent::Spawn(SpawnData { kind: "TREE".into(), id: "oak".into() }));
    let note = s.ui.notifications.last().unwrap();
    assert_eq!(note.level, NotificationLevel::Warning);
    assert_eq!(note.message, "Unknown spawn event: TREE");
    assert_eq!(s.game.action_log.len(), 1);
}

#[test]
fn despawn_removes_every_copy_of_the_item() {
    let mut s = session();
    s.game.room.items.set_items(vec!["old_key".into(), "coin".into(), "old_key".into()]);
    event(&mut s, ServerEvent::Despawn(SpawnData { kind: "ITEM".into(), id: "old_key".into() }));
    assert_eq!(s.game.room.items.as_slice(), &["coin".to_string()]);
    assert_eq!(last_log(&s), "Old Key has despawned");
    event(&mut s, ServerEvent::Despawn(SpawnData { kind: "NPC".into(), id: "x".into() }));
    assert_eq!(s.ui.notifications.last().unwrap().message, "Unknown despawn event: NPC");
}

#[test]
fn kill_messages_depend_on_who_killed() {
    let mut s = session();
    event(&mut s, ServerEvent::Spawn(SpawnData { kind: "NPC".into(), id: "goblin_king".into() }));
    event(&mut s, ServerEvent::Kill(KillData { player: "alice".into(), npc_id: "goblin_king".into() }));
    assert_eq!(last_log(&s), "You have defeated Goblin King");
    assert!(npc_ids(&s).is_empty());
    event(&mut s, ServerEvent::Kill(KillData { player: "bob".into(), npc_id: "rat".into() }));
    assert_eq!(last_log(&s), "rat has been defeated by bob");
}

#[test]
fn kill_without_a_name_compares_to_the_empty_name() {
    let mut s = SessionState::new(manifest(), TAG.to_string());
    event(&mut s, ServerEvent::Kill(KillData { player: "".into(), npc_id: "rat".into() }));
    assert_eq!(last_log(&s), "You have defeated rat");
}

#[test]
fn deaths_of_the_player_ask_for_the_room_again() {
    let mut s = session();
    s.game.room.name = Some("Hall".into());
    let fx = event(&mut s, ServerEvent::Death(DeathData {
        player_name: "alice".into(),
        respawn_room_id: "Hall".into(),
    }));
    assert_eq!(last_log(&s), "You died and respawned here");
    assert_eq!(fx.len(), 2);
    assert!(matches!(fx[0], Effect::Send(ClientRequest::Look)));
    assert!(matches!(fx[1], Effect::Send(ClientRequest::Status)));
    event(&mut s, ServerEvent::Death(DeathData { player_name: "alice".into(), respawn_room_id: "Crypt".into() }));
    assert_eq!(last_log(&s), "You died and respawned in Crypt");
}

#[test]
fn deaths_of_others_move_them_in_or_out() {
    let mut s = session();
    s.game.room.name = Some("Hall".into());
    let fx = event(&mut s, ServerEvent::Death(DeathData { player_name: "bob".into(), respawn_room_id: "Hall".into() }));
    assert!(fx.is_empty());
    assert_eq!(last_log(&s), "bob died and respawned here");
    assert_eq!(s.game.room.players, vec!["bob"]);
    event(&mut s, ServerEvent::Death(DeathData { player_name: "bob".into(), respawn_room_id: "Hall".into() }));
    assert_eq!(s.game.room.players, vec!["bob"]);
    event(&mut s, ServerEvent::Death(DeathData { player_name: "bob".into(), respawn_room_id: "Crypt".into() }));
    assert_eq!(last_log(&s), "bob died and respawned in Crypt");
    assert!(s.game.room.players.is_empty());
}

#[test]
fn fight_start_asks_for_the_fight_view() {
    let mut s = session();
    let fx = event(&mut s, ServerEvent::FightStart(FightStartData { npc_id: "goblin_king".into() }));
    assert_eq!(fx.len(), 1);
    assert!(matches!(&fx[0], Effect::OpenFightView(d) if d.npc_id == "goblin_king"));
    assert!(s.game.action_log.is_empty());
}

#[test]
fn beginning_a_fight_or_failing_to() {
    let mut s = session();
    s.game.fight.success = Some(true);
    s.begin_fight("goblin_king", Ok(()));
    assert_eq!(s.game.fight.success, None);
    assert_eq!(last_log(&s), "A fight started against Goblin King.");
    s.begin_fight("goblin_king", Err("no editor".into()));
    let note = s.ui.notifications.last().unwrap();
    assert_eq!(note.level, NotificationLevel::Error);
    assert_eq!(note.message, "no editor");
}

#[test]
fn fight_rounds_of_the_player_take_health_when_lost() {
    let mut s = session();
    s.game.player.hp = 30;
    event(&mut s, ServerEvent::FightResult(FightResultData { player_name: "alice".into(), success: true, damage_dealt: 4 }));
    assert_eq!(s.game.player.hp, 30);
    assert_eq!(s.game.fight.success, Some(true));
    assert_eq!(last_log(&s), "You dealt 4 damage");
    let note = s.ui.notifications.last().unwrap();
    assert_eq!(note.level, NotificationLevel::Success);
    assert_eq!(note.message, "You dealt 4 damage");
    assert_eq!(note.duration_ms, Some(3000));
    event(&mut s, ServerEvent::FightResult(FightResultData { player_name: "alice".into(), success: false, damage_dealt: 6 }));
    assert_eq!(s.game.player.hp, 24);
    assert_eq!(s.game.fight.success, Some(false));
    assert_eq!(last_log(&s), "You received 6 damage");
    let note = s.ui.notifications.last().unwrap();
    assert_eq!(note.level, NotificationLevel::Error);
    assert_eq!(note.duration_ms, Some(3000));
}

#[test]
fn fight_damage_stops_at_zero_health() {
    let mut s = session();
    s.game.player.hp = 5;
    event(&mut s, ServerEvent::FightResult(FightResultData { player_name: "alice".into(), success: false, damage_dealt: 9 }));
    assert_eq!(s.game.player.hp, 0);
    assert_eq!(last_log(&s), "You received 9 damage");
}

#[test]
fn fight_rounds_without_a_name_are_someone_elses() {
    let mut s = SessionState::new(manifest(), TAG.to_string());
    s.game.player.hp = 30;
    event(&mut s, ServerEvent::FightResult(FightResultData { player_name: "unknown".into(), success: false, damage_dealt: 3 }));
    assert_eq!(s.game.player.hp, 30);
    assert_eq!(s.game.fight.success, None);
    assert_eq!(last_log(&s), "unknown received 3 damage");
}

#[test]
fn fight_rounds_of_others_leave_the_player_alone() {
    let mut s = session();
    s.game.player.hp = 30;
    event(&mut s, ServerEvent::FightResult(FightResultData { player_name: "bob".into(), success: true, damage_dealt: 12 }));
    assert_eq!(s.game.player.hp, 30);
    assert_eq!(s.game.fight.success, None);
    assert_eq!(last_log(&s), "bob dealt 12 damage");
    event(&mut s, ServerEvent::FightResult(FightResultData { player_name: "bob".into(), success: false, damage_dealt: 1 }));
    assert_eq!(s.game.player.hp, 30);
    assert_eq!(last_log(&s), "bob received 1 damage");
}

#[test]
fn fight_end_goes_back_to_the_game() {
    let mut s = session();
    s.game.fight.success = Some(false);
    let fx = event(&mut s, ServerEvent::FightEnd);
    assert!(matches!(fx[..], [Effect::ShowGameView]));
    assert_eq!(s.game.fight.success, None);
    assert_eq!(last_log(&s), "The fight ended.");
}

#[test]
fn quitting_players_leave_and_disband_their_group() {
    let mut s = session();
    s.game.room.players = vec!["bob".into(), "carol".into()];
    s.game.group.id = Some("g1".into());
    s.game.group.leader = Some("bob".into());
    event(&mut s, ServerEvent::Quit("bob".into()));
    assert_eq!(s.game.server.online_players_count, 0);
    assert_eq!(s.game.room.players, vec!["carol"]);
    assert_eq!(s.game.group.id, None);
    assert_eq!(s.game.group.leader, None);
    assert_eq!(last_log(&s), "bob disconnected.");
}

#[test]
fn room_presence_and_floor() {
    let mut s = session();
    event(&mut s, ServerEvent::Room(RoomEvent::PresenceEnter("bob".into())));
    event(&mut s, ServerEvent::Room(RoomEvent::PresenceEnter("bob".into())));
    assert_eq!(s.game.room.players, vec!["bob"]);
    assert_eq!(last_log(&s), "bob entered the room.");
    event(&mut s, ServerEvent::Room(RoomEvent::Drop("bob".into(), "coin".into())));
    assert_eq!(last_log(&s), "bob dropped coin.");
    assert_eq!(s.game.room.items.as_slice(), &["coin".to_string()]);
    event(&mut s, ServerEvent::Room(RoomEvent::Take("bob".into(), "coin".into())));
    assert_eq!(last_log(&s), "bob took coin.");
    assert!(s.game.room.items.is_empty());
    event(&mut s, ServerEvent::Room(RoomEvent::PresenceLeave("bob".into())));
    assert_eq!(last_log(&s), "bob left the room.");
    assert!(s.game.room.players.is_empty());
}

#[test]
fn chats_are_recorded_by_channel() {
    let mut s = session();
    event(&mut s, ServerEvent::Room(RoomEvent::Chat(ChatData { sender: "bob".into(), message: "hi".into() })));
    event(&mut s, ServerEvent::Group(GroupEvent::Chat(ChatData { sender: "carol".into(), message: "go".into() })));
    event(&mut s, ServerEvent::GlobalChat(ChatData { sender: "dan".into(), message: "yo".into() }));
    event(&mut s, ServerEvent::PrivateChat(ChatData { sender: "eve".into(), message: "psst".into() }));
    let log = &s.game.chat_log;
    assert_eq!(log.len(), 4);
    assert!(matches!(log[0].channel, ChatChannel::Room));
    assert!(matches!(log[1].channel, ChatChannel::Group));
    assert!(matches!(log[2].channel, ChatChannel::Global));
    assert!(matches!(&log[3].channel, ChatChannel::Private(p) if p == "eve"));
    assert_eq!(log[3].content, "psst");
    let note = s.ui.notifications.last().unwrap();
    assert_eq!(note.message, "New private message from eve.");
    assert_eq!(note.level, NotificationLevel::Info);
}

#[test]
fn group_events() {
    let mut s = session();
    event(&mut s, ServerEvent::Group(GroupEvent::Invite("bob".into())));
    assert_eq!(s.ui.notifications.last().unwrap().message, "You are invited to a group by bob.");
    event(&mut s, ServerEvent::Group(GroupEvent::Join("carol".into())));
    assert_eq!(last_log(&s), "carol joined the group.");
    s.game.group.id = Some("g1".into());
    s.game.group.leader = Some("BOB".into());
    event(&mut s, ServerEvent::Group(GroupEvent::Leave("carol".into())));
    assert_eq!(last_log(&s), "carol left the group.");
    assert_eq!(s.game.group.id, Some("g1".into()));
    event(&mut s, ServerEvent::Group(GroupEvent::Leave("bob".into())));
    assert_eq!(last_log(&s), "Leader bob left. The group has been disbanded.");
    assert_eq!(s.game.group.id, None);
    let fx = event(&mut s, ServerEvent::Group(GroupEvent::Move("north".into())));
    assert_eq!(last_log(&s), "Group moved to north.");
    assert!(matches!(fx[..], [Effect::Send(ClientRequest::Look)]));
}

#[test]
fn stats_unknown_and_game_server() {
    let mut s = session();
    event(&mut s, ServerEvent::Stats(17));
    assert_eq!(s.game.server.online_players_count, 17);
    event(&mut s, ServerEvent::Unknown("EVT WEIRD".into()));
    assert_eq!(s.ui.notifications.last().unwrap().message, "Unknown event: EVT WEIRD");
    let fx = event(&mut s, ServerEvent::GameServer(GameServerEvent::Connected));
    assert!(s.network.is_connected);
    assert_eq!(last_log(&s), "Game server online.");
    assert_eq!(s.ui.notifications.last().unwrap().message, "Game server is online. Session restarted.");
    assert!(matches!(
        fx[..],
        [
            Effect::Send(ClientRequest::Look),
            Effect::Send(ClientRequest::Who),
            Effect::Send(ClientRequest::Status),
            Effect::Send(ClientRequest::Inventory),
            Effect::Send(ClientRequest::Quests),
            Effect::Send(ClientRequest::Look),
        ]
    ));
    event(&mut s, ServerEvent::GameServer(GameServerEvent::Disconnected));
    assert!(!s.network.is_connected);
    assert!(s.game.overlays.dialogue.is_none());
    assert_eq!(last_log(&s), "Game server offline.");
}

// ---- responses ----

#[test]
fn failed_response_only_warns() {
    let mut s = session();
    let fx = respond(&mut s, ClientRequest::Look, ApiResponse::Failed("room is dark".into()));
    assert!(fx.is_empty());
    assert!(s.game.action_log.is_empty());
    let note = s.ui.notifications.last().unwrap();
    assert_eq!(note.level, NotificationLevel::Warning);
    assert_eq!(note.message, "room is dark");
    assert_eq!(s.ui.trace_log, vec!["[12:00:00.000] [API RESPONSE] [ERROR] req-1 - room is dark"]);
}

#[test]
fn answered_responses_are_traced_with_their_rendering() {
    let mut s = session();
    respond(&mut s, ClientRequest::Who, ApiResponse::Who { player_count: 2 });
    assert_eq!(s.ui.trace_log, vec!["[12:00:00.000] [API RESPONSE] req-1 - Response"]);
}

#[test]
fn server_events_are_traced_before_they_are_handled() {
    let mut s = session();
    s.handle_server_event(ServerEvent::Stats(4), "09:30:01.250", "Stats(4)");
    assert_eq!(s.game.server.online_players_count, 4);
    assert_eq!(s.ui.trace_log, vec!["[09:30:01.250] [SERVER] Stats(4)"]);
}

#[test]
fn trace_lines_put_the_title_in_capitals() {
    let mut s = session();
    s.record_trace("10:00:00.000", "api request", "req-9 - Look");
    assert_eq!(s.ui.trace_log, vec!["[10:00:00.000] [API REQUEST] req-9 - Look"]);
    assert!(s.game.action_log.is_empty());
    assert!(s.ui.notifications.is_empty());
}

#[test]
fn simple_responses() {
    let mut s = SessionState::new(manifest(), TAG.to_string());
    respond(&mut s, ClientRequest::Look, ApiResponse::Connect { player_name: "alice".into() });
    assert_eq!(s.game.player.name, Some("alice".into()));
    respond(&mut s, ClientRequest::Who, ApiResponse::Who { player_count: 3 });
    assert_eq!(s.game.server.online_players_count, 3);
    assert_eq!(last_log(&s), "You checked who is here.");
    respond(&mut s, ClientRequest::Status, ApiResponse::Status { hp: 7, max_hp: 9 });
    assert_eq!((s.game.player.hp, s.game.player.max_hp), (7, 9));
    assert_eq!(last_log(&s), "You checked your state.");
    let before = s.game.action_log.len();
    respond(&mut s, ClientRequest::Look, ApiResponse::FightCreate);
    respond(&mut s, ClientRequest::Look, ApiResponse::FightAttack);
    assert_eq!(s.game.action_log.len(), before);
    respond(&mut s, ClientRequest::Look, ApiResponse::Quit);
    assert!(s.should_quit);
}

#[test]
fn group_responses() {
    let mut s = session();
    respond(&mut s, ClientRequest::GroupCreate, ApiResponse::GroupCreate { group_id: "g7".into() });
    assert_eq!(s.game.group.id, Some("g7".into()));
    assert_eq!(s.game.group.leader, Some("alice".into()));
    assert_eq!(last_log(&s), "You created group g7.");
    respond(&mut s, ClientRequest::GroupLeave, ApiResponse::GroupLeave);
    assert_eq!(s.game.group.id, None);
    assert_eq!(last_log(&s), "You left the group.");
    respond(&mut s, ClientRequest::GroupJoin("bob".into()), ApiResponse::GroupJoin { group_id: "g8".into() });
    assert_eq!(s.game.group.id, Some("g8".into()));
    assert_eq!(s.game.group.leader, Some("BOB".into()));
    assert_eq!(last_log(&s), "You joined the group of bob.");
    respond(&mut s, ClientRequest::GroupInvite("carol".into()), ApiResponse::GroupInvite);
    let n = s.ui.trace_log.len();
    assert_eq!(s.ui.trace_log[n - 2], "[12:00:00.000] [API RESPONSE] req-1 - Response");
    assert_eq!(
        s.ui.trace_log[n - 1],
        "Missing handle response for command: GroupInvite -- Response: GroupInvite"
    );
}

#[test]
fn join_response_for_another_request_changes_nothing() {
    let mut s = session();
    respond(&mut s, ClientRequest::Look, ApiResponse::GroupJoin { group_id: "g8".into() });
    assert_eq!(s.game.group.id, None);
    assert!(s.game.action_log.is_empty());
}

#[test]
fn sent_chats_are_recorded() {
    let mut s = session();
    respond(&mut s, ClientRequest::ChatGlobal("hello all".into()), ApiResponse::GlobalChat);
    respond(
        &mut s,
        ClientRequest::ChatPrivate { to: "bob".into(), message: "hi bob".into() },
        ApiResponse::PrivateChat,
    );
    assert_eq!(s.game.chat_log[0].sender, "You");
    assert_eq!(s.game.chat_log[0].content, "hello all");
    assert_eq!(s.game.chat_log[1].sender, "(You) to bob");
    assert!(matches!(&s.game.chat_log[1].channel, ChatChannel::Private(p) if p == "bob"));
}

#[test]
fn look_replaces_the_room_without_the_player() {
    let mut s = session();
    let res = LookResponse {
        room: RoomInfo {
            id: "r1".into(),
            name: "Hall".into(),
            description: "A big hall.".into(),
            exits: vec!["north".into()],
        },
        players: vec!["ALICE".into(), "bob".into()],
        npcs: vec!["goblin_king".into(), "rat".into()],
        items: vec!["old_key".into()],
    };
    let fx = respond(&mut s, ClientRequest::Look, ApiResponse::Look(res));
    assert!(fx.is_empty());
    assert_eq!(last_log(&s), "You looked at Hall.");
    assert_eq!(s.game.room.id, Some("r1".into()));
    assert_eq!(s.game.room.name, Some("Hall".into()));
    assert_eq!(s.game.room.description, Some("A big hall.".into()));
    assert_eq!(s.game.room.players, vec!["bob"]);
    let names: Vec<&str> = s.game.room.npcs.as_slice().iter().map(|n| n.name.as_str()).collect();
    assert_eq!(names, vec!["Goblin King", "rat"]);
    assert_eq!(s.game.room.items.as_slice(), &["old_key".to_string()]);
    assert_eq!(s.game.room.exits, vec!["north"]);
}

#[test]
fn look_without_a_name_filters_unknown() {
    let mut s = SessionState::new(manifest(), TAG.to_string());
    let res = LookResponse {
        room: RoomInfo { id: "r".into(), name: "R".into(), description: "".into(), exits: vec![] },
        players: vec!["Unknown".into(), "bob".into()],
        npcs: vec![],
        items: vec![],
    };
    respond(&mut s, ClientRequest::Look, ApiResponse::Look(res));
    assert_eq!(s.game.room.players, vec!["bob"]);
}

#[test]
fn move_forgets_the_inspected_entity_and_looks() {
    let mut s = session();
    s.game.overlays.inspected_entity = Some("rat".into());
    let fx = respond(&mut s, ClientRequest::Move("NORTH".into()), ApiResponse::Move);
    assert_eq!(s.game.overlays.inspected_entity, None);
    assert_eq!(last_log(&s), "You moved NORTH.");
    assert!(matches!(fx[..], [Effect::Send(ClientRequest::Look)]));
}

#[test]
fn inventory_and_quests() {
    let mut s = session();
    respond(&mut s, ClientRequest::Inventory, ApiResponse::Inventory(vec!["coin".into()]));
    assert_eq!(s.game.player.inventory.as_slice(), &["coin".to_string()]);
    assert_eq!(last_log(&s), "You checked your inventory.");
    respond(&mut s, ClientRequest::Quests, ApiResponse::Quests(vec!["q1".into()]));
    assert_eq!(last_log(&s), "You checked your quests.");
    respond(&mut s, ClientRequest::Quest("q2".into()), ApiResponse::Quest("q2".into()));
    assert_eq!(s.game.player.quests.as_slice(), &["q1".to_string(), "q2".to_string()]);
}

#[test]
fn talking_opens_and_fills_the_dialogue() {
    let mut s = session();
    respond(&mut s, ClientRequest::Talk("goblin_king".into()), ApiResponse::Talk { dialogue: "Hello.".into() });
    assert_eq!(s.game.overlays.inspected_entity, Some("goblin_king".into()));
    let n = s.game.action_log.len();
    assert_eq!(s.game.action_log[n - 2], "You talked to Goblin King.");
    assert_eq!(s.game.action_log[n - 1], "[Goblin King] says: \"Hello.\"");
    let d = s.game.overlays.dialogue.as_ref().unwrap();
    assert_eq!(d.npc_name, "Goblin King");
    assert_eq!(d.lines, vec!["Hello."]);
    assert!(!d.ended);
    respond(&mut s, ClientRequest::Talk("goblin_king".into()), ApiResponse::Talk { dialogue: " Bye. [END] ".into() });
    assert_eq!(last_log(&s), "[Goblin King] says: \"Bye.\"");
    assert_eq!(s.game.action_log.len(), n + 1);
    let d = s.game.overlays.dialogue.as_ref().unwrap();
    assert_eq!(d.lines, vec!["Hello.", "Bye."]);
    assert!(d.ended);
    respond(&mut s, ClientRequest::Talk("goblin_king".into()), ApiResponse::Talk { dialogue: "[END]".into() });
    assert!(s.game.overlays.dialogue.is_none());
    assert_eq!(s.game.action_log.len(), n + 1);
}

#[test]
fn talking_when_nothing_is_left_to_say() {
    let mut s = session();
    respond(&mut s, ClientRequest::Talk("rat".into()), ApiResponse::Talk { dialogue: "[END] ...".into() });
    assert_eq!(last_log(&s), "You talked to rat.");
    let d = s.game.overlays.dialogue.as_ref().unwrap();
    assert_eq!(d.lines, vec!["**nothing**"]);
    assert!(d.ended);
}

#[test]
fn attack_response_reports_the_round() {
    let mut s = session();
    let fx = respond(
        &mut s,
        ClientRequest::Attack("goblin_king".into()),
        ApiResponse::Attack(CombatResult { damage: 5, attacker_hp: 20, target_hp: 3 }),
    );
    assert!(fx.is_empty());
    assert_eq!(s.game.player.hp, 20);
    let text = "Combat with Goblin King: You dealt 5 damage. (Your HP: 20 | Target HP: 3) ";
    let n = s.game.action_log.len();
    assert_eq!(s.game.action_log[n - 2], "You attacked Goblin King.");
    assert_eq!(s.game.action_log[n - 1], text);
    let d = s.game.overlays.dialogue.as_ref().unwrap();
    assert_eq!(d.lines, vec![text]);
    assert!(d.ended);
    assert_eq!(s.game.overlays.inspected_entity, Some("goblin_king".into()));
}

// ---- laws on concrete values ----

#[test]
fn law_take_then_drop_on_values() {
    let mut s = session();
    s.game.room.items.set_items(vec!["coin".into(), "old_key".into()]);
    s.game.player.inventory.set_items(vec!["map".into()]);
    respond(&mut s, ClientRequest::Take("coin".into()), ApiResponse::Take { item_identifier: "coin".into() });
    assert_eq!(last_log(&s), "You took coin.");
    assert_eq!(s.game.player.inventory.as_slice(), &["map".to_string(), "coin".to_string()]);
    respond(&mut s, ClientRequest::Drop("coin".into()), ApiResponse::Drop { item_identifier: "coin".into() });
    assert_eq!(last_log(&s), "You dropped coin.");
    assert_eq!(s.game.player.inventory.as_slice(), &["map".to_string()]);
    assert_eq!(s.game.room.items.as_slice(), &["old_key".to_string(), "coin".to_string()]);
}

#[test]
fn law_join_then_quit_on_values() {
    let mut s = session();
    s.game.server.online_players_count = 5;
    event(&mut s, ServerEvent::Connect("bob".into()));
    event(&mut s, ServerEvent::Quit("carol".into()));
    assert_eq!(s.game.server.online_players_count, 5);
}

#[test]
fn law_enter_then_leave_on_values() {
    let mut s = session();
    s.game.room.players = vec!["carol".into()];
    event(&mut s, ServerEvent::Room(RoomEvent::PresenceEnter("bob".into())));
    event(&mut s, ServerEvent::Room(RoomEvent::PresenceLeave("bob".into())));
    assert_eq!(s.game.room.players, vec!["carol"]);
}

#[test]
fn law_spawn_then_despawn_on_values() {
    let mut s = session();
    s.game.room.items.set_items(vec!["coin".into()]);
    event(&mut s, ServerEvent::Spawn(SpawnData { kind: "ITEM".into(), id: "gem".into() }));
    event(&mut s, ServerEvent::Despawn(SpawnData { kind: "ITEM".into(), id: "gem".into() }));
    assert_eq!(s.game.room.items.as_slice(), &["coin".to_string()]);
}

#[test]
fn law_room_players_stay_distinct_on_values() {
    let mut s = session();
    s.game.room.name = Some("Hall".into());
    for name in ["bob", "carol", "bob"] {
        event(&mut s, ServerEvent::Room(RoomEvent::PresenceEnter(name.into())));
        event(&mut s, ServerEvent::Death(DeathData { player_name: name.into(), respawn_room_id: "Hall".into() }));
    }
    assert_eq!(s.game.room.players, vec!["bob", "carol"]);
}

#[test]
fn law_defeated_npc_leaves_room_on_values() {
    let mut s = session();
    for id in ["rat", "goblin_king", "rat"] {
        event(&mut s, ServerEvent::Spawn(SpawnData { kind: "NPC".into(), id: id.into() }));
    }
    event(&mut s, ServerEvent::Kill(KillData { player: "bob".into(), npc_id: "rat".into() }));
    assert_eq!(npc_ids(&s), vec!["goblin_king"]);
}

#[test]
fn typed_command_lines() {
    let registry = CommandRegistry::new();
    let mut s = session();
    let r = s.handle_raw_command(&registry, "move  north".into(), "08:00:00");
    assert!(matches!(r, Some(ClientRequest::Move(ref d)) if d == "NORTH"));
    assert!(s.ui.notifications.is_empty());
    assert!(s.handle_raw_command(&registry, "take".into(), "08:00:01").is_none());
    assert_eq!(s.ui.notifications.last().unwrap().message, "Unknown or invalid command: take");
    assert!(s.handle_raw_command(&registry, "dance wildly".into(), "08:00:02").is_none());
    assert_eq!(s.ui.notifications.last().unwrap().message, "Unknown or invalid command: dance wildly");
    assert!(s.handle_raw_command(&registry, "  ".into(), "08:00:03").is_none());
    assert_eq!(s.ui.notifications.last().unwrap().level, NotificationLevel::Warning);
    assert_eq!(
        s.ui.event_history,
        vec![
            "[08:00:00] [USER INPUT] move  north",
            "[08:00:01] [USER INPUT] Unknown or invalid command: take",
            "[08:00:02] [USER INPUT] Unknown or invalid command: dance wildly",
            "[08:00:03] [USER INPUT] Unknown or invalid command:   ",
        ]
    );
}
