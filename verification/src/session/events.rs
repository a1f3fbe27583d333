use super::{
    cat2, cat3, logged, notified, only_logged, only_notified, text_or, text_or_default, trace_line,
    with_trace, Effect,
};
use crate::api::events::{
    ChatData, DeathData, FightResultData, GameServerEvent, GroupEvent, KillData, RoomEvent,
    ServerEvent, SpawnData,
};
use crate::commands::ClientRequest;
use crate::states::game::{
    chat_view, chat_views, has_text, npc_view, npc_views, remove_item, remove_npc, remove_text,
    without_npc, hp_after, is_me, ChannelKind, ChatChannel, ChatMessage, GameState, GroupInfo, Npc,
    Overlays, PlayerState, RoomState, ServerInfo,
};
use crate::states::ui::{Notification, NotificationLevel, UiState};
use crate::states::{NetworkStatus, SessionState};
use crate::collections::clamp_selection;
use crate::text::{
    decimal, lemma_without_absent, same_text, to_uppercase, u32_to_text, uppercase_of, views,
    without,
};
use vstd::prelude::*;
use vstd::string::*;

verus! {

/// How long a fight round's notification stays, in milliseconds.
pub const FIGHT_NOTICE_MS: u64 = 3000;

/// The name of the player, as the event handlers compare it.
pub open spec fn me(s: SessionState) -> Seq<char> {
    text_or(s.game.player.name, "unknown"@)
}

/// A player joined the server: one more online, and a line in the log.
pub open spec fn player_joined(old: SessionState, new: SessionState, name: Seq<char>) -> bool {
    &&& new.game.server.online_players_count == old.game.server.online_players_count + 1
    &&& logged(old, new, name + " joined the server."@)
    &&& new == (SessionState {
        game: GameState { action_log: new.game.action_log, server: new.game.server, ..old.game },
        ..old
    })
}

/// Something spawned in the room.
pub open spec fn spawned(old: SessionState, new: SessionState, data: SpawnData) -> bool {
    let m = old.game.manifest;
    if data.kind@ == "NPC"@ {
        &&& npc_views(new.game.room.npcs@) == npc_views(old.game.room.npcs@).push(
            (data.id@, m.npc_display(data.id@)),
        )
        &&& new.game.room.npcs.cursor() == old.game.room.npcs.cursor()
        &&& logged(old, new, m.npc_display(data.id@) + " has respawn"@)
        &&& new == (SessionState {
            game: GameState {
                action_log: new.game.action_log,
                room: RoomState { npcs: new.game.room.npcs, ..old.game.room },
                ..old.game
            },
            ..old
        })
    } else if data.kind@ == "ITEM"@ {
        &&& views(new.game.room.items@) == views(old.game.room.items@).push(data.id@)
        &&& new.game.room.items.cursor() == old.game.room.items.cursor()
        &&& logged(old, new, m.item_display(data.id@) + " has been catapulted here"@)
        &&& new == (SessionState {
            game: GameState {
                action_log: new.game.action_log,
                room: RoomState { items: new.game.room.items, ..old.game.room },
                ..old.game
            },
            ..old
        })
    } else {
        only_notified(old, new, (NotificationLevel::Warning, "Unknown spawn event: "@ + data.kind@, None))
    }
}

/// Something left the room.
pub open spec fn despawned(old: SessionState, new: SessionState, data: SpawnData) -> bool {
    if data.kind@ == "ITEM"@ {
        &&& views(new.game.room.items@) == without(views(old.game.room.items@), data.id@)
        &&& new.game.room.items.cursor() == clamp_selection(
            old.game.room.items.cursor(),
            new.game.room.items@.len() as int,
        )
        &&& logged(old, new, old.game.manifest.item_display(data.id@) + " has despawned"@)
        &&& new == (SessionState {
            game: GameState {
                action_log: new.game.action_log,
                room: RoomState { items: new.game.room.items, ..old.game.room },
                ..old.game
            },
            ..old
        })
    } else {
        only_notified(old, new, (NotificationLevel::Warning, "Unknown despawn event: "@ + data.kind@, None))
    }
}

/// The line that tells of an NPC's defeat.
pub open spec fn kill_line(s: SessionState, data: KillData) -> Seq<char> {
    let npc = s.game.manifest.npc_display(data.npc_id@);
    if data.player@ == text_or(s.game.player.name, ""@) {
        "You have defeated "@ + npc
    } else {
        npc + " has been defeated by "@ + data.player@
    }
}

/// An NPC was defeated: it leaves the room.
pub open spec fn killed(old: SessionState, new: SessionState, data: KillData) -> bool {
    &&& logged(old, new, kill_line(old, data))
    &&& npc_views(new.game.room.npcs@) == without_npc(npc_views(old.game.room.npcs@), data.npc_id@)
    &&& new.game.room.npcs.cursor() == clamp_selection(
        old.game.room.npcs.cursor(),
        new.game.room.npcs@.len() as int,
    )
    &&& new == (SessionState {
        game: GameState {
            action_log: new.game.action_log,
            room: RoomState { npcs: new.game.room.npcs, ..old.game.room },
            ..old.game
        },
        ..old
    })
}

/// The line that tells of a death.
pub open spec fn death_line(s: SessionState, data: DeathData) -> Seq<char> {
    let mine = me(s) == data.player_name@;
    let here = text_or(s.game.room.name, "unknown"@) == data.respawn_room_id@;
    if mine && here {
        "You died and respawned here"@
    } else if mine {
        "You died and respawned in "@ + data.respawn_room_id@
    } else if here {
        data.player_name@ + " died and respawned here"@
    } else {
        data.player_name@ + " died and respawned in "@ + data.respawn_room_id@
    }
}

/// A player died: another player who comes back here joins the room, one who comes back
/// elsewhere leaves it; when it is the player, the room and status are asked for again.
pub open spec fn died(old: SessionState, new: SessionState, data: DeathData, effects: Seq<Effect>) -> bool {
    let mine = me(old) == data.player_name@;
    let here = text_or(old.game.room.name, "unknown"@) == data.respawn_room_id@;
    let before = views(old.game.room.players@);
    let p = data.player_name@;
    &&& logged(old, new, death_line(old, data))
    &&& views(new.game.room.players@) == (if mine {
        before
    } else if here {
        if before.contains(p) { before } else { before.push(p) }
    } else {
        without(before, p)
    })
    &&& new == (SessionState {
        game: GameState {
            action_log: new.game.action_log,
            room: RoomState { players: new.game.room.players, ..old.game.room },
            ..old.game
        },
        ..old
    })
    &&& effects == (if mine {
        seq![Effect::Send(ClientRequest::Look), Effect::Send(ClientRequest::Status)]
    } else {
        Seq::<Effect>::empty()
    })
}

/// The line that tells of a fight round: who (`You` for the player), `dealt` or
/// `received`, and the damage.
pub open spec fn fight_line(s: SessionState, data: FightResultData) -> Seq<char> {
    let who = if is_me(s.game.player, data.player_name@) { "You"@ } else { data.player_name@ };
    let verb = if data.success { " dealt "@ } else { " received "@ };
    who + verb + decimal(data.damage_dealt as nat) + " damage"@
}

/// A fight round ended. The player's own round records its outcome, and a lost one takes
/// the damage from the player's health (which stops at zero); every round is logged and
/// notified for a few seconds.
pub open spec fn fight_round(old: SessionState, new: SessionState, data: FightResultData) -> bool {
    let line = fight_line(old, data);
    let level = if data.success { NotificationLevel::Success } else { NotificationLevel::Error };
    &&& logged(old, new, line)
    &&& notified(old, new, (level, line, Some(FIGHT_NOTICE_MS)))
    &&& if is_me(old.game.player, data.player_name@) {
        &&& new.game.fight.success == Some(data.success)
        &&& new.game.player.hp == (if data.success {
            old.game.player.hp
        } else {
            hp_after(old.game.player.hp, data.damage_dealt)
        })
    } else {
        &&& new.game.fight == old.game.fight
        &&& new.game.player.hp == old.game.player.hp
    }
    &&& new == (SessionState {
        game: GameState {
            action_log: new.game.action_log,
            fight: new.game.fight,
            player: PlayerState { hp: new.game.player.hp, ..old.game.player },
            ..old.game
        },
        ui: UiState { notifications: new.ui.notifications, ..old.ui },
        ..old
    })
}

/// A player left the server: one fewer online (never below zero), out of the room, and
/// the group is gone when it was its leader.
pub open spec fn player_quit(old: SessionState, new: SessionState, name: Seq<char>) -> bool {
    let count = old.game.server.online_players_count;
    let led = old.game.group.leader matches Some(l) && l@ == name;
    &&& new.game.server.online_players_count == (if count == 0 { 0 } else { count - 1 })
    &&& views(new.game.room.players@) == without(views(old.game.room.players@), name)
    &&& if led {
        new.game.group.id is None && new.game.group.leader is None
    } else {
        new.game.group == old.game.group
    }
    &&& logged(old, new, name + " disconnected."@)
    &&& new == (SessionState {
        game: GameState {
            action_log: new.game.action_log,
            server: new.game.server,
            group: new.game.group,
            room: RoomState { players: new.game.room.players, ..old.game.room },
            ..old.game
        },
        ..old
    })
}

/// `new` is `old` with `message` appended to the chat log, and nothing else changed.
pub open spec fn only_chatted(
    old: SessionState,
    new: SessionState,
    message: ((ChannelKind, Seq<char>), Seq<char>, Seq<char>),
) -> bool {
    &&& chat_views(new.game.chat_log@) == chat_views(old.game.chat_log@).push(message)
    &&& new == (SessionState { game: GameState { chat_log: new.game.chat_log, ..old.game }, ..old })
}

/// `new` is `old` with only the room's players changed, to `players`, and `line` logged.
pub open spec fn players_now(
    old: SessionState,
    new: SessionState,
    players: Seq<Seq<char>>,
    line: Seq<char>,
) -> bool {
    &&& views(new.game.room.players@) == players
    &&& logged(old, new, line)
    &&& new == (SessionState {
        game: GameState {
            action_log: new.game.action_log,
            room: RoomState { players: new.game.room.players, ..old.game.room },
            ..old.game
        },
        ..old
    })
}

/// What a room event does.
pub open spec fn room_event_done(old: SessionState, new: SessionState, event: RoomEvent) -> bool {
    let players = views(old.game.room.players@);
    match event {
        RoomEvent::PresenceEnter(name) => players_now(
            old,
            new,
            if players.contains(name@) { players } else { players.push(name@) },
            name@ + " entered the room."@,
        ),
        RoomEvent::PresenceLeave(name) => players_now(
            old,
            new,
            without(players, name@),
            name@ + " left the room."@,
        ),
        RoomEvent::Chat(c) => only_chatted(
            old,
            new,
            ((ChannelKind::Room, Seq::empty()), c.sender@, c.message@),
        ),
        RoomEvent::Take(player, item) => {
            &&& views(new.game.room.items@) == without(views(old.game.room.items@), item@)
            &&& new.game.room.items.cursor() == clamp_selection(
                old.game.room.items.cursor(),
                new.game.room.items@.len() as int,
            )
            &&& logged(old, new, player@ + " took "@ + item@ + "."@)
            &&& new == (SessionState {
                game: GameState {
                    action_log: new.game.action_log,
                    room: RoomState { items: new.game.room.items, ..old.game.room },
                    ..old.game
                },
                ..old
            })
        },
        RoomEvent::Drop(player, item) => {
            &&& views(new.game.room.items@) == views(old.game.room.items@).push(item@)
            &&& new.game.room.items.cursor() == old.game.room.items.cursor()
            &&& logged(old, new, player@ + " dropped "@ + item@ + "."@)
            &&& new == (SessionState {
                game: GameState {
                    action_log: new.game.action_log,
                    room: RoomState { items: new.game.room.items, ..old.game.room },
                    ..old.game
                },
                ..old
            })
        },
    }
}

/// What a group event does.
pub open spec fn group_event_done(
    old: SessionState,
    new: SessionState,
    event: GroupEvent,
    effects: Seq<Effect>,
) -> bool {
    &&& effects == (match event {
        GroupEvent::Move(_) => seq![Effect::Send(ClientRequest::Look)],
        _ => Seq::<Effect>::empty(),
    })
    &&& match event {
        GroupEvent::Invite(leader) => only_notified(
            old,
            new,
            (NotificationLevel::Info, "You are invited to a group by "@ + leader@ + "."@, None),
        ),
        GroupEvent::Join(user) => only_logged(old, new, user@ + " joined the group."@),
        GroupEvent::Leave(user) => if old.game.group.leader matches Some(l) && l@ == uppercase_of(
            user@,
        ) {
            &&& new.game.group.id is None
            &&& new.game.group.leader is None
            &&& logged(old, new, "Leader "@ + user@ + " left. The group has been disbanded."@)
            &&& new == (SessionState {
                game: GameState {
                    action_log: new.game.action_log,
                    group: new.game.group,
                    ..old.game
                },
                ..old
            })
        } else {
            only_logged(old, new, user@ + " left the group."@)
        },
        GroupEvent::Chat(c) => only_chatted(
            old,
            new,
            ((ChannelKind::Group, Seq::empty()), c.sender@, c.message@),
        ),
        GroupEvent::Move(direction) => only_logged(old, new, "Group moved to "@ + direction@ + "."@),
    }
}

/// The requests that bring a restarted session up to date.
pub open spec fn reload_requests() -> Seq<Effect> {
    seq![
        Effect::Send(ClientRequest::Look),
        Effect::Send(ClientRequest::Who),
        Effect::Send(ClientRequest::Status),
        Effect::Send(ClientRequest::Inventory),
        Effect::Send(ClientRequest::Quests),
        Effect::Send(ClientRequest::Look),
    ]
}

/// What a change of the game server's state does.
pub open spec fn game_server_done(
    old: SessionState,
    new: SessionState,
    event: GameServerEvent,
    effects: Seq<Effect>,
) -> bool {
    match event {
        GameServerEvent::Connected => {
            &&& logged(old, new, "Game server online."@)
            &&& notified(
                old,
                new,
                (NotificationLevel::Info, "Game server is online. Session restarted."@, None),
            )
            &&& new == (SessionState {
                game: GameState { action_log: new.game.action_log, ..old.game },
                ui: UiState { notifications: new.ui.notifications, ..old.ui },
                network: NetworkStatus { is_connected: true, ..old.network },
                ..old
            })
            &&& effects == reload_requests()
        },
        GameServerEvent::Disconnected => {
            &&& logged(old, new, "Game server offline."@)
            &&& new.game.overlays.dialogue is None
            &&& new == (SessionState {
                game: GameState {
                    action_log: new.game.action_log,
                    overlays: Overlays { dialogue: new.game.overlays.dialogue, ..old.game.overlays },
                    ..old.game
                },
                network: NetworkStatus { is_connected: false, ..old.network },
                ..old
            })
            &&& effects.len() == 0
        },
    }
}

/// What the session does with a server event, and what it asks the application to do.
pub open spec fn server_event_done(
    old: SessionState,
    new: SessionState,
    event: ServerEvent,
    effects: Seq<Effect>,
) -> bool {
    match event {
        ServerEvent::Connect(name) => player_joined(old, new, name@) && effects.len() == 0,
        ServerEvent::Spawn(data) => spawned(old, new, data) && effects.len() == 0,
        ServerEvent::Despawn(data) => despawned(old, new, data) && effects.len() == 0,
        ServerEvent::Kill(data) => killed(old, new, data) && effects.len() == 0,
        ServerEvent::Death(data) => died(old, new, data, effects),
        ServerEvent::FightStart(data) => new == old && effects == seq![Effect::OpenFightView(data)],
        ServerEvent::FightResult(data) => fight_round(old, new, data) && effects.len() == 0,
        ServerEvent::FightEnd => {
            &&& new.game.fight.success is None
            &&& logged(old, new, "The fight ended."@)
            &&& new == (SessionState {
                game: GameState { action_log: new.game.action_log, fight: new.game.fight, ..old.game },
                ..old
            })
            &&& effects == seq![Effect::ShowGameView]
        },
        ServerEvent::Quit(name) => player_quit(old, new, name@) && effects.len() == 0,
        ServerEvent::Room(e) => room_event_done(old, new, e) && effects.len() == 0,
        ServerEvent::Group(e) => group_event_done(old, new, e, effects),
        ServerEvent::GlobalChat(c) => only_chatted(
            old,
            new,
            ((ChannelKind::Global, Seq::empty()), c.sender@, c.message@),
        ) && effects.len() == 0,
        ServerEvent::PrivateChat(c) => {
            &&& chat_views(new.game.chat_log@) == chat_views(old.game.chat_log@).push(
                ((ChannelKind::Private, c.sender@), c.sender@, c.message@),
            )
            &&& notified(
                old,
                new,
                (NotificationLevel::Info, "New private message from "@ + c.sender@ + "."@, None),
            )
            &&& new == (SessionState {
                game: GameState { chat_log: new.game.chat_log, ..old.game },
                ui: UiState { notifications: new.ui.notifications, ..old.ui },
                ..old
            })
            &&& effects.len() == 0
        },
        ServerEvent::Stats(count) => {
            &&& new.game.server.online_players_count == count
            &&& new == (SessionState { game: GameState { server: new.game.server, ..old.game }, ..old })
            &&& effects.len() == 0
        },
        ServerEvent::Unknown(raw) => only_notified(
            old,
            new,
            (NotificationLevel::Warning, "Unknown event: "@ + raw@, None),
        ) && effects.len() == 0,
        ServerEvent::GameServer(e) => game_server_done(old, new, e, effects),
    }
}

/// What `handle_server_event` does: the event is traced at `time` as `text`, and the rest
/// of the session changes as `server_event_done` says.
pub open spec fn event_handled(
    old: SessionState,
    new: SessionState,
    time: Seq<char>,
    text: Seq<char>,
    event: ServerEvent,
    effects: Seq<Effect>,
) -> bool {
    &&& views(new.ui.trace_log@) == views(old.ui.trace_log@).push(trace_line(time, "server"@, text))
    &&& server_event_done(with_trace(old, new.ui.trace_log), new, event, effects)
}

/// What a server event needs of the session so that handling it cannot overflow: room
/// for one more player online.
pub open spec fn server_event_fits(s: SessionState, event: ServerEvent) -> bool {
    match event {
        ServerEvent::Connect(_) => s.game.server.online_players_count < u32::MAX,
        _ => true,
    }
}

/// What `begin_fight` does: when the fight view opened, the previous fight's outcome is
/// forgotten, the overlays close and the fight is logged; else the error is shown.
pub open spec fn fight_begun(
    old: SessionState,
    new: SessionState,
    npc_id: Seq<char>,
    view: Result<(), Seq<char>>,
) -> bool {
    match view {
        Ok(_) => {
            &&& new.game.fight.success is None
            &&& new.game.overlays.dialogue is None
            &&& logged(
                old,
                new,
                "A fight started against "@ + old.game.manifest.npc_display(npc_id) + "."@,
            )
            &&& new == (SessionState {
                game: GameState {
                    action_log: new.game.action_log,
                    fight: new.game.fight,
                    overlays: Overlays { dialogue: new.game.overlays.dialogue, ..old.game.overlays },
                    ..old.game
                },
                ..old
            })
        },
        Err(error) => only_notified(old, new, (NotificationLevel::Error, error, None)),
    }
}

impl SessionState {
    fn on_player_joined(&mut self, name: String)
        requires
            old(self).game.server.online_players_count < u32::MAX,
        ensures
            player_joined(*old(self), *final(self), name@),
    {
        self.game.server.online_players_count = self.game.server.online_players_count + 1;
        self.game.log_action(cat2(name.as_str(), " joined the server."));
    }

    fn on_spawn(&mut self, data: SpawnData)
        ensures
            spawned(*old(self), *final(self), data),
    {
        if same_text(data.kind.as_str(), "NPC") {
            let npc = Npc::from_manifest(data.id.clone(), &self.game.manifest);
            let line = cat2(npc.name.as_str(), " has respawn");
            self.game.log_action(line);
            let ghost before = self.game.room.npcs@;
            let ghost seen = npc_view(npc);
            self.game.room.npcs.push(npc);
            assert(npc_views(self.game.room.npcs@) =~= npc_views(before).push(seen));
        } else if same_text(data.kind.as_str(), "ITEM") {
            let item_name = self.game.manifest.item_name(data.id.as_str());
            self.game.log_action(cat2(item_name.as_str(), " has been catapulted here"));
            let ghost before = self.game.room.items@;
            let ghost id = data.id@;
            self.game.room.items.push(data.id);
            assert(views(self.game.room.items@) =~= views(before).push(id));
        } else {
            self.notify(Notification::warning(cat2("Unknown spawn event: ", data.kind.as_str())));
        }
    }

    fn on_despawn(&mut self, data: SpawnData)
        ensures
            despawned(*old(self), *final(self), data),
    {
        if same_text(data.kind.as_str(), "ITEM") {
            let item_name = self.game.manifest.item_name(data.id.as_str());
            self.game.log_action(cat2(item_name.as_str(), " has despawned"));
            remove_item(&mut self.game.room.items, data.id.as_str());
        } else {
            self.notify(Notification::warning(cat2("Unknown despawn event: ", data.kind.as_str())));
        }
    }

    fn on_kill(&mut self, data: KillData)
        ensures
            killed(*old(self), *final(self), data),
    {
        let npc_name = self.game.manifest.npc_name(data.npc_id.as_str());
        let player_name = text_or_default(&self.game.player.name, "");
        let line = if same_text(data.player.as_str(), player_name.as_str()) {
            cat2("You have defeated ", npc_name.as_str())
        } else {
            cat3(npc_name.as_str(), " has been defeated by ", data.player.as_str())
        };
        self.game.log_action(line);
        remove_npc(&mut self.game.room.npcs, data.npc_id.as_str());
    }

    fn on_death(&mut self, data: DeathData) -> (effects: Vec<Effect>)
        ensures
            died(*old(self), *final(self), data, effects@),
    {
        let player_name = text_or_default(&self.game.player.name, "unknown");
        let room_name = text_or_default(&self.game.room.name, "unknown");
        let mine = same_text(player_name.as_str(), data.player_name.as_str());
        let here = same_text(room_name.as_str(), data.respawn_room_id.as_str());
        let line = if mine && here {
            String::from_str("You died and respawned here")
        } else if mine {
            cat2("You died and respawned in ", data.respawn_room_id.as_str())
        } else if here {
            if !has_text(&self.game.room.players, data.player_name.as_str()) {
                let ghost before = self.game.room.players@;
                self.game.room.players.push(data.player_name.clone());
                assert(views(self.game.room.players@) =~= views(before).push(data.player_name@));
            }
            cat2(data.player_name.as_str(), " died and respawned here")
        } else {
            if has_text(&self.game.room.players, data.player_name.as_str()) {
                remove_text(&mut self.game.room.players, data.player_name.as_str());
            } else {
                proof {
                    lemma_without_absent(views(self.game.room.players@), data.player_name@);
                }
            }
            cat3(data.player_name.as_str(), " died and respawned in ", data.respawn_room_id.as_str())
        };
        let mut effects: Vec<Effect> = Vec::new();
        if mine {
            effects.push(Effect::Send(ClientRequest::Look));
            effects.push(Effect::Send(ClientRequest::Status));
            assert(effects@ =~= seq![Effect::Send(ClientRequest::Look), Effect::Send(ClientRequest::Status)]);
        } else {
            assert(effects@ =~= Seq::<Effect>::empty());
        }
        self.game.log_action(line);
        effects
    }

    fn on_fight_result(&mut self, data: FightResultData)
        ensures
            fight_round(*old(self), *final(self), data),
    {
        let mine = self.game.player.is_me(data.player_name.as_str());
        if mine {
            self.game.fight.resolve(data.success);
            if !data.success {
                self.game.player.take_damage(data.damage_dealt);
            }
        }
        let who = if mine { "You" } else { data.player_name.as_str() };
        let verb = if data.success { " dealt " } else { " received " };
        let amount = u32_to_text(data.damage_dealt);
        let line = cat3(who, verb, amount.as_str()).concat(" damage");
        let note = if data.success {
            Notification::success(line.clone())
        } else {
            Notification::error(line.clone())
        };
        self.game.log_action(line);
        self.notify(note.with_duration(FIGHT_NOTICE_MS));
    }

    fn on_player_quit(&mut self, name: String)
        ensures
            player_quit(*old(self), *final(self), name@),
    {
        self.game.server.online_players_count = self.game.server.online_players_count.saturating_sub(1);
        remove_text(&mut self.game.room.players, name.as_str());
        let led = match &self.game.group.leader {
            Some(l) => same_text(l.as_str(), name.as_str()),
            None => false,
        };
        if led {
            self.game.group.id = None;
            self.game.group.leader = None;
        }
        self.game.log_action(cat2(name.as_str(), " disconnected."));
    }

    fn chat(&mut self, channel: ChatChannel, data: ChatData)
        ensures
            only_chatted(*old(self), *final(self), (channel@, data.sender@, data.message@)),
    {
        self.game.push_chat(ChatMessage { channel, sender: data.sender, content: data.message });
    }

    fn on_room_event(&mut self, event: RoomEvent)
        ensures
            room_event_done(*old(self), *final(self), event),
    {
        match event {
            RoomEvent::PresenceEnter(name) => {
                if !has_text(&self.game.room.players, name.as_str()) {
                    let ghost before = self.game.room.players@;
                    self.game.room.players.push(name.clone());
                    assert(views(self.game.room.players@) =~= views(before).push(name@));
                }
                self.game.log_action(cat2(name.as_str(), " entered the room."));
            },
            RoomEvent::PresenceLeave(name) => {
                remove_text(&mut self.game.room.players, name.as_str());
                self.game.log_action(cat2(name.as_str(), " left the room."));
            },
            RoomEvent::Chat(c) => {
                self.chat(ChatChannel::Room, c);
            },
            RoomEvent::Take(player, item) => {
                remove_item(&mut self.game.room.items, item.as_str());
                self.game.log_action(cat3(player.as_str(), " took ", item.as_str()).concat("."));
            },
            RoomEvent::Drop(player, item) => {
                let ghost before = self.game.room.items@;
                self.game.room.items.push(item.clone());
                assert(views(self.game.room.items@) =~= views(before).push(item@));
                self.game.log_action(cat3(player.as_str(), " dropped ", item.as_str()).concat("."));
            },
        }
    }

    fn on_group_event(&mut self, event: GroupEvent) -> (effects: Vec<Effect>)
        ensures
            group_event_done(*old(self), *final(self), event, effects@),
    {
        let mut effects: Vec<Effect> = Vec::new();
        match event {
            GroupEvent::Invite(leader) => {
                self.notify(Notification::info(cat3("You are invited to a group by ", leader.as_str(), ".")));
            },
            GroupEvent::Join(user) => {
                self.game.log_action(cat2(user.as_str(), " joined the group."));
            },
            GroupEvent::Leave(user) => {
                let upper = to_uppercase(user.as_str());
                let led = match &self.game.group.leader {
                    Some(l) => same_text(l.as_str(), upper.as_str()),
                    None => false,
                };
                if led {
                    self.game.group.id = None;
                    self.game.group.leader = None;
                    self.game.log_action(cat3("Leader ", user.as_str(), " left. The group has been disbanded."));
                } else {
                    self.game.log_action(cat2(user.as_str(), " left the group."));
                }
            },
            GroupEvent::Chat(c) => {
                self.chat(ChatChannel::Group, c);
            },
            GroupEvent::Move(direction) => {
                self.game.log_action(cat3("Group moved to ", direction.as_str(), "."));
                effects.push(Effect::Send(ClientRequest::Look));
            },
        }
        effects
    }

    fn on_game_server(&mut self, event: GameServerEvent) -> (effects: Vec<Effect>)
        ensures
            game_server_done(*old(self), *final(self), event, effects@),
    {
        let mut effects: Vec<Effect> = Vec::new();
        match event {
            GameServerEvent::Connected => {
                self.game.log_action(String::from_str("Game server online."));
                self.notify(Notification::info(String::from_str("Game server is online. Session restarted.")));
                self.network.is_connected = true;
                effects.push(Effect::Send(ClientRequest::Look));
                effects.push(Effect::Send(ClientRequest::Who));
                effects.push(Effect::Send(ClientRequest::Status));
                effects.push(Effect::Send(ClientRequest::Inventory));
                effects.push(Effect::Send(ClientRequest::Quests));
                effects.push(Effect::Send(ClientRequest::Look));
                assert(effects@ =~= reload_requests());
            },
            GameServerEvent::Disconnected => {
                self.game.log_action(String::from_str("Game server offline."));
                self.game.overlays.close_all();
                self.network.is_connected = false;
            },
        }
        effects
    }

    /// Handles an event pushed by the server, and says what the application must do next.
    ///
    /// The event is first traced at the time `time`, as `event_text`: the protocol
    /// client's rendering of it.
    pub fn handle_server_event(&mut self, event: ServerEvent, time: &str, event_text: &str) -> (effects: Vec<Effect>)
        requires
            server_event_fits(*old(self), event),
        ensures
            event_handled(*old(self), *final(self), time@, event_text@, event, effects@),
    {
        self.record_trace(time, "server", event_text);
        self.apply_server_event(event)
    }

    fn apply_server_event(&mut self, event: ServerEvent) -> (effects: Vec<Effect>)
        requires
            server_event_fits(*old(self), event),
        ensures
            server_event_done(*old(self), *final(self), event, effects@),
    {
        let mut effects: Vec<Effect> = Vec::new();
        match event {
            ServerEvent::Connect(name) => self.on_player_joined(name),
            ServerEvent::Spawn(data) => self.on_spawn(data),
            ServerEvent::Despawn(data) => self.on_despawn(data),
            ServerEvent::Kill(data) => self.on_kill(data),
            ServerEvent::Death(data) => {
                effects = self.on_death(data);
            },
            ServerEvent::FightStart(data) => {
                effects.push(Effect::OpenFightView(data));
                assert(effects@ =~= seq![Effect::OpenFightView(data)]);
            },
            ServerEvent::FightResult(data) => self.on_fight_result(data),
            ServerEvent::FightEnd => {
                self.game.fight.reset();
                self.game.log_action(String::from_str("The fight ended."));
                effects.push(Effect::ShowGameView);
                assert(effects@ =~= seq![Effect::ShowGameView]);
            },
            ServerEvent::Quit(name) => self.on_player_quit(name),
            ServerEvent::Room(e) => self.on_room_event(e),
            ServerEvent::Group(e) => {
                effects = self.on_group_event(e);
            },
            ServerEvent::GlobalChat(c) => self.chat(ChatChannel::Global, c),
            ServerEvent::PrivateChat(c) => {
                let sender = c.sender.clone();
                self.chat(ChatChannel::Private(c.sender.clone()), c);
                self.notify(Notification::info(cat3("New private message from ", sender.as_str(), ".")));
            },
            ServerEvent::Stats(count) => {
                self.game.server.online_players_count = count;
            },
            ServerEvent::Unknown(raw) => {
                self.notify(Notification::warning(cat2("Unknown event: ", raw.as_str())));
            },
            ServerEvent::GameServer(e) => {
                effects = self.on_game_server(e);
            },
        }
        effects
    }

    /// Reports how opening the fight view against `npc_id` went (see
    /// `Effect::OpenFightView`).
    pub fn begin_fight(&mut self, npc_id: &str, view: Result<(), String>)
        ensures
            fight_begun(
                *old(self),
                *final(self),
                npc_id@,
                match view {
                    Ok(_) => Ok(()),
                    Err(e) => Err(e@),
                },
            ),
    {
        let npc_name = self.game.manifest.npc_name(npc_id);
        match view {
            Ok(_) => {
                self.game.fight.reset();
                self.game.overlays.close_all();
                self.game.log_action(cat3("A fight started against ", npc_name.as_str(), "."));
            },
            Err(error) => {
                self.notify(Notification::error(error));
            },
        }
    }
}

} // verus!
