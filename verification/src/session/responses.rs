use super::{
    cat2, cat3, logged, only_logged, only_notified, text_or, text_or_default, trace_line, with_trace,
    Effect,
};
use crate::api::{ApiResponse, CombatResult, LookResponse, ResponseEnvelope};
use crate::collections::clamp_selection;
use crate::commands::ClientRequest;
use crate::data::manifest::Manifest;
use crate::states::game::{
    chat_views, npc_view, npc_views, remove_item, ChannelKind, ChatChannel, ChatMessage, DialogueState,
    GameState, GroupInfo, Npc, Overlay, OverlayKind, Overlays, PlayerState, RoomState,
    ServerInfo,
};
use crate::states::ui::{Notification, NotificationLevel, UiState};
use crate::states::SessionState;
use crate::text::{
    contains_text, contains_str, decimal, eq_ignore_ascii_case, occurs_at, replace_all,
    replace_str, same_ignoring_ascii_case, starts_with_str, to_uppercase, trim_str, trimmed,
    u32_to_text, uppercase_of, views, without,
};
use vstd::prelude::*;
use vstd::string::*;

verus! {

/// `players` without those whose name is `me`, ASCII letters compared without case.
pub open spec fn others(players: Seq<Seq<char>>, me: Seq<char>) -> Seq<Seq<char>>
    decreases players.len(),
{
    if players.len() == 0 {
        players
    } else if same_ignoring_ascii_case(players.last(), me) {
        others(players.drop_last(), me)
    } else {
        others(players.drop_last(), me).push(players.last())
    }
}

/// The NPCs named by `ids`, each with the name that the manifest displays.
pub open spec fn npcs_of(ids: Seq<Seq<char>>, manifest: Manifest) -> Seq<(Seq<char>, Seq<char>)> {
    ids.map_values(|id: Seq<char>| (id, manifest.npc_display(id)))
}

/// The name under which a request is traced.
pub open spec fn request_label(request: ClientRequest) -> Seq<char> {
    match request {
        ClientRequest::Look => "Look"@,
        ClientRequest::Who => "Who"@,
        ClientRequest::Inventory => "Inventory"@,
        ClientRequest::Status => "Status"@,
        ClientRequest::Quests => "Quests"@,
        ClientRequest::Take(_) => "Take"@,
        ClientRequest::Drop(_) => "Drop"@,
        ClientRequest::Move(_) => "Move"@,
        ClientRequest::Attack(_) => "Attack"@,
        ClientRequest::Quest(_) => "Quest"@,
        ClientRequest::ChatGlobal(_) => "GlobalChat"@,
        ClientRequest::ChatPrivate { .. } => "PrivateChat"@,
        ClientRequest::Talk(_) => "Talk"@,
        ClientRequest::GroupCreate => "GroupCreate"@,
        ClientRequest::GroupInvite(_) => "GroupInvite"@,
        ClientRequest::GroupJoin(_) => "GroupJoin"@,
        ClientRequest::GroupLeave => "GroupLeave"@,
    }
}

/// The player's name as a look response is filtered by it.
pub open spec fn looker(s: SessionState) -> Seq<char> {
    text_or(s.game.player.name, "unknown"@)
}

/// A look response: the room is replaced by the one described, without the player.
pub open spec fn looked(old: SessionState, new: SessionState, res: LookResponse) -> bool {
    let room = new.game.room;
    &&& logged(old, new, "You looked at "@ + res.room.name@ + "."@)
    &&& room.id == Some(res.room.id)
    &&& room.name == Some(res.room.name)
    &&& room.description == Some(res.room.description)
    &&& views(room.players@) == others(views(res.players@), looker(old))
    &&& npc_views(room.npcs@) == npcs_of(views(res.npcs@), old.game.manifest)
    &&& room.npcs.cursor() == clamp_selection(old.game.room.npcs.cursor(), room.npcs@.len() as int)
    &&& room.items@ == res.items@
    &&& room.items.cursor() == clamp_selection(old.game.room.items.cursor(), room.items@.len() as int)
    &&& room.exits == res.room.exits
    &&& new == (SessionState {
        game: GameState { action_log: new.game.action_log, room: new.game.room, ..old.game },
        ..old
    })
}

/// The text of a dialogue line once its end marker is handled.
pub open spec fn dialogue_text(text: Seq<char>, tag: Seq<char>) -> Seq<char> {
    if occurs_at(text, tag, 0) {
        "**nothing**"@
    } else if contains_text(text, tag) {
        trimmed(replace_all(text, tag, ""@))
    } else {
        text
    }
}

/// A talk response from the NPC `npc`.
///
/// A line that is only the end marker closes an open dialogue and does nothing more;
/// else the NPC becomes the inspected entity, the talk is logged, and the line (with the
/// marker removed and trimmed, or `**nothing**` when it was only the marker) goes to the
/// dialogue, which is opened when it is not.
pub open spec fn talked(old: SessionState, new: SessionState, npc: String, dialogue: Seq<char>) -> bool {
    let tag = old.game.dialogue_end_tag@;
    let ends = contains_text(dialogue, tag);
    let only = ends && occurs_at(dialogue, tag, 0);
    let open = old.game.overlays.dialogue is Some;
    let display = old.game.manifest.npc_display(npc@);
    let text = dialogue_text(dialogue, tag);
    if only && open {
        &&& new.game.overlays.dialogue is None
        &&& new == (SessionState {
            game: GameState {
                overlays: Overlays { dialogue: new.game.overlays.dialogue, ..old.game.overlays },
                ..old.game
            },
            ..old
        })
    } else {
        let lines = (if open { Seq::empty() } else { seq!["You talked to "@ + display + "."@] })
            + (if only { Seq::empty() } else {
                seq!["["@ + display + "] says: \""@ + text + "\""@]
            });
        &&& new.game.overlays.inspected_entity == Some(npc)
        &&& views(new.game.action_log@) == views(old.game.action_log@) + lines
        &&& new.game.overlays.dialogue matches Some(d) && d.ended == ends && if open {
            &&& old.game.overlays.dialogue matches Some(o) && d.npc_id == o.npc_id && d.npc_name
                == o.npc_name && views(d.lines@) == views(o.lines@).push(text)
        } else {
            &&& d.npc_id@ == npc@
            &&& d.npc_name@ == display
            &&& views(d.lines@) == seq![text]
        }
        &&& new == (SessionState {
            game: GameState {
                action_log: new.game.action_log,
                overlays: new.game.overlays,
                ..old.game
            },
            ..old
        })
    }
}

/// The line that reports an attack on an NPC.
pub open spec fn combat_line(npc_name: Seq<char>, res: CombatResult) -> Seq<char> {
    "Combat with "@ + npc_name + ": You dealt "@ + decimal(res.damage as nat) + " damage. (Your HP: "@
        + decimal(res.attacker_hp as nat) + " | Target HP: "@ + decimal(res.target_hp as nat)
        + ") "@
}

/// An attack response on the NPC `npc`: the player's health is the attacker's, and the
/// combat line is logged and shown in a closed dialogue.
pub open spec fn attacked(old: SessionState, new: SessionState, npc: String, res: CombatResult) -> bool {
    let display = old.game.manifest.npc_display(npc@);
    let line = combat_line(display, res);
    &&& new.game.overlays.inspected_entity == Some(npc)
    &&& views(new.game.action_log@) == views(old.game.action_log@).push(
        "You attacked "@ + display + "."@,
    ).push(line)
    &&& new.game.player.hp == res.attacker_hp
    &&& new.game.overlays.dialogue matches Some(d) && d.npc_id@ == npc@ && d.npc_name@ == display
        && views(d.lines@) == seq![line] && d.ended
    &&& new == (SessionState {
        game: GameState {
            action_log: new.game.action_log,
            overlays: new.game.overlays,
            player: PlayerState { hp: new.game.player.hp, ..old.game.player },
            ..old.game
        },
        ..old
    })
}

/// The text under which a response is traced: a failed one as `[ERROR]`, the request's
/// identifier and the error; any other as the identifier and the response as printed.
pub open spec fn response_trace(envelope: ResponseEnvelope) -> Seq<char> {
    match envelope.response {
        ApiResponse::Failed(error) => "[ERROR] "@ + envelope.id@ + " - "@ + error@,
        _ => envelope.id@ + " - "@ + envelope.response_text@,
    }
}

/// The lines traced after a response that the session has no handling for.
pub open spec fn missing_lines(envelope: ResponseEnvelope) -> Seq<Seq<char>> {
    match envelope.response {
        ApiResponse::GroupInvite => seq![
            "Missing handle response for command: "@ + request_label(envelope.original_request)
                + " -- Response: GroupInvite"@,
        ],
        _ => Seq::empty(),
    }
}

/// What `handle_api_response` does: the response is traced at `time` (and, when the
/// session has no handling for it, traced as missing), and the rest of the session
/// changes as `api_response_done` says.
pub open spec fn response_handled(
    old: SessionState,
    new: SessionState,
    time: Seq<char>,
    envelope: ResponseEnvelope,
    effects: Seq<Effect>,
) -> bool {
    &&& views(new.ui.trace_log@) == views(old.ui.trace_log@).push(
        trace_line(time, "api response"@, response_trace(envelope)),
    ) + missing_lines(envelope)
    &&& api_response_done(
        with_trace(old, new.ui.trace_log),
        new,
        envelope.original_request,
        envelope.response,
        effects,
    )
}

/// What the session does with the response to `request`, and what it asks the
/// application to do.
pub open spec fn api_response_done(
    old: SessionState,
    new: SessionState,
    request: ClientRequest,
    response: ApiResponse,
    effects: Seq<Effect>,
) -> bool {
    &&& effects == (match response {
        ApiResponse::Move => seq![Effect::Send(ClientRequest::Look)],
        _ => Seq::<Effect>::empty(),
    })
    &&& match response {
        ApiResponse::Failed(error) => only_notified(
            old,
            new,
            (NotificationLevel::Warning, error@, None),
        ),
        ApiResponse::Connect { player_name } => new == (SessionState {
            game: GameState {
                player: PlayerState { name: Some(player_name), ..old.game.player },
                ..old.game
            },
            ..old
        }),
        ApiResponse::Who { player_count } => {
            &&& logged(old, new, "You checked who is here."@)
            &&& new == (SessionState {
                game: GameState {
                    action_log: new.game.action_log,
                    server: ServerInfo { online_players_count: player_count },
                    ..old.game
                },
                ..old
            })
        },
        ApiResponse::FightCreate => new == old,
        ApiResponse::FightAttack => new == old,
        ApiResponse::Status { hp, max_hp } => {
            &&& logged(old, new, "You checked your state."@)
            &&& new == (SessionState {
                game: GameState {
                    action_log: new.game.action_log,
                    player: PlayerState { hp, max_hp, ..old.game.player },
                    ..old.game
                },
                ..old
            })
        },
        ApiResponse::GroupCreate { group_id } => {
            &&& logged(old, new, "You created group "@ + group_id@ + "."@)
            &&& new == (SessionState {
                game: GameState {
                    action_log: new.game.action_log,
                    group: GroupInfo { id: Some(group_id), leader: old.game.player.name },
                    ..old.game
                },
                ..old
            })
        },
        ApiResponse::GroupJoin { group_id } => match request {
            ClientRequest::GroupJoin(leader) => {
                &&& new.game.group.id == Some(group_id)
                &&& new.game.group.leader matches Some(l) && l@ == uppercase_of(leader@)
                &&& logged(old, new, "You joined the group of "@ + leader@ + "."@)
                &&& new == (SessionState {
                    game: GameState {
                        action_log: new.game.action_log,
                        group: new.game.group,
                        ..old.game
                    },
                    ..old
                })
            },
            _ => new == old,
        },
        ApiResponse::GroupLeave => {
            &&& logged(old, new, "You left the group."@)
            &&& new == (SessionState {
                game: GameState {
                    action_log: new.game.action_log,
                    group: GroupInfo { id: None, leader: None },
                    ..old.game
                },
                ..old
            })
        },
        ApiResponse::GroupInvite => new == old,
        ApiResponse::GlobalChat => match request {
            ClientRequest::ChatGlobal(message) => {
                &&& chat_views(new.game.chat_log@) == chat_views(old.game.chat_log@).push(
                    ((ChannelKind::Global, Seq::empty()), "You"@, message@),
                )
                &&& new == (SessionState {
                    game: GameState { chat_log: new.game.chat_log, ..old.game },
                    ..old
                })
            },
            _ => new == old,
        },
        ApiResponse::PrivateChat => match request {
            ClientRequest::ChatPrivate { to, message } => {
                &&& chat_views(new.game.chat_log@) == chat_views(old.game.chat_log@).push(
                    ((ChannelKind::Private, to@), "(You) to "@ + to@, message@),
                )
                &&& new == (SessionState {
                    game: GameState { chat_log: new.game.chat_log, ..old.game },
                    ..old
                })
            },
            _ => new == old,
        },
        ApiResponse::Look(res) => looked(old, new, res),
        ApiResponse::Move => {
            &&& new.game.overlays.inspected_entity is None
            &&& match request {
                ClientRequest::Move(direction) => logged(old, new, "You moved "@ + direction@ + "."@),
                _ => new.game.action_log == old.game.action_log,
            }
            &&& new == (SessionState {
                game: GameState {
                    action_log: new.game.action_log,
                    overlays: Overlays { inspected_entity: None, ..old.game.overlays },
                    ..old.game
                },
                ..old
            })
        },
        ApiResponse::Inventory(items) => {
            &&& new.game.player.inventory@ == items@
            &&& new.game.player.inventory.cursor() == clamp_selection(
                old.game.player.inventory.cursor(),
                items@.len() as int,
            )
            &&& logged(old, new, "You checked your inventory."@)
            &&& new == (SessionState {
                game: GameState {
                    action_log: new.game.action_log,
                    player: PlayerState { inventory: new.game.player.inventory, ..old.game.player },
                    ..old.game
                },
                ..old
            })
        },
        ApiResponse::Quests(quests) => {
            &&& new.game.player.quests@ == quests@
            &&& new.game.player.quests.cursor() == clamp_selection(
                old.game.player.quests.cursor(),
                quests@.len() as int,
            )
            &&& logged(old, new, "You checked your quests."@)
            &&& new == (SessionState {
                game: GameState {
                    action_log: new.game.action_log,
                    player: PlayerState { quests: new.game.player.quests, ..old.game.player },
                    ..old.game
                },
                ..old
            })
        },
        ApiResponse::Quest(quest) => {
            &&& new.game.player.quests@ == old.game.player.quests@.push(quest)
            &&& new.game.player.quests.cursor() == old.game.player.quests.cursor()
            &&& new == (SessionState {
                game: GameState {
                    player: PlayerState { quests: new.game.player.quests, ..old.game.player },
                    ..old.game
                },
                ..old
            })
        },
        ApiResponse::Talk { dialogue } => match request {
            ClientRequest::Talk(npc) => talked(old, new, npc, dialogue@),
            _ => new == old,
        },
        ApiResponse::Take { item_identifier } => {
            let item = item_identifier@;
            &&& logged(old, new, "You took "@ + item + "."@)
            &&& views(new.game.room.items@) == without(views(old.game.room.items@), item)
            &&& new.game.room.items.cursor() == clamp_selection(
                old.game.room.items.cursor(),
                new.game.room.items@.len() as int,
            )
            &&& views(new.game.player.inventory@) == views(old.game.player.inventory@).push(item)
            &&& new.game.player.inventory.cursor() == old.game.player.inventory.cursor()
            &&& new == (SessionState {
                game: GameState {
                    action_log: new.game.action_log,
                    room: RoomState { items: new.game.room.items, ..old.game.room },
                    player: PlayerState { inventory: new.game.player.inventory, ..old.game.player },
                    ..old.game
                },
                ..old
            })
        },
        ApiResponse::Drop { item_identifier } => {
            let item = item_identifier@;
            &&& logged(old, new, "You dropped "@ + item + "."@)
            &&& views(new.game.player.inventory@) == without(views(old.game.player.inventory@), item)
            &&& new.game.player.inventory.cursor() == clamp_selection(
                old.game.player.inventory.cursor(),
                new.game.player.inventory@.len() as int,
            )
            &&& views(new.game.room.items@) == views(old.game.room.items@).push(item)
            &&& new.game.room.items.cursor() == old.game.room.items.cursor()
            &&& new == (SessionState {
                game: GameState {
                    action_log: new.game.action_log,
                    room: RoomState { items: new.game.room.items, ..old.game.room },
                    player: PlayerState { inventory: new.game.player.inventory, ..old.game.player },
                    ..old.game
                },
                ..old
            })
        },
        ApiResponse::Attack(res) => match request {
            ClientRequest::Attack(npc) => attacked(old, new, npc, res),
            _ => new == old,
        },
        ApiResponse::Quit => new == (SessionState { should_quit: true, ..old }),
    }
}

fn request_name(request: &ClientRequest) -> (r: &'static str)
    ensures
        r@ == request_label(*request),
{
    match request {
        ClientRequest::Look => "Look",
        ClientRequest::Who => "Who",
        ClientRequest::Inventory => "Inventory",
        ClientRequest::Status => "Status",
        ClientRequest::Quests => "Quests",
        ClientRequest::Take(_) => "Take",
        ClientRequest::Drop(_) => "Drop",
        ClientRequest::Move(_) => "Move",
        ClientRequest::Attack(_) => "Attack",
        ClientRequest::Quest(_) => "Quest",
        ClientRequest::ChatGlobal(_) => "GlobalChat",
        ClientRequest::ChatPrivate { .. } => "PrivateChat",
        ClientRequest::Talk(_) => "Talk",
        ClientRequest::GroupCreate => "GroupCreate",
        ClientRequest::GroupInvite(_) => "GroupInvite",
        ClientRequest::GroupJoin(_) => "GroupJoin",
        ClientRequest::GroupLeave => "GroupLeave",
    }
}

/// The players of a look response other than `me`.
fn other_players(players: &Vec<String>, me: &str) -> (r: Vec<String>)
    ensures
        views(r@) == others(views(players@), me@),
{
    let mut out: Vec<String> = Vec::new();
    let n = players.len();
    let mut i: usize = 0;
    while i < n
        invariant
            n == players@.len(),
            i <= n,
            views(out@) == others(views(players@).subrange(0, i as int), me@),
        decreases n - i,
    {
        proof {
            let pre = views(players@).subrange(0, i + 1);
            assert(pre.drop_last() =~= views(players@).subrange(0, i as int));
            assert(pre.last() == players@[i as int]@);
        }
        if !eq_ignore_ascii_case(players[i].as_str(), me) {
            let ghost before = out@;
            out.push(players[i].clone());
            assert(views(out@) =~= views(before).push(players@[i as int]@));
        }
        i = i + 1;
    }
    assert(views(players@).subrange(0, n as int) =~= views(players@));
    out
}

/// The NPCs named by `ids`, as the manifest displays them.
fn npcs_from_manifest(ids: Vec<String>, manifest: &Manifest) -> (r: Vec<Npc>)
    ensures
        npc_views(r@) == npcs_of(views(ids@), *manifest),
{
    let mut out: Vec<Npc> = Vec::new();
    let n = ids.len();
    let mut i: usize = 0;
    while i < n
        invariant
            n == ids@.len(),
            i <= n,
            npc_views(out@) == npcs_of(views(ids@).subrange(0, i as int), *manifest),
        decreases n - i,
    {
        let ghost before = out@;
        let npc = Npc::from_manifest(ids[i].clone(), manifest);
        let ghost seen = npc_view(npc);
        out.push(npc);
        proof {
            let id = views(ids@)[i as int];
            assert(id == ids@[i as int]@);
            assert(npc_views(out@) =~= npc_views(before).push(seen));
            assert(npcs_of(views(ids@).subrange(0, i + 1), *manifest) =~= npcs_of(
                views(ids@).subrange(0, i as int),
                *manifest,
            ).push((id, manifest.npc_display(id))));
        }
        i = i + 1;
    }
    assert(views(ids@).subrange(0, n as int) =~= views(ids@));
    out
}

/// Removes from `list` the items equal to `x`, and appends `x` to `other`.
fn move_item(from: &mut crate::collections::SelectableList<String>, to: &mut crate::collections::SelectableList<String>, item: String)
    ensures
        views(final(from)@) == without(views(old(from)@), item@),
        final(from).cursor() == clamp_selection(old(from).cursor(), final(from)@.len() as int),
        views(final(to)@) == views(old(to)@).push(item@),
        final(to).cursor() == old(to).cursor(),
{
    remove_item(from, item.as_str());
    let ghost before = to@;
    let ghost seen = item@;
    to.push(item);
    assert(views(to@) =~= views(before).push(seen));
}

impl SessionState {
    fn on_look(&mut self, res: LookResponse)
        ensures
            looked(*old(self), *final(self), res),
    {
        self.game.log_action(cat3("You looked at ", res.room.name.as_str(), "."));
        let me = text_or_default(&self.game.player.name, "unknown");
        let players = other_players(&res.players, me.as_str());
        let LookResponse { room, players: _, npcs, items } = res;
        let npcs = npcs_from_manifest(npcs, &self.game.manifest);
        self.game.room.id = Some(room.id);
        self.game.room.name = Some(room.name);
        self.game.room.description = Some(room.description);
        self.game.room.players = players;
        self.game.room.npcs.set_items(npcs);
        self.game.room.items.set_items(items);
        self.game.room.exits = room.exits;
    }

    fn on_talk(&mut self, npc: String, dialogue: String)
        ensures
            talked(*old(self), *final(self), npc, dialogue@),
    {
        let tag = self.game.dialogue_end_tag.clone();
        let ends = contains_str(dialogue.as_str(), tag.as_str());
        let only = ends && starts_with_str(dialogue.as_str(), tag.as_str());
        let open = self.game.overlays.is_open(OverlayKind::Dialogue);
        proof {
            if tag@.len() == 0 {
                assert(dialogue@.subrange(0, 0) =~= tag@);
            }
        }
        if only && open {
            self.game.overlays.close(OverlayKind::Dialogue);
            return;
        }
        let text = if only {
            String::from_str("**nothing**")
        } else if ends {
            trim_str(replace_str(dialogue.as_str(), tag.as_str(), "").as_str())
        } else {
            dialogue
        };
        self.game.overlays.inspected_entity = Some(npc.clone());
        let display = self.game.manifest.npc_name(npc.as_str());
        let ghost before = views(self.game.action_log@);
        if !open {
            self.game.log_action(cat3("You talked to ", display.as_str(), "."));
        }
        let ghost middle = views(self.game.action_log@);
        if !only {
            let said = cat3("[", display.as_str(), "] says: \"").concat(text.as_str()).concat("\"");
            self.game.log_action(said);
        }
        proof {
            let first = if open { Seq::<Seq<char>>::empty() } else { seq!["You talked to "@ + display@ + "."@] };
            let second = if only { Seq::<Seq<char>>::empty() } else {
                seq!["["@ + display@ + "] says: \""@ + text@ + "\""@]
            };
            assert(middle =~= before + first);
            assert(views(self.game.action_log@) =~= before + (first + second));
        }
        assert(text@ == dialogue_text(dialogue@, tag@));
        match self.game.overlays.dialogue.take() {
            Some(mut d) => {
                d.add(text, ends);
                self.game.overlays.dialogue = Some(d);
            },
            None => {
                self.game.overlays.open(Overlay::Dialogue(DialogueState::new(npc, display, text, ends)));
            },
        }
    }

    fn on_attack(&mut self, npc: String, res: CombatResult)
        ensures
            attacked(*old(self), *final(self), npc, res),
    {
        self.game.overlays.inspected_entity = Some(npc.clone());
        let npc_name = self.game.manifest.npc_name(npc.as_str());
        self.game.log_action(cat3("You attacked ", npc_name.as_str(), "."));
        self.game.player.hp = res.attacker_hp;
        let damage = u32_to_text(res.damage);
        let attacker = u32_to_text(res.attacker_hp);
        let target = u32_to_text(res.target_hp);
        let text = cat3("Combat with ", npc_name.as_str(), ": You dealt ")
            .concat(damage.as_str())
            .concat(" damage. (Your HP: ")
            .concat(attacker.as_str())
            .concat(" | Target HP: ")
            .concat(target.as_str())
            .concat(") ");
        self.game.overlays.open(Overlay::Dialogue(DialogueState::new(npc, npc_name, text.clone(), true)));
        self.game.log_action(text);
    }

    /// Handles a response from the server, and says what the application must do next.
    ///
    /// The response is first traced, at the time `time`: a failed one as `[ERROR]`, its
    /// request's identifier and its error text; any other as its request's identifier and
    /// the protocol client's rendering of it. A failed response then only raises a warning
    /// with its error text. A response that the session has no handling for is traced a
    /// second time, as missing.
    pub fn handle_api_response(&mut self, envelope: ResponseEnvelope, time: &str) -> (effects: Vec<Effect>)
        ensures
            response_handled(*old(self), *final(self), time@, envelope, effects@),
    {
        let ghost env = envelope;
        let ResponseEnvelope { id, original_request, response, response_text } = envelope;
        let text = match &response {
            ApiResponse::Failed(error) => cat3("[ERROR] ", id.as_str(), " - ").concat(error.as_str()),
            _ => cat3(id.as_str(), " - ", response_text.as_str()),
        };
        assert(text@ == response_trace(env));
        self.record_trace(time, "api response", text.as_str());
        let ghost after_trace = views(self.ui.trace_log@);
        let ghost traced = *self;
        let unhandled = match &response {
            ApiResponse::GroupInvite => true,
            _ => false,
        };
        let missing = cat3(
            "Missing handle response for command: ",
            request_name(&original_request),
            " -- Response: GroupInvite",
        );
        let effects = self.apply_response(original_request, response);
        if unhandled {
            let ghost before = self.ui.trace_log@;
            self.ui.trace_log.push(missing);
            assert(views(self.ui.trace_log@) =~= views(before).push(missing@));
            assert(missing_lines(env) =~= seq![missing@]);
            assert(views(self.ui.trace_log@) =~= after_trace + missing_lines(env));
        } else {
            assert(missing_lines(env) =~= Seq::<Seq<char>>::empty());
            assert(views(self.ui.trace_log@) =~= after_trace + missing_lines(env));
        }
        proof {
            assert(with_trace(*old(self), self.ui.trace_log) == with_trace(traced, self.ui.trace_log));
        }
        effects
    }

    fn apply_response(&mut self, original_request: ClientRequest, response: ApiResponse) -> (effects: Vec<Effect>)
        ensures
            api_response_done(*old(self), *final(self), original_request, response, effects@),
    {
        let mut effects: Vec<Effect> = Vec::new();
        match response {
            ApiResponse::Failed(error) => {
                self.notify(Notification::warning(error));
            },
            ApiResponse::Connect { player_name } => {
                self.game.player.name = Some(player_name);
            },
            ApiResponse::Who { player_count } => {
                self.game.server.online_players_count = player_count;
                self.game.log_action(String::from_str("You checked who is here."));
            },
            ApiResponse::FightCreate => {},
            ApiResponse::FightAttack => {},
            ApiResponse::Status { hp, max_hp } => {
                self.game.player.hp = hp;
                self.game.player.max_hp = max_hp;
                self.game.log_action(String::from_str("You checked your state."));
            },
            ApiResponse::GroupCreate { group_id } => {
                let line = cat3("You created group ", group_id.as_str(), ".");
                self.game.group.id = Some(group_id);
                self.game.group.leader = match &self.game.player.name {
                    Some(name) => Some(name.clone()),
                    None => None,
                };
                self.game.log_action(line);
            },
            ApiResponse::GroupJoin { group_id } => {
                if let ClientRequest::GroupJoin(leader) = original_request {
                    self.game.group.id = Some(group_id);
                    self.game.group.leader = Some(to_uppercase(leader.as_str()));
                    self.game.log_action(cat3("You joined the group of ", leader.as_str(), "."));
                }
            },
            ApiResponse::GroupLeave => {
                self.game.group.id = None;
                self.game.group.leader = None;
                self.game.log_action(String::from_str("You left the group."));
            },
            ApiResponse::GroupInvite => {},
            ApiResponse::GlobalChat => {
                if let ClientRequest::ChatGlobal(message) = original_request {
                    self.game.push_chat(
                        ChatMessage {
                            channel: ChatChannel::Global,
                            sender: String::from_str("You"),
                            content: message,
                        },
                    );
                }
            },
            ApiResponse::PrivateChat => {
                if let ClientRequest::ChatPrivate { to, message } = original_request {
                    let sender = cat2("(You) to ", to.as_str());
                    self.game.push_chat(
                        ChatMessage { channel: ChatChannel::Private(to), sender, content: message },
                    );
                }
            },
            ApiResponse::Look(res) => {
                self.on_look(res);
            },
            ApiResponse::Move => {
                self.game.overlays.inspected_entity = None;
                if let ClientRequest::Move(direction) = original_request {
                    self.game.log_action(cat3("You moved ", direction.as_str(), "."));
                }
                effects.push(Effect::Send(ClientRequest::Look));
                assert(effects@ =~= seq![Effect::Send(ClientRequest::Look)]);
            },
            ApiResponse::Inventory(items) => {
                self.game.player.inventory.set_items(items);
                self.game.log_action(String::from_str("You checked your inventory."));
            },
            ApiResponse::Quests(quests) => {
                self.game.player.quests.set_items(quests);
                self.game.log_action(String::from_str("You checked your quests."));
            },
            ApiResponse::Quest(quest) => {
                self.game.player.quests.push(quest);
            },
            ApiResponse::Talk { dialogue } => {
                if let ClientRequest::Talk(npc) = original_request {
                    self.on_talk(npc, dialogue);
                }
            },
            ApiResponse::Take { item_identifier } => {
                self.game.log_action(cat3("You took ", item_identifier.as_str(), "."));
                move_item(&mut self.game.room.items, &mut self.game.player.inventory, item_identifier);
            },
            ApiResponse::Drop { item_identifier } => {
                self.game.log_action(cat3("You dropped ", item_identifier.as_str(), "."));
                move_item(&mut self.game.player.inventory, &mut self.game.room.items, item_identifier);
            },
            ApiResponse::Attack(res) => {
                if let ClientRequest::Attack(npc) = original_request {
                    self.on_attack(npc, res);
                }
            },
            ApiResponse::Quit => {
                self.should_quit = true;
            },
        }
        effects
    }
}

} // verus!
