use crate::collections::{clamp_selection, kept, SelectableList};
use crate::data::manifest::Manifest;
use crate::text::{same_text, views, without};
use vstd::prelude::*;
use vstd::string::*;

verus! {

/// The kind of a chat channel, without the peer of a private one.
#[derive(Debug, Clone, Copy, PartialEq, Eq, Structural)]
pub enum ChannelKind {
    Global,
    Room,
    Group,
    Private,
}

/// Where a chat message was said.
#[derive(Debug, Clone)]
pub enum ChatChannel {
    Global,
    Room,
    Group,
    /// A conversation with the named player.
    Private(String),
}

impl View for ChatChannel {
    type V = (ChannelKind, Seq<char>);

    /// The kind, and the peer's name (empty but for a private channel).
    open spec fn view(&self) -> (ChannelKind, Seq<char>) {
        match self {
            ChatChannel::Global => (ChannelKind::Global, Seq::empty()),
            ChatChannel::Room => (ChannelKind::Room, Seq::empty()),
            ChatChannel::Group => (ChannelKind::Group, Seq::empty()),
            ChatChannel::Private(peer) => (ChannelKind::Private, peer@),
        }
    }
}

/// A line of the chat log.
#[derive(Debug, Clone)]
pub struct ChatMessage {
    pub channel: ChatChannel,
    pub sender: String,
    pub content: String,
}

/// A chat message taken by its views.
pub open spec fn chat_view(m: ChatMessage) -> ((ChannelKind, Seq<char>), Seq<char>, Seq<char>) {
    (m.channel@, m.sender@, m.content@)
}

/// The views of a sequence of chat messages.
pub open spec fn chat_views(v: Seq<ChatMessage>) -> Seq<((ChannelKind, Seq<char>), Seq<char>, Seq<char>)> {
    v.map_values(|m: ChatMessage| chat_view(m))
}

/// An NPC in the current room, with the name it is displayed under.
#[derive(Debug, Clone)]
pub struct Npc {
    pub id: String,
    pub name: String,
}

/// An NPC taken by the views of its identifier and name.
pub open spec fn npc_view(n: Npc) -> (Seq<char>, Seq<char>) {
    (n.id@, n.name@)
}

/// The views of a sequence of NPCs.
pub open spec fn npc_views(v: Seq<Npc>) -> Seq<(Seq<char>, Seq<char>)> {
    v.map_values(|n: Npc| npc_view(n))
}

/// `s` without the NPCs whose identifier is `id`, in order.
pub open spec fn without_npc(s: Seq<(Seq<char>, Seq<char>)>, id: Seq<char>) -> Seq<(Seq<char>, Seq<char>)>
    decreases s.len(),
{
    if s.len() == 0 {
        s
    } else if s.last().0 == id {
        without_npc(s.drop_last(), id)
    } else {
        without_npc(s.drop_last(), id).push(s.last())
    }
}

impl Npc {
    /// The NPC `id`, named as the manifest displays it.
    pub fn from_manifest(id: String, manifest: &Manifest) -> (r: Self)
        ensures
            npc_view(r) == (id@, manifest.npc_display(id@)),
    {
        let name = manifest.npc_name(id.as_str());
        Npc { id, name }
    }
}

/// A conversation with an NPC, shown in an overlay.
#[derive(Debug)]
pub struct DialogueState {
    pub npc_id: String,
    pub npc_name: String,
    pub lines: Vec<String>,
    /// Whether the NPC has said its last line.
    pub ended: bool,
}

impl DialogueState {
    pub fn new(npc_id: String, npc_name: String, text: String, ended: bool) -> (r: Self)
        ensures
            r.npc_id@ == npc_id@,
            r.npc_name@ == npc_name@,
            views(r.lines@) == seq![text@],
            r.ended == ended,
    {
        let ghost t = text@;
        let mut lines = Vec::new();
        lines.push(text);
        assert(views(lines@) =~= seq![t]);
        DialogueState { npc_id, npc_name, lines, ended }
    }

    /// Adds a line said by the NPC, which may be its last.
    pub fn add(&mut self, text: String, ended: bool)
        ensures
            final(self).npc_id == old(self).npc_id,
            final(self).npc_name == old(self).npc_name,
            views(final(self).lines@) == views(old(self).lines@).push(text@),
            final(self).ended == ended,
    {
        let ghost before = self.lines@;
        self.lines.push(text);
        self.ended = ended;
        assert(views(self.lines@) =~= views(before).push(text@));
    }
}

/// The kinds of overlay shown over the game view.
#[derive(Debug, Clone, Copy, PartialEq, Eq, Structural)]
pub enum OverlayKind {
    Dialogue,
}

/// An overlay with its contents.
#[derive(Debug)]
pub enum Overlay {
    Dialogue(DialogueState),
}

/// The overlays shown over the game view, and the entity being looked at.
#[derive(Debug)]
pub struct Overlays {
    pub inspected_entity: Option<String>,
    pub dialogue: Option<DialogueState>,
}

impl Overlays {
    pub fn new() -> (r: Self)
        ensures
            r.inspected_entity is None,
            r.dialogue is None,
    {
        Overlays { inspected_entity: None, dialogue: None }
    }

    pub fn is_open(&self, kind: OverlayKind) -> (r: bool)
        ensures
            r == (match kind {
                OverlayKind::Dialogue => self.dialogue is Some,
            }),
    {
        match kind {
            OverlayKind::Dialogue => self.dialogue.is_some(),
        }
    }

    pub fn open(&mut self, overlay: Overlay)
        ensures
            final(self).inspected_entity == old(self).inspected_entity,
            match overlay {
                Overlay::Dialogue(d) => final(self).dialogue == Some(d),
            },
    {
        match overlay {
            Overlay::Dialogue(d) => {
                self.dialogue = Some(d);
            },
        }
    }

    pub fn close(&mut self, kind: OverlayKind)
        ensures
            final(self).inspected_entity == old(self).inspected_entity,
            match kind {
                OverlayKind::Dialogue => final(self).dialogue is None,
            },
    {
        match kind {
            OverlayKind::Dialogue => {
                self.dialogue = None;
            },
        }
    }

    /// Closes every overlay; the inspected entity stays.
    pub fn close_all(&mut self)
        ensures
            final(self).inspected_entity == old(self).inspected_entity,
            final(self).dialogue is None,
    {
        self.dialogue = None;
    }
}

/// What the player is and carries.
#[derive(Debug)]
pub struct PlayerState {
    pub name: Option<String>,
    pub hp: u32,
    pub max_hp: u32,
    pub inventory: SelectableList<String>,
    pub quests: SelectableList<String>,
}

/// What the client knows of the server.
#[derive(Debug)]
pub struct ServerInfo {
    pub online_players_count: u32,
}

/// The group the player belongs to, if any.
#[derive(Debug)]
pub struct GroupInfo {
    pub id: Option<String>,
    pub leader: Option<String>,
}

/// The room the player is in.
#[derive(Debug)]
pub struct RoomState {
    pub id: Option<String>,
    pub name: Option<String>,
    pub description: Option<String>,
    /// The other players in the room.
    pub players: Vec<String>,
    pub npcs: SelectableList<Npc>,
    pub items: SelectableList<String>,
    pub exits: Vec<String>,
}

/// The state of the fight the player is in, if any.
#[derive(Debug)]
pub struct FightState {
    /// Whether the player's last round succeeded.
    pub success: Option<bool>,
}

impl FightState {
    pub fn reset(&mut self)
        ensures
            final(self).success is None,
    {
        self.success = None;
    }

    /// Records how the player's last round went.
    pub fn resolve(&mut self, success: bool)
        ensures
            final(self).success == Some(success),
    {
        self.success = Some(success);
    }
}

/// Whether `player` is logged in under the name `who`.
pub open spec fn is_me(player: PlayerState, who: Seq<char>) -> bool {
    player.name matches Some(n) && n@ == who
}

/// Health after taking `damage`, never below zero.
pub open spec fn hp_after(hp: u32, damage: u32) -> u32 {
    if damage <= hp { (hp - damage) as u32 } else { 0 }
}

impl PlayerState {
    /// Whether the player is logged in under the name `who`.
    pub fn is_me(&self, who: &str) -> (r: bool)
        ensures
            r == is_me(*self, who@),
    {
        match &self.name {
            Some(n) => crate::text::same_text(n.as_str(), who),
            None => false,
        }
    }

    /// Takes `damage` from the player's health, which stops at zero.
    pub fn take_damage(&mut self, damage: u32)
        ensures
            final(self).hp == hp_after(old(self).hp, damage),
            *final(self) == (PlayerState { hp: final(self).hp, ..*old(self) }),
    {
        self.hp = self.hp.saturating_sub(damage);
    }
}

/// Everything the client knows of the game.
#[derive(Debug)]
pub struct GameState {
    pub player: PlayerState,
    pub server: ServerInfo,
    pub group: GroupInfo,
    pub room: RoomState,
    pub chat_log: Vec<ChatMessage>,
    /// What happened, one line per action or event, oldest first.
    pub action_log: Vec<String>,
    pub overlays: Overlays,
    pub fight: FightState,
    pub manifest: Manifest,
    /// The marker by which the server ends an NPC's last dialogue line.
    pub dialogue_end_tag: String,
}

impl GameState {
    /// Whether this is the state of a session that has not begun: nobody known, nothing
    /// logged, full health.
    pub open spec fn is_fresh(&self, manifest: Manifest, dialogue_end_tag: String) -> bool {
        &&& self.player.name is None
        &&& self.player.hp == 100
        &&& self.player.max_hp == 100
        &&& self.player.inventory@.len() == 0
        &&& self.player.quests@.len() == 0
        &&& self.server.online_players_count == 0
        &&& self.group.id is None
        &&& self.group.leader is None
        &&& self.room.id is None
        &&& self.room.name is None
        &&& self.room.description is None
        &&& self.room.players@.len() == 0
        &&& self.room.npcs@.len() == 0
        &&& self.room.items@.len() == 0
        &&& self.room.exits@.len() == 0
        &&& self.chat_log@.len() == 0
        &&& self.action_log@.len() == 0
        &&& self.overlays.inspected_entity is None
        &&& self.overlays.dialogue is None
        &&& self.fight.success is None
        &&& self.manifest == manifest
        &&& self.dialogue_end_tag == dialogue_end_tag
    }

    pub fn new(manifest: Manifest, dialogue_end_tag: String) -> (r: Self)
        ensures
            r.is_fresh(manifest, dialogue_end_tag),
    {
        GameState {
            player: PlayerState {
                name: None,
                hp: 100,
                max_hp: 100,
                inventory: SelectableList::new(),
                quests: SelectableList::new(),
            },
            server: ServerInfo { online_players_count: 0 },
            group: GroupInfo { id: None, leader: None },
            room: RoomState {
                id: None,
                name: None,
                description: None,
                players: Vec::new(),
                npcs: SelectableList::new(),
                items: SelectableList::new(),
                exits: Vec::new(),
            },
            chat_log: Vec::new(),
            action_log: Vec::new(),
            overlays: Overlays::new(),
            fight: FightState { success: None },
            manifest,
            dialogue_end_tag,
        }
    }

    /// Records a line in the action log.
    pub fn log_action(&mut self, line: String)
        ensures
            views(final(self).action_log@) == views(old(self).action_log@).push(line@),
            *final(self) == (GameState { action_log: final(self).action_log, ..*old(self) }),
    {
        let ghost before = self.action_log@;
        self.action_log.push(line);
        assert(views(self.action_log@) =~= views(before).push(line@));
    }

    /// Records a message in the chat log.
    pub fn push_chat(&mut self, message: ChatMessage)
        ensures
            chat_views(final(self).chat_log@) == chat_views(old(self).chat_log@).push(chat_view(message)),
            *final(self) == (GameState { chat_log: final(self).chat_log, ..*old(self) }),
    {
        let ghost before = self.chat_log@;
        self.chat_log.push(message);
        assert(chat_views(self.chat_log@) =~= chat_views(before).push(chat_view(message)));
    }
}

proof fn lemma_kept_views(s: Seq<String>, keep: Seq<bool>, x: Seq<char>)
    requires
        keep.len() == s.len(),
        forall|i: int| 0 <= i < s.len() ==> keep[i] == (s[i]@ != x),
    ensures
        views(kept(s, keep)) == without(views(s), x),
    decreases s.len(),
{
    if s.len() > 0 {
        let last = s.len() - 1;
        lemma_kept_views(s.drop_last(), keep.drop_last(), x);
        assert(views(s).drop_last() =~= views(s.drop_last()));
        assert(views(s).last() == s.last()@);
        assert(keep.last() == (s[last]@ != x));
        let rest = kept(s.drop_last(), keep.drop_last());
        if keep.last() {
            assert(views(rest.push(s.last())) =~= views(rest).push(s.last()@));
        }
    } else {
        assert(views(s) =~= Seq::<Seq<char>>::empty());
        assert(views(kept(s, keep)) =~= Seq::<Seq<char>>::empty());
    }
}

proof fn lemma_kept_npcs(s: Seq<Npc>, keep: Seq<bool>, id: Seq<char>)
    requires
        keep.len() == s.len(),
        forall|i: int| 0 <= i < s.len() ==> keep[i] == (s[i].id@ != id),
    ensures
        npc_views(kept(s, keep)) == without_npc(npc_views(s), id),
    decreases s.len(),
{
    if s.len() > 0 {
        let last = s.len() - 1;
        lemma_kept_npcs(s.drop_last(), keep.drop_last(), id);
        assert(npc_views(s).drop_last() =~= npc_views(s.drop_last()));
        assert(npc_views(s).last() == npc_view(s.last()));
        assert(keep.last() == (s[last].id@ != id));
        let rest = kept(s.drop_last(), keep.drop_last());
        if keep.last() {
            assert(npc_views(rest.push(s.last())) =~= npc_views(rest).push(npc_view(s.last())));
        }
    } else {
        assert(npc_views(s) =~= Seq::<(Seq<char>, Seq<char>)>::empty());
        assert(npc_views(kept(s, keep)) =~= Seq::<(Seq<char>, Seq<char>)>::empty());
    }
}

/// Removes from `list` every item equal to `x`; the selection is clamped as `retain` does.
pub fn remove_item(list: &mut SelectableList<String>, x: &str)
    ensures
        views(final(list)@) == without(views(old(list)@), x@),
        final(list).cursor() == clamp_selection(old(list).cursor(), final(list)@.len() as int),
{
    let ghost initial = list@;
    let differs = |e: &String| -> (r: bool)
        ensures
            r == (e@ != x@),
        { !same_text(e.as_str(), x) };
    let ghost differs_spec = differs;
    list.retain(differs);
    proof {
        let keep = choose|keep: Seq<bool>|
            {
                &&& keep.len() == initial.len()
                &&& forall|i: int|
                    0 <= i < keep.len() ==> call_ensures(differs_spec, (&initial[i],), #[trigger] keep[i])
                &&& list@ == kept(initial, keep)
            };
        assert forall|i: int| 0 <= i < initial.len() implies keep[i] == (initial[i]@ != x@) by {
            assert(call_ensures(differs_spec, (&initial[i],), keep[i]));
        }
        lemma_kept_views(initial, keep, x@);
    }
}

/// Removes from `list` every NPC whose identifier is `id`; the selection is clamped as
/// `retain` does.
pub fn remove_npc(list: &mut SelectableList<Npc>, id: &str)
    ensures
        npc_views(final(list)@) == without_npc(npc_views(old(list)@), id@),
        final(list).cursor() == clamp_selection(old(list).cursor(), final(list)@.len() as int),
{
    let ghost initial = list@;
    let other = |n: &Npc| -> (r: bool)
        ensures
            r == (n.id@ != id@),
        { !same_text(n.id.as_str(), id) };
    let ghost other_spec = other;
    list.retain(other);
    proof {
        let keep = choose|keep: Seq<bool>|
            {
                &&& keep.len() == initial.len()
                &&& forall|i: int|
                    0 <= i < keep.len() ==> call_ensures(other_spec, (&initial[i],), #[trigger] keep[i])
                &&& list@ == kept(initial, keep)
            };
        assert forall|i: int| 0 <= i < initial.len() implies keep[i] == (initial[i].id@ != id@) by {
            assert(call_ensures(other_spec, (&initial[i],), keep[i]));
        }
        lemma_kept_npcs(initial, keep, id@);
    }
}

/// `v` without the texts equal to `x`, in order.
pub fn remove_text(v: &mut Vec<String>, x: &str)
    ensures
        views(final(v)@) == without(views(old(v)@), x@),
{
    let ghost initial = views(v@);
    let mut rest: Vec<String> = Vec::new();
    std::mem::swap(&mut rest, v);
    let mut out: Vec<String> = Vec::new();
    let n = rest.len();
    let mut i: usize = 0;
    while i < n
        invariant
            n == rest@.len(),
            views(rest@) == initial,
            i <= n,
            views(out@) == without(initial.subrange(0, i as int), x@),
        decreases n - i,
    {
        proof {
            let pre = initial.subrange(0, i + 1);
            assert(pre.drop_last() =~= initial.subrange(0, i as int));
            assert(pre.last() == rest@[i as int]@);
        }
        if !same_text(rest[i].as_str(), x) {
            let ghost before = out@;
            out.push(rest[i].clone());
            assert(views(out@) =~= views(before).push(rest@[i as int]@));
        }
        i = i + 1;
    }
    assert(initial.subrange(0, n as int) =~= initial);
    *v = out;
}

/// Whether `v` holds a text equal to `x`.
pub fn has_text(v: &Vec<String>, x: &str) -> (r: bool)
    ensures
        r == views(v@).contains(x@),
{
    let n = v.len();
    let mut i: usize = 0;
    while i < n
        invariant
            n == v@.len(),
            i <= n,
            forall|k: int| 0 <= k < i ==> v@[k]@ != x@,
        decreases n - i,
    {
        if same_text(v[i].as_str(), x) {
            assert(views(v@)[i as int] == x@);
            return true;
        }
        i = i + 1;
    }
    assert forall|k: int| 0 <= k < views(v@).len() implies views(v@)[k] != x@ by {
        assert(v@[k]@ != x@);
    }
    false
}

} // verus!
