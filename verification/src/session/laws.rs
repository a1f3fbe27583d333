use super::events::event_handled;
use super::responses::response_handled;
use super::trace_line;
use super::Effect;
use crate::api::events::{GroupEvent, RoomEvent, ServerEvent, SpawnData};
use crate::api::{ApiResponse, ResponseEnvelope};
use crate::commands::ClientRequest;
use crate::states::game::{chat_views, without_npc, ChannelKind};
use crate::states::ui::{note_views, NotificationLevel};
use crate::states::SessionState;
use crate::text::{
    lemma_without_absent, lemma_without_no_duplicates, lemma_without_push_same, views, without,
};
use vstd::prelude::*;

verus! {

/// Every server event keeps the players listed in the room free of duplicates: a player
/// who enters, or comes back here after dying, is added only when not yet listed.
pub proof fn law_room_players_stay_distinct(
    old: SessionState,
    new: SessionState,
    time: Seq<char>,
    text: Seq<char>,
    event: ServerEvent,
    effects: Seq<Effect>,
)
    requires
        event_handled(old, new, time, text, event, effects),
        views(old.game.room.players@).no_duplicates(),
    ensures
        views(new.game.room.players@).no_duplicates(),
{
    let before = views(old.game.room.players@);
    match event {
        ServerEvent::Death(data) => {
            lemma_without_no_duplicates(before, data.player_name@);
            if !before.contains(data.player_name@) {
                lemma_push_absent_no_duplicates(before, data.player_name@);
            }
        },
        ServerEvent::Quit(name) => {
            lemma_without_no_duplicates(before, name@);
        },
        ServerEvent::Room(RoomEvent::PresenceEnter(name)) => {
            if !before.contains(name@) {
                lemma_push_absent_no_duplicates(before, name@);
            }
        },
        ServerEvent::Room(RoomEvent::PresenceLeave(name)) => {
            lemma_without_no_duplicates(before, name@);
        },
        _ => {},
    }
}

proof fn lemma_push_absent_no_duplicates(s: Seq<Seq<char>>, x: Seq<char>)
    requires
        s.no_duplicates(),
        !s.contains(x),
    ensures
        s.push(x).no_duplicates(),
{
    assert forall|i: int, j: int|
        0 <= i < s.push(x).len() && 0 <= j < s.push(x).len() && i != j implies s.push(x)[i]
        != s.push(x)[j] by {
        if i == s.len() {
            assert(s[j] == s.push(x)[j]);
        } else if j == s.len() {
            assert(s[i] == s.push(x)[i]);
        }
    }
}

/// A player who joins the server and then one who quits leave the online count as it was.
pub proof fn law_join_then_quit_keeps_count(
    s0: SessionState,
    s1: SessionState,
    s2: SessionState,
    joined: String,
    quit: String,
    effects1: Seq<Effect>,
    effects2: Seq<Effect>,
    times: (Seq<char>, Seq<char>),
    texts: (Seq<char>, Seq<char>),
)
    requires
        event_handled(s0, s1, times.0, texts.0, ServerEvent::Connect(joined), effects1),
        event_handled(s1, s2, times.1, texts.1, ServerEvent::Quit(quit), effects2),
    ensures
        s2.game.server.online_players_count == s0.game.server.online_players_count,
{
}

/// A player entering the room and then leaving it takes every entry of that name out of
/// the room's list; when the player was not listed before, the list is as it was.
pub proof fn law_enter_then_leave(
    s0: SessionState,
    s1: SessionState,
    s2: SessionState,
    name: String,
    effects1: Seq<Effect>,
    effects2: Seq<Effect>,
    times: (Seq<char>, Seq<char>),
    texts: (Seq<char>, Seq<char>),
)
    requires
        event_handled(s0, s1, times.0, texts.0, ServerEvent::Room(RoomEvent::PresenceEnter(name)), effects1),
        event_handled(s1, s2, times.1, texts.1, ServerEvent::Room(RoomEvent::PresenceLeave(name)), effects2),
    ensures
        views(s2.game.room.players@) == without(views(s0.game.room.players@), name@),
        !views(s0.game.room.players@).contains(name@) ==> views(s2.game.room.players@) == views(
            s0.game.room.players@,
        ),
{
    let before = views(s0.game.room.players@);
    lemma_without_push_same(before, name@);
    if !before.contains(name@) {
        lemma_without_absent(before, name@);
    }
}

/// An item that spawns in the room and then despawns leaves no entry of it in the room.
pub proof fn law_spawn_then_despawn_item(
    s0: SessionState,
    s1: SessionState,
    s2: SessionState,
    spawn: SpawnData,
    despawn: SpawnData,
    effects1: Seq<Effect>,
    effects2: Seq<Effect>,
    times: (Seq<char>, Seq<char>),
    texts: (Seq<char>, Seq<char>),
)
    requires
        event_handled(s0, s1, times.0, texts.0, ServerEvent::Spawn(spawn), effects1),
        event_handled(s1, s2, times.1, texts.1, ServerEvent::Despawn(despawn), effects2),
        spawn.kind@ == "ITEM"@,
        despawn.kind@ == "ITEM"@,
        spawn.id@ == despawn.id@,
    ensures
        views(s2.game.room.items@) == without(views(s0.game.room.items@), spawn.id@),
{
    reveal_strlit("ITEM");
    reveal_strlit("NPC");
    lemma_without_push_same(views(s0.game.room.items@), spawn.id@);
}

/// Taking an item and dropping it again puts it back in the room, as its last item, and
/// leaves an inventory that did not hold it as it was.
pub proof fn law_take_then_drop(
    s0: SessionState,
    s1: SessionState,
    s2: SessionState,
    taken: String,
    dropped: String,
    effects1: Seq<Effect>,
    effects2: Seq<Effect>,
    times: (Seq<char>, Seq<char>),
    take_envelope: ResponseEnvelope,
    drop_envelope: ResponseEnvelope,
)
    requires
        response_handled(s0, s1, times.0, take_envelope, effects1),
        response_handled(s1, s2, times.1, drop_envelope, effects2),
        take_envelope.response == (ApiResponse::Take { item_identifier: taken }),
        drop_envelope.response == (ApiResponse::Drop { item_identifier: dropped }),
        taken@ == dropped@,
        !views(s0.game.player.inventory@).contains(taken@),
    ensures
        views(s2.game.player.inventory@) == views(s0.game.player.inventory@),
        views(s2.game.room.items@) == without(views(s0.game.room.items@), taken@).push(taken@),
        views(s0.game.room.items@).to_multiset().count(taken@) == 1 ==> views(
            s2.game.room.items@,
        ).to_multiset() == views(s0.game.room.items@).to_multiset(),
{
    broadcast use vstd::seq_lib::group_to_multiset_ensures;

    let inventory = views(s0.game.player.inventory@);
    lemma_without_push_same(inventory, taken@);
    lemma_without_absent(inventory, taken@);
    let items = views(s0.game.room.items@);
    if items.to_multiset().count(taken@) == 1 {
        lemma_without_counts(items, taken@);
        assert(without(items, taken@).push(taken@).to_multiset() =~= items.to_multiset());
    }
}

/// Removing every copy of `x` leaves no copy of it and as many of everything else.
proof fn lemma_without_counts(s: Seq<Seq<char>>, x: Seq<char>)
    ensures
        forall|y: Seq<char>| #[trigger] without(s, x).to_multiset().count(y) == (if y == x {
            0
        } else {
            s.to_multiset().count(y)
        }),
    decreases s.len(),
{
    broadcast use vstd::seq_lib::group_to_multiset_ensures;
    broadcast use vstd::multiset::group_multiset_axioms;

    if s.len() == 0 {
        assert(s.to_multiset() =~= vstd::multiset::Multiset::empty());
    } else {
        let rest = s.drop_last();
        lemma_without_counts(rest, x);
        assert(s =~= rest.push(s.last()));
        assert(s.to_multiset() =~= rest.to_multiset().insert(s.last()));
        if s.last() != x {
            assert(without(s, x).to_multiset() =~= without(rest, x).to_multiset().insert(s.last()));
        }
        assert forall|y: Seq<char>| #[trigger] without(s, x).to_multiset().count(y) == (if y == x {
            0
        } else {
            s.to_multiset().count(y)
        }) by {
            assert(without(rest, x).to_multiset().count(y) == (if y == x {
                0
            } else {
                rest.to_multiset().count(y)
            }));
        }
    }
}

/// After an NPC is defeated, no NPC with its identifier is left in the room.
pub proof fn law_defeated_npc_leaves_room(
    old: SessionState,
    new: SessionState,
    time: Seq<char>,
    text: Seq<char>,
    event: ServerEvent,
    effects: Seq<Effect>,
)
    requires
        event_handled(old, new, time, text, event, effects),
        event is Kill,
    ensures
        forall|i: int|
            0 <= i < crate::states::game::npc_views(new.game.room.npcs@).len() ==> (
            #[trigger] crate::states::game::npc_views(new.game.room.npcs@)[i]).0 != event->Kill_0.npc_id@,
{
    let id = event->Kill_0.npc_id@;
    lemma_without_npc_excludes(crate::states::game::npc_views(old.game.room.npcs@), id);
}

proof fn lemma_without_npc_excludes(s: Seq<(Seq<char>, Seq<char>)>, id: Seq<char>)
    ensures
        forall|i: int| 0 <= i < without_npc(s, id).len() ==> (#[trigger] without_npc(s, id)[i]).0 != id,
    decreases s.len(),
{
    if s.len() > 0 {
        lemma_without_npc_excludes(s.drop_last(), id);
        let rest = without_npc(s.drop_last(), id);
        if s.last().0 != id {
            assert forall|i: int| 0 <= i < rest.push(s.last()).len() implies (#[trigger] rest.push(
                s.last(),
            )[i]).0 != id by {
                if i < rest.len() {
                    assert(rest.push(s.last())[i] == rest[i]);
                }
            }
        }
    }
}

/// A failed response is traced as an error, with its request's identifier and its error
/// text, and answered by a warning with that text, and by nothing else: the game, the
/// connection and the rest of the interface stay as they were, and nothing is asked of
/// the application.
pub proof fn law_failed_response_only_warns(
    old: SessionState,
    new: SessionState,
    time: Seq<char>,
    envelope: ResponseEnvelope,
    error: String,
    effects: Seq<Effect>,
)
    requires
        response_handled(old, new, time, envelope, effects),
        envelope.response == ApiResponse::Failed(error),
    ensures
        new.game == old.game,
        new.network == old.network,
        new.should_quit == old.should_quit,
        views(new.ui.trace_log@) == views(old.ui.trace_log@).push(
            trace_line(time, "api response"@, "[ERROR] "@ + envelope.id@ + " - "@ + error@),
        ),
        note_views(new.ui.notifications@) == note_views(old.ui.notifications@).push(
            (NotificationLevel::Warning, error@, None),
        ),
        effects.len() == 0,
{
    assert(views(old.ui.trace_log@).push(
        trace_line(time, "api response"@, "[ERROR] "@ + envelope.id@ + " - "@ + error@),
    ) + Seq::<Seq<char>>::empty() =~= views(old.ui.trace_log@).push(
        trace_line(time, "api response"@, "[ERROR] "@ + envelope.id@ + " - "@ + error@),
    ));
}

/// Whatever request it answers, a move is followed by a new look at the room, and by
/// nothing else.
pub proof fn law_move_looks_again(
    old: SessionState,
    new: SessionState,
    time: Seq<char>,
    envelope: ResponseEnvelope,
    effects: Seq<Effect>,
)
    requires
        response_handled(old, new, time, envelope, effects),
        envelope.response == ApiResponse::Move,
    ensures
        effects == seq![Effect::Send(ClientRequest::Look)],
        new.game.overlays.inspected_entity is None,
{
}

/// A chat that the server relays is recorded, last in the chat log, under the channel it
/// came through: a private message under the sender's private channel (and notified),
/// a global one as global, a room or group one under the room or the group.
pub proof fn law_chats_keep_their_channel(
    old: SessionState,
    new: SessionState,
    time: Seq<char>,
    text: Seq<char>,
    event: ServerEvent,
    effects: Seq<Effect>,
)
    requires
        event_handled(old, new, time, text, event, effects),
    ensures
        event matches ServerEvent::PrivateChat(c) ==> chat_views(new.game.chat_log@) == chat_views(
            old.game.chat_log@,
        ).push(((ChannelKind::Private, c.sender@), c.sender@, c.message@)),
        event matches ServerEvent::GlobalChat(c) ==> chat_views(new.game.chat_log@) == chat_views(
            old.game.chat_log@,
        ).push(((ChannelKind::Global, Seq::empty()), c.sender@, c.message@)),
        event matches ServerEvent::Room(RoomEvent::Chat(c)) ==> chat_views(new.game.chat_log@) == chat_views(
            old.game.chat_log@,
        ).push(((ChannelKind::Room, Seq::empty()), c.sender@, c.message@)),
        event matches ServerEvent::Group(GroupEvent::Chat(c)) ==> chat_views(new.game.chat_log@) == chat_views(
            old.game.chat_log@,
        ).push(((ChannelKind::Group, Seq::empty()), c.sender@, c.message@)),
{
}

} // verus!
