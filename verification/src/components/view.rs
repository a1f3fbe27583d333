use crate::assets::Manifest as AssetManifest;
use crate::session::cat3;
use crate::state::{AppState, ConnectionState};
use crate::states::SessionState;
use crate::text::{decimal, join_from, joined, two_digits, u32_to_text, u64_to_text, u64_to_two_digits, views};
use vstd::prelude::*;
use vstd::string::*;

verus! {

/// The name shown for the player: the one logged in under, else `Unknown`.
pub open spec fn player_label(c: ConnectionState) -> Seq<char> {
    match c {
        ConnectionState::Connected(name) => name@,
        _ => "Unknown"@,
    }
}

/// The header line of the game view, `elapsed` seconds into the session.
pub open spec fn header_line(s: AppState, elapsed: u64) -> Seq<char> {
    let group = match s.game.group_name {
        Some(g) => g@,
        None => "None"@,
    };
    " Time: "@ + two_digits(decimal((elapsed / 60) as nat)) + ":"@ + two_digits(decimal((elapsed % 60) as nat))
        + " | Player: "@ + player_label(s.net.connection_state) + " | Group: "@ + group + " | HP: "@
        + decimal(s.game.hp as nat) + "/"@ + decimal(s.game.max_hp as nat) + " | Online: "@ + decimal(
        s.game.online_players as nat,
    ) + " "@
}

/// The header line of the game view: time connected, player, group, health and players
/// online.
pub fn header_text(state: &AppState, elapsed: u64) -> (r: String)
    ensures
        r@ == header_line(*state, elapsed),
{
    let minutes = u64_to_two_digits(elapsed / 60);
    let seconds = u64_to_two_digits(elapsed % 60);
    let player = match &state.net.connection_state {
        ConnectionState::Connected(name) => name.clone(),
        _ => String::from_str("Unknown"),
    };
    let group = match &state.game.group_name {
        Some(g) => g.clone(),
        None => String::from_str("None"),
    };
    let hp = u32_to_text(state.game.hp);
    let max_hp = u32_to_text(state.game.max_hp);
    let online = u32_to_text(state.game.online_players);
    cat3(" Time: ", minutes.as_str(), ":").concat(seconds.as_str()).concat(" | Player: ").concat(
        player.as_str(),
    ).concat(" | Group: ").concat(group.as_str()).concat(" | HP: ").concat(hp.as_str()).concat("/").concat(
        max_hp.as_str(),
    ).concat(" | Online: ").concat(online.as_str()).concat(" ")
}

/// The header line of the game view for a session, `elapsed` seconds after it connected:
/// time connected, player (`Unknown` before logging in), group (`None` outside one),
/// health and players online.
pub open spec fn session_header_line(s: SessionState, elapsed: u64) -> Seq<char> {
    let player = match s.game.player.name {
        Some(n) => n@,
        None => "Unknown"@,
    };
    let group = match s.game.group.id {
        Some(g) => g@,
        None => "None"@,
    };
    " Time: "@ + two_digits(decimal((elapsed / 60) as nat)) + ":"@ + two_digits(decimal((elapsed % 60) as nat))
        + " | Player: "@ + player + " | Group: "@ + group + " | HP: "@ + decimal(s.game.player.hp as nat)
        + "/"@ + decimal(s.game.player.max_hp as nat) + " | Online: "@ + decimal(
        s.game.server.online_players_count as nat,
    ) + " "@
}

/// The header line of the game view for a session, `elapsed` seconds after it connected.
pub fn session_header(session: &SessionState, elapsed: u64) -> (r: String)
    ensures
        r@ == session_header_line(*session, elapsed),
{
    let minutes = u64_to_two_digits(elapsed / 60);
    let seconds = u64_to_two_digits(elapsed % 60);
    let player = match &session.game.player.name {
        Some(n) => n.clone(),
        None => String::from_str("Unknown"),
    };
    let group = match &session.game.group.id {
        Some(g) => g.clone(),
        None => String::from_str("None"),
    };
    let hp = u32_to_text(session.game.player.hp);
    let max_hp = u32_to_text(session.game.player.max_hp);
    let online = u32_to_text(session.game.server.online_players_count);
    cat3(" Time: ", minutes.as_str(), ":").concat(seconds.as_str()).concat(" | Player: ").concat(
        player.as_str(),
    ).concat(" | Group: ").concat(group.as_str()).concat(" | HP: ").concat(hp.as_str()).concat("/").concat(
        max_hp.as_str(),
    ).concat(" | Online: ").concat(online.as_str()).concat(" ")
}

/// The title of the scene for a session: ` Fight ` during a fight, else the room's name,
/// or `Unknown Location` before there is one.
pub open spec fn session_scene_title_of(s: SessionState, fighting: bool) -> Seq<char> {
    if fighting {
        " Fight "@
    } else {
        " Scene: "@ + (match s.game.room.name {
            Some(n) => n@,
            None => "Unknown Location"@,
        }) + " "@
    }
}

/// The title of the scene for a session.
pub fn session_scene_title(session: &SessionState, fighting: bool) -> (r: String)
    ensures
        r@ == session_scene_title_of(*session, fighting),
{
    if fighting {
        String::from_str(" Fight ")
    } else {
        match &session.game.room.name {
            Some(n) => cat3(" Scene: ", n.as_str(), " "),
            None => cat3(" Scene: ", "Unknown Location", " "),
        }
    }
}

/// The title of the scene: the room's name, or `Unknown Location` before there is one.
pub open spec fn scene_title_of(s: AppState) -> Seq<char> {
    " Scene: "@ + (if s.game.current_room_name@.len() == 0 {
        "Unknown Location"@
    } else {
        s.game.current_room_name@
    }) + " "@
}

/// The title of the scene.
pub fn scene_title(state: &AppState) -> (r: String)
    ensures
        r@ == scene_title_of(*state),
{
    if state.game.current_room_name.unicode_len() == 0 {
        cat3(" Scene: ", "Unknown Location", " ")
    } else {
        cat3(" Scene: ", state.game.current_room_name.as_str(), " ")
    }
}

/// The room whose picture the scene shows: the current one, or `default` before there
/// is one.
pub open spec fn scene_room_of(s: AppState) -> Seq<char> {
    if s.game.current_room@.len() == 0 {
        "default"@
    } else {
        s.game.current_room@
    }
}

/// The room whose picture the scene shows.
pub fn scene_room(state: &AppState) -> (r: String)
    ensures
        r@ == scene_room_of(*state),
{
    if state.game.current_room.unicode_len() == 0 {
        String::from_str("default")
    } else {
        state.game.current_room.clone()
    }
}

/// How an entity is listed: its name, in brackets when it is the selected one.
pub open spec fn entity_label(name: Seq<char>, selected: bool) -> Seq<char> {
    if selected {
        "["@ + name + "]"@
    } else {
        name
    }
}

/// The labels of the entities `ids`, by their display names.
pub open spec fn entity_labels(assets: AssetManifest, ids: Seq<Seq<char>>, selected: Option<usize>) -> Seq<Seq<char>> {
    Seq::new(
        ids.len(),
        |i: int| entity_label(assets.display_of(ids[i]), selected matches Some(k) && k == i),
    )
}

/// The line that lists the entities of the scene.
pub open spec fn entities_line_of(assets: AssetManifest, ids: Seq<Seq<char>>, selected: Option<usize>) -> Seq<char> {
    " Entities: "@ + joined(entity_labels(assets, ids, selected), "  "@) + " "@
}

/// The line that lists the entities of the scene, the selected one in brackets.
pub fn entities_line(assets: &AssetManifest, npcs: &Vec<String>, selected: Option<usize>) -> (r: String)
    ensures
        r@ == entities_line_of(*assets, views(npcs@), selected),
{
    let mut labels: Vec<String> = Vec::new();
    let n = npcs.len();
    let mut i: usize = 0;
    while i < n
        invariant
            n == npcs@.len(),
            i <= n,
            views(labels@) == entity_labels(*assets, views(npcs@), selected).subrange(0, i as int),
        decreases n - i,
    {
        let name = assets.display_name(npcs[i].as_str());
        let is_selected = match selected {
            Some(k) => k == i,
            None => false,
        };
        let label = if is_selected {
            cat3("[", name.as_str(), "]")
        } else {
            name
        };
        let ghost before = labels@;
        labels.push(label);
        proof {
            let want = entity_labels(*assets, views(npcs@), selected);
            assert(views(npcs@)[i as int] == npcs@[i as int]@);
            assert(is_selected == (selected matches Some(k) && k == i));
            assert(labels@ == before.push(label));
            assert(views(before).len() == i);
            assert(views(labels@).len() == i + 1);
            assert(views(labels@)[i as int] == label@);
            assert(views(labels@)[i as int] == want[i as int]);
            assert forall|k: int| 0 <= k < i implies views(labels@)[k] == want[k] by {
                assert(views(labels@)[k] == views(before)[k]);
            }
            assert(views(labels@) =~= want.subrange(0, i + 1));
        }
        i = i + 1;
    }
    assert(entity_labels(*assets, views(npcs@), selected).subrange(0, n as int) =~= entity_labels(
        *assets,
        views(npcs@),
        selected,
    ));
    assert(labels@.subrange(0, labels@.len() as int) =~= labels@);
    let list = join_from(&labels, 0, "  ");
    cat3(" Entities: ", list.as_str(), " ")
}

/// How an action of the menu is shown: marked when it is the selected one.
pub open spec fn menu_entry(action: Seq<char>, selected: bool) -> Seq<char> {
    if selected {
        "> "@ + action
    } else {
        "  "@ + action
    }
}

/// The lines of the action menu, the selected action marked.
pub fn menu_entries(actions: &Vec<&str>, selected: usize) -> (r: Vec<String>)
    ensures
        views(r@) == Seq::new(
            actions@.len(),
            |i: int| menu_entry(actions@[i]@, i == selected),
        ),
{
    let mut lines: Vec<String> = Vec::new();
    let n = actions.len();
    let mut i: usize = 0;
    while i < n
        invariant
            n == actions@.len(),
            i <= n,
            views(lines@) == Seq::new(i as nat, |k: int| menu_entry(actions@[k]@, k == selected)),
        decreases n - i,
    {
        let line = if i == selected {
            String::from_str("> ").concat(actions[i])
        } else {
            String::from_str("  ").concat(actions[i])
        };
        let ghost before = lines@;
        lines.push(line);
        proof {
            let want = Seq::new((i + 1) as nat, |k: int| menu_entry(actions@[k]@, k == selected));
            assert(lines@ == before.push(line));
            assert(views(before).len() == i);
            assert(views(lines@).len() == i + 1);
            assert(views(lines@)[i as int] == line@);
            assert(views(lines@)[i as int] == want[i as int]);
            assert forall|k: int| 0 <= k < i implies views(lines@)[k] == want[k] by {
                assert(views(lines@)[k] == views(before)[k]);
            }
            assert(views(lines@) =~= want);
        }
        i = i + 1;
    }
    lines
}

} // verus!
