use crate::server_event::{ChatMessage, GroupEvent, RoomEvent, ServerEvent};
use crate::state::{
    bounded_push, chat_line, chat_views, notice_views, AppState, ChatScope, NotificationType,
    MAX_CHAT_MESSAGES, MAX_GAME_OUTPUT,
};
use crate::text::views;
use vstd::prelude::*;
use vstd::string::*;

verus! {

/// The line that an event adds to the game output, if any.
pub open spec fn output_line(evt: ServerEvent) -> Option<Seq<char>> {
    match evt {
        ServerEvent::Connect(name) => Some("-> "@ + name@ + " connected."@),
        ServerEvent::Quit(name) => Some("<- "@ + name@ + " quit."@),
        ServerEvent::Room(RoomEvent::PresenceEnter(name)) => Some("[Room] "@ + name@ + " entered."@),
        ServerEvent::Room(RoomEvent::PresenceLeave(name)) => Some("[Room] "@ + name@ + " left."@),
        ServerEvent::Room(RoomEvent::Chat(m)) => Some(chat_line(ChatScope::Room, m.sender@, m.message@)),
        ServerEvent::Group(GroupEvent::Chat(m)) => Some(
            chat_line(ChatScope::Group, m.sender@, m.message@),
        ),
        ServerEvent::Group(GroupEvent::Invite(name)) => Some("[Group] "@ + name@ + " invited you."@),
        ServerEvent::Group(GroupEvent::Join(name)) => Some("[Group] "@ + name@ + " joined."@),
        ServerEvent::Group(GroupEvent::Leave(name)) => Some("[Group] "@ + name@ + " left."@),
        ServerEvent::GlobalChat(m) => Some(chat_line(ChatScope::Global, m.sender@, m.message@)),
        ServerEvent::PrivateChat(m) => Some(chat_line(ChatScope::Private, m.sender@, m.message@)),
        ServerEvent::Stats(_) => None,
        ServerEvent::Unknown(raw) => Some("Unknown event: "@ + raw@),
    }
}

/// The chat line that an event records, if any.
pub open spec fn chat_of(evt: ServerEvent) -> Option<(ChatScope, Seq<char>, Seq<char>)> {
    match evt {
        ServerEvent::Room(RoomEvent::Chat(m)) => Some((ChatScope::Room, m.sender@, m.message@)),
        ServerEvent::Group(GroupEvent::Chat(m)) => Some((ChatScope::Group, m.sender@, m.message@)),
        ServerEvent::GlobalChat(m) => Some((ChatScope::Global, m.sender@, m.message@)),
        ServerEvent::PrivateChat(m) => Some((ChatScope::Private, m.sender@, m.message@)),
        _ => None,
    }
}

/// The notification that an event raises, if any.
pub open spec fn notification_of(evt: ServerEvent) -> Option<(Seq<char>, NotificationType, u32)> {
    match evt {
        ServerEvent::Connect(name) => Some((name@ + " connected"@, NotificationType::Info, 16)),
        ServerEvent::Quit(name) => Some((name@ + " disconnected"@, NotificationType::Info, 16)),
        ServerEvent::Group(GroupEvent::Invite(name)) => Some(
            (name@ + " invited you to group"@, NotificationType::Info, 20),
        ),
        _ => None,
    }
}

/// The number of players online after an event.
pub open spec fn online_after(count: u32, evt: ServerEvent) -> int {
    match evt {
        ServerEvent::Connect(_) => count + 1,
        ServerEvent::Quit(_) => if count == 0 { 0 } else { count - 1 },
        ServerEvent::Stats(n) => n as int,
        _ => count as int,
    }
}

/// `s` with `x` pushed by `bounded_push` when there is one.
pub open spec fn maybe_bounded_push<T>(s: Seq<T>, x: Option<T>, limit: nat) -> Seq<T> {
    match x {
        Some(v) => bounded_push(s, v, limit),
        None => s,
    }
}

/// `s` with `x` pushed when there is one.
pub open spec fn maybe_push<T>(s: Seq<T>, x: Option<T>) -> Seq<T> {
    match x {
        Some(v) => s.push(v),
        None => s,
    }
}

fn three(a: &str, b: &str, c: &str) -> (r: String)
    ensures
        r@ == a@ + b@ + c@,
{
    String::from_str(a).concat(b).concat(c)
}

fn push_chat_message(state: &mut AppState, scope: ChatScope, msg: ChatMessage)
    ensures
        views(final(state).game.game_output@) == bounded_push(
            views(old(state).game.game_output@),
            chat_line(scope, msg.sender@, msg.message@),
            MAX_GAME_OUTPUT as nat,
        ),
        chat_views(final(state).game.chat_messages@) == bounded_push(
            chat_views(old(state).game.chat_messages@),
            (scope, msg.sender@, msg.message@),
            MAX_CHAT_MESSAGES as nat,
        ),
        final(state).game.online_players == old(state).game.online_players,
        final(state).game.inventory == old(state).game.inventory,
        final(state).game.hp == old(state).game.hp,
        final(state).game.max_hp == old(state).game.max_hp,
        final(state).game.group_name == old(state).game.group_name,
        final(state).game.current_room == old(state).game.current_room,
        final(state).game.current_room_name == old(state).game.current_room_name,
        final(state).game.npcs_in_room == old(state).game.npcs_in_room,
        final(state).ui == old(state).ui,
        final(state).net == old(state).net,
        final(state).should_quit == old(state).should_quit,
{
    state.game.push_chat(scope, msg.sender, msg.message);
}

/// What handling a server event does to the state: the event's output line, chat line,
/// notification and online count, and nothing else.
pub open spec fn server_event_applied(old: AppState, new: AppState, evt: ServerEvent) -> bool {
    &&& views(new.game.game_output@) == maybe_bounded_push(
            views(old.game.game_output@),
            output_line(evt),
            MAX_GAME_OUTPUT as nat,
        )
    &&& chat_views(new.game.chat_messages@) == maybe_bounded_push(
            chat_views(old.game.chat_messages@),
            chat_of(evt),
            MAX_CHAT_MESSAGES as nat,
        )
    &&& new.game.online_players == online_after(old.game.online_players, evt)
    &&& notice_views(new.ui.notifications@) == maybe_push(
            notice_views(old.ui.notifications@),
            notification_of(evt),
        )
    &&& new.game.inventory == old.game.inventory
    &&& new.game.hp == old.game.hp
    &&& new.game.max_hp == old.game.max_hp
    &&& new.game.group_name == old.game.group_name
    &&& new.game.current_room == old.game.current_room
    &&& new.game.current_room_name == old.game.current_room_name
    &&& new.game.npcs_in_room == old.game.npcs_in_room
    &&& new.ui.game_scroll_offset == old.ui.game_scroll_offset
    &&& new.ui.show_debug == old.ui.show_debug
    &&& new.ui.show_help == old.ui.show_help
    &&& new.ui.show_chat == old.ui.show_chat
    &&& new.net == old.net
    &&& new.should_quit == old.should_quit
}

/// Applies an event that the server pushed: it is written to the game output (chat
/// lines also to the chat history), the online count follows connections, departures
/// and statistics, and connections, departures and group invitations are notified.
pub fn handle_server_event(state: &mut AppState, evt: ServerEvent)
    requires
        evt is Connect ==> old(state).game.online_players < u32::MAX,
    ensures
        server_event_applied(*old(state), *final(state), evt),
{
    match evt {
        ServerEvent::Connect(name) => {
            state.game.push_game_output(three("-> ", name.as_str(), " connected."));
            state.game.online_players += 1;
            let text = String::from_str(name.as_str()).concat(" connected");
            state.ui.push_notification(text, NotificationType::Info, 16);
        },
        ServerEvent::Quit(name) => {
            state.game.push_game_output(three("<- ", name.as_str(), " quit."));
            state.game.online_players = if state.game.online_players == 0 {
                0
            } else {
                state.game.online_players - 1
            };
            let text = String::from_str(name.as_str()).concat(" disconnected");
            state.ui.push_notification(text, NotificationType::Info, 16);
        },
        ServerEvent::Room(RoomEvent::PresenceEnter(name)) => {
            state.game.push_game_output(three("[Room] ", name.as_str(), " entered."));
        },
        ServerEvent::Room(RoomEvent::PresenceLeave(name)) => {
            state.game.push_game_output(three("[Room] ", name.as_str(), " left."));
        },
        ServerEvent::Room(RoomEvent::Chat(msg)) => {
            push_chat_message(state, ChatScope::Room, msg);
        },
        ServerEvent::Group(GroupEvent::Chat(msg)) => {
            push_chat_message(state, ChatScope::Group, msg);
        },
        ServerEvent::Group(GroupEvent::Invite(name)) => {
            state.game.push_game_output(three("[Group] ", name.as_str(), " invited you."));
            let text = String::from_str(name.as_str()).concat(" invited you to group");
            state.ui.push_notification(text, NotificationType::Info, 20);
        },
        ServerEvent::Group(GroupEvent::Join(name)) => {
            state.game.push_game_output(three("[Group] ", name.as_str(), " joined."));
        },
        ServerEvent::Group(GroupEvent::Leave(name)) => {
            state.game.push_game_output(three("[Group] ", name.as_str(), " left."));
        },
        ServerEvent::GlobalChat(msg) => {
            push_chat_message(state, ChatScope::Global, msg);
        },
        ServerEvent::PrivateChat(msg) => {
            push_chat_message(state, ChatScope::Private, msg);
        },
        ServerEvent::Stats(count) => {
            state.game.online_players = count;
        },
        ServerEvent::Unknown(raw) => {
            let line = String::from_str("Unknown event: ").concat(raw.as_str());
            state.game.push_game_output(line);
        },
    }
}

proof fn lemma_bounded_push_last<T>(s: Seq<T>, x: T, limit: nat)
    requires
        limit >= 1,
    ensures
        bounded_push(s, x, limit).len() > 0,
        bounded_push(s, x, limit).last() == x,
{
}

/// A chat event keeps the channel it came through: the chat history records it under
/// that channel, and the game output shows it with that channel's tag, as
/// `[Tag] sender: message`. A private message is never recorded or shown as global.
pub proof fn law_chats_keep_their_channel(old: AppState, new: AppState, evt: ServerEvent)
    requires
        server_event_applied(old, new, evt),
    ensures
        evt matches ServerEvent::PrivateChat(m) ==> {
            &&& chat_views(new.game.chat_messages@).last() == (ChatScope::Private, m.sender@, m.message@)
            &&& views(new.game.game_output@).last() == "[Private]"@ + " "@ + m.sender@ + ": "@ + m.message@
        },
        evt matches ServerEvent::GlobalChat(m) ==> {
            &&& chat_views(new.game.chat_messages@).last() == (ChatScope::Global, m.sender@, m.message@)
            &&& views(new.game.game_output@).last() == "[Global]"@ + " "@ + m.sender@ + ": "@ + m.message@
        },
        evt matches ServerEvent::Room(RoomEvent::Chat(m)) ==> {
            &&& chat_views(new.game.chat_messages@).last() == (ChatScope::Room, m.sender@, m.message@)
            &&& views(new.game.game_output@).last() == "[Room]"@ + " "@ + m.sender@ + ": "@ + m.message@
        },
        evt matches ServerEvent::Group(GroupEvent::Chat(m)) ==> {
            &&& chat_views(new.game.chat_messages@).last() == (ChatScope::Group, m.sender@, m.message@)
            &&& views(new.game.game_output@).last() == "[Group]"@ + " "@ + m.sender@ + ": "@ + m.message@
        },
{
    match output_line(evt) {
        Some(line) => lemma_bounded_push_last(views(old.game.game_output@), line, MAX_GAME_OUTPUT as nat),
        None => {},
    }
    match chat_of(evt) {
        Some(c) => lemma_bounded_push_last(chat_views(old.game.chat_messages@), c, MAX_CHAT_MESSAGES as nat),
        None => {},
    }
}

/// A player connecting and another quitting leave the online count as it was (below
/// the largest count, where the connection can still be counted).
pub proof fn law_connect_then_quit_keeps_online(count: u32, joined: String, quit: String)
    requires
        count < u32::MAX,
    ensures
        online_after(online_after(count, ServerEvent::Connect(joined)) as u32, ServerEvent::Quit(quit)) == count,
{
}

} // verus!
