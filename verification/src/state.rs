use crate::text::views;
use vstd::prelude::*;
use vstd::string::*;

verus! {

/// The channel a chat line came through.
#[derive(Debug, Clone, Copy, PartialEq, Eq, Structural)]
pub enum ChatScope {
    Global,
    Room,
    Group,
    Private,
}

/// The tag that opens the display of a chat line of `scope`.
pub open spec fn scope_prefix(scope: ChatScope) -> Seq<char> {
    match scope {
        ChatScope::Global => "[Global]"@,
        ChatScope::Room => "[Room]"@,
        ChatScope::Group => "[Group]"@,
        ChatScope::Private => "[Private]"@,
    }
}

/// How a chat line is displayed: `"<prefix> <sender>: <message>"`.
pub open spec fn chat_line(scope: ChatScope, sender: Seq<char>, message: Seq<char>) -> Seq<char> {
    scope_prefix(scope) + " "@ + sender + ": "@ + message
}

/// One chat line.
#[derive(Debug)]
pub struct ChatEntry {
    pub scope: ChatScope,
    pub sender: String,
    pub message: String,
}

/// A chat line taken by the views of its texts.
pub open spec fn chat_view(e: ChatEntry) -> (ChatScope, Seq<char>, Seq<char>) {
    (e.scope, e.sender@, e.message@)
}

/// The views of a sequence of chat lines.
pub open spec fn chat_views(v: Seq<ChatEntry>) -> Seq<(ChatScope, Seq<char>, Seq<char>)> {
    v.map_values(|e: ChatEntry| chat_view(e))
}

impl ChatEntry {
    /// The displayed line, e.g. `"[Global] bob: hi"`.
    pub fn to_string(&self) -> (r: String)
        ensures
            r@ == chat_line(self.scope, self.sender@, self.message@),
    {
        let prefix = match self.scope {
            ChatScope::Global => "[Global]",
            ChatScope::Room => "[Room]",
            ChatScope::Group => "[Group]",
            ChatScope::Private => "[Private]",
        };
        let out = String::from_str(prefix);
        let out = out.concat(" ");
        let out = out.concat(self.sender.as_str());
        let out = out.concat(": ");
        out.concat(self.message.as_str())
    }
}

/// Where the session stands with the server.
#[derive(Debug, Clone, PartialEq, Eq)]
pub enum ConnectionState {
    Disconnected,
    Connecting,
    /// Connected, under the given player name.
    Connected(String),
}

/// The severity of a notification.
#[derive(Debug, Clone, Copy, PartialEq, Eq, Structural)]
pub enum NotificationType {
    Info,
    Error,
}

/// A message shown for `lifetime` ticks.
#[derive(Debug, Clone)]
pub struct Notification {
    pub message: String,
    pub level: NotificationType,
    pub lifetime: u32,
}

/// A notification taken by the view of its text.
pub open spec fn notice_view(n: Notification) -> (Seq<char>, NotificationType, u32) {
    (n.message@, n.level, n.lifetime)
}

/// The views of a sequence of notifications.
pub open spec fn notice_views(v: Seq<Notification>) -> Seq<(Seq<char>, NotificationType, u32)> {
    v.map_values(|n: Notification| notice_view(n))
}

/// Where the server lies; the live client itself is held by the application.
pub struct NetworkState {
    pub connection_state: ConnectionState,
    pub server_ip: String,
    pub server_port: String,
}

impl NetworkState {
    pub fn new(ip: String, port: String) -> (r: Self)
        ensures
            r.connection_state == ConnectionState::Disconnected,
            r.server_ip == ip,
            r.server_port == port,
    {
        NetworkState { connection_state: ConnectionState::Disconnected, server_ip: ip, server_port: port }
    }
}

/// The most lines that the game output keeps.
pub const MAX_GAME_OUTPUT: usize = 1000;

/// The most chat lines that are kept.
pub const MAX_CHAT_MESSAGES: usize = 500;

/// `s` with `x` appended, then shortened by its first element when it exceeds `limit`.
pub open spec fn bounded_push<T>(s: Seq<T>, x: T, limit: nat) -> Seq<T> {
    if s.len() + 1 > limit {
        s.push(x).drop_first()
    } else {
        s.push(x)
    }
}

/// The views of `bounded_push` are `bounded_push` of the views.
pub proof fn lemma_views_bounded_push(s: Seq<String>, x: String, limit: nat)
    ensures
        views(bounded_push(s, x, limit)) == bounded_push(views(s), x@, limit),
{
    assert(views(s.push(x)) =~= views(s).push(x@));
    assert(views(s.push(x).drop_first()) =~= views(s).push(x@).drop_first());
}

/// The views of `bounded_push` on chat lines are `bounded_push` of the views.
pub proof fn lemma_chat_views_bounded_push(s: Seq<ChatEntry>, x: ChatEntry, limit: nat)
    ensures
        chat_views(bounded_push(s, x, limit)) == bounded_push(chat_views(s), chat_view(x), limit),
{
    assert(chat_views(s.push(x)) =~= chat_views(s).push(chat_view(x)));
    assert(chat_views(s.push(x).drop_first()) =~= chat_views(s).push(chat_view(x)).drop_first());
}

/// A bounded sequence stays bounded: once at most `limit` long, `bounded_push`
/// keeps it so, and it then holds the newest `limit` elements.
pub proof fn lemma_bounded_push_stays_bounded<T>(s: Seq<T>, x: T, limit: nat)
    requires
        limit > 0,
        s.len() <= limit,
    ensures
        bounded_push(s, x, limit).len() <= limit,
        bounded_push(s, x, limit) == crate::collections::last_n(s.push(x), limit),
{
    assert(bounded_push(s, x, limit) =~= crate::collections::last_n(s.push(x), limit));
}

/// What the player sees of the game.
pub struct GameState {
    pub inventory: Vec<String>,
    pub online_players: u32,
    pub game_output: Vec<String>,
    pub chat_messages: Vec<ChatEntry>,
    pub hp: u32,
    pub max_hp: u32,
    pub group_name: Option<String>,
    pub current_room: String,
    pub current_room_name: String,
    pub npcs_in_room: Vec<String>,
}

impl GameState {
    pub fn new() -> (r: Self)
        ensures
            r.inventory@ == Seq::<String>::empty(),
            r.online_players == 0,
            r.game_output@ == Seq::<String>::empty(),
            r.chat_messages@ == Seq::<ChatEntry>::empty(),
            r.hp == 100,
            r.max_hp == 100,
            r.group_name is None,
            r.current_room@ == Seq::<char>::empty(),
            r.current_room_name@ == Seq::<char>::empty(),
            r.npcs_in_room@ == Seq::<String>::empty(),
    {
        GameState {
            inventory: Vec::new(),
            online_players: 0,
            game_output: Vec::new(),
            chat_messages: Vec::new(),
            hp: 100,
            max_hp: 100,
            group_name: None,
            current_room: String::new(),
            current_room_name: String::new(),
            npcs_in_room: Vec::new(),
        }
    }

    /// Appends a line to the game output, which keeps its newest 1000 lines.
    pub fn push_game_output(&mut self, msg: String)
        ensures
            final(self).game_output@ == bounded_push(
                old(self).game_output@,
                msg,
                MAX_GAME_OUTPUT as nat,
            ),
            views(final(self).game_output@) == bounded_push(
                views(old(self).game_output@),
                msg@,
                MAX_GAME_OUTPUT as nat,
            ),
            final(self).inventory == old(self).inventory,
            final(self).online_players == old(self).online_players,
            final(self).chat_messages == old(self).chat_messages,
            final(self).hp == old(self).hp,
            final(self).max_hp == old(self).max_hp,
            final(self).group_name == old(self).group_name,
            final(self).current_room == old(self).current_room,
            final(self).current_room_name == old(self).current_room_name,
            final(self).npcs_in_room == old(self).npcs_in_room,
    {
        proof {
            lemma_views_bounded_push(self.game_output@, msg, MAX_GAME_OUTPUT as nat);
        }
        self.game_output.push(msg);
        if self.game_output.len() > MAX_GAME_OUTPUT {
            self.game_output.remove(0);
        }
        proof {
            assert(self.game_output@ =~= bounded_push(
                old(self).game_output@,
                msg,
                MAX_GAME_OUTPUT as nat,
            ));
        }
    }

    /// Records a chat line: its display goes to the game output, and the line itself
    /// to the chat history, which keeps its newest 500 lines.
    pub fn push_chat(&mut self, scope: ChatScope, sender: String, message: String)
        ensures
            views(final(self).game_output@) == bounded_push(
                views(old(self).game_output@),
                chat_line(scope, sender@, message@),
                MAX_GAME_OUTPUT as nat,
            ),
            final(self).chat_messages@ == bounded_push(
                old(self).chat_messages@,
                (ChatEntry { scope, sender, message }),
                MAX_CHAT_MESSAGES as nat,
            ),
            chat_views(final(self).chat_messages@) == bounded_push(
                chat_views(old(self).chat_messages@),
                (scope, sender@, message@),
                MAX_CHAT_MESSAGES as nat,
            ),
            final(self).inventory == old(self).inventory,
            final(self).online_players == old(self).online_players,
            final(self).hp == old(self).hp,
            final(self).max_hp == old(self).max_hp,
            final(self).group_name == old(self).group_name,
            final(self).current_room == old(self).current_room,
            final(self).current_room_name == old(self).current_room_name,
            final(self).npcs_in_room == old(self).npcs_in_room,
    {
        let entry = ChatEntry { scope, sender, message };
        let line = entry.to_string();
        self.push_game_output(line);
        proof {
            lemma_chat_views_bounded_push(self.chat_messages@, entry, MAX_CHAT_MESSAGES as nat);
        }
        self.chat_messages.push(entry);
        if self.chat_messages.len() > MAX_CHAT_MESSAGES {
            self.chat_messages.remove(0);
        }
        proof {
            assert(self.chat_messages@ =~= bounded_push(
                old(self).chat_messages@,
                entry,
                MAX_CHAT_MESSAGES as nat,
            ));
        }
    }
}

/// What the interface shows besides the game.
pub struct UiState {
    pub game_scroll_offset: u16,
    pub show_debug: bool,
    pub show_help: bool,
    pub show_chat: bool,
    pub notifications: Vec<Notification>,
}

impl UiState {
    pub fn new() -> (r: Self)
        ensures
            r.game_scroll_offset == 0,
            !r.show_debug,
            !r.show_help,
            !r.show_chat,
            r.notifications@ == Seq::<Notification>::empty(),
    {
        UiState {
            game_scroll_offset: 0,
            show_debug: false,
            show_help: false,
            show_chat: false,
            notifications: Vec::new(),
        }
    }

    pub fn push_notification(&mut self, message: String, level: NotificationType, lifetime_ticks: u32)
        ensures
            final(self).notifications@ == old(self).notifications@.push(
                Notification { message, level, lifetime: lifetime_ticks },
            ),
            notice_views(final(self).notifications@) == notice_views(old(self).notifications@).push(
                (message@, level, lifetime_ticks),
            ),
            final(self).game_scroll_offset == old(self).game_scroll_offset,
            final(self).show_debug == old(self).show_debug,
            final(self).show_help == old(self).show_help,
            final(self).show_chat == old(self).show_chat,
    {
        let n = Notification { message, level, lifetime: lifetime_ticks };
        self.notifications.push(n);
        proof {
            assert(notice_views(self.notifications@) =~= notice_views(old(self).notifications@).push(
                notice_view(n),
            ));
        }
    }
}

/// The whole state of the client that the library reasons about.
pub struct AppState {
    pub net: NetworkState,
    pub game: GameState,
    pub ui: UiState,
    pub should_quit: bool,
}

impl AppState {
    pub fn new(ip: String, port: String) -> (r: Self)
        ensures
            r.net.connection_state == ConnectionState::Disconnected,
            r.net.server_ip == ip,
            r.net.server_port == port,
            r.game.game_output@ == Seq::<String>::empty(),
            r.game.online_players == 0,
            r.game.hp == 100,
            r.game.max_hp == 100,
            r.ui.notifications@ == Seq::<Notification>::empty(),
            !r.should_quit,
    {
        AppState {
            net: NetworkState::new(ip, port),
            game: GameState::new(),
            ui: UiState::new(),
            should_quit: false,
        }
    }
}

} // verus!
