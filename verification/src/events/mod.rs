use crate::keys::KeyPress;
use crate::server_event::ServerEvent;
use crate::state::{ChatScope, NotificationType};
use vstd::prelude::*;

pub mod game;
pub mod net;
pub mod router;
pub mod types;
pub mod ui;

verus! {

/// What the interface asks of the network task.
#[derive(Debug, Clone)]
pub enum NetworkCommand {
    /// Log in under the given player name.
    ExecuteConnect(String),
    RequestLook,
    RequestQuit,
}

/// An error that a command came back with: the server's code, if any, and its message.
#[derive(Debug, Clone)]
pub struct CommandError {
    pub code: Option<u32>,
    pub message: String,
}

/// What changed in the game, or what a command gave.
#[derive(Debug, Clone)]
pub enum GameEvent {
    /// Update the inventory display.
    InventoryUpdate(Vec<String>),
    /// Update the online players counter.
    UpdateOnlinePlayers(u32),
    /// The user sent a chat message.
    LocalChatSent(ChatScope, String),
    /// The player's group changed.
    UpdateGroup(Option<String>),
    /// The player moved or the room was refreshed.
    UpdateRoomContext { room_id: String, room_display_name: String, npcs: Vec<String> },
    /// The player's health changed.
    UpdateStatus { hp: u32, max_hp: u32 },
    /// A user command succeeded, with its output.
    CommandResult(String),
    /// A user command failed.
    CommandError(CommandError),
    /// The user typed a command that does not exist.
    UnknowCommand(String),
    /// A raw line for the game output.
    PushGameOutput(String),
}

/// What happened on the link to the server.
#[derive(Debug, Clone)]
pub enum NetEvent {
    /// An event pushed by the game server.
    Api(ServerEvent),
    /// The connection task is up; the application holds its command channel.
    ClientConnected,
    /// Connect to the server at the address and port, as the player.
    AttemptConnect(String, String, String),
    /// Log in under the given name once the link is up.
    ExecuteConnect(String),
    /// The login succeeded.
    LoginSuccess(String),
    /// The link to the server is gone.
    ApiDisconnected,
    /// A network error, by its text.
    NetworkError(String),
    /// A protocol error, by its text.
    TapError(String),
}

/// What the terminal sent.
#[derive(Debug, Clone, Copy, PartialEq, Eq, Structural)]
pub enum TerminalInput {
    Key(KeyPress),
    /// Anything else: a mouse event, a resize, a paste.
    Other,
}

/// What happened in the interface.
#[derive(Debug, Clone)]
pub enum UiEvent {
    TerminalEvent(TerminalInput),
    /// The clock ticked.
    Tick,
    /// Show a notification for a number of ticks.
    Notification(String, NotificationType, u32),
}

/// An event of the application's queue.
#[derive(Debug, Clone)]
pub enum AppEvent {
    Game(GameEvent),
    Network(NetEvent),
    Ui(UiEvent),
}

/// What the application must do after an event was handled.
#[derive(Debug, Clone)]
pub enum Action {
    /// Put the event on the application's queue.
    Emit(AppEvent),
    /// Start the connection task: connect to `address`, then log in as `player_name`.
    OpenConnection { player_name: String, address: String },
    /// Hand the command to the connection task, through the channel the application holds.
    Command(crate::events::net::NetworkCommand),
    /// Keep the command channel of the connection task that came up.
    KeepLink,
    /// Drop the command channel of the connection task.
    DropLink,
    /// Show the game screen.
    ShowGame,
    /// Show the login screen.
    ShowLogin,
    /// Give the terminal input to the active component.
    Forward(TerminalInput),
}

/// Whether `a` queues the notification `text`, at `level`, for `ticks` ticks.
pub open spec fn is_notice(a: Action, text: Seq<char>, level: NotificationType, ticks: u32) -> bool {
    a matches Action::Emit(AppEvent::Ui(UiEvent::Notification(m, l, t))) && m@ == text && l == level
        && t == ticks
}

/// Whether `e` is the notification `text`, at `level`, for `ticks` ticks.
pub open spec fn is_notice_event(e: AppEvent, text: Seq<char>, level: NotificationType, ticks: u32) -> bool {
    e matches AppEvent::Ui(UiEvent::Notification(m, l, t)) && m@ == text && l == level && t == ticks
}

/// Whether `a` queues `text` for the game output.
pub open spec fn is_output(a: Action, text: Seq<char>) -> bool {
    a matches Action::Emit(AppEvent::Game(GameEvent::PushGameOutput(m))) && m@ == text
}

/// A notification event.
pub fn notice(text: String, level: NotificationType, ticks: u32) -> (r: AppEvent)
    ensures
        is_notice_event(r, text@, level, ticks),
{
    AppEvent::Ui(UiEvent::Notification(text, level, ticks))
}

} // verus!
