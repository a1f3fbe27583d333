use vstd::prelude::*;

verus! {

/// A chat line as the server relays it.
#[derive(Debug, Clone)]
pub struct ChatMessage {
    pub sender: String,
    pub message: String,
}

/// What happens in the player's room.
#[derive(Debug, Clone)]
pub enum RoomEvent {
    PresenceEnter(String),
    PresenceLeave(String),
    Chat(ChatMessage),
}

/// What happens in the player's group.
#[derive(Debug, Clone)]
pub enum GroupEvent {
    Chat(ChatMessage),
    Invite(String),
    Join(String),
    Leave(String),
}

/// An event that the server pushes to the client (an `EVT` line).
#[derive(Debug, Clone)]
pub enum ServerEvent {
    /// A player connected to the server.
    Connect(String),
    /// A player left the server.
    Quit(String),
    Room(RoomEvent),
    Group(GroupEvent),
    GlobalChat(ChatMessage),
    PrivateChat(ChatMessage),
    /// The number of players online.
    Stats(u32),
    /// An event line that the client does not know.
    Unknown(String),
}

} // verus!
