use vstd::prelude::*;

verus! {

/// A chat line relayed by the server.
#[derive(Debug, Clone)]
pub struct ChatData {
    pub sender: String,
    pub message: String,
}

/// Something that appeared in or left the room: its kind (`NPC` or `ITEM`) and identifier.
#[derive(Debug, Clone)]
pub struct SpawnData {
    pub kind: String,
    pub id: String,
}

/// A player defeated an NPC.
#[derive(Debug, Clone)]
pub struct KillData {
    pub player: String,
    pub npc_id: String,
}

/// A player died and came back in a room.
#[derive(Debug, Clone)]
pub struct DeathData {
    pub player_name: String,
    pub respawn_room_id: String,
}

/// A fight began against an NPC.
#[derive(Debug, Clone)]
pub struct FightStartData {
    pub npc_id: String,
}

/// The outcome of a player's round in a fight.
#[derive(Debug, Clone)]
pub struct FightResultData {
    pub player_name: String,
    pub success: bool,
    pub damage_dealt: u32,
}

/// What happens in the player's room.
#[derive(Debug, Clone)]
pub enum RoomEvent {
    PresenceEnter(String),
    PresenceLeave(String),
    Chat(ChatData),
    /// A player took an item from the floor.
    Take(String, String),
    /// A player dropped an item on the floor.
    Drop(String, String),
}

/// What happens in the player's group.
#[derive(Debug, Clone)]
pub enum GroupEvent {
    Invite(String),
    Join(String),
    Leave(String),
    Chat(ChatData),
    /// The group's leader moved it in a direction.
    Move(String),
}

/// The game server's own state.
#[derive(Debug, Clone, Copy, PartialEq, Eq, Structural)]
pub enum GameServerEvent {
    Connected,
    Disconnected,
}

/// An event that the server pushes to the client.
#[derive(Debug, Clone)]
pub enum ServerEvent {
    /// A player connected to the server.
    Connect(String),
    Spawn(SpawnData),
    Despawn(SpawnData),
    Kill(KillData),
    Death(DeathData),
    FightStart(FightStartData),
    FightResult(FightResultData),
    FightEnd,
    /// A player left the server.
    Quit(String),
    Room(RoomEvent),
    Group(GroupEvent),
    GlobalChat(ChatData),
    PrivateChat(ChatData),
    /// The number of players online.
    Stats(u32),
    /// An event line that the client does not know.
    Unknown(String),
    GameServer(GameServerEvent),
}

} // verus!
