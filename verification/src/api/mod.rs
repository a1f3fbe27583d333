pub mod events;

use crate::commands::ClientRequest;
use vstd::prelude::*;

verus! {

/// The room described by a look response.
#[derive(Debug, Clone)]
pub struct RoomInfo {
    pub id: String,
    pub name: String,
    pub description: String,
    pub exits: Vec<String>,
}

/// What the player sees on looking around.
#[derive(Debug, Clone)]
pub struct LookResponse {
    pub room: RoomInfo,
    pub players: Vec<String>,
    /// The identifiers of the NPCs in the room.
    pub npcs: Vec<String>,
    /// The identifiers of the items on the floor.
    pub items: Vec<String>,
}

/// The outcome of an attack.
#[derive(Debug, Clone, Copy, PartialEq, Eq, Structural)]
pub struct CombatResult {
    pub damage: u32,
    pub attacker_hp: u32,
    pub target_hp: u32,
}

/// The server's answer to a request.
#[derive(Debug, Clone)]
pub enum ApiResponse {
    /// The request failed, with the server's or the network's error text.
    Failed(String),
    Connect { player_name: String },
    Who { player_count: u32 },
    FightCreate,
    FightAttack,
    Status { hp: u32, max_hp: u32 },
    GroupCreate { group_id: String },
    GroupJoin { group_id: String },
    GroupInvite,
    GroupLeave,
    GlobalChat,
    PrivateChat,
    Look(LookResponse),
    Move,
    Inventory(Vec<String>),
    Quests(Vec<String>),
    Quest(String),
    Talk { dialogue: String },
    Take { item_identifier: String },
    Drop { item_identifier: String },
    Attack(CombatResult),
    Quit,
}

/// A response with the request that it answers.
#[derive(Debug, Clone)]
pub struct ResponseEnvelope {
    /// The identifier of the request, as it is printed.
    pub id: String,
    pub original_request: ClientRequest,
    pub response: ApiResponse,
    /// The response as the protocol client prints it, for the trace log.
    pub response_text: String,
}

} // verus!
