use super::{first_arg, join_all, join_args, kind_name, kind_request, request_view, ClientRequest, CommandKind};
use vstd::prelude::*;

verus! {

/// Describes the current room.
pub struct LookCommand;

impl LookCommand {
    pub fn name(&self) -> (r: &'static str)
        ensures
            r@ == kind_name(CommandKind::Look),
    {
        "look"
    }

    /// The request sent for `args`, if they suffice.
    pub fn request(&self, args: &Vec<String>) -> (r: Option<ClientRequest>)
        ensures
            request_view(r) == kind_request(CommandKind::Look, args@),
    {
        Some(ClientRequest::Look)
    }
}

/// Counts the players online.
pub struct WhoCommand;

impl WhoCommand {
    pub fn name(&self) -> (r: &'static str)
        ensures
            r@ == kind_name(CommandKind::Who),
    {
        "who"
    }

    /// The request sent for `args`, if they suffice.
    pub fn request(&self, args: &Vec<String>) -> (r: Option<ClientRequest>)
        ensures
            request_view(r) == kind_request(CommandKind::Who, args@),
    {
        Some(ClientRequest::Who)
    }
}

/// Lists the player's items.
pub struct InventoryCommand;

impl InventoryCommand {
    pub fn name(&self) -> (r: &'static str)
        ensures
            r@ == kind_name(CommandKind::Inventory),
    {
        "inventory"
    }

    /// The request sent for `args`, if they suffice.
    pub fn request(&self, args: &Vec<String>) -> (r: Option<ClientRequest>)
        ensures
            request_view(r) == kind_request(CommandKind::Inventory, args@),
    {
        Some(ClientRequest::Inventory)
    }
}

/// Reports the player's health.
pub struct StatusCommand;

impl StatusCommand {
    pub fn name(&self) -> (r: &'static str)
        ensures
            r@ == kind_name(CommandKind::Status),
    {
        "status"
    }

    /// The request sent for `args`, if they suffice.
    pub fn request(&self, args: &Vec<String>) -> (r: Option<ClientRequest>)
        ensures
            request_view(r) == kind_request(CommandKind::Status, args@),
    {
        Some(ClientRequest::Status)
    }
}

/// Lists the player's quests.
pub struct QuestsCommand;

impl QuestsCommand {
    pub fn name(&self) -> (r: &'static str)
        ensures
            r@ == kind_name(CommandKind::Quests),
    {
        "quests"
    }

    /// The request sent for `args`, if they suffice.
    pub fn request(&self, args: &Vec<String>) -> (r: Option<ClientRequest>)
        ensures
            request_view(r) == kind_request(CommandKind::Quests, args@),
    {
        Some(ClientRequest::Quests)
    }
}

} // verus!
