use super::{first_arg, join_all, join_args, kind_name, kind_request, request_view, ClientRequest, CommandKind};
use vstd::prelude::*;

verus! {

/// Takes the item named by the first argument.
pub struct TakeCommand;

impl TakeCommand {
    pub fn name(&self) -> (r: &'static str)
        ensures
            r@ == kind_name(CommandKind::Take),
    {
        "take"
    }

    /// The request sent for `args`, if they suffice.
    pub fn request(&self, args: &Vec<String>) -> (r: Option<ClientRequest>)
        ensures
            request_view(r) == kind_request(CommandKind::Take, args@),
            args@.len() == 0 ==> r is None,
            args@.len() > 0 ==> (r matches Some(ClientRequest::Take(a)) && a@ == args@[0]@),
    {
        match first_arg(args) {
            None => None,
            Some(a) => Some(ClientRequest::Take(a)),
        }
    }
}

/// Drops the item named by the first argument.
pub struct DropCommand;

impl DropCommand {
    pub fn name(&self) -> (r: &'static str)
        ensures
            r@ == kind_name(CommandKind::Drop),
    {
        "drop"
    }

    /// The request sent for `args`, if they suffice.
    pub fn request(&self, args: &Vec<String>) -> (r: Option<ClientRequest>)
        ensures
            request_view(r) == kind_request(CommandKind::Drop, args@),
            args@.len() == 0 ==> r is None,
            args@.len() > 0 ==> (r matches Some(ClientRequest::Drop(a)) && a@ == args@[0]@),
    {
        match first_arg(args) {
            None => None,
            Some(a) => Some(ClientRequest::Drop(a)),
        }
    }
}

/// Moves in the direction given by the first argument, sent in upper case.
pub struct MoveCommand;

impl MoveCommand {
    pub fn name(&self) -> (r: &'static str)
        ensures
            r@ == kind_name(CommandKind::Move),
    {
        "move"
    }

    /// The request sent for `args`, if they suffice.
    pub fn request(&self, args: &Vec<String>) -> (r: Option<ClientRequest>)
        ensures
            request_view(r) == kind_request(CommandKind::Move, args@),
    {
        match first_arg(args) {
            None => None,
            Some(a) => Some(ClientRequest::Move(crate::text::to_uppercase(a.as_str()))),
        }
    }
}

/// Attacks the NPC named by all the arguments.
pub struct AttackCommand;

impl AttackCommand {
    pub fn name(&self) -> (r: &'static str)
        ensures
            r@ == kind_name(CommandKind::Attack),
    {
        "attack"
    }

    /// The request sent for `args`, if they suffice.
    pub fn request(&self, args: &Vec<String>) -> (r: Option<ClientRequest>)
        ensures
            request_view(r) == kind_request(CommandKind::Attack, args@),
    {
        if args.len() == 0 {
            None
        } else {
            Some(ClientRequest::Attack(join_all(args)))
        }
    }
}

/// Asks the NPC named by all the arguments for a quest.
pub struct QuestCommand;

impl QuestCommand {
    pub fn name(&self) -> (r: &'static str)
        ensures
            r@ == kind_name(CommandKind::Quest),
    {
        "quest"
    }

    /// The request sent for `args`, if they suffice.
    pub fn request(&self, args: &Vec<String>) -> (r: Option<ClientRequest>)
        ensures
            request_view(r) == kind_request(CommandKind::Quest, args@),
    {
        if args.len() == 0 {
            None
        } else {
            Some(ClientRequest::Quest(join_all(args)))
        }
    }
}

} // verus!
