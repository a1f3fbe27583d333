use super::{first_arg, join_all, join_args, kind_name, kind_request, request_view, ClientRequest, CommandKind};
use vstd::prelude::*;

verus! {

/// Creates a group led by the player.
pub struct GroupCreateCommand;

impl GroupCreateCommand {
    pub fn name(&self) -> (r: &'static str)
        ensures
            r@ == kind_name(CommandKind::GroupCreate),
    {
        "group_create"
    }

    /// The request sent for `args`, if they suffice.
    pub fn request(&self, args: &Vec<String>) -> (r: Option<ClientRequest>)
        ensures
            request_view(r) == kind_request(CommandKind::GroupCreate, args@),
    {
        Some(ClientRequest::GroupCreate)
    }
}

/// Invites the player named by the first argument.
pub struct GroupInviteCommand;

impl GroupInviteCommand {
    pub fn name(&self) -> (r: &'static str)
        ensures
            r@ == kind_name(CommandKind::GroupInvite),
    {
        "group_invite"
    }

    /// The request sent for `args`, if they suffice.
    pub fn request(&self, args: &Vec<String>) -> (r: Option<ClientRequest>)
        ensures
            request_view(r) == kind_request(CommandKind::GroupInvite, args@),
            args@.len() == 0 ==> r is None,
            args@.len() > 0 ==> (r matches Some(ClientRequest::GroupInvite(a)) && a@ == args@[0]@),
    {
        match first_arg(args) {
            None => None,
            Some(a) => Some(ClientRequest::GroupInvite(a)),
        }
    }
}

/// Joins the group of the leader named by the first argument.
pub struct GroupJoinCommand;

impl GroupJoinCommand {
    pub fn name(&self) -> (r: &'static str)
        ensures
            r@ == kind_name(CommandKind::GroupJoin),
    {
        "group_join"
    }

    /// The request sent for `args`, if they suffice.
    pub fn request(&self, args: &Vec<String>) -> (r: Option<ClientRequest>)
        ensures
            request_view(r) == kind_request(CommandKind::GroupJoin, args@),
            args@.len() == 0 ==> r is None,
            args@.len() > 0 ==> (r matches Some(ClientRequest::GroupJoin(a)) && a@ == args@[0]@),
    {
        match first_arg(args) {
            None => None,
            Some(a) => Some(ClientRequest::GroupJoin(a)),
        }
    }
}

/// Leaves the current group.
pub struct GroupLeaveCommand;

impl GroupLeaveCommand {
    pub fn name(&self) -> (r: &'static str)
        ensures
            r@ == kind_name(CommandKind::GroupLeave),
    {
        "group_leave"
    }

    /// The request sent for `args`, if they suffice.
    pub fn request(&self, args: &Vec<String>) -> (r: Option<ClientRequest>)
        ensures
            request_view(r) == kind_request(CommandKind::GroupLeave, args@),
    {
        Some(ClientRequest::GroupLeave)
    }
}

} // verus!
