use super::{first_arg, join_all, join_args, kind_name, kind_request, request_view, ClientRequest, CommandKind};
use vstd::prelude::*;

verus! {

/// Sends all the arguments, joined by spaces, to the global chat.
pub struct ChatGlobalCommand;

impl ChatGlobalCommand {
    pub fn name(&self) -> (r: &'static str)
        ensures
            r@ == kind_name(CommandKind::ChatGlobal),
    {
        "chat_global"
    }

    /// The request sent for `args`, if they suffice.
    pub fn request(&self, args: &Vec<String>) -> (r: Option<ClientRequest>)
        ensures
            request_view(r) == kind_request(CommandKind::ChatGlobal, args@),
    {
        Some(ClientRequest::ChatGlobal(join_all(args)))
    }
}

/// Sends the arguments after the first to the player named by the first.
pub struct ChatPrivateCommand;

impl ChatPrivateCommand {
    pub fn name(&self) -> (r: &'static str)
        ensures
            r@ == kind_name(CommandKind::ChatPrivate),
    {
        "chat_private"
    }

    /// The request sent for `args`, if they suffice.
    pub fn request(&self, args: &Vec<String>) -> (r: Option<ClientRequest>)
        ensures
            request_view(r) == kind_request(CommandKind::ChatPrivate, args@),
    {
        if args.len() < 2 {
            None
        } else {
            let to = args[0].clone();
            let message = join_args(args, 1);
            proof {
                assert(args@.subrange(1, args@.len() as int) =~= args@.drop_first());
            }
            Some(ClientRequest::ChatPrivate { to, message })
        }
    }
}

/// Talks to the NPC named by all the arguments.
pub struct TalkCommand;

impl TalkCommand {
    pub fn name(&self) -> (r: &'static str)
        ensures
            r@ == kind_name(CommandKind::Talk),
    {
        "talk"
    }

    /// The request sent for `args`, if they suffice.
    pub fn request(&self, args: &Vec<String>) -> (r: Option<ClientRequest>)
        ensures
            request_view(r) == kind_request(CommandKind::Talk, args@),
    {
        if args.len() == 0 {
            None
        } else {
            Some(ClientRequest::Talk(join_all(args)))
        }
    }
}

} // verus!
