use crate::state::{bounded_push, AppState, MAX_GAME_OUTPUT};
use crate::text::{join_from, joined, same_text, split_whitespace, views, words};
use vstd::prelude::*;
use vstd::string::*;

pub mod action;
pub mod chat;
pub mod dispatch;
pub mod group;
pub mod info;

pub use dispatch::{send_result, Reply};

verus! {

/// A request that a command sends to the server.
#[derive(Debug, Clone)]
pub enum ClientRequest {
    Look,
    Who,
    Inventory,
    Status,
    Quests,
    Take(String),
    Drop(String),
    /// A move, in the direction given in upper case.
    Move(String),
    Attack(String),
    Quest(String),
    ChatGlobal(String),
    ChatPrivate { to: String, message: String },
    Talk(String),
    GroupCreate,
    GroupInvite(String),
    GroupJoin(String),
    GroupLeave,
}

/// A request taken by the views of its texts.
pub enum RequestView {
    Look,
    Who,
    Inventory,
    Status,
    Quests,
    Take(Seq<char>),
    Drop(Seq<char>),
    Move(Seq<char>),
    Attack(Seq<char>),
    Quest(Seq<char>),
    ChatGlobal(Seq<char>),
    ChatPrivate(Seq<char>, Seq<char>),
    Talk(Seq<char>),
    GroupCreate,
    GroupInvite(Seq<char>),
    GroupJoin(Seq<char>),
    GroupLeave,
}

impl View for ClientRequest {
    type V = RequestView;

    open spec fn view(&self) -> RequestView {
        match self {
            ClientRequest::Look => RequestView::Look,
            ClientRequest::Who => RequestView::Who,
            ClientRequest::Inventory => RequestView::Inventory,
            ClientRequest::Status => RequestView::Status,
            ClientRequest::Quests => RequestView::Quests,
            ClientRequest::Take(s) => RequestView::Take(s@),
            ClientRequest::Drop(s) => RequestView::Drop(s@),
            ClientRequest::Move(s) => RequestView::Move(s@),
            ClientRequest::Attack(s) => RequestView::Attack(s@),
            ClientRequest::Quest(s) => RequestView::Quest(s@),
            ClientRequest::ChatGlobal(s) => RequestView::ChatGlobal(s@),
            ClientRequest::ChatPrivate { to, message } => RequestView::ChatPrivate(to@, message@),
            ClientRequest::Talk(s) => RequestView::Talk(s@),
            ClientRequest::GroupCreate => RequestView::GroupCreate,
            ClientRequest::GroupInvite(s) => RequestView::GroupInvite(s@),
            ClientRequest::GroupJoin(s) => RequestView::GroupJoin(s@),
            ClientRequest::GroupLeave => RequestView::GroupLeave,
        }
    }
}

/// The view of an optional request.
pub open spec fn request_view(r: Option<ClientRequest>) -> Option<RequestView> {
    match r {
        Some(req) => Some(req@),
        None => None,
    }
}

/// The arguments joined by single spaces.
pub open spec fn spaced(args: Seq<String>) -> Seq<char> {
    joined(views(args), " "@)
}

/// Joins `args[from..]` with single spaces.
pub fn join_args(args: &Vec<String>, from: usize) -> (r: String)
    requires
        from <= args@.len(),
    ensures
        r@ == spaced(args@.subrange(from as int, args@.len() as int)),
{
    join_from(args, from, " ")
}

/// Joins all the arguments with single spaces.
pub fn join_all(args: &Vec<String>) -> (r: String)
    ensures
        r@ == spaced(args@),
{
    assert(args@.subrange(0, args@.len() as int) =~= args@);
    join_from(args, 0, " ")
}

/// The first argument, when there is one.
pub fn first_arg(args: &Vec<String>) -> (r: Option<String>)
    ensures
        args@.len() == 0 ==> r is None,
        args@.len() > 0 ==> (r matches Some(a) && a@ == args@[0]@),
{
    if args.len() == 0 {
        None
    } else {
        Some(args[0].clone())
    }
}

/// Every command that the registry knows.
#[derive(Debug, Clone, Copy, PartialEq, Eq, Structural)]
pub enum CommandKind {
    ChatGlobal,
    ChatPrivate,
    Talk,
    Look,
    Who,
    Inventory,
    Status,
    Quests,
    Take,
    Drop,
    Move,
    Attack,
    Quest,
    GroupCreate,
    GroupInvite,
    GroupJoin,
    GroupLeave,
}

/// The name under which a command is typed.
pub open spec fn kind_name(k: CommandKind) -> Seq<char> {
    match k {
        CommandKind::ChatGlobal => "chat_global"@,
        CommandKind::ChatPrivate => "chat_private"@,
        CommandKind::Talk => "talk"@,
        CommandKind::Look => "look"@,
        CommandKind::Who => "who"@,
        CommandKind::Inventory => "inventory"@,
        CommandKind::Status => "status"@,
        CommandKind::Quests => "quests"@,
        CommandKind::Take => "take"@,
        CommandKind::Drop => "drop"@,
        CommandKind::Move => "move"@,
        CommandKind::Attack => "attack"@,
        CommandKind::Quest => "quest"@,
        CommandKind::GroupCreate => "group_create"@,
        CommandKind::GroupInvite => "group_invite"@,
        CommandKind::GroupJoin => "group_join"@,
        CommandKind::GroupLeave => "group_leave"@,
    }
}

/// The request that a command makes of its arguments, or `None` when they do not
/// suffice.
pub open spec fn kind_request(k: CommandKind, args: Seq<String>) -> Option<RequestView> {
    match k {
        CommandKind::ChatGlobal => Some(RequestView::ChatGlobal(spaced(args))),
        CommandKind::ChatPrivate => if args.len() < 2 {
            None
        } else {
            Some(RequestView::ChatPrivate(args[0]@, spaced(args.drop_first())))
        },
        CommandKind::Talk => if args.len() == 0 {
            None
        } else {
            Some(RequestView::Talk(spaced(args)))
        },
        CommandKind::Look => Some(RequestView::Look),
        CommandKind::Who => Some(RequestView::Who),
        CommandKind::Inventory => Some(RequestView::Inventory),
        CommandKind::Status => Some(RequestView::Status),
        CommandKind::Quests => Some(RequestView::Quests),
        CommandKind::Take => if args.len() == 0 {
            None
        } else {
            Some(RequestView::Take(args[0]@))
        },
        CommandKind::Drop => if args.len() == 0 {
            None
        } else {
            Some(RequestView::Drop(args[0]@))
        },
        CommandKind::Move => if args.len() == 0 {
            None
        } else {
            Some(RequestView::Move(crate::text::uppercase_of(args[0]@)))
        },
        CommandKind::Attack => if args.len() == 0 {
            None
        } else {
            Some(RequestView::Attack(spaced(args)))
        },
        CommandKind::Quest => if args.len() == 0 {
            None
        } else {
            Some(RequestView::Quest(spaced(args)))
        },
        CommandKind::GroupCreate => Some(RequestView::GroupCreate),
        CommandKind::GroupInvite => if args.len() == 0 {
            None
        } else {
            Some(RequestView::GroupInvite(args[0]@))
        },
        CommandKind::GroupJoin => if args.len() == 0 {
            None
        } else {
            Some(RequestView::GroupJoin(args[0]@))
        },
        CommandKind::GroupLeave => Some(RequestView::GroupLeave),
    }
}

/// The command under which a request is sent.
pub open spec fn request_command(v: RequestView) -> CommandKind {
    match v {
        RequestView::Look => CommandKind::Look,
        RequestView::Who => CommandKind::Who,
        RequestView::Inventory => CommandKind::Inventory,
        RequestView::Status => CommandKind::Status,
        RequestView::Quests => CommandKind::Quests,
        RequestView::Take(_) => CommandKind::Take,
        RequestView::Drop(_) => CommandKind::Drop,
        RequestView::Move(_) => CommandKind::Move,
        RequestView::Attack(_) => CommandKind::Attack,
        RequestView::Quest(_) => CommandKind::Quest,
        RequestView::ChatGlobal(_) => CommandKind::ChatGlobal,
        RequestView::ChatPrivate(_, _) => CommandKind::ChatPrivate,
        RequestView::Talk(_) => CommandKind::Talk,
        RequestView::GroupCreate => CommandKind::GroupCreate,
        RequestView::GroupInvite(_) => CommandKind::GroupInvite,
        RequestView::GroupJoin(_) => CommandKind::GroupJoin,
        RequestView::GroupLeave => CommandKind::GroupLeave,
    }
}

/// Every command, when it sends anything, sends a request of its own kind: `drop`
/// never sends a take, `take` never a drop, and so on.
pub proof fn law_commands_send_their_own_kind(k: CommandKind, args: Seq<String>)
    ensures
        kind_request(k, args) matches Some(v) ==> request_command(v) == k,
{
}

/// The commands that act on one thing send it as their first argument, and send
/// nothing without one: `take x` takes `x`, `drop x` drops `x`, `group_invite p`
/// invites `p`, `group_join l` joins `l`, and `move d` moves towards `d` in capitals.
pub proof fn law_single_target_commands(args: Seq<String>)
    ensures
        args.len() == 0 ==> kind_request(CommandKind::Take, args) is None && kind_request(
            CommandKind::Drop,
            args,
        ) is None && kind_request(CommandKind::Move, args) is None && kind_request(
            CommandKind::GroupInvite,
            args,
        ) is None && kind_request(CommandKind::GroupJoin, args) is None,
        args.len() > 0 ==> {
            &&& kind_request(CommandKind::Take, args) == Some(RequestView::Take(args[0]@))
            &&& kind_request(CommandKind::Drop, args) == Some(RequestView::Drop(args[0]@))
            &&& kind_request(CommandKind::Move, args) == Some(
                RequestView::Move(crate::text::uppercase_of(args[0]@)),
            )
            &&& kind_request(CommandKind::GroupInvite, args) == Some(RequestView::GroupInvite(args[0]@))
            &&& kind_request(CommandKind::GroupJoin, args) == Some(RequestView::GroupJoin(args[0]@))
        },
{
}

impl CommandKind {
    pub fn name(&self) -> (r: &'static str)
        ensures
            r@ == kind_name(*self),
    {
        match self {
            CommandKind::ChatGlobal => chat::ChatGlobalCommand.name(),
            CommandKind::ChatPrivate => chat::ChatPrivateCommand.name(),
            CommandKind::Talk => chat::TalkCommand.name(),
            CommandKind::Look => info::LookCommand.name(),
            CommandKind::Who => info::WhoCommand.name(),
            CommandKind::Inventory => info::InventoryCommand.name(),
            CommandKind::Status => info::StatusCommand.name(),
            CommandKind::Quests => info::QuestsCommand.name(),
            CommandKind::Take => action::TakeCommand.name(),
            CommandKind::Drop => action::DropCommand.name(),
            CommandKind::Move => action::MoveCommand.name(),
            CommandKind::Attack => action::AttackCommand.name(),
            CommandKind::Quest => action::QuestCommand.name(),
            CommandKind::GroupCreate => group::GroupCreateCommand.name(),
            CommandKind::GroupInvite => group::GroupInviteCommand.name(),
            CommandKind::GroupJoin => group::GroupJoinCommand.name(),
            CommandKind::GroupLeave => group::GroupLeaveCommand.name(),
        }
    }

    /// The request that the command sends for `args`, if they suffice.
    pub fn request(&self, args: &Vec<String>) -> (r: Option<ClientRequest>)
        ensures
            request_view(r) == kind_request(*self, args@),
    {
        match self {
            CommandKind::ChatGlobal => chat::ChatGlobalCommand.request(args),
            CommandKind::ChatPrivate => chat::ChatPrivateCommand.request(args),
            CommandKind::Talk => chat::TalkCommand.request(args),
            CommandKind::Look => info::LookCommand.request(args),
            CommandKind::Who => info::WhoCommand.request(args),
            CommandKind::Inventory => info::InventoryCommand.request(args),
            CommandKind::Status => info::StatusCommand.request(args),
            CommandKind::Quests => info::QuestsCommand.request(args),
            CommandKind::Take => action::TakeCommand.request(args),
            CommandKind::Drop => action::DropCommand.request(args),
            CommandKind::Move => action::MoveCommand.request(args),
            CommandKind::Attack => action::AttackCommand.request(args),
            CommandKind::Quest => action::QuestCommand.request(args),
            CommandKind::GroupCreate => group::GroupCreateCommand.request(args),
            CommandKind::GroupInvite => group::GroupInviteCommand.request(args),
            CommandKind::GroupJoin => group::GroupJoinCommand.request(args),
            CommandKind::GroupLeave => group::GroupLeaveCommand.request(args),
        }
    }
}

/// The commands in the order in which the registry registers them.
pub open spec fn registered_commands() -> Seq<CommandKind> {
    seq![
        CommandKind::ChatGlobal,
        CommandKind::ChatPrivate,
        CommandKind::Talk,
        CommandKind::Look,
        CommandKind::Who,
        CommandKind::Inventory,
        CommandKind::Status,
        CommandKind::Quests,
        CommandKind::Take,
        CommandKind::Drop,
        CommandKind::Move,
        CommandKind::Attack,
        CommandKind::Quest,
        CommandKind::GroupCreate,
        CommandKind::GroupInvite,
        CommandKind::GroupJoin,
        CommandKind::GroupLeave,
    ]
}

/// The first command in `cmds` named `name`.
pub open spec fn first_named(cmds: Seq<CommandKind>, name: Seq<char>) -> Option<CommandKind>
    decreases cmds.len(),
{
    if cmds.len() == 0 {
        None
    } else if kind_name(cmds[0]) == name {
        Some(cmds[0])
    } else {
        first_named(cmds.drop_first(), name)
    }
}

/// What the registry does with a typed command.
#[derive(Debug, Clone)]
pub enum Execution {
    /// No command has that name.
    Unknown,
    /// The command exists but its arguments do not suffice; nothing is sent.
    Ignored,
    /// The command sends this request.
    Send(ClientRequest),
}

/// The table of commands, looked up by name.
pub struct CommandRegistry {
    commands: Vec<CommandKind>,
}

impl View for CommandRegistry {
    type V = Seq<CommandKind>;

    closed spec fn view(&self) -> Seq<CommandKind> {
        self.commands@
    }
}

impl CommandRegistry {
    /// A registry holding every command.
    pub fn new() -> (r: Self)
        ensures
            r@ == registered_commands(),
    {
        let mut registry = CommandRegistry { commands: Vec::new() };
        registry.register_all();
        assert(registry.commands@ =~= registered_commands());
        registry
    }

    fn register(&mut self, cmd: CommandKind)
        ensures
            final(self)@ == old(self)@.push(cmd),
    {
        self.commands.push(cmd);
    }

    fn register_all(&mut self)
        ensures
            final(self)@ == old(self)@ + registered_commands(),
    {
        self.register(CommandKind::ChatGlobal);
        self.register(CommandKind::ChatPrivate);
        self.register(CommandKind::Talk);
        self.register(CommandKind::Look);
        self.register(CommandKind::Who);
        self.register(CommandKind::Inventory);
        self.register(CommandKind::Status);
        self.register(CommandKind::Quests);
        self.register(CommandKind::Take);
        self.register(CommandKind::Drop);
        self.register(CommandKind::Move);
        self.register(CommandKind::Attack);
        self.register(CommandKind::Quest);
        self.register(CommandKind::GroupCreate);
        self.register(CommandKind::GroupInvite);
        self.register(CommandKind::GroupJoin);
        self.register(CommandKind::GroupLeave);
        assert(self.commands@ =~= old(self)@ + registered_commands());
    }

    /// The command registered under `name`.
    pub fn find(&self, name: &str) -> (r: Option<CommandKind>)
        ensures
            r == first_named(self@, name@),
    {
        let mut i: usize = 0;
        assert(self@.subrange(0, self@.len() as int) =~= self@);
        while i < self.commands.len()
            invariant
                i <= self@.len(),
                first_named(self@, name@) == first_named(self@.subrange(i as int, self@.len() as int), name@),
            decreases self@.len() - i,
        {
            let k = self.commands[i];
            proof {
                let rest = self@.subrange(i as int, self@.len() as int);
                assert(rest[0] == k);
                assert(rest.drop_first() =~= self@.subrange(i + 1, self@.len() as int));
            }
            if same_text(k.name(), name) {
                return Some(k);
            }
            i = i + 1;
        }
        None
    }

    /// Resolves a typed command: unknown, ignored for want of arguments, or the
    /// request to send.
    pub fn execute(&self, cmd_name: &str, args: &Vec<String>) -> (r: Execution)
        ensures
            first_named(self@, cmd_name@) is None ==> r is Unknown,
            first_named(self@, cmd_name@) matches Some(k) ==> match r {
                Execution::Unknown => false,
                Execution::Ignored => kind_request(k, args@) is None,
                Execution::Send(req) => kind_request(k, args@) == Some(req@),
            },
    {
        match self.find(cmd_name) {
            None => Execution::Unknown,
            Some(k) => match k.request(args) {
                None => Execution::Ignored,
                Some(req) => Execution::Send(req),
            },
        }
    }
}

/// Lookup in the full registry finds each command under its own name: the names
/// are pairwise distinct.
pub proof fn lemma_registry_finds_each_command(k: CommandKind)
    ensures
        first_named(registered_commands(), kind_name(k)) == Some(k),
{
    lemma_names_distinct();
    reveal_with_fuel(first_named, 18);
}

/// No two commands share a name.
pub proof fn lemma_names_distinct()
    ensures
        forall|a: CommandKind, b: CommandKind| a != b ==> kind_name(a) != kind_name(b),
{
    reveal_strlit("chat_global");
    reveal_strlit("chat_private");
    reveal_strlit("talk");
    reveal_strlit("look");
    reveal_strlit("who");
    reveal_strlit("inventory");
    reveal_strlit("status");
    reveal_strlit("quests");
    reveal_strlit("take");
    reveal_strlit("drop");
    reveal_strlit("move");
    reveal_strlit("attack");
    reveal_strlit("quest");
    reveal_strlit("group_create");
    reveal_strlit("group_invite");
    reveal_strlit("group_join");
    reveal_strlit("group_leave");
    assert forall|a: CommandKind, b: CommandKind| a != b implies kind_name(a) != kind_name(b) by {
        match (a, b) {
            (CommandKind::ChatGlobal, CommandKind::ChatPrivate) => assert(kind_name(a).len() != kind_name(b).len()),
            (CommandKind::ChatGlobal, CommandKind::Talk) => assert(kind_name(a).len() != kind_name(b).len()),
            (CommandKind::ChatGlobal, CommandKind::Look) => assert(kind_name(a).len() != kind_name(b).len()),
            (CommandKind::ChatGlobal, CommandKind::Who) => assert(kind_name(a).len() != kind_name(b).len()),
            (CommandKind::ChatGlobal, CommandKind::Inventory) => assert(kind_name(a).len() != kind_name(b).len()),
            (CommandKind::ChatGlobal, CommandKind::Status) => assert(kind_name(a).len() != kind_name(b).len()),
            (CommandKind::ChatGlobal, CommandKind::Quests) => assert(kind_name(a).len() != kind_name(b).len()),
            (CommandKind::ChatGlobal, CommandKind::Take) => assert(kind_name(a).len() != kind_name(b).len()),
            (CommandKind::ChatGlobal, CommandKind::Drop) => assert(kind_name(a).len() != kind_name(b).len()),
            (CommandKind::ChatGlobal, CommandKind::Move) => assert(kind_name(a).len() != kind_name(b).len()),
            (CommandKind::ChatGlobal, CommandKind::Attack) => assert(kind_name(a).len() != kind_name(b).len()),
            (CommandKind::ChatGlobal, CommandKind::Quest) => assert(kind_name(a).len() != kind_name(b).len()),
            (CommandKind::ChatGlobal, CommandKind::GroupCreate) => assert(kind_name(a).len() != kind_name(b).len()),
            (CommandKind::ChatGlobal, CommandKind::GroupInvite) => assert(kind_name(a).len() != kind_name(b).len()),
            (CommandKind::ChatGlobal, CommandKind::GroupJoin) => assert(kind_name(a).len() != kind_name(b).len()),
            (CommandKind::ChatGlobal, CommandKind::GroupLeave) => assert(kind_name(a)[0] != kind_name(b)[0]),
            (CommandKind::ChatPrivate, CommandKind::ChatGlobal) => assert(kind_name(a).len() != kind_name(b).len()),
            (CommandKind::ChatPrivate, CommandKind::Talk) => assert(kind_name(a).len() != kind_name(b).len()),
            (CommandKind::ChatPrivate, CommandKind::Look) => assert(kind_name(a).len() != kind_name(b).len()),
            (CommandKind::ChatPrivate, CommandKind::Who) => assert(kind_name(a).len() != kind_name(b).len()),
            (CommandKind::ChatPrivate, CommandKind::Inventory) => assert(kind_name(a).len() != kind_name(b).len()),
            (CommandKind::ChatPrivate, CommandKind::Status) => assert(kind_name(a).len() != kind_name(b).len()),
            (CommandKind::ChatPrivate, CommandKind::Quests) => assert(kind_name(a).len() != kind_name(b).len()),
            (CommandKind::ChatPrivate, CommandKind::Take) => assert(kind_name(a).len() != kind_name(b).len()),
            (CommandKind::ChatPrivate, CommandKind::Drop) => assert(kind_name(a).len() != kind_name(b).len()),
            (CommandKind::ChatPrivate, CommandKind::Move) => assert(kind_name(a).len() != kind_name(b).len()),
            (CommandKind::ChatPrivate, CommandKind::Attack) => assert(kind_name(a).len() != kind_name(b).len()),
            (CommandKind::ChatPrivate, CommandKind::Quest) => assert(kind_name(a).len() != kind_name(b).len()),
            (CommandKind::ChatPrivate, CommandKind::GroupCreate) => assert(kind_name(a)[0] != kind_name(b)[0]),
            (CommandKind::ChatPrivate, CommandKind::GroupInvite) => assert(kind_name(a)[0] != kind_name(b)[0]),
            (CommandKind::ChatPrivate, CommandKind::GroupJoin) => assert(kind_name(a).len() != kind_name(b).len()),
            (CommandKind::ChatPrivate, CommandKind::GroupLeave) => assert(kind_name(a).len() != kind_name(b).len()),
            (CommandKind::Talk, CommandKind::ChatGlobal) => assert(kind_name(a).len() != kind_name(b).len()),
            (CommandKind::Talk, CommandKind::ChatPrivate) => assert(kind_name(a).len() != kind_name(b).len()),
            (CommandKind::Talk, CommandKind::Look) => assert(kind_name(a)[0] != kind_name(b)[0]),
            (CommandKind::Talk, CommandKind::Who) => assert(kind_name(a).len() != kind_name(b).len()),
            (CommandKind::Talk, CommandKind::Inventory) => assert(kind_name(a).len() != kind_name(b).len()),
            (CommandKind::Talk, CommandKind::Status) => assert(kind_name(a).len() != kind_name(b).len()),
            (CommandKind::Talk, CommandKind::Quests) => assert(kind_name(a).len() != kind_name(b).len()),
            (CommandKind::Talk, CommandKind::Take) => assert(kind_name(a)[2] != kind_name(b)[2]),
            (CommandKind::Talk, CommandKind::Drop) => assert(kind_name(a)[0] != kind_name(b)[0]),
            (CommandKind::Talk, CommandKind::Move) => assert(kind_name(a)[0] != kind_name(b)[0]),
            (CommandKind::Talk, CommandKind::Attack) => assert(kind_name(a).len() != kind_name(b).len()),
            (CommandKind::Talk, CommandKind::Quest) => assert(kind_name(a).len() != kind_name(b).len()),
            (CommandKind::Talk, CommandKind::GroupCreate) => assert(kind_name(a).len() != kind_name(b).len()),
            (CommandKind::Talk, CommandKind::GroupInvite) => assert(kind_name(a).len() != kind_name(b).len()),
            (CommandKind::Talk, CommandKind::GroupJoin) => assert(kind_name(a).len() != kind_name(b).len()),
            (CommandKind::Talk, CommandKind::GroupLeave) => assert(kind_name(a).len() != kind_name(b).len()),
            (CommandKind::Look, CommandKind::ChatGlobal) => assert(kind_name(a).len() != kind_name(b).len()),
            (CommandKind::Look, CommandKind::ChatPrivate) => assert(kind_name(a).len() != kind_name(b).len()),
            (CommandKind::Look, CommandKind::Talk) => assert(kind_name(a)[0] != kind_name(b)[0]),
            (CommandKind::Look, CommandKind::Who) => assert(kind_name(a).len() != kind_name(b).len()),
            (CommandKind::Look, CommandKind::Inventory) => assert(kind_name(a).len() != kind_name(b).len()),
            (CommandKind::Look, CommandKind::Status) => assert(kind_name(a).len() != kind_name(b).len()),
            (CommandKind::Look, CommandKind::Quests) => assert(kind_name(a).len() != kind_name(b).len()),
            (CommandKind::Look, CommandKind::Take) => assert(kind_name(a)[0] != kind_name(b)[0]),
            (CommandKind::Look, CommandKind::Drop) => assert(kind_name(a)[0] != kind_name(b)[0]),
            (CommandKind::Look, CommandKind::Move) => assert(kind_name(a)[0] != kind_name(b)[0]),
            (CommandKind::Look, CommandKind::Attack) => assert(kind_name(a).len() != kind_name(b).len()),
            (CommandKind::Look, CommandKind::Quest) => assert(kind_name(a).len() != kind_name(b).len()),
            (CommandKind::Look, CommandKind::GroupCreate) => assert(kind_name(a).len() != kind_name(b).len()),
            (CommandKind::Look, CommandKind::GroupInvite) => assert(kind_name(a).len() != kind_name(b).len()),
            (CommandKind::Look, CommandKind::GroupJoin) => assert(kind_name(a).len() != kind_name(b).len()),
            (CommandKind::Look, CommandKind::GroupLeave) => assert(kind_name(a).len() != kind_name(b).len()),
            (CommandKind::Who, CommandKind::ChatGlobal) => assert(kind_name(a).len() != kind_name(b).len()),
            (CommandKind::Who, CommandKind::ChatPrivate) => assert(kind_name(a).len() != kind_name(b).len()),
            (CommandKind::Who, CommandKind::Talk) => assert(kind_name(a).len() != kind_name(b).len()),
            (CommandKind::Who, CommandKind::Look) => assert(kind_name(a).len() != kind_name(b).len()),
            (CommandKind::Who, CommandKind::Inventory) => assert(kind_name(a).len() != kind_name(b).len()),
            (CommandKind::Who, CommandKind::Status) => assert(kind_name(a).len() != kind_name(b).len()),
            (CommandKind::Who, CommandKind::Quests) => assert(kind_name(a).len() != kind_name(b).len()),
            (CommandKind::Who, CommandKind::Take) => assert(kind_name(a).len() != kind_name(b).len()),
            (CommandKind::Who, CommandKind::Drop) => assert(kind_name(a).len() != kind_name(b).len()),
            (CommandKind::Who, CommandKind::Move) => assert(kind_name(a).len() != kind_name(b).len()),
            (CommandKind::Who, CommandKind::Attack) => assert(kind_name(a).len() != kind_name(b).len()),
            (CommandKind::Who, CommandKind::Quest) => assert(kind_name(a).len() != kind_name(b).len()),
            (CommandKind::Who, CommandKind::GroupCreate) => assert(kind_name(a).len() != kind_name(b).len()),
            (CommandKind::Who, CommandKind::GroupInvite) => assert(kind_name(a).len() != kind_name(b).len()),
            (CommandKind::Who, CommandKind::GroupJoin) => assert(kind_name(a).len() != kind_name(b).len()),
            (CommandKind::Who, CommandKind::GroupLeave) => assert(kind_name(a).len() != kind_name(b).len()),
            (CommandKind::Inventory, CommandKind::ChatGlobal) => assert(kind_name(a).len() != kind_name(b).len()),
            (CommandKind::Inventory, CommandKind::ChatPrivate) => assert(kind_name(a).len() != kind_name(b).len()),
            (CommandKind::Inventory, CommandKind::Talk) => assert(kind_name(a).len() != kind_name(b).len()),
            (CommandKind::Inventory, CommandKind::Look) => assert(kind_name(a).len() != kind_name(b).len()),
            (CommandKind::Inventory, CommandKind::Who) => assert(kind_name(a).len() != kind_name(b).len()),
            (CommandKind::Inventory, CommandKind::Status) => assert(kind_name(a).len() != kind_name(b).len()),
            (CommandKind::Inventory, CommandKind::Quests) => assert(kind_name(a).len() != kind_name(b).len()),
            (CommandKind::Inventory, CommandKind::Take) => assert(kind_name(a).len() != kind_name(b).len()),
            (CommandKind::Inventory, CommandKind::Drop) => assert(kind_name(a).len() != kind_name(b).len()),
            (CommandKind::Inventory, CommandKind::Move) => assert(kind_name(a).len() != kind_name(b).len()),
            (CommandKind::Inventory, CommandKind::Attack) => assert(kind_name(a).len() != kind_name(b).len()),
            (CommandKind::Inventory, CommandKind::Quest) => assert(kind_name(a).len() != kind_name(b).len()),
            (CommandKind::Inventory, CommandKind::GroupCreate) => assert(kind_name(a).len() != kind_name(b).len()),
            (CommandKind::Inventory, CommandKind::GroupInvite) => assert(kind_name(a).len() != kind_name(b).len()),
            (CommandKind::Inventory, CommandKind::GroupJoin) => assert(kind_name(a).len() != kind_name(b).len()),
            (CommandKind::Inventory, CommandKind::GroupLeave) => assert(kind_name(a).len() != kind_name(b).len()),
            (CommandKind::Status, CommandKind::ChatGlobal) => assert(kind_name(a).len() != kind_name(b).len()),
            (CommandKind::Status, CommandKind::ChatPrivate) => assert(kind_name(a).len() != kind_name(b).len()),
            (CommandKind::Status, CommandKind::Talk) => assert(kind_name(a).len() != kind_name(b).len()),
            (CommandKind::Status, CommandKind::Look) => assert(kind_name(a).len() != kind_name(b).len()),
            (CommandKind::Status, CommandKind::Who) => assert(kind_name(a).len() != kind_name(b).len()),
            (CommandKind::Status, CommandKind::Inventory) => assert(kind_name(a).len() != kind_name(b).len()),
            (CommandKind::Status, CommandKind::Quests) => assert(kind_name(a)[0] != kind_name(b)[0]),
            (CommandKind::Status, CommandKind::Take) => assert(kind_name(a).len() != kind_name(b).len()),
            (CommandKind::Status, CommandKind::Drop) => assert(kind_name(a).len() != kind_name(b).len()),
            (CommandKind::Status, CommandKind::Move) => assert(kind_name(a).len() != kind_name(b).len()),
            (CommandKind::Status, CommandKind::Attack) => assert(kind_name(a)[0] != kind_name(b)[0]),
            (CommandKind::Status, CommandKind::Quest) => assert(kind_name(a).len() != kind_name(b).len()),
            (CommandKind::Status, CommandKind::GroupCreate) => assert(kind_name(a).len() != kind_name(b).len()),
            (CommandKind::Status, CommandKind::GroupInvite) => assert(kind_name(a).len() != kind_name(b).len()),
            (CommandKind::Status, CommandKind::GroupJoin) => assert(kind_name(a).len() != kind_name(b).len()),
            (CommandKind::Status, CommandKind::GroupLeave) => assert(kind_name(a).len() != kind_name(b).len()),
            (CommandKind::Quests, CommandKind::ChatGlobal) => assert(kind_name(a).len() != kind_name(b).len()),
            (CommandKind::Quests, CommandKind::ChatPrivate) => assert(kind_name(a).len() != kind_name(b).len()),
            (CommandKind::Quests, CommandKind::Talk) => assert(kind_name(a).len() != kind_name(b).len()),
            (CommandKind::Quests, CommandKind::Look) => assert(kind_name(a).len() != kind_name(b).len()),
            (CommandKind::Quests, CommandKind::Who) => assert(kind_name(a).len() != kind_name(b).len()),
            (CommandKind::Quests, CommandKind::Inventory) => assert(kind_name(a).len() != kind_name(b).len()),
            (CommandKind::Quests, CommandKind::Status) => assert(kind_name(a)[0] != kind_name(b)[0]),
            (CommandKind::Quests, CommandKind::Take) => assert(kind_name(a).len() != kind_name(b).len()),
            (CommandKind::Quests, CommandKind::Drop) => assert(kind_name(a).len() != kind_name(b).len()),
            (CommandKind::Quests, CommandKind::Move) => assert(kind_name(a).len() != kind_name(b).len()),
            (CommandKind::Quests, CommandKind::Attack) => assert(kind_name(a)[0] != kind_name(b)[0]),
            (CommandKind::Quests, CommandKind::Quest) => assert(kind_name(a).len() != kind_name(b).len()),
            (CommandKind::Quests, CommandKind::GroupCreate) => assert(kind_name(a).len() != kind_name(b).len()),
            (CommandKind::Quests, CommandKind::GroupInvite) => assert(kind_name(a).len() != kind_name(b).len()),
            (CommandKind::Quests, CommandKind::GroupJoin) => assert(kind_name(a).len() != kind_name(b).len()),
            (CommandKind::Quests, CommandKind::GroupLeave) => assert(kind_name(a).len() != kind_name(b).len()),
            (CommandKind::Take, CommandKind::ChatGlobal) => assert(kind_name(a).len() != kind_name(b).len()),
            (CommandKind::Take, CommandKind::ChatPrivate) => assert(kind_name(a).len() != kind_name(b).len()),
            (CommandKind::Take, CommandKind::Talk) => assert(kind_name(a)[2] != kind_name(b)[2]),
            (CommandKind::Take, CommandKind::Look) => assert(kind_name(a)[0] != kind_name(b)[0]),
            (CommandKind::Take, CommandKind::Who) => assert(kind_name(a).len() != kind_name(b).len()),
            (CommandKind::Take, CommandKind::Inventory) => assert(kind_name(a).len() != kind_name(b).len()),
            (CommandKind::Take, CommandKind::Status) => assert(kind_name(a).len() != kind_name(b).len()),
            (CommandKind::Take, CommandKind::Quests) => assert(kind_name(a).len() != kind_name(b).len()),
            (CommandKind::Take, CommandKind::Drop) => assert(kind_name(a)[0] != kind_name(b)[0]),
            (CommandKind::Take, CommandKind::Move) => assert(kind_name(a)[0] != kind_name(b)[0]),
            (CommandKind::Take, CommandKind::Attack) => assert(kind_name(a).len() != kind_name(b).len()),
            (CommandKind::Take, CommandKind::Quest) => assert(kind_name(a).len() != kind_name(b).len()),
            (CommandKind::Take, CommandKind::GroupCreate) => assert(kind_name(a).len() != kind_name(b).len()),
            (CommandKind::Take, CommandKind::GroupInvite) => assert(kind_name(a).len() != kind_name(b).len()),
            (CommandKind::Take, CommandKind::GroupJoin) => assert(kind_name(a).len() != kind_name(b).len()),
            (CommandKind::Take, CommandKind::GroupLeave) => assert(kind_name(a).len() != kind_name(b).len()),
            (CommandKind::Drop, CommandKind::ChatGlobal) => assert(kind_name(a).len() != kind_name(b).len()),
            (CommandKind::Drop, CommandKind::ChatPrivate) => assert(kind_name(a).len() != kind_name(b).len()),
            (CommandKind::Drop, CommandKind::Talk) => assert(kind_name(a)[0] != kind_name(b)[0]),
            (CommandKind::Drop, CommandKind::Look) => assert(kind_name(a)[0] != kind_name(b)[0]),
            (CommandKind::Drop, CommandKind::Who) => assert(kind_name(a).len() != kind_name(b).len()),
            (CommandKind::Drop, CommandKind::Inventory) => assert(kind_name(a).len() != kind_name(b).len()),
            (CommandKind::Drop, CommandKind::Status) => assert(kind_name(a).len() != kind_name(b).len()),
            (CommandKind::Drop, CommandKind::Quests) => assert(kind_name(a).len() != kind_name(b).len()),
            (CommandKind::Drop, CommandKind::Take) => assert(kind_name(a)[0] != kind_name(b)[0]),
            (CommandKind::Drop, CommandKind::Move) => assert(kind_name(a)[0] != kind_name(b)[0]),
            (CommandKind::Drop, CommandKind::Attack) => assert(kind_name(a).len() != kind_name(b).len()),
            (CommandKind::Drop, CommandKind::Quest) => assert(kind_name(a).len() != kind_name(b).len()),
            (CommandKind::Drop, CommandKind::GroupCreate) => assert(kind_name(a).len() != kind_name(b).len()),
            (CommandKind::Drop, CommandKind::GroupInvite) => assert(kind_name(a).len() != kind_name(b).len()),
            (CommandKind::Drop, CommandKind::GroupJoin) => assert(kind_name(a).len() != kind_name(b).len()),
            (CommandKind::Drop, CommandKind::GroupLeave) => assert(kind_name(a).len() != kind_name(b).len()),
            (CommandKind::Move, CommandKind::ChatGlobal) => assert(kind_name(a).len() != kind_name(b).len()),
            (CommandKind::Move, CommandKind::ChatPrivate) => assert(kind_name(a).len() != kind_name(b).len()),
            (CommandKind::Move, CommandKind::Talk) => assert(kind_name(a)[0] != kind_name(b)[0]),
            (CommandKind::Move, CommandKind::Look) => assert(kind_name(a)[0] != kind_name(b)[0]),
            (CommandKind::Move, CommandKind::Who) => assert(kind_name(a).len() != kind_name(b).len()),
            (CommandKind::Move, CommandKind::Inventory) => assert(kind_name(a).len() != kind_name(b).len()),
            (CommandKind::Move, CommandKind::Status) => assert(kind_name(a).len() != kind_name(b).len()),
            (CommandKind::Move, CommandKind::Quests) => assert(kind_name(a).len() != kind_name(b).len()),
            (CommandKind::Move, CommandKind::Take) => assert(kind_name(a)[0] != kind_name(b)[0]),
            (CommandKind::Move, CommandKind::Drop) => assert(kind_name(a)[0] != kind_name(b)[0]),
            (CommandKind::Move, CommandKind::Attack) => assert(kind_name(a).len() != kind_name(b).len()),
            (CommandKind::Move, CommandKind::Quest) => assert(kind_name(a).len() != kind_name(b).len()),
            (CommandKind::Move, CommandKind::GroupCreate) => assert(kind_name(a).len() != kind_name(b).len()),
            (CommandKind::Move, CommandKind::GroupInvite) => assert(kind_name(a).len() != kind_name(b).len()),
            (CommandKind::Move, CommandKind::GroupJoin) => assert(kind_name(a).len() != kind_name(b).len()),
            (CommandKind::Move, CommandKind::GroupLeave) => assert(kind_name(a).len() != kind_name(b).len()),
            (CommandKind::Attack, CommandKind::ChatGlobal) => assert(kind_name(a).len() != kind_name(b).len()),
            (CommandKind::Attack, CommandKind::ChatPrivate) => assert(kind_name(a).len() != kind_name(b).len()),
            (CommandKind::Attack, CommandKind::Talk) => assert(kind_name(a).len() != kind_name(b).len()),
            (CommandKind::Attack, CommandKind::Look) => assert(kind_name(a).len() != kind_name(b).len()),
            (CommandKind::Attack, CommandKind::Who) => assert(kind_name(a).len() != kind_name(b).len()),
            (CommandKind::Attack, CommandKind::Inventory) => assert(kind_name(a).len() != kind_name(b).len()),
            (CommandKind::Attack, CommandKind::Status) => assert(kind_name(a)[0] != kind_name(b)[0]),
            (CommandKind::Attack, CommandKind::Quests) => assert(kind_name(a)[0] != kind_name(b)[0]),
            (CommandKind::Attack, CommandKind::Take) => assert(kind_name(a).len() != kind_name(b).len()),
            (CommandKind::Attack, CommandKind::Drop) => assert(kind_name(a).len() != kind_name(b).len()),
            (CommandKind::Attack, CommandKind::Move) => assert(kind_name(a).len() != kind_name(b).len()),
            (CommandKind::Attack, CommandKind::Quest) => assert(kind_name(a).len() != kind_name(b).len()),
            (CommandKind::Attack, CommandKind::GroupCreate) => assert(kind_name(a).len() != kind_name(b).len()),
            (CommandKind::Attack, CommandKind::GroupInvite) => assert(kind_name(a).len() != kind_name(b).len()),
            (CommandKind::Attack, CommandKind::GroupJoin) => assert(kind_name(a).len() != kind_name(b).len()),
            (CommandKind::Attack, CommandKind::GroupLeave) => assert(kind_name(a).len() != kind_name(b).len()),
            (CommandKind::Quest, CommandKind::ChatGlobal) => assert(kind_name(a).len() != kind_name(b).len()),
            (CommandKind::Quest, CommandKind::ChatPrivate) => assert(kind_name(a).len() != kind_name(b).len()),
            (CommandKind::Quest, CommandKind::Talk) => assert(kind_name(a).len() != kind_name(b).len()),
            (CommandKind::Quest, CommandKind::Look) => assert(kind_name(a).len() != kind_name(b).len()),
            (CommandKind::Quest, CommandKind::Who) => assert(kind_name(a).len() != kind_name(b).len()),
            (CommandKind::Quest, CommandKind::Inventory) => assert(kind_name(a).len() != kind_name(b).len()),
            (CommandKind::Quest, CommandKind::Status) => assert(kind_name(a).len() != kind_name(b).len()),
            (CommandKind::Quest, CommandKind::Quests) => assert(kind_name(a).len() != kind_name(b).len()),
            (CommandKind::Quest, CommandKind::Take) => assert(kind_name(a).len() != kind_name(b).len()),
            (CommandKind::Quest, CommandKind::Drop) => assert(kind_name(a).len() != kind_name(b).len()),
            (CommandKind::Quest, CommandKind::Move) => assert(kind_name(a).len() != kind_name(b).len()),
            (CommandKind::Quest, CommandKind::Attack) => assert(kind_name(a).len() != kind_name(b).len()),
            (CommandKind::Quest, CommandKind::GroupCreate) => assert(kind_name(a).len() != kind_name(b).len()),
            (CommandKind::Quest, CommandKind::GroupInvite) => assert(kind_name(a).len() != kind_name(b).len()),
            (CommandKind::Quest, CommandKind::GroupJoin) => assert(kind_name(a).len() != kind_name(b).len()),
            (CommandKind::Quest, CommandKind::GroupLeave) => assert(kind_name(a).len() != kind_name(b).len()),
            (CommandKind::GroupCreate, CommandKind::ChatGlobal) => assert(kind_name(a).len() != kind_name(b).len()),
            (CommandKind::GroupCreate, CommandKind::ChatPrivate) => assert(kind_name(a)[0] != kind_name(b)[0]),
            (CommandKind::GroupCreate, CommandKind::Talk) => assert(kind_name(a).len() != kind_name(b).len()),
            (CommandKind::GroupCreate, CommandKind::Look) => assert(kind_name(a).len() != kind_name(b).len()),
            (CommandKind::GroupCreate, CommandKind::Who) => assert(kind_name(a).len() != kind_name(b).len()),
            (CommandKind::GroupCreate, CommandKind::Inventory) => assert(kind_name(a).len() != kind_name(b).len()),
            (CommandKind::GroupCreate, CommandKind::Status) => assert(kind_name(a).len() != kind_name(b).len()),
            (CommandKind::GroupCreate, CommandKind::Quests) => assert(kind_name(a).len() != kind_name(b).len()),
            (CommandKind::GroupCreate, CommandKind::Take) => assert(kind_name(a).len() != kind_name(b).len()),
            (CommandKind::GroupCreate, CommandKind::Drop) => assert(kind_name(a).len() != kind_name(b).len()),
            (CommandKind::GroupCreate, CommandKind::Move) => assert(kind_name(a).len() != kind_name(b).len()),
            (CommandKind::GroupCreate, CommandKind::Attack) => assert(kind_name(a).len() != kind_name(b).len()),
            (CommandKind::GroupCreate, CommandKind::Quest) => assert(kind_name(a).len() != kind_name(b).len()),
            (CommandKind::GroupCreate, CommandKind::GroupInvite) => assert(kind_name(a)[6] != kind_name(b)[6]),
            (CommandKind::GroupCreate, CommandKind::GroupJoin) => assert(kind_name(a).len() != kind_name(b).len()),
            (CommandKind::GroupCreate, CommandKind::GroupLeave) => assert(kind_name(a).len() != kind_name(b).len()),
            (CommandKind::GroupInvite, CommandKind::ChatGlobal) => assert(kind_name(a).len() != kind_name(b).len()),
            (CommandKind::GroupInvite, CommandKind::ChatPrivate) => assert(kind_name(a)[0] != kind_name(b)[0]),
            (CommandKind::GroupInvite, CommandKind::Talk) => assert(kind_name(a).len() != kind_name(b).len()),
            (CommandKind::GroupInvite, CommandKind::Look) => assert(kind_name(a).len() != kind_name(b).len()),
            (CommandKind::GroupInvite, CommandKind::Who) => assert(kind_name(a).len() != kind_name(b).len()),
            (CommandKind::GroupInvite, CommandKind::Inventory) => assert(kind_name(a).len() != kind_name(b).len()),
            (CommandKind::GroupInvite, CommandKind::Status) => assert(kind_name(a).len() != kind_name(b).len()),
            (CommandKind::GroupInvite, CommandKind::Quests) => assert(kind_name(a).len() != kind_name(b).len()),
            (CommandKind::GroupInvite, CommandKind::Take) => assert(kind_name(a).len() != kind_name(b).len()),
            (CommandKind::GroupInvite, CommandKind::Drop) => assert(kind_name(a).len() != kind_name(b).len()),
            (CommandKind::GroupInvite, CommandKind::Move) => assert(kind_name(a).len() != kind_name(b).len()),
            (CommandKind::GroupInvite, CommandKind::Attack) => assert(kind_name(a).len() != kind_name(b).len()),
            (CommandKind::GroupInvite, CommandKind::Quest) => assert(kind_name(a).len() != kind_name(b).len()),
            (CommandKind::GroupInvite, CommandKind::GroupCreate) => assert(kind_name(a)[6] != kind_name(b)[6]),
            (CommandKind::GroupInvite, CommandKind::GroupJoin) => assert(kind_name(a).len() != kind_name(b).len()),
            (CommandKind::GroupInvite, CommandKind::GroupLeave) => assert(kind_name(a).len() != kind_name(b).len()),
            (CommandKind::GroupJoin, CommandKind::ChatGlobal) => assert(kind_name(a).len() != kind_name(b).len()),
            (CommandKind::GroupJoin, CommandKind::ChatPrivate) => assert(kind_name(a).len() != kind_name(b).len()),
            (CommandKind::GroupJoin, CommandKind::Talk) => assert(kind_name(a).len() != kind_name(b).len()),
            (CommandKind::GroupJoin, CommandKind::Look) => assert(kind_name(a).len() != kind_name(b).len()),
            (CommandKind::GroupJoin, CommandKind::Who) => assert(kind_name(a).len() != kind_name(b).len()),
            (CommandKind::GroupJoin, CommandKind::Inventory) => assert(kind_name(a).len() != kind_name(b).len()),
            (CommandKind::GroupJoin, CommandKind::Status) => assert(kind_name(a).len() != kind_name(b).len()),
            (CommandKind::GroupJoin, CommandKind::Quests) => assert(kind_name(a).len() != kind_name(b).len()),
            (CommandKind::GroupJoin, CommandKind::Take) => assert(kind_name(a).len() != kind_name(b).len()),
            (CommandKind::GroupJoin, CommandKind::Drop) => assert(kind_name(a).len() != kind_name(b).len()),
            (CommandKind::GroupJoin, CommandKind::Move) => assert(kind_name(a).len() != kind_name(b).len()),
            (CommandKind::GroupJoin, CommandKind::Attack) => assert(kind_name(a).len() != kind_name(b).len()),
            (CommandKind::GroupJoin, CommandKind::Quest) => assert(kind_name(a).len() != kind_name(b).len()),
            (CommandKind::GroupJoin, CommandKind::GroupCreate) => assert(kind_name(a).len() != kind_name(b).len()),
            (CommandKind::GroupJoin, CommandKind::GroupInvite) => assert(kind_name(a).len() != kind_name(b).len()),
            (CommandKind::GroupJoin, CommandKind::GroupLeave) => assert(kind_name(a).len() != kind_name(b).len()),
            (CommandKind::GroupLeave, CommandKind::ChatGlobal) => assert(kind_name(a)[0] != kind_name(b)[0]),
            (CommandKind::GroupLeave, CommandKind::ChatPrivate) => assert(kind_name(a).len() != kind_name(b).len()),
            (CommandKind::GroupLeave, CommandKind::Talk) => assert(kind_name(a).len() != kind_name(b).len()),
            (CommandKind::GroupLeave, CommandKind::Look) => assert(kind_name(a).len() != kind_name(b).len()),
            (CommandKind::GroupLeave, CommandKind::Who) => assert(kind_name(a).len() != kind_name(b).len()),
            (CommandKind::GroupLeave, CommandKind::Inventory) => assert(kind_name(a).len() != kind_name(b).len()),
            (CommandKind::GroupLeave, CommandKind::Status) => assert(kind_name(a).len() != kind_name(b).len()),
            (CommandKind::GroupLeave, CommandKind::Quests) => assert(kind_name(a).len() != kind_name(b).len()),
            (CommandKind::GroupLeave, CommandKind::Take) => assert(kind_name(a).len() != kind_name(b).len()),
            (CommandKind::GroupLeave, CommandKind::Drop) => assert(kind_name(a).len() != kind_name(b).len()),
            (CommandKind::GroupLeave, CommandKind::Move) => assert(kind_name(a).len() != kind_name(b).len()),
            (CommandKind::GroupLeave, CommandKind::Attack) => assert(kind_name(a).len() != kind_name(b).len()),
            (CommandKind::GroupLeave, CommandKind::Quest) => assert(kind_name(a).len() != kind_name(b).len()),
            (CommandKind::GroupLeave, CommandKind::GroupCreate) => assert(kind_name(a).len() != kind_name(b).len()),
            (CommandKind::GroupLeave, CommandKind::GroupInvite) => assert(kind_name(a).len() != kind_name(b).len()),
            (CommandKind::GroupLeave, CommandKind::GroupJoin) => assert(kind_name(a).len() != kind_name(b).len()),
            _ => {},
        }
    }
}

/// What the application does after a command line was handled.
#[derive(Debug, Clone)]
pub enum CommandDispatch {
    /// The line held no word.
    Ignored,
    /// The user asked to quit.
    Quit,
    /// There is no connection to send the command through.
    NotConnected,
    /// Run the named command with these arguments.
    Run { name: String, args: Vec<String> },
}

/// What handling the typed line `line` does to the state, and what it asks of the
/// application.
pub open spec fn command_effect(
    pre: AppState,
    post: AppState,
    line: Seq<char>,
    connected: bool,
    r: CommandDispatch,
) -> bool {
    let ws = words(line);
    if ws.len() == 0 {
        r is Ignored && post == pre
    } else {
        let echoed = bounded_push(views(pre.game.game_output@), "> "@ + line, MAX_GAME_OUTPUT as nat);
        &&& post.net == pre.net
        &&& post.ui == pre.ui
        &&& post.game.online_players == pre.game.online_players
        &&& post.game.chat_messages == pre.game.chat_messages
        &&& post.game.inventory == pre.game.inventory
        &&& post.game.hp == pre.game.hp
        &&& post.game.max_hp == pre.game.max_hp
        &&& post.game.group_name == pre.game.group_name
        &&& post.game.current_room == pre.game.current_room
        &&& post.game.current_room_name == pre.game.current_room_name
        &&& post.game.npcs_in_room == pre.game.npcs_in_room
        &&& if ws[0] == "quit"@ {
            &&& r is Quit
            &&& post.should_quit
            &&& views(post.game.game_output@) == echoed
        } else if !connected {
            &&& r is NotConnected
            &&& post.should_quit == pre.should_quit
            &&& views(post.game.game_output@) == bounded_push(
                echoed,
                "Not connected."@,
                MAX_GAME_OUTPUT as nat,
            )
        } else {
            &&& post.should_quit == pre.should_quit
            &&& views(post.game.game_output@) == echoed
            &&& (r matches CommandDispatch::Run { name, args } && name@ == ws[0] && views(args@)
                == ws.drop_first())
        }
    }
}

/// Handles a line typed by the user: blank lines are ignored; any other line is
/// echoed to the game output after `"> "`; `quit` ends the session; without a
/// connection `"Not connected."` is written; otherwise the first word names the
/// command to run and the others are its arguments (`dispatch::command_call` says what
/// running them sends, or that the command is reported as unknown).
pub fn handle_command(state: &mut AppState, cmd_line: String, connected: bool) -> (r: CommandDispatch)
    ensures
        command_effect(*old(state), *final(state), cmd_line@, connected, r),
{
    let parts = split_whitespace(cmd_line.as_str());
    if parts.len() == 0 {
        return CommandDispatch::Ignored;
    }
    let ghost ws = words(cmd_line@);
    proof {
        assert(parts@[0]@ == views(parts@)[0]);
    }
    let echo = String::from_str("> ").concat(cmd_line.as_str());
    state.game.push_game_output(echo);
    if same_text(parts[0].as_str(), "quit") {
        state.should_quit = true;
        return CommandDispatch::Quit;
    }
    if connected {
        let name = parts[0].clone();
        let mut args: Vec<String> = Vec::new();
        let mut i: usize = 1;
        while i < parts.len()
            invariant
                1 <= i <= parts@.len(),
                views(args@) == views(parts@).subrange(1, i as int),
            decreases parts@.len() - i,
        {
            let ghost before = args@;
            args.push(parts[i].clone());
            proof {
                assert(views(args@) =~= views(before).push(parts@[i as int]@));
                assert(views(parts@).subrange(1, i + 1) =~= views(parts@).subrange(1, i as int).push(
                    parts@[i as int]@,
                ));
            }
            i = i + 1;
        }
        proof {
            assert(views(parts@).subrange(1, parts@.len() as int) =~= ws.drop_first());
        }
        CommandDispatch::Run { name, args }
    } else {
        state.game.push_game_output(String::from_str("Not connected."));
        CommandDispatch::NotConnected
    }
}

} // verus!
