use super::{join_all, join_args, request_view, spaced, ClientRequest, RequestView};
use crate::events::{AppEvent, CommandError, GameEvent, NetEvent};
use crate::session::cat3;
use crate::state::ChatScope;
use crate::text::{same_text, to_uppercase, uppercase_of, views};
use vstd::prelude::*;
use vstd::string::*;

verus! {

/// The request that the command `name` makes of `args`, when it names one and its
/// arguments fit: the chats, groups, looking, moving, taking, dropping, talking,
/// attacking and quests, each with the number of arguments it takes.
pub open spec fn call_of(name: Seq<char>, args: Seq<String>) -> Option<RequestView> {
    let n = args.len();
    if name == "look"@ {
        Some(RequestView::Look)
    } else if name == "who"@ {
        Some(RequestView::Who)
    } else if name == "chat_global"@ {
        Some(RequestView::ChatGlobal(spaced(args)))
    } else if name == "chat_private"@ && n >= 2 {
        Some(RequestView::ChatPrivate(args[0]@, spaced(args.drop_first())))
    } else if name == "group_create"@ {
        Some(RequestView::GroupCreate)
    } else if name == "group_invite"@ && n == 1 {
        Some(RequestView::GroupInvite(args[0]@))
    } else if name == "group_join"@ && n == 1 {
        Some(RequestView::GroupJoin(args[0]@))
    } else if name == "group_leave"@ {
        Some(RequestView::GroupLeave)
    } else if name == "take"@ && n == 1 {
        Some(RequestView::Take(args[0]@))
    } else if name == "drop"@ && n == 1 {
        Some(RequestView::Drop(args[0]@))
    } else if name == "move"@ && n == 1 {
        Some(RequestView::Move(uppercase_of(args[0]@)))
    } else if name == "inventory"@ {
        Some(RequestView::Inventory)
    } else if name == "talk"@ && n > 0 {
        Some(RequestView::Talk(spaced(args)))
    } else if name == "attack"@ && n > 0 {
        Some(RequestView::Attack(spaced(args)))
    } else if name == "status"@ {
        Some(RequestView::Status)
    } else if name == "quest"@ && n > 0 {
        Some(RequestView::Quest(spaced(args)))
    } else if name == "quests"@ {
        Some(RequestView::Quests)
    } else {
        None
    }
}

/// A typed command, when it makes a request, makes one of the command it names: the
/// request is sent under the typed name, so `drop coin` can only drop.
pub proof fn law_typed_commands_send_their_own_kind(name: Seq<char>, args: Seq<String>)
    ensures
        call_of(name, args) matches Some(v) ==> super::kind_name(super::request_command(v)) == name,
        name == "drop"@ && args.len() == 1 ==> call_of(name, args) == Some(RequestView::Drop(args[0]@)),
        name == "take"@ && args.len() == 1 ==> call_of(name, args) == Some(RequestView::Take(args[0]@)),
{
    reveal_strlit("look");
    reveal_strlit("who");
    reveal_strlit("chat_global");
    reveal_strlit("chat_private");
    reveal_strlit("group_create");
    reveal_strlit("group_invite");
    reveal_strlit("group_join");
    reveal_strlit("group_leave");
    reveal_strlit("take");
    reveal_strlit("drop");
    reveal_strlit("move");
    reveal_strlit("inventory");
    reveal_strlit("talk");
    reveal_strlit("attack");
    reveal_strlit("status");
    reveal_strlit("quest");
    reveal_strlit("quests");
    super::lemma_names_distinct();
    if name == "drop"@ || name == "take"@ {
        let k = if name == "drop"@ { super::CommandKind::Drop } else { super::CommandKind::Take };
        assert(name == super::kind_name(k));
        assert(name != super::kind_name(super::CommandKind::Look));
        assert(name != super::kind_name(super::CommandKind::Who));
        assert(name != super::kind_name(super::CommandKind::ChatGlobal));
        assert(name != super::kind_name(super::CommandKind::ChatPrivate));
        assert(name != super::kind_name(super::CommandKind::GroupCreate));
        assert(name != super::kind_name(super::CommandKind::GroupInvite));
        assert(name != super::kind_name(super::CommandKind::GroupJoin));
        assert(name != super::kind_name(super::CommandKind::GroupLeave));
        assert("drop"@ != super::kind_name(super::CommandKind::Take));
    }
}

/// The request that a typed command makes, or `None` (an unknown command) when its name
/// or its arguments do not fit.
pub fn command_request(name: &str, args: &Vec<String>) -> (r: Option<ClientRequest>)
    ensures
        request_view(r) == call_of(name@, args@),
{
    let n = args.len();
    if same_text(name, "look") {
        Some(ClientRequest::Look)
    } else if same_text(name, "who") {
        Some(ClientRequest::Who)
    } else if same_text(name, "chat_global") {
        Some(ClientRequest::ChatGlobal(join_all(args)))
    } else if same_text(name, "chat_private") && n >= 2 {
        proof {
            assert(args@.subrange(1, args@.len() as int) =~= args@.drop_first());
        }
        Some(ClientRequest::ChatPrivate { to: args[0].clone(), message: join_args(args, 1) })
    } else if same_text(name, "group_create") {
        Some(ClientRequest::GroupCreate)
    } else if same_text(name, "group_invite") && n == 1 {
        Some(ClientRequest::GroupInvite(args[0].clone()))
    } else if same_text(name, "group_join") && n == 1 {
        Some(ClientRequest::GroupJoin(args[0].clone()))
    } else if same_text(name, "group_leave") {
        Some(ClientRequest::GroupLeave)
    } else if same_text(name, "take") && n == 1 {
        Some(ClientRequest::Take(args[0].clone()))
    } else if same_text(name, "drop") && n == 1 {
        Some(ClientRequest::Drop(args[0].clone()))
    } else if same_text(name, "move") && n == 1 {
        Some(ClientRequest::Move(to_uppercase(args[0].as_str())))
    } else if same_text(name, "inventory") {
        Some(ClientRequest::Inventory)
    } else if same_text(name, "talk") && n > 0 {
        Some(ClientRequest::Talk(join_all(args)))
    } else if same_text(name, "attack") && n > 0 {
        Some(ClientRequest::Attack(join_all(args)))
    } else if same_text(name, "status") {
        Some(ClientRequest::Status)
    } else if same_text(name, "quest") && n > 0 {
        Some(ClientRequest::Quest(join_all(args)))
    } else if same_text(name, "quests") {
        Some(ClientRequest::Quests)
    } else {
        None
    }
}

/// What the command task does with the command `name` and its arguments: the request to
/// send when the name and the number of arguments fit, else the event that reports the
/// command as unknown, under its name.
pub fn command_call(name: &str, args: &Vec<String>) -> (r: Result<ClientRequest, AppEvent>)
    ensures
        match call_of(name@, args@) {
            Some(v) => r matches Ok(req) && request_view(Some(req)) == Some(v),
            None => r matches Err(AppEvent::Game(GameEvent::UnknowCommand(n))) && n@ == name@,
        },
{
    match command_request(name, args) {
        Some(request) => Ok(request),
        None => Err(AppEvent::Game(GameEvent::UnknowCommand(String::from_str(name)))),
    }
}

/// What the server answered to a command, as far as the interface uses it.
#[derive(Debug, Clone)]
pub enum Answer {
    /// The room looked at: its identifier, its name and the NPCs in it.
    Room { room_id: String, room_display_name: String, npcs: Vec<String> },
    /// The number of players online.
    Count(u32),
    /// The group created or joined.
    Group(String),
    /// The player's inventory.
    Inventory(Vec<String>),
    /// The player's health.
    Status { hp: u32, max_hp: u32 },
    /// Nothing the interface keeps.
    Plain,
}

/// How a command came back.
#[derive(Debug, Clone)]
pub enum Outcome {
    /// The server answered; `description` is the answer as it is shown.
    Answered { answer: Answer, description: String },
    /// The server refused the command.
    Refused(CommandError),
    /// The exchange failed, with the error's text.
    Failed(String),
}

/// Whether `e` records the result `text` of a command.
pub open spec fn is_result(e: AppEvent, text: Seq<char>) -> bool {
    e matches AppEvent::Game(GameEvent::CommandResult(t)) && t@ == text
}

/// The events that report how `request` came back.
///
/// A refusal is a command error and a failure a protocol error. An answer updates what
/// the request is about (the room and its NPCs, the online count, the group, the
/// inventory, the health) and is reported as a command result; a sent chat is recorded
/// as the player's own, with no result; any other answer is only reported.
pub open spec fn reply_events(request: ClientRequest, outcome: Outcome, events: Seq<AppEvent>) -> bool {
    match outcome {
        Outcome::Refused(err) => events == seq![AppEvent::Game(GameEvent::CommandError(err))],
        Outcome::Failed(text) => events.len() == 1 && (events[0] matches AppEvent::Network(
            NetEvent::TapError(t),
        ) && t@ == text@),
        Outcome::Answered { answer, description } => match (request, answer) {
            (ClientRequest::ChatGlobal(message), _) => events.len() == 1 && (events[0] matches AppEvent::Game(
                GameEvent::LocalChatSent(scope, m),
            ) && scope == ChatScope::Global && m@ == message@),
            (ClientRequest::ChatPrivate { to, message }, _) => events.len() == 1 && (events[0] matches AppEvent::Game(
                GameEvent::LocalChatSent(scope, m),
            ) && scope == ChatScope::Private && m@ == "to "@ + to@ + ": "@ + message@),
            (ClientRequest::Look, Answer::Room { room_id, room_display_name, npcs }) => {
                &&& events.len() == 2
                &&& events[0] matches AppEvent::Game(
                    GameEvent::UpdateRoomContext { room_id: i, room_display_name: n, npcs: v },
                ) && i@ == room_id@ && n@ == room_display_name@ && views(v@) == views(npcs@)
                &&& is_result(events[1], description@)
            },
            (ClientRequest::Who, Answer::Count(n)) => events.len() == 2 && events[0] == AppEvent::Game(
                GameEvent::UpdateOnlinePlayers(n),
            ) && is_result(events[1], description@),
            (ClientRequest::GroupCreate, Answer::Group(id)) | (ClientRequest::GroupJoin(_), Answer::Group(id)) => {
                &&& events.len() == 2
                &&& events[0] matches AppEvent::Game(GameEvent::UpdateGroup(Some(g))) && g@ == id@
                &&& is_result(events[1], description@)
            },
            (ClientRequest::GroupLeave, _) => events.len() == 2 && events[0] == AppEvent::Game(
                GameEvent::UpdateGroup(None),
            ) && is_result(events[1], description@),
            (ClientRequest::Inventory, Answer::Inventory(items)) => {
                &&& events.len() == 2
                &&& events[0] matches AppEvent::Game(GameEvent::InventoryUpdate(v)) && views(v@) == views(
                    items@,
                )
                &&& is_result(events[1], description@)
            },
            (ClientRequest::Status, Answer::Status { hp, max_hp }) => events.len() == 2 && events[0]
                == AppEvent::Game(GameEvent::UpdateStatus { hp, max_hp }) && is_result(
                events[1],
                description@,
            ),
            _ => events.len() == 1 && is_result(events[0], description@),
        },
    }
}

/// The events that report how `request` came back.
pub fn command_reply(request: &ClientRequest, outcome: Outcome) -> (events: Vec<AppEvent>)
    ensures
        reply_events(*request, outcome, events@),
{
    let mut events: Vec<AppEvent> = Vec::new();
    match outcome {
        Outcome::Refused(err) => {
            events.push(AppEvent::Game(GameEvent::CommandError(err)));
            assert(events@ =~= seq![AppEvent::Game(GameEvent::CommandError(err))]);
        },
        Outcome::Failed(text) => {
            events.push(AppEvent::Network(NetEvent::TapError(text)));
        },
        Outcome::Answered { answer, description } => {
            match request {
                ClientRequest::ChatGlobal(message) => {
                    events.push(AppEvent::Game(GameEvent::LocalChatSent(ChatScope::Global, message.clone())));
                    return events;
                },
                ClientRequest::ChatPrivate { to, message } => {
                    let line = cat3("to ", to.as_str(), ": ").concat(message.as_str());
                    events.push(AppEvent::Game(GameEvent::LocalChatSent(ChatScope::Private, line)));
                    return events;
                },
                _ => {},
            }
            match (request, answer) {
                (ClientRequest::Look, Answer::Room { room_id, room_display_name, npcs }) => {
                    events.push(AppEvent::Game(GameEvent::UpdateRoomContext { room_id, room_display_name, npcs }));
                },
                (ClientRequest::Who, Answer::Count(n)) => {
                    events.push(AppEvent::Game(GameEvent::UpdateOnlinePlayers(n)));
                },
                (ClientRequest::GroupCreate, Answer::Group(id)) => {
                    events.push(AppEvent::Game(GameEvent::UpdateGroup(Some(id))));
                },
                (ClientRequest::GroupJoin(_), Answer::Group(id)) => {
                    events.push(AppEvent::Game(GameEvent::UpdateGroup(Some(id))));
                },
                (ClientRequest::GroupLeave, _) => {
                    events.push(AppEvent::Game(GameEvent::UpdateGroup(None)));
                },
                (ClientRequest::Inventory, Answer::Inventory(items)) => {
                    events.push(AppEvent::Game(GameEvent::InventoryUpdate(items)));
                },
                (ClientRequest::Status, Answer::Status { hp, max_hp }) => {
                    events.push(AppEvent::Game(GameEvent::UpdateStatus { hp, max_hp }));
                },
                _ => {},
            }
            events.push(AppEvent::Game(GameEvent::CommandResult(description)));
        },
    }
    events
}

/// How a command that was sent came back.
#[derive(Debug, Clone)]
pub enum Reply {
    /// The server answered, with the answer's description.
    Answered(String),
    /// The server refused the command.
    Refused(CommandError),
    /// The exchange failed, with the error's text.
    Failed(String),
}

/// The event that reports how a command came back: its answer as a command result, its
/// refusal as a command error, or the failure as a protocol error.
pub fn send_result(reply: Reply) -> (r: AppEvent)
    ensures
        r == (match reply {
            Reply::Answered(text) => AppEvent::Game(GameEvent::CommandResult(text)),
            Reply::Refused(err) => AppEvent::Game(GameEvent::CommandError(err)),
            Reply::Failed(text) => AppEvent::Network(NetEvent::TapError(text)),
        }),
{
    match reply {
        Reply::Answered(text) => AppEvent::Game(GameEvent::CommandResult(text)),
        Reply::Refused(err) => AppEvent::Game(GameEvent::CommandError(err)),
        Reply::Failed(text) => AppEvent::Network(NetEvent::TapError(text)),
    }
}

} // verus!
