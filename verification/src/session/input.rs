use super::{cat2, only_notified, with_history};
use crate::commands::{first_named, kind_request, ClientRequest, CommandRegistry, Execution};
use crate::states::ui::{event_line, history_after, Notification, NotificationLevel};
use crate::states::SessionState;
use crate::text::{split_whitespace, views, words};
use vstd::prelude::*;
use vstd::string::*;

verus! {

/// What a typed command line does: the first word names a command of the registry and
/// the others are its arguments; a line that makes a request sends it and changes
/// nothing, any other is refused with a warning that quotes it.
pub open spec fn raw_command_done(
    old: SessionState,
    new: SessionState,
    registry: Seq<crate::commands::CommandKind>,
    line: Seq<char>,
    r: Option<ClientRequest>,
) -> bool {
    let ws = words(line);
    let refused = r is None && only_notified(
        old,
        new,
        (NotificationLevel::Warning, "Unknown or invalid command: "@ + line, None),
    );
    if ws.len() == 0 {
        refused
    } else {
        match first_named(registry, ws[0]) {
            None => refused,
            Some(k) => exists|args: Seq<String>|
                #![trigger kind_request(k, args)]
                views(args) == ws.drop_first() && match kind_request(k, args) {
                    None => refused,
                    Some(v) => new == old && (r matches Some(req) && req@ == v),
                },
        }
    }
}

/// What `handle_raw_command` does: the line typed at `time` is added to the event
/// history (as an unknown or invalid command when it makes no request), and the rest of
/// the session changes as `raw_command_done` says.
pub open spec fn raw_command_handled(
    old: SessionState,
    new: SessionState,
    time: Seq<char>,
    registry: Seq<crate::commands::CommandKind>,
    line: Seq<char>,
    r: Option<ClientRequest>,
) -> bool {
    let shown = if r is Some { line } else { "Unknown or invalid command: "@ + line };
    &&& views(new.ui.event_history@) == history_after(
        views(old.ui.event_history@),
        event_line(time, "user input"@, shown),
    )
    &&& raw_command_done(with_history(old, new.ui.event_history), new, registry, line, r)
}

impl SessionState {
    /// Handles a command line typed by the user at the time `time`, and gives the request
    /// to send, if any.
    pub fn handle_raw_command(&mut self, registry: &CommandRegistry, command: String, time: &str) -> (r: Option<ClientRequest>)
        ensures
            raw_command_handled(*old(self), *final(self), time@, registry@, command@, r),
    {
        let r = self.interpret_command(registry, &command);
        match &r {
            Some(_) => {
                self.ui.push_event(time, "user input", command.as_str());
            },
            None => {
                let shown = cat2("Unknown or invalid command: ", command.as_str());
                self.ui.push_event(time, "user input", shown.as_str());
            },
        }
        r
    }

    fn interpret_command(&mut self, registry: &CommandRegistry, command: &String) -> (r: Option<ClientRequest>)
        ensures
            raw_command_done(*old(self), *final(self), registry@, command@, r),
    {
        let parts = split_whitespace(command.as_str());
        if parts.len() > 0 {
            let mut args: Vec<String> = Vec::new();
            let mut i: usize = 1;
            while i < parts.len()
                invariant
                    1 <= i <= parts@.len(),
                    views(args@) == views(parts@).subrange(1, i as int),
                decreases parts@.len() - i,
            {
                let ghost before = args@;
                args.push(parts[i].clone());
                proof {
                    assert(views(args@) =~= views(before).push(parts@[i as int]@));
                    assert(views(parts@).subrange(1, i + 1) =~= views(parts@).subrange(1, i as int).push(
                        parts@[i as int]@,
                    ));
                }
                i = i + 1;
            }
            proof {
                assert(views(parts@).subrange(1, parts@.len() as int) =~= views(parts@).drop_first());
                assert(parts@[0]@ == views(parts@)[0]);
            }
            match registry.execute(parts[0].as_str(), &args) {
                Execution::Send(request) => {
                    return Some(request);
                },
                _ => {},
            }
        }
        self.notify(Notification::warning(cat2("Unknown or invalid command: ", command.as_str())));
        None
    }
}

} // verus!
