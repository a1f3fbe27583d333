use super::{is_notice_event, notice, AppEvent, CommandError, GameEvent};
use crate::session::{cat2, cat3};
use crate::state::NotificationType;
use crate::text::{decimal, u32_to_text};
use vstd::prelude::*;
use vstd::string::*;

verus! {

/// How long an error notification stays, in ticks.
pub const ERROR_NOTICE_TICKS: u32 = 16;

/// The text shown for a command error.
pub open spec fn command_error_text(err: CommandError) -> Seq<char> {
    match err.code {
        Some(code) => "["@ + decimal(code as nat) + "] Command error: "@ + err.message@,
        None => "Command error: "@ + err.message@,
    }
}

/// The events that a game event queues: failed and unknown commands are notified as
/// errors; the other game events queue nothing.
pub open spec fn game_event_follow_ups(event: GameEvent, follow_ups: Seq<AppEvent>) -> bool {
    match event {
        GameEvent::CommandError(err) => follow_ups.len() == 1 && is_notice_event(
            follow_ups[0],
            command_error_text(err),
            NotificationType::Error,
            ERROR_NOTICE_TICKS,
        ),
        GameEvent::UnknowCommand(cmd) => follow_ups.len() == 1 && is_notice_event(
            follow_ups[0],
            "Unknow command: "@ + cmd@,
            NotificationType::Error,
            ERROR_NOTICE_TICKS,
        ),
        _ => follow_ups.len() == 0,
    }
}

/// Decides what a game event queues.
pub fn handle(event: GameEvent) -> (follow_ups: Vec<AppEvent>)
    ensures
        game_event_follow_ups(event, follow_ups@),
{
    let mut follow_ups: Vec<AppEvent> = Vec::new();
    match event {
        GameEvent::CommandError(err) => {
            let text = match err.code {
                Some(code) => {
                    let number = u32_to_text(code);
                    cat3("[", number.as_str(), "] Command error: ").concat(err.message.as_str())
                },
                None => cat2("Command error: ", err.message.as_str()),
            };
            follow_ups.push(notice(text, NotificationType::Error, ERROR_NOTICE_TICKS));
        },
        GameEvent::UnknowCommand(cmd) => {
            follow_ups.push(
                notice(cat2("Unknow command: ", cmd.as_str()), NotificationType::Error, ERROR_NOTICE_TICKS),
            );
        },
        _ => {},
    }
    follow_ups
}

} // verus!
