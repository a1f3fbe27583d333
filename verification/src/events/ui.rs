use super::{Action, TerminalInput, UiEvent};
use crate::keys::{Key, KeyPress};
use crate::state::AppState;
use vstd::prelude::*;

verus! {

/// Whether the global shortcuts take a key press: Control with `d`, `h` or `t`, and Esc.
pub open spec fn is_global_key(press: KeyPress) -> bool {
    ||| (press.control && (press.key == Key::Char('d') || press.key == Key::Char('h') || press.key
        == Key::Char('t')))
    ||| press.key == Key::Esc
}

/// What the global shortcuts do to the state for a key press.
pub open spec fn key_handled(old: AppState, new: AppState, press: KeyPress) -> bool {
    &&& (new.game == old.game)
    &&& (new.net == old.net)
    &&& (new.ui.notifications == old.ui.notifications)
    &&& (new.ui.game_scroll_offset == old.ui.game_scroll_offset)
    &&& (press.control && press.key == Key::Char('d') ==> new.ui.show_debug
            == !old.ui.show_debug && new.ui.show_help == old.ui.show_help
            && new.ui.show_chat == old.ui.show_chat && new.should_quit
            == old.should_quit)
    &&& (press.control && press.key == Key::Char('h') ==> new.ui.show_help
            == !old.ui.show_help && new.ui.show_debug == old.ui.show_debug
            && new.ui.show_chat == old.ui.show_chat && new.should_quit
            == old.should_quit)
    &&& (press.control && press.key == Key::Char('t') ==> new.ui.show_chat
            == !old.ui.show_chat && new.ui.show_debug == old.ui.show_debug
            && new.ui.show_help == old.ui.show_help && new.should_quit
            == old.should_quit)
    &&& (press.key == Key::Esc && !(press.control && (press.key == Key::Char('d') || press.key
            == Key::Char('h') || press.key == Key::Char('t'))) ==> {
            &&& new.ui.show_chat == old.ui.show_chat
            &&& if old.ui.show_debug || old.ui.show_help {
                !new.ui.show_debug && !new.ui.show_help && new.should_quit
                    == old.should_quit
            } else {
                !new.ui.show_debug && !new.ui.show_help && new.should_quit
            }
        })
    &&& (!is_global_key(press) ==> new == old)
}

/// Applies the global shortcuts: Control-d, Control-h and Control-t toggle the debug,
/// help and chat panels; Esc closes the debug and help panels, or quits when neither
/// is open. Returns whether the key was taken; any other key is left to the active view.
pub fn handle_key(state: &mut AppState, press: KeyPress) -> (taken: bool)
    ensures
        taken == is_global_key(press),
        key_handled(*old(state), *final(state), press),
{
    if press.control {
        match press.key {
            Key::Char('d') => {
                state.ui.show_debug = !state.ui.show_debug;
                return true;
            },
            Key::Char('h') => {
                state.ui.show_help = !state.ui.show_help;
                return true;
            },
            Key::Char('t') => {
                state.ui.show_chat = !state.ui.show_chat;
                return true;
            },
            _ => {},
        }
    }
    if press.key == Key::Esc {
        if state.ui.show_debug || state.ui.show_help {
            state.ui.show_debug = false;
            state.ui.show_help = false;
        } else {
            state.should_quit = true;
        }
        return true;
    }
    false
}

/// What an interface event does: a key press is offered to the global shortcuts first,
/// and what they do not take goes to the active component, as does any other terminal
/// input; ticks and notifications are left to others.
pub open spec fn ui_event_done(old: AppState, new: AppState, event: UiEvent, actions: Seq<Action>) -> bool {
    match event {
        UiEvent::TerminalEvent(TerminalInput::Key(press)) => key_handled(old, new, press) && if is_global_key(
            press,
        ) {
            actions.len() == 0
        } else {
            actions == seq![Action::Forward(TerminalInput::Key(press))]
        },
        UiEvent::TerminalEvent(TerminalInput::Other) => new == old && actions == seq![
            Action::Forward(TerminalInput::Other),
        ],
        _ => new == old && actions.len() == 0,
    }
}

/// Handles an interface event, and says what the application must do next.
pub fn handle(state: &mut AppState, event: UiEvent) -> (actions: Vec<Action>)
    ensures
        ui_event_done(*old(state), *final(state), event, actions@),
{
    let mut actions: Vec<Action> = Vec::new();
    match event {
        UiEvent::TerminalEvent(input) => {
            match input {
                TerminalInput::Key(press) => {
                    if !handle_key(state, press) {
                        actions.push(Action::Forward(input));
                        assert(actions@ =~= seq![Action::Forward(input)]);
                    }
                },
                TerminalInput::Other => {
                    actions.push(Action::Forward(input));
                    assert(actions@ =~= seq![Action::Forward(input)]);
                },
            }
        },
        _ => {},
    }
    actions
}

} // verus!
