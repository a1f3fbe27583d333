use crate::keys::Key;
use vstd::prelude::*;

verus! {

/// Where the keys of the game screen go: the command line or the list of actions.
#[derive(Debug, Clone, Copy, PartialEq, Eq, Structural)]
pub enum ActionFocus {
    Input,
    Actions,
}

/// The selection state of the game screen; the text of the command line is kept by the
/// application.
#[derive(Debug, Clone, Copy, PartialEq, Eq, Structural)]
pub struct GameScreen {
    pub game_focus: ActionFocus,
    pub selected_action: usize,
    pub game_scroll_offset: u16,
}

/// What the application must do after a key press on the game screen.
#[derive(Debug, Clone, Copy, PartialEq, Eq, Structural)]
pub enum GameKeyAction {
    Nothing,
    /// Carry out the selected action.
    ExecuteAction,
    /// Clear the command line, and run its text as a command when it is not blank.
    SubmitInput { run: bool },
    /// Hand the key to the command line.
    Edit,
}

/// What a key press does on the game screen, with `action_count` actions listed.
///
/// Tab switches the focus. Up and Down move the selection within the actions, or scroll
/// the event log (Up goes back, Down forward, neither past its bounds) from the
/// command line. Enter carries out the selected action, or submits the command line.
/// Other keys edit the command line when it has the focus.
pub open spec fn game_key_done(old: GameScreen, new: GameScreen, key: Key, action_count: usize, input_blank: bool, action: GameKeyAction) -> bool {
    let on_actions = old.game_focus == ActionFocus::Actions;
    match key {
        Key::Tab => new == (GameScreen {
            game_focus: if on_actions { ActionFocus::Input } else { ActionFocus::Actions },
            ..old
        }) && action == GameKeyAction::Nothing,
        Key::Up => action == GameKeyAction::Nothing && if on_actions {
            new == (GameScreen {
                selected_action: if old.selected_action == 0 { 0 } else { (old.selected_action - 1) as usize },
                ..old
            })
        } else {
            new == (GameScreen {
                game_scroll_offset: if old.game_scroll_offset == u16::MAX {
                    u16::MAX
                } else {
                    (old.game_scroll_offset + 1) as u16
                },
                ..old
            })
        },
        Key::Down => action == GameKeyAction::Nothing && if on_actions {
            new == (GameScreen {
                selected_action: if old.selected_action < action_count - 1 {
                    (old.selected_action + 1) as usize
                } else {
                    old.selected_action
                },
                ..old
            })
        } else {
            new == (GameScreen {
                game_scroll_offset: if old.game_scroll_offset == 0 { 0 } else { (old.game_scroll_offset - 1) as u16 },
                ..old
            })
        },
        Key::Enter => new == old && action == (if on_actions {
            GameKeyAction::ExecuteAction
        } else {
            GameKeyAction::SubmitInput { run: !input_blank }
        }),
        _ => new == old && action == (if on_actions { GameKeyAction::Nothing } else { GameKeyAction::Edit }),
    }
}

/// Handles a key press on the game screen; `input_blank` tells whether the command line
/// holds only whitespace.
pub fn handle_key(screen: &mut GameScreen, key: Key, action_count: usize, input_blank: bool) -> (action: GameKeyAction)
    requires
        action_count > 0,
    ensures
        game_key_done(*old(screen), *final(screen), key, action_count, input_blank, action),
{
    let on_actions = screen.game_focus == ActionFocus::Actions;
    match key {
        Key::Tab => {
            screen.game_focus = if on_actions { ActionFocus::Input } else { ActionFocus::Actions };
            GameKeyAction::Nothing
        },
        Key::Up => {
            if on_actions {
                screen.selected_action = screen.selected_action.saturating_sub(1);
            } else {
                screen.game_scroll_offset = screen.game_scroll_offset.saturating_add(1);
            }
            GameKeyAction::Nothing
        },
        Key::Down => {
            if on_actions {
                if screen.selected_action < action_count - 1 {
                    screen.selected_action = screen.selected_action + 1;
                }
            } else {
                screen.game_scroll_offset = screen.game_scroll_offset.saturating_sub(1);
            }
            GameKeyAction::Nothing
        },
        Key::Enter => {
            if on_actions {
                GameKeyAction::ExecuteAction
            } else {
                GameKeyAction::SubmitInput { run: !input_blank }
            }
        },
        _ => {
            if on_actions {
                GameKeyAction::Nothing
            } else {
                GameKeyAction::Edit
            }
        },
    }
}

} // verus!
