use super::{view_key_effect, GameAction, GameComponent, GameFocus};
use crate::keys::{Key, KeyPress};
use crate::state::AppState;
use vstd::prelude::*;

verus! {

/// The command input line.
#[derive(Debug)]
pub struct InputComponent;

/// The game view as the input line sees it: focused, with no menu open.
pub open spec fn as_input(c: GameComponent) -> GameComponent {
    GameComponent { focus: GameFocus::Input, context_menu_open: false, ..c }
}

impl InputComponent {
    /// Handles a key press on the input line: Up and Down scroll the game output, Enter
    /// submits the line `input`, other keys (Tab among them) edit it.
    pub fn handle_event(&self, view: &GameComponent, state: &mut AppState, key: Key, input: &str, connected: bool) -> (r:
        GameAction)
        ensures
            key == Key::Tab ==> *final(state) == *old(state) && r is EditInput,
            key != Key::Tab ==> exists|after: GameComponent|
                view_key_effect(as_input(*view), after, *old(state), *final(state), key, input@, connected, r),
    {
        if key == Key::Tab {
            return GameAction::EditInput;
        }
        let mut scratch = GameComponent {
            focus: GameFocus::Input,
            selected_entity_idx: view.selected_entity_idx,
            context_menu_open: false,
            context_menu_idx: view.context_menu_idx,
        };
        scratch.handle_event(state, KeyPress { key, control: false }, input, connected)
    }
}

} // verus!
