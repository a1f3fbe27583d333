use super::{view_key_effect, GameAction, GameComponent, GameFocus};
use crate::keys::{Key, KeyPress};
use crate::state::AppState;
use vstd::prelude::*;

verus! {

/// The picture of the current room and its entities.
#[derive(Debug)]
pub struct SceneComponent;

/// The game view as the scene sees it: focused, with no menu open.
pub open spec fn as_scene(c: GameComponent) -> GameComponent {
    GameComponent { focus: GameFocus::Scene, context_menu_open: false, ..c }
}

impl SceneComponent {
    /// Handles a key press in the scene: the direction keys move the player, PageUp and
    /// PageDown choose an entity and Enter opens the menu of the chosen one, as the game
    /// view does when the scene has the focus; the focus and an open menu are left as
    /// they are, and Tab is left to the game view.
    pub fn handle_event(&self, view: &mut GameComponent, state: &mut AppState, key: Key, connected: bool) -> (r: GameAction)
        ensures
            key == Key::Tab ==> *final(view) == *old(view) && *final(state) == *old(state) && r is Nothing,
            key != Key::Tab ==> exists|after: GameComponent|
                view_key_effect(as_scene(*old(view)), after, *old(state), *final(state), key, Seq::empty(), connected, r)
                    && *final(view) == (GameComponent {
                    focus: old(view).focus,
                    context_menu_open: after.context_menu_open || old(view).context_menu_open,
                    ..after
                }),
    {
        if key == Key::Tab {
            return GameAction::Nothing;
        }
        let focus = view.focus;
        let open = view.context_menu_open;
        view.focus = GameFocus::Scene;
        view.context_menu_open = false;
        let r = view.handle_event(state, KeyPress { key, control: false }, "", connected);
        let ghost after = *view;
        proof {
            reveal_strlit("");
            assert(""@ =~= Seq::<char>::empty());
        }
        view.focus = focus;
        view.context_menu_open = view.context_menu_open || open;
        assert(view_key_effect(as_scene(*old(view)), after, *old(state), *state, key, Seq::empty(), connected, r));
        r
    }
}

} // verus!
