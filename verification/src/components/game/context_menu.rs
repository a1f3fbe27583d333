use super::{menu_key_effect, GameAction, GameComponent};
use crate::keys::Key;
use crate::state::AppState;
use vstd::prelude::*;

verus! {

/// The actions offered on an entity of the scene.
pub open spec fn entity_actions() -> Seq<Seq<char>> {
    seq!["Talk"@, "Attack"@]
}

/// The menu of actions on the selected entity.
#[derive(Debug)]
pub struct ContextMenuComponent;

impl ContextMenuComponent {
    /// The actions offered on an entity: talking to it and attacking it.
    pub fn get_available_actions(&self, _entity_name: &str) -> (r: Vec<&'static str>)
        ensures
            r@.map_values(|s: &'static str| s@) == entity_actions(),
    {
        let mut actions: Vec<&'static str> = Vec::new();
        actions.push("Talk");
        actions.push("Attack");
        assert(actions@.map_values(|s: &'static str| s@) =~= entity_actions());
        actions
    }
}

/// The game view as the menu sees it: open.
pub open spec fn as_open(c: GameComponent) -> GameComponent {
    GameComponent { context_menu_open: true, ..c }
}

impl ContextMenuComponent {
    /// Handles a key press in the menu: Up and Down choose an action, Enter runs it on
    /// the selected entity (the first when none is) and closes the menu, Esc closes it;
    /// the game view does the same while its menu is open.
    pub fn handle_event(&self, view: &mut GameComponent, state: &mut AppState, key: Key, connected: bool) -> (r: GameAction)
        ensures
            key == Key::Enter || key == Key::Esc ==> menu_key_effect(
                as_open(*old(view)),
                *final(view),
                *old(state),
                *final(state),
                key,
                connected,
                r,
            ),
            !(key == Key::Enter || key == Key::Esc) ==> final(view).context_menu_open == old(view).context_menu_open
                && menu_key_effect(as_open(*old(view)), as_open(*final(view)), *old(state), *final(state), key, connected, r),
    {
        let was_open = view.context_menu_open;
        view.context_menu_open = true;
        let r = view.handle_menu_key(state, key, connected);
        if !(key == Key::Enter || key == Key::Esc) {
            view.context_menu_open = was_open;
        }
        r
    }
}

} // verus!
