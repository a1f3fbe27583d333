use crate::commands::{command_effect, handle_command, CommandDispatch};
use crate::keys::{Key, KeyPress};
use crate::state::AppState;
use crate::text::{is_blank, is_blank_str, lowercase_of, to_lowercase};
use context_menu::{entity_actions, ContextMenuComponent};
use vstd::prelude::*;
use vstd::string::*;

pub mod context_menu;
pub mod events;
pub mod header;
pub mod input;
pub mod logs;
pub mod scene;

verus! {

/// The part of the game view that receives the keys.
#[derive(Debug, Clone, Copy, PartialEq, Eq, Structural)]
pub enum GameFocus {
    Input,
    Scene,
    SystemLogs,
}

/// The focus that Tab moves to.
pub open spec fn next_focus(f: GameFocus) -> GameFocus {
    match f {
        GameFocus::Input => GameFocus::Scene,
        GameFocus::Scene => GameFocus::SystemLogs,
        GameFocus::SystemLogs => GameFocus::Input,
    }
}

/// Three presses of Tab bring the focus back where it was.
pub proof fn lemma_focus_cycle(f: GameFocus)
    ensures
        next_focus(next_focus(next_focus(f))) == f,
{
}

/// A key handed to the system logs.
#[derive(Debug, Clone, Copy, PartialEq, Eq, Structural)]
pub enum LogKey {
    Up,
    Down,
    Left,
    Right,
}

/// What the game view asks of the application after a key press.
#[derive(Debug, Clone)]
pub enum GameAction {
    Nothing,
    /// A command line was handled; the application carries out the dispatch.
    Command(CommandDispatch),
    /// Hand the key to the command input line.
    EditInput,
    /// Clear the command input line, and carry out the dispatch of its text.
    SubmitInput(CommandDispatch),
    /// Hand the key to the system logs.
    Logger(LogKey),
}

/// The selection state of the game view; the text of the input line is kept by the
/// application.
#[derive(Debug)]
pub struct GameComponent {
    pub focus: GameFocus,
    pub selected_entity_idx: Option<usize>,
    pub context_menu_open: bool,
    pub context_menu_idx: usize,
}

/// The name of the entity at the selection (the first when none is selected), or the
/// empty text when there is no such entity.
pub open spec fn entity_at(npcs: Seq<String>, selected: Option<usize>) -> Seq<char> {
    let i = match selected {
        Some(i) => i as int,
        None => 0int,
    };
    if i < npcs.len() {
        npcs[i]@
    } else {
        Seq::empty()
    }
}

/// The command line that an action of the context menu sends about `entity`.
pub open spec fn menu_line(action: Seq<char>, entity: Seq<char>) -> Seq<char> {
    lowercase_of(action) + " "@ + lowercase_of(entity)
}

/// The move that a key asks for in the scene.
pub open spec fn scene_move(key: Key) -> Option<Seq<char>> {
    match key {
        Key::Char('n') | Key::Char('N') | Key::Up => Some("move north"@),
        Key::Char('s') | Key::Char('S') | Key::Down => Some("move south"@),
        Key::Char('e') | Key::Char('E') | Key::Right => Some("move east"@),
        Key::Char('w') | Key::Char('W') | Key::Left => Some("move west"@),
        _ => None,
    }
}

/// The state is unchanged but for the scroll offset of the game output.
pub open spec fn only_scrolled(pre: AppState, post: AppState, offset: int) -> bool {
    &&& post.game == pre.game
    &&& post.net == pre.net
    &&& post.should_quit == pre.should_quit
    &&& post.ui.notifications == pre.ui.notifications
    &&& post.ui.show_debug == pre.ui.show_debug
    &&& post.ui.show_help == pre.ui.show_help
    &&& post.ui.show_chat == pre.ui.show_chat
    &&& post.ui.game_scroll_offset == offset
}

/// What a key press does to the game view and the state while the context menu is open.
pub open spec fn menu_key_effect(
    c: GameComponent,
    c2: GameComponent,
    s: AppState,
    s2: AppState,
    key: Key,
    connected: bool,
    r: GameAction,
) -> bool {
    &&& c2.focus == c.focus
    &&& c2.selected_entity_idx == c.selected_entity_idx
    &&& match key {
        Key::Up => c2.context_menu_open && c2.context_menu_idx == (if c.context_menu_idx == 0 {
            0
        } else {
            c.context_menu_idx - 1
        }) && s2 == s && r is Nothing,
        Key::Down => c2.context_menu_open && c2.context_menu_idx == (if c.context_menu_idx < 1 {
            c.context_menu_idx + 1
        } else {
            c.context_menu_idx as int
        }) && s2 == s && r is Nothing,
        Key::Enter => {
            &&& !c2.context_menu_open
            &&& c2.context_menu_idx == c.context_menu_idx
            &&& if c.context_menu_idx < 2 {
                r matches GameAction::Command(d) && command_effect(
                    s,
                    s2,
                    menu_line(
                        entity_actions()[c.context_menu_idx as int],
                        entity_at(s.game.npcs_in_room@, c.selected_entity_idx),
                    ),
                    connected,
                    d,
                )
            } else {
                s2 == s && r is Nothing
            }
        },
        Key::Esc => !c2.context_menu_open && c2.context_menu_idx == c.context_menu_idx && s2 == s
            && r is Nothing,
        _ => c2 == c && s2 == s && r is Nothing,
    }
}

/// What a key press does to the game view and the state while no menu is open.
pub open spec fn view_key_effect(
    c: GameComponent,
    c2: GameComponent,
    s: AppState,
    s2: AppState,
    key: Key,
    input: Seq<char>,
    connected: bool,
    r: GameAction,
) -> bool {
    let npcs = s.game.npcs_in_room@.len();
    let current = match c.selected_entity_idx {
        Some(i) => i as int,
        None => 0int,
    };
    match key {
        Key::Tab => {
            &&& c2.focus == next_focus(c.focus)
            &&& c2.selected_entity_idx == (if c.focus == GameFocus::Input && npcs > 0 {
                Some(0usize)
            } else {
                c.selected_entity_idx
            })
            &&& c2.context_menu_open == c.context_menu_open
            &&& c2.context_menu_idx == c.context_menu_idx
            &&& s2 == s
            &&& r is Nothing
        },
        Key::Enter => match c.focus {
            GameFocus::Scene => s2 == s && r is Nothing && if c.selected_entity_idx is Some {
                &&& c2.context_menu_open
                &&& c2.context_menu_idx == 0
                &&& c2.focus == c.focus
                &&& c2.selected_entity_idx == c.selected_entity_idx
            } else {
                c2 == c
            },
            GameFocus::Input => c2 == c && if is_blank(input) {
                s2 == s && r matches GameAction::SubmitInput(CommandDispatch::Ignored)
            } else {
                r matches GameAction::SubmitInput(d) && command_effect(s, s2, input, connected, d)
            },
            GameFocus::SystemLogs => c2 == c && s2 == s && r is Nothing,
        },
        Key::PageUp => {
            &&& c2.focus == c.focus
            &&& c2.context_menu_open == c.context_menu_open
            &&& c2.context_menu_idx == c.context_menu_idx
            &&& c2.selected_entity_idx == (if c.focus == GameFocus::Scene && npcs > 0 {
                Some((if current == 0 { 0 } else { current - 1 }) as usize)
            } else {
                c.selected_entity_idx
            })
            &&& s2 == s
            &&& r is Nothing
        },
        Key::PageDown => {
            &&& c2.focus == c.focus
            &&& c2.context_menu_open == c.context_menu_open
            &&& c2.context_menu_idx == c.context_menu_idx
            &&& c2.selected_entity_idx == (if c.focus == GameFocus::Scene && npcs > 0 && current
                < npcs - 1 {
                Some((current + 1) as usize)
            } else {
                c.selected_entity_idx
            })
            &&& s2 == s
            &&& r is Nothing
        },
        _ => {
            &&& c2 == c
            &&& if c.focus == GameFocus::Scene && scene_move(key) is Some {
                r matches GameAction::Command(d) && command_effect(
                    s,
                    s2,
                    scene_move(key).unwrap(),
                    connected,
                    d,
                )
            } else if c.focus == GameFocus::Input && key == Key::Up {
                r is Nothing && only_scrolled(
                    s,
                    s2,
                    if s.ui.game_scroll_offset == u16::MAX {
                        u16::MAX as int
                    } else {
                        s.ui.game_scroll_offset + 1
                    },
                )
            } else if c.focus == GameFocus::Input && key == Key::Down {
                r is Nothing && only_scrolled(
                    s,
                    s2,
                    if s.ui.game_scroll_offset == 0 {
                        0
                    } else {
                        s.ui.game_scroll_offset - 1
                    },
                )
            } else if c.focus == GameFocus::Input {
                s2 == s && r is EditInput
            } else if c.focus == GameFocus::SystemLogs && key == Key::Up {
                s2 == s && r == GameAction::Logger(LogKey::Up)
            } else if c.focus == GameFocus::SystemLogs && key == Key::Down {
                s2 == s && r == GameAction::Logger(LogKey::Down)
            } else if c.focus == GameFocus::SystemLogs && key == Key::Left {
                s2 == s && r == GameAction::Logger(LogKey::Left)
            } else if c.focus == GameFocus::SystemLogs && key == Key::Right {
                s2 == s && r == GameAction::Logger(LogKey::Right)
            } else {
                s2 == s && r is Nothing
            }
        },
    }
}

impl GameComponent {
    /// A game view with the focus on the input line, nothing selected and no menu open.
    pub fn new() -> (r: Self)
        ensures
            r.focus == GameFocus::Input,
            r.selected_entity_idx is None,
            !r.context_menu_open,
            r.context_menu_idx == 0,
    {
        GameComponent {
            focus: GameFocus::Input,
            selected_entity_idx: None,
            context_menu_open: false,
            context_menu_idx: 0,
        }
    }

    fn run_line(state: &mut AppState, line: String, connected: bool) -> (r: GameAction)
        ensures
            r matches GameAction::Command(d) && command_effect(*old(state), *final(state), line@, connected, d),
    {
        GameAction::Command(handle_command(state, line, connected))
    }

    fn handle_menu_key(&mut self, state: &mut AppState, key: Key, connected: bool) -> (r: GameAction)
        requires
            old(self).context_menu_open,
        ensures
            menu_key_effect(*old(self), *final(self), *old(state), *final(state), key, connected, r),
    {
        match key {
            Key::Up => {
                self.context_menu_idx = if self.context_menu_idx == 0 {
                    0
                } else {
                    self.context_menu_idx - 1
                };
                GameAction::Nothing
            },
            Key::Down => {
                let menu = ContextMenuComponent;
                let entity = match state.game.npcs_in_room.get(self.selected_entity_idx.unwrap_or(0)) {
                    Some(name) => name.clone(),
                    None => String::new(),
                };
                let actions = menu.get_available_actions(entity.as_str());
                proof {
                    assert(actions@.map_values(|s: &'static str| s@).len() == actions@.len());
                    assert(entity_actions().len() == 2);
                }
                let max_idx = if actions.len() == 0 {
                    0
                } else {
                    actions.len() - 1
                };
                if self.context_menu_idx < max_idx {
                    self.context_menu_idx = self.context_menu_idx + 1;
                }
                GameAction::Nothing
            },
            Key::Enter => {
                let menu = ContextMenuComponent;
                let index = match self.selected_entity_idx {
                    Some(i) => i,
                    None => 0,
                };
                let entity = if index < state.game.npcs_in_room.len() {
                    state.game.npcs_in_room[index].clone()
                } else {
                    String::new()
                };
                let actions = menu.get_available_actions(entity.as_str());
                proof {
                    assert(actions@.map_values(|s: &'static str| s@).len() == actions@.len());
                    assert(entity_actions().len() == 2);
                }
                let r = if self.context_menu_idx < actions.len() {
                    let action = actions[self.context_menu_idx];
                    proof {
                        assert(action@ == actions@.map_values(|s: &'static str| s@)[self.context_menu_idx as int]);
                    }
                    let line = to_lowercase(action).concat(" ").concat(to_lowercase(entity.as_str()).as_str());
                    Self::run_line(state, line, connected)
                } else {
                    GameAction::Nothing
                };
                self.context_menu_open = false;
                r
            },
            Key::Esc => {
                self.context_menu_open = false;
                GameAction::Nothing
            },
            _ => GameAction::Nothing,
        }
    }

    /// Handles a key press in the game view. With the context menu open, Up and Down
    /// choose an action, Enter runs it on the selected entity and Esc closes the menu.
    /// Otherwise Tab cycles the focus; in the scene the direction keys move the player,
    /// PageUp and PageDown choose an entity and Enter opens its menu; on the input line
    /// Up and Down scroll the output, Enter submits the line `input` and other keys edit
    /// it; in the system logs the arrows scroll the logs.
    pub fn handle_event(&mut self, state: &mut AppState, press: KeyPress, input: &str, connected: bool) -> (r:
        GameAction)
        ensures
            old(self).context_menu_open ==> menu_key_effect(
                *old(self),
                *final(self),
                *old(state),
                *final(state),
                press.key,
                connected,
                r,
            ),
            !old(self).context_menu_open ==> view_key_effect(
                *old(self),
                *final(self),
                *old(state),
                *final(state),
                press.key,
                input@,
                connected,
                r,
            ),
    {
        if self.context_menu_open {
            return self.handle_menu_key(state, press.key, connected);
        }
        let key = press.key;
        match key {
            Key::Tab => {
                self.focus = match self.focus {
                    GameFocus::Input => {
                        if state.game.npcs_in_room.len() > 0 {
                            self.selected_entity_idx = Some(0);
                        }
                        GameFocus::Scene
                    },
                    GameFocus::Scene => GameFocus::SystemLogs,
                    GameFocus::SystemLogs => GameFocus::Input,
                };
                GameAction::Nothing
            },
            Key::PageUp => {
                if self.focus == GameFocus::Scene && state.game.npcs_in_room.len() > 0 {
                    let current = match self.selected_entity_idx {
                        Some(i) => i,
                        None => 0,
                    };
                    self.selected_entity_idx = Some(if current == 0 { 0 } else { current - 1 });
                }
                GameAction::Nothing
            },
            Key::PageDown => {
                if self.focus == GameFocus::Scene && state.game.npcs_in_room.len() > 0 {
                    let max = state.game.npcs_in_room.len() - 1;
                    let current = match self.selected_entity_idx {
                        Some(i) => i,
                        None => 0,
                    };
                    if current < max {
                        self.selected_entity_idx = Some(current + 1);
                    }
                }
                GameAction::Nothing
            },
            Key::Enter => match self.focus {
                GameFocus::Scene => {
                    if self.selected_entity_idx.is_some() {
                        self.context_menu_open = true;
                        self.context_menu_idx = 0;
                    }
                    GameAction::Nothing
                },
                GameFocus::Input => {
                    if is_blank_str(input) {
                        GameAction::SubmitInput(CommandDispatch::Ignored)
                    } else {
                        GameAction::SubmitInput(handle_command(state, String::from_str(input), connected))
                    }
                },
                GameFocus::SystemLogs => GameAction::Nothing,
            },
            _ => self.handle_view_key(state, key, connected),
        }
    }

    fn handle_view_key(&mut self, state: &mut AppState, key: Key, connected: bool) -> (r: GameAction)
        requires
            !old(self).context_menu_open,
            key != Key::Tab && key != Key::PageUp && key != Key::PageDown && key != Key::Enter,
        ensures
            view_key_effect(*old(self), *final(self), *old(state), *final(state), key, Seq::empty(), connected, r),
    {
        if self.focus == GameFocus::Scene {
            let line = match key {
                Key::Char('n') | Key::Char('N') | Key::Up => Some("move north"),
                Key::Char('s') | Key::Char('S') | Key::Down => Some("move south"),
                Key::Char('e') | Key::Char('E') | Key::Right => Some("move east"),
                Key::Char('w') | Key::Char('W') | Key::Left => Some("move west"),
                _ => None,
            };
            match line {
                Some(l) => Self::run_line(state, String::from_str(l), connected),
                None => GameAction::Nothing,
            }
        } else if self.focus == GameFocus::Input {
            match key {
                Key::Up => {
                    state.ui.game_scroll_offset = if state.ui.game_scroll_offset == u16::MAX {
                        u16::MAX
                    } else {
                        state.ui.game_scroll_offset + 1
                    };
                    GameAction::Nothing
                },
                Key::Down => {
                    state.ui.game_scroll_offset = if state.ui.game_scroll_offset == 0 {
                        0
                    } else {
                        state.ui.game_scroll_offset - 1
                    };
                    GameAction::Nothing
                },
                _ => GameAction::EditInput,
            }
        } else {
            match key {
                Key::Up => GameAction::Logger(LogKey::Up),
                Key::Down => GameAction::Logger(LogKey::Down),
                Key::Left => GameAction::Logger(LogKey::Left),
                Key::Right => GameAction::Logger(LogKey::Right),
                _ => GameAction::Nothing,
            }
        }
    }
}

} // verus!
