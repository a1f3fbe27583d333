use super::{GameAction, LogKey};
use crate::keys::Key;
use vstd::prelude::*;

verus! {

/// The overlay of the system logs.
#[derive(Debug)]
pub struct LogsComponent;

impl LogsComponent {
    /// Handles a key press in the system logs: the arrows scroll them.
    pub fn handle_event(&self, key: Key) -> (r: GameAction)
        ensures
            r == (match key {
                Key::Up => GameAction::Logger(LogKey::Up),
                Key::Down => GameAction::Logger(LogKey::Down),
                Key::Left => GameAction::Logger(LogKey::Left),
                Key::Right => GameAction::Logger(LogKey::Right),
                _ => GameAction::Nothing,
            }),
    {
        match key {
            Key::Up => GameAction::Logger(LogKey::Up),
            Key::Down => GameAction::Logger(LogKey::Down),
            Key::Left => GameAction::Logger(LogKey::Left),
            Key::Right => GameAction::Logger(LogKey::Right),
            _ => GameAction::Nothing,
        }
    }
}

} // verus!
