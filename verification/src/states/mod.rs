pub mod game;
pub mod ui;

use crate::data::manifest::Manifest;
use game::GameState;
use ui::UiState;
use vstd::prelude::*;

verus! {

/// Where the game server is, and whether it is reachable.
#[derive(Debug)]
pub struct NetworkStatus {
    pub is_connected: bool,
    pub server_ip: String,
    pub server_port: String,
}

/// The whole state of a client session.
#[derive(Debug)]
pub struct SessionState {
    pub game: GameState,
    pub ui: UiState,
    pub network: NetworkStatus,
    pub should_quit: bool,
}

impl SessionState {
    pub fn new(manifest: Manifest, dialogue_end_tag: String) -> (r: Self)
        ensures
            r.game.is_fresh(manifest, dialogue_end_tag),
            r.ui.notifications@.len() == 0,
            r.ui.trace_log@.len() == 0,
            !r.network.is_connected,
            r.network.server_ip@.len() == 0,
            r.network.server_port@.len() == 0,
            !r.should_quit,
    {
        SessionState {
            game: GameState::new(manifest, dialogue_end_tag),
            ui: UiState::new(),
            network: NetworkStatus {
                is_connected: false,
                server_ip: String::new(),
                server_port: String::new(),
            },
            should_quit: false,
        }
    }
}

} // verus!
