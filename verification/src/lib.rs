use vstd::prelude::*;

pub mod collections;
pub mod text;
pub mod table;
pub mod state;
pub mod server_event;
pub mod network;
pub mod commands;
pub mod data;
pub mod cli;
pub mod assets;
pub mod keys;
pub mod events;
pub mod components;
pub mod errors;
pub mod states;
pub mod api;
pub mod session;
pub mod connection;
pub mod handlers;

verus! {
} // verus!
