pub mod game;
pub mod login;
