pub mod game;
pub mod login;
pub mod layout;
pub mod view;
