pub mod assets;
pub mod manifest;
