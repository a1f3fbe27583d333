use std::path::PathBuf;
use vstd::prelude::*;

verus! {

/// `std::path::PathBuf`, carried through as an opaque value.
#[verifier::external_type_specification]
#[verifier::external_body]
pub struct ExPathBuf(PathBuf);

/// Where the game's assets are read from.
#[derive(Debug)]
pub enum Assets {
    /// The assets built into the program.
    Embedded,
    /// The assets of a directory.
    Directory(PathBuf),
}

impl Assets {
    /// The assets of `directory` when one is given, else the built-in ones.
    pub fn new(directory: Option<PathBuf>) -> (r: Self)
        ensures
            r == (match directory {
                Some(root) => Assets::Directory(root),
                None => Assets::Embedded,
            }),
    {
        match directory {
            Some(root) => Assets::Directory(root),
            None => Assets::Embedded,
        }
    }
}

} // verus!
