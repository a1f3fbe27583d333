use std::path::PathBuf;
use vstd::prelude::*;

verus! {

/// The command line: the server to reach and where the assets lie.
#[derive(Debug)]
pub struct Cli {
    pub ip: String,
    pub port: String,
    pub assets: Option<PathBuf>,
}

/// The server address used when none is given.
pub const DEFAULT_SERVER_IP: &'static str = "127.0.0.1";

/// The server port used when none is given.
pub const DEFAULT_SERVER_PORT: &'static str = "38800";

} // verus!
