use std::io;
use vstd::prelude::*;

verus! {

/// `std::io::Error`, carried through as an opaque value.
#[verifier::external_type_specification]
#[verifier::external_body]
pub struct ExIoError(io::Error);

/// The errors of the application.
#[derive(Debug)]
pub enum ApplicationError {
    /// An input or output operation failed (e.g. setting up the terminal).
    Io(io::Error),
    /// The network layer or the client failed.
    Network(String),
    /// The event channel was closed unexpectedly.
    EventChannelClosed,
    /// The event channel holds no event.
    EventChannelEmpty,
    /// Any other failure of the application.
    General(String),
}

} // verus!
