use vstd::prelude::*;

verus! {

/// The course of the connection to the server.
#[derive(Debug, Clone)]
pub enum NetworkEvent {
    ConnectionAttemptStarted { server_ip: String, server_port: String, player_name: String },
    ConnectionEstablished { server_ip: String, server_port: String, player_name: String },
    ConnectionFailed { error_message: String },
    ConnectionLost { reason: String },
}

/// The severity of a message shown to the user.
#[derive(Debug, Clone, Copy, PartialEq, Eq, Structural)]
pub enum NotificationType {
    Information,
    Warning,
    Error,
}

} // verus!
