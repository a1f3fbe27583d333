use crate::events::types::NetworkEvent;
use crate::keys::{Key, KeyPress};
use crate::state::{notice_views, AppState, ConnectionState, NotificationType};
use crate::text::{is_blank, is_blank_str};
use vstd::prelude::*;
use vstd::string::*;

verus! {

/// The field of the login form that has the focus.
#[derive(Debug, Clone, Copy, PartialEq, Eq, Structural)]
pub enum LoginField {
    Username,
    Address,
    Port,
    Button,
}

/// The field after `f`, cycling.
pub open spec fn next_field(f: LoginField) -> LoginField {
    match f {
        LoginField::Username => LoginField::Address,
        LoginField::Address => LoginField::Port,
        LoginField::Port => LoginField::Button,
        LoginField::Button => LoginField::Username,
    }
}

/// The field before `f`, cycling.
pub open spec fn previous_field(f: LoginField) -> LoginField {
    match f {
        LoginField::Username => LoginField::Button,
        LoginField::Address => LoginField::Username,
        LoginField::Port => LoginField::Address,
        LoginField::Button => LoginField::Port,
    }
}

/// Moving to the next field and back returns to the same field, and so does the reverse.
pub proof fn lemma_field_cycle(f: LoginField)
    ensures
        previous_field(next_field(f)) == f,
        next_field(previous_field(f)) == f,
{
}

/// Moving to the next field goes Username, Address, Port, button and back to Username,
/// and moving to the previous one goes the other way: every field is reached in turn.
pub proof fn law_fields_in_order()
    ensures
        next_field(LoginField::Username) == LoginField::Address,
        next_field(next_field(LoginField::Username)) == LoginField::Port,
        next_field(next_field(next_field(LoginField::Username))) == LoginField::Button,
        next_field(next_field(next_field(next_field(LoginField::Username)))) == LoginField::Username,
        previous_field(LoginField::Username) == LoginField::Button,
        previous_field(previous_field(LoginField::Username)) == LoginField::Port,
        previous_field(previous_field(previous_field(LoginField::Username))) == LoginField::Address,
{
}

/// What the form asks of the application after a key press.
#[derive(Debug, Clone, Copy, PartialEq, Eq, Structural)]
pub enum LoginAction {
    Nothing,
    /// Hand the key to the text of this field.
    Edit(LoginField),
    /// Submit the form.
    Submit,
}

/// The login form; the texts of its fields are kept by the application.
#[derive(Debug)]
pub struct LoginComponent {
    pub login_field: LoginField,
}

impl LoginComponent {
    /// A form with the focus on the user name.
    pub fn new() -> (r: Self)
        ensures
            r.login_field == LoginField::Username,
    {
        LoginComponent { login_field: LoginField::Username }
    }

    /// Tab and Down move to the next field, BackTab and Up to the previous one; Enter
    /// submits on the button and moves to the button elsewhere; other keys edit the
    /// focused text field.
    pub fn handle_event(&mut self, press: KeyPress) -> (r: LoginAction)
        ensures
            (press.key == Key::Tab || press.key == Key::Down) ==> final(self).login_field == next_field(
                old(self).login_field,
            ) && r == LoginAction::Nothing,
            (press.key == Key::BackTab || press.key == Key::Up) ==> final(self).login_field
                == previous_field(old(self).login_field) && r == LoginAction::Nothing,
            press.key == Key::Enter ==> final(self).login_field == LoginField::Button && r == (if old(
                self,
            ).login_field == LoginField::Button {
                LoginAction::Submit
            } else {
                LoginAction::Nothing
            }),
            !(press.key == Key::Tab || press.key == Key::Down || press.key == Key::BackTab
                || press.key == Key::Up || press.key == Key::Enter) ==> final(self).login_field == old(
                self,
            ).login_field && r == (if old(self).login_field == LoginField::Button {
                LoginAction::Nothing
            } else {
                LoginAction::Edit(old(self).login_field)
            }),
    {
        match press.key {
            Key::Tab | Key::Down => {
                self.login_field = match self.login_field {
                    LoginField::Username => LoginField::Address,
                    LoginField::Address => LoginField::Port,
                    LoginField::Port => LoginField::Button,
                    LoginField::Button => LoginField::Username,
                };
                LoginAction::Nothing
            },
            Key::BackTab | Key::Up => {
                self.login_field = match self.login_field {
                    LoginField::Username => LoginField::Button,
                    LoginField::Address => LoginField::Username,
                    LoginField::Port => LoginField::Address,
                    LoginField::Button => LoginField::Port,
                };
                LoginAction::Nothing
            },
            Key::Enter => {
                if self.login_field == LoginField::Button {
                    LoginAction::Submit
                } else {
                    self.login_field = LoginField::Button;
                    LoginAction::Nothing
                }
            },
            _ => {
                if self.login_field == LoginField::Button {
                    LoginAction::Nothing
                } else {
                    LoginAction::Edit(self.login_field)
                }
            },
        }
    }

    /// Submits the form: a blank user name is refused with an error notification;
    /// otherwise the server address is recorded, the session is marked connecting, and
    /// a connection attempt is started.
    pub fn submit(&self, state: &mut AppState, username: &str, address: &str, port: &str) -> (r:
        Option<NetworkEvent>)
        ensures
            final(state).game == old(state).game,
            final(state).should_quit == old(state).should_quit,
            is_blank(username@) ==> {
                &&& r is None
                &&& final(state).net == old(state).net
                &&& notice_views(final(state).ui.notifications@) == notice_views(
                    old(state).ui.notifications@,
                ).push(("Username cannot be empty!"@, NotificationType::Error, 16u32))
            },
            !is_blank(username@) ==> {
                &&& final(state).ui == old(state).ui
                &&& final(state).net.server_ip@ == address@
                &&& final(state).net.server_port@ == port@
                &&& final(state).net.connection_state == ConnectionState::Connecting
                &&& (r matches Some(
                    NetworkEvent::ConnectionAttemptStarted { server_ip, server_port, player_name },
                ) && server_ip@ == address@ && server_port@ == port@ && player_name@ == username@)
            },
    {
        if is_blank_str(username) {
            state.ui.push_notification(
                String::from_str("Username cannot be empty!"),
                NotificationType::Error,
                16,
            );
            return None;
        }
        state.net.server_ip = String::from_str(address);
        state.net.server_port = String::from_str(port);
        state.net.connection_state = ConnectionState::Connecting;
        Some(
            NetworkEvent::ConnectionAttemptStarted {
                server_ip: String::from_str(address),
                server_port: String::from_str(port),
                player_name: String::from_str(username),
            },
        )
    }
}

/// The label of the connect button: ` CONNECTING... ` while a connection is under
/// way, else ` CONNECT `.
pub fn connect_label(state: &AppState) -> (r: &'static str)
    ensures
        r@ == (if state.net.connection_state is Connecting {
            " CONNECTING... "@
        } else {
            " CONNECT "@
        }),
{
    match state.net.connection_state {
        ConnectionState::Connecting => " CONNECTING... ",
        _ => " CONNECT ",
    }
}

} // verus!
