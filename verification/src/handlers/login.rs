use crate::components::login::LoginField;
use crate::keys::Key;
use crate::session::cat3;
use crate::state::ConnectionState;
use vstd::prelude::*;
use vstd::string::*;

verus! {

/// The login screen: the focused field, the state of the connection and the server
/// that was last dialed. The texts of the fields are kept by the application.
#[derive(Debug)]
pub struct LoginScreen {
    pub login_field: LoginField,
    pub state: ConnectionState,
    pub server_ip: String,
    pub server_port: String,
}

/// The field that Tab moves to; the button is skipped unless disconnected.
pub open spec fn tab_field(f: LoginField, disconnected: bool) -> LoginField {
    match f {
        LoginField::Username => LoginField::Address,
        LoginField::Address => LoginField::Port,
        LoginField::Port => if disconnected { LoginField::Button } else { LoginField::Username },
        LoginField::Button => LoginField::Username,
    }
}

/// The field that BackTab moves to; the button is skipped unless disconnected.
pub open spec fn back_tab_field(f: LoginField, disconnected: bool) -> LoginField {
    match f {
        LoginField::Username => if disconnected { LoginField::Button } else { LoginField::Port },
        LoginField::Address => LoginField::Username,
        LoginField::Port => LoginField::Address,
        LoginField::Button => LoginField::Port,
    }
}

/// Tab and BackTab undo each other whatever the state of the connection, as long as
/// it stays the same.
pub proof fn lemma_tab_round_trip(f: LoginField, disconnected: bool)
    requires
        disconnected || f != LoginField::Button,
    ensures
        back_tab_field(tab_field(f, disconnected), disconnected) == f,
        tab_field(back_tab_field(f, disconnected), disconnected) == f,
{
}

/// The field reached from `f` by `n` presses of Tab.
pub open spec fn tabbed(f: LoginField, disconnected: bool, n: nat) -> LoginField
    decreases n,
{
    if n == 0 {
        f
    } else {
        tab_field(tabbed(f, disconnected, (n - 1) as nat), disconnected)
    }
}

/// The field reached from `f` by `n` presses of BackTab.
pub open spec fn back_tabbed(f: LoginField, disconnected: bool, n: nat) -> LoginField
    decreases n,
{
    if n == 0 {
        f
    } else {
        back_tab_field(back_tabbed(f, disconnected, (n - 1) as nat), disconnected)
    }
}

/// Tab goes through the fields in the order Username, Address, Port, then the button
/// when disconnected, and back to Username; BackTab goes the other way. So from the
/// user name every field is reached, each once, before the focus comes back.
pub proof fn law_tab_visits_every_field(disconnected: bool)
    ensures
        tabbed(LoginField::Username, disconnected, 1) == LoginField::Address,
        tabbed(LoginField::Username, disconnected, 2) == LoginField::Port,
        disconnected ==> tabbed(LoginField::Username, disconnected, 3) == LoginField::Button
            && tabbed(LoginField::Username, disconnected, 4) == LoginField::Username,
        !disconnected ==> tabbed(LoginField::Username, disconnected, 3) == LoginField::Username,
        disconnected ==> back_tabbed(LoginField::Username, disconnected, 1) == LoginField::Button
            && back_tabbed(LoginField::Username, disconnected, 2) == LoginField::Port
            && back_tabbed(LoginField::Username, disconnected, 3) == LoginField::Address
            && back_tabbed(LoginField::Username, disconnected, 4) == LoginField::Username,
        !disconnected ==> back_tabbed(LoginField::Username, disconnected, 1) == LoginField::Port
            && back_tabbed(LoginField::Username, disconnected, 2) == LoginField::Address
            && back_tabbed(LoginField::Username, disconnected, 3) == LoginField::Username,
{
    reveal_with_fuel(tabbed, 5);
    reveal_with_fuel(back_tabbed, 5);
}

/// From any field that can hold the focus, Tab reaches the user name within a full
/// round, so (by the order above) every field is reached from every field.
pub proof fn law_tab_reaches_every_field(f: LoginField, g: LoginField, disconnected: bool)
    requires
        disconnected || f != LoginField::Button,
        disconnected || g != LoginField::Button,
    ensures
        exists|n: nat| n < 4 && #[trigger] tabbed(f, disconnected, n) == g,
        exists|n: nat| n < 4 && #[trigger] back_tabbed(f, disconnected, n) == g,
{
    reveal_with_fuel(tabbed, 5);
    reveal_with_fuel(back_tabbed, 5);
    assert(tabbed(f, disconnected, 0) == f);
    assert(tabbed(f, disconnected, 1) == tab_field(f, disconnected));
    assert(tabbed(f, disconnected, 2) == tab_field(tab_field(f, disconnected), disconnected));
    assert(tabbed(f, disconnected, 3) == tab_field(tab_field(tab_field(f, disconnected), disconnected), disconnected));
    assert(back_tabbed(f, disconnected, 0) == f);
    assert(back_tabbed(f, disconnected, 1) == back_tab_field(f, disconnected));
    assert(back_tabbed(f, disconnected, 2) == back_tab_field(back_tab_field(f, disconnected), disconnected));
    assert(back_tabbed(f, disconnected, 3) == back_tab_field(
        back_tab_field(back_tab_field(f, disconnected), disconnected),
        disconnected,
    ));
}

/// What the application must do after a key press on the login screen.
#[derive(Debug, Clone)]
pub enum LoginKeyAction {
    Nothing,
    /// Dial the server at `address`, then log in as `username`.
    Dial { username: String, address: String },
    /// Hand the key to the text of this field.
    Edit(LoginField),
}

/// What a key press does on the login screen, given the texts of its fields.
///
/// Tab and BackTab move the focus; Enter on the button while disconnected, with no
/// field empty, keeps the server, marks the connection as under way and dials; any other
/// key edits the focused text field.
pub open spec fn login_key_done(
    old: LoginScreen,
    new: LoginScreen,
    key: Key,
    username: Seq<char>,
    ip: Seq<char>,
    port: Seq<char>,
    action: LoginKeyAction,
) -> bool {
    let disconnected = old.state is Disconnected;
    match key {
        Key::Tab => new == (LoginScreen { login_field: tab_field(old.login_field, disconnected), ..old })
            && action is Nothing,
        Key::BackTab => new == (LoginScreen {
            login_field: back_tab_field(old.login_field, disconnected),
            ..old
        }) && action is Nothing,
        Key::Enter => if old.login_field == LoginField::Button && disconnected && username.len() > 0
            && ip.len() > 0 && port.len() > 0 {
            &&& new.login_field == old.login_field
            &&& new.state is Connecting
            &&& new.server_ip@ == ip
            &&& new.server_port@ == port
            &&& action matches LoginKeyAction::Dial { username: u, address: a } && u@ == username && a@
                == ip + ":"@ + port
        } else {
            new == old && action is Nothing
        },
        _ => new == old && action == (if old.login_field == LoginField::Button {
            LoginKeyAction::Nothing
        } else {
            LoginKeyAction::Edit(old.login_field)
        }),
    }
}

/// Handles a key press on the login screen.
pub fn handle_key(screen: &mut LoginScreen, key: Key, username: &str, ip: &str, port: &str) -> (action: LoginKeyAction)
    ensures
        login_key_done(*old(screen), *final(screen), key, username@, ip@, port@, action),
{
    let disconnected = match screen.state {
        ConnectionState::Disconnected => true,
        _ => false,
    };
    match key {
        Key::Tab => {
            screen.login_field = match screen.login_field {
                LoginField::Username => LoginField::Address,
                LoginField::Address => LoginField::Port,
                LoginField::Port => if disconnected { LoginField::Button } else { LoginField::Username },
                LoginField::Button => LoginField::Username,
            };
            LoginKeyAction::Nothing
        },
        Key::BackTab => {
            screen.login_field = match screen.login_field {
                LoginField::Username => if disconnected { LoginField::Button } else { LoginField::Port },
                LoginField::Address => LoginField::Username,
                LoginField::Port => LoginField::Address,
                LoginField::Button => LoginField::Port,
            };
            LoginKeyAction::Nothing
        },
        Key::Enter => {
            if screen.login_field == LoginField::Button && disconnected {
                if username.unicode_len() == 0 || ip.unicode_len() == 0 || port.unicode_len() == 0 {
                    return LoginKeyAction::Nothing;
                }
                screen.server_ip = String::from_str(ip);
                screen.server_port = String::from_str(port);
                screen.state = ConnectionState::Connecting;
                LoginKeyAction::Dial { username: String::from_str(username), address: cat3(ip, ":", port) }
            } else {
                LoginKeyAction::Nothing
            }
        },
        _ => {
            if screen.login_field == LoginField::Button {
                LoginKeyAction::Nothing
            } else {
                LoginKeyAction::Edit(screen.login_field)
            }
        },
    }
}

/// What the screen's dialing task queues.
#[derive(Debug, Clone)]
pub enum DialEvent {
    /// The link is up; the application keeps the client.
    ClientConnected,
    /// Log in under the given name.
    ExecuteConnect(String),
    /// The server could not be reached.
    ApiDisconnected,
}

/// What the dialing task queues: the link and the login, or the loss of the link.
pub fn dial_result(username: String, reached: bool) -> (r: Vec<DialEvent>)
    ensures
        r@ == (if reached {
            seq![DialEvent::ClientConnected, DialEvent::ExecuteConnect(username)]
        } else {
            seq![DialEvent::ApiDisconnected]
        }),
{
    let mut events: Vec<DialEvent> = Vec::new();
    if reached {
        events.push(DialEvent::ClientConnected);
        events.push(DialEvent::ExecuteConnect(username));
        assert(events@ =~= seq![DialEvent::ClientConnected, DialEvent::ExecuteConnect(username)]);
    } else {
        events.push(DialEvent::ApiDisconnected);
        assert(events@ =~= seq![DialEvent::ApiDisconnected]);
    }
    events
}

} // verus!
