//! What the menus and prompts of the line interface choose.

use vstd::prelude::*;
use crate::profile::{AuthSpec, AuthType, Server, ServerSpec};
use crate::text::{decimal_text, u16_text};
use crate::transfer::TransferDirection;

verus! {

/// An entry of the main menu.
#[derive(Clone, Copy, Debug, PartialEq, Eq, Structural)]
pub enum Action {
    Connect,
    AddServer,
    RemoveServer,
    ListServers,
    ImportConfig,
    FileTransfer,
    Exit,
}

/// The entry at a position of the main menu; a menu that was not answered,
/// and any position past the entries, leaves.
pub open spec fn action_at(selection: Option<usize>) -> Action {
    match selection {
        Some(0) => Action::Connect,
        Some(1) => Action::AddServer,
        Some(2) => Action::RemoveServer,
        Some(3) => Action::ListServers,
        Some(4) => Action::ImportConfig,
        Some(5) => Action::FileTransfer,
        _ => Action::Exit,
    }
}

/// The action for what the main menu answered: the position chosen, or
/// `None` where the menu could not be shown.
pub fn main_menu(selection: Option<usize>) -> (action: Action)
    ensures
        action == action_at(selection),
{
    match selection {
        Some(0) => Action::Connect,
        Some(1) => Action::AddServer,
        Some(2) => Action::RemoveServer,
        Some(3) => Action::ListServers,
        Some(4) => Action::ImportConfig,
        Some(5) => Action::FileTransfer,
        _ => Action::Exit,
    }
}

/// The direction for the position chosen in the transfer menu: the first
/// entry uploads, any other downloads.
pub fn file_transfer_menu(selection: usize) -> (direction: TransferDirection)
    ensures
        direction == if selection == 0 {
            TransferDirection::Upload
        } else {
            TransferDirection::Download
        },
{
    if selection == 0 {
        TransferDirection::Upload
    } else {
        TransferDirection::Download
    }
}

/// What has to be asked after the authentication method is chosen.
#[derive(Clone, Copy, Debug, PartialEq, Eq, Structural)]
pub enum CredentialPrompt {
    /// The password, without echo.
    Password,
    /// The path of the private key.
    KeyPath,
    /// Nothing: the agent holds the keys.
    Nothing,
}

/// What has to be asked for the method at a position of the prompt.
pub fn credential_prompt(auth_selection: usize) -> (prompt: CredentialPrompt)
    ensures
        prompt == if auth_selection == 0 {
            CredentialPrompt::Password
        } else if auth_selection == 1 {
            CredentialPrompt::KeyPath
        } else {
            CredentialPrompt::Nothing
        },
{
    if auth_selection == 0 {
        CredentialPrompt::Password
    } else if auth_selection == 1 {
        CredentialPrompt::KeyPath
    } else {
        CredentialPrompt::Nothing
    }
}

/// The authentication method for a position of the prompt and the answer to
/// what was asked after it.
pub open spec fn prompted_auth(auth_selection: usize, credential: Seq<char>) -> AuthSpec {
    if auth_selection == 0 {
        AuthSpec::Password(credential)
    } else if auth_selection == 1 {
        AuthSpec::Key(credential)
    } else {
        AuthSpec::Agent
    }
}

/// The profile that the answers to the prompts describe.
pub fn add_server_prompt(
    group: String,
    name: String,
    user: String,
    host: String,
    port: u16,
    auth_selection: usize,
    credential: String,
) -> (server: Server)
    ensures
        server@ == (ServerSpec {
            name: name@,
            user: user@,
            host: host@,
            port,
            auth_type: prompted_auth(auth_selection, credential@),
            group: group@,
        }),
{
    let auth_type = if auth_selection == 0 {
        AuthType::Password(credential)
    } else if auth_selection == 1 {
        AuthType::Key(credential)
    } else {
        AuthType::Agent
    };
    Server { name, user, host, port, auth_type, group }
}

/// The line that stands for a profile in the selection list.
pub open spec fn label_text(s: ServerSpec) -> Seq<char> {
    "["@ + s.group + "] "@ + s.name + " ("@ + s.user + "@"@ + s.host + ":"@ + decimal_text(
        s.port as nat,
    ) + ")"@
}

/// The line that stands for a profile in the selection list: group in
/// brackets, name, then user, host and port in parentheses.
pub fn server_label(server: &Server) -> (label: String)
    ensures
        label@ == label_text(server@),
{
    let mut label = String::from_str("[");
    label.append(server.group.as_str());
    label.append("] ");
    label.append(server.name.as_str());
    label.append(" (");
    label.append(server.user.as_str());
    label.append("@");
    label.append(server.host.as_str());
    label.append(":");
    label.append(u16_text(server.port).as_str());
    label.append(")");
    label
}

/// The lines of the selection list, one for each profile, in order.
pub fn server_labels(servers: &Vec<Server>) -> (labels: Vec<String>)
    ensures
        labels.len() == servers.len(),
        forall|i: int| 0 <= i < servers.len() ==> (#[trigger] labels[i])@ == label_text(servers[i]@),
{
    let mut labels: Vec<String> = Vec::new();
    let mut i: usize = 0;
    while i < servers.len()
        invariant
            i <= servers.len(),
            labels.len() == i,
            forall|k: int| 0 <= k < i ==> (#[trigger] labels[k])@ == label_text(servers[k]@),
        decreases servers.len() - i,
    {
        labels.push(server_label(&servers[i]));
        i += 1;
    }
    labels
}

/// The profile chosen from the selection list: none where there is no
/// profile to choose from, or where the list was not answered; a position
/// past the profiles chooses none either.
pub fn select_server(servers: &Vec<Server>, selection: Option<usize>) -> (chosen: Option<usize>)
    ensures
        chosen == match selection {
            Some(i) => if i < servers.len() {
                Some(i)
            } else {
                None
            },
            None => None,
        },
{
    match selection {
        Some(i) => if i < servers.len() {
            Some(i)
        } else {
            None
        },
        None => None,
    }
}

} // verus!
