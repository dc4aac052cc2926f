//! Connection profiles.

use vstd::prelude::*;
use vstd::std_specs::cmp::PartialEqSpecImpl;

verus! {

/// Mathematical value of an [`AuthType`].
pub enum AuthSpec {
    Password(Seq<char>),
    Key(Seq<char>),
    Agent,
}

/// How a session proves who the user is.
#[derive(Debug, Clone)]
pub enum AuthType {
    /// A stored password.
    Password(String),
    /// The path of a private key file.
    Key(String),
    /// The running agent; nothing secret is stored.
    Agent,
}

impl View for AuthType {
    type V = AuthSpec;

    open spec fn view(&self) -> AuthSpec {
        match self {
            AuthType::Password(secret) => AuthSpec::Password(secret@),
            AuthType::Key(path) => AuthSpec::Key(path@),
            AuthType::Agent => AuthSpec::Agent,
        }
    }
}

impl PartialEq for AuthType {
    fn eq(&self, other: &Self) -> (r: bool) {
        match self {
            AuthType::Password(a) => match other {
                AuthType::Password(b) => *a == *b,
                _ => false,
            },
            AuthType::Key(a) => match other {
                AuthType::Key(b) => *a == *b,
                _ => false,
            },
            AuthType::Agent => match other {
                AuthType::Agent => true,
                _ => false,
            },
        }
    }
}

impl PartialEqSpecImpl for AuthType {
    open spec fn obeys_eq_spec() -> bool {
        true
    }

    open spec fn eq_spec(&self, other: &Self) -> bool {
        self@ == other@
    }
}

/// Mathematical value of a [`Server`].
pub struct ServerSpec {
    pub name: Seq<char>,
    pub user: Seq<char>,
    pub host: Seq<char>,
    pub port: u16,
    pub auth_type: AuthSpec,
    pub group: Seq<char>,
}

/// One remote target.
#[derive(Debug, Clone)]
pub struct Server {
    pub name: String,
    pub user: String,
    pub host: String,
    pub port: u16,
    pub auth_type: AuthType,
    pub group: String,
}

impl View for Server {
    type V = ServerSpec;

    open spec fn view(&self) -> ServerSpec {
        ServerSpec {
            name: self.name@,
            user: self.user@,
            host: self.host@,
            port: self.port,
            auth_type: self.auth_type@,
            group: self.group@,
        }
    }
}

impl DeepView for Server {
    type V = ServerSpec;

    open spec fn deep_view(&self) -> ServerSpec {
        self@
    }
}

impl PartialEq for Server {
    fn eq(&self, other: &Self) -> (r: bool) {
        self.name == other.name && self.user == other.user && self.host == other.host
            && self.port == other.port && self.auth_type == other.auth_type && self.group
            == other.group
    }
}

impl PartialEqSpecImpl for Server {
    open spec fn obeys_eq_spec() -> bool {
        true
    }

    open spec fn eq_spec(&self, other: &Self) -> bool {
        self@ == other@
    }
}

/// The group of a profile that names none.
pub open spec fn default_group_text() -> Seq<char> {
    "General"@
}

/// The group of a profile that names none.
pub fn default_group() -> (group: String)
    ensures
        group@ == default_group_text(),
{
    String::from_str("General")
}

} // verus!
