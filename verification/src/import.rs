//! Candidates for the catalogue out of an OpenSSH client configuration.

use vstd::prelude::*;
use ssh2_config::{ParseRule, SshConfig};
use crate::profile::{AuthSpec, AuthType, Server, ServerSpec};
use crate::text::{
    has_char, lines_of, lines_spec, starts_with_text, strip_leading, text_eq, trim_of, trimmed,
    without_leading,
};

verus! {

/// The port of a host whose configuration names none.
pub const DEFAULT_PORT: u16 = 22;

/// Mathematical value of a [`HostEntry`].
pub struct HostEntrySpec {
    pub host_name: Option<Seq<char>>,
    pub user: Option<Seq<char>>,
    pub port: Option<u16>,
    pub identity_files: Option<Seq<Seq<char>>>,
}

/// What a configuration says of one host.
#[derive(Debug)]
pub struct HostEntry {
    pub host_name: Option<String>,
    pub user: Option<String>,
    pub port: Option<u16>,
    pub identity_files: Option<Vec<String>>,
}

impl View for HostEntry {
    type V = HostEntrySpec;

    open spec fn view(&self) -> HostEntrySpec {
        HostEntrySpec {
            host_name: match self.host_name {
                Some(s) => Some(s@),
                None => None,
            },
            user: match self.user {
                Some(s) => Some(s@),
                None => None,
            },
            port: self.port,
            identity_files: match self.identity_files {
                Some(files) => Some(files.deep_view()),
                None => None,
            },
        }
    }
}

/// `ssh2_config::SshConfig`, taken as it is: nothing of its inside is
/// visible here but through the functions below.
#[verifier::external_type_specification]
#[verifier::external_body]
pub struct ExSshConfig(ssh2_config::SshConfig);

/// What a parsed configuration answers for each host name that it is asked
/// about.
pub uninterp spec fn ssh_config_hosts(config: SshConfig) -> Map<Seq<char>, HostEntrySpec>;

/// Calls `SshConfig::parse` on a default configuration, with unknown fields
/// allowed. The parser looks up the home directory and may read the files
/// that the text includes, so nothing is said of what comes back.
#[verifier::external_body]
pub(crate) fn parse_ssh_config(text: &str) -> (config: Option<SshConfig>) {
    SshConfig::default().parse(&mut text.as_bytes(), ParseRule::ALLOW_UNKNOWN_FIELDS).ok()
}

/// Calls `SshConfig::query` and hands out host name, user, port and
/// identity files, each path as text.
#[verifier::external_body]
pub(crate) fn query_host(config: &SshConfig, alias: &str) -> (entry: HostEntry)
    ensures
        entry@ == ssh_config_hosts(*config)[alias@],
{
    let params = config.query(alias);
    HostEntry {
        host_name: params.host_name,
        user: params.user,
        port: params.port,
        identity_files: params.identity_file.map(
            |files| files.iter().map(|file| file.to_string_lossy().to_string()).collect(),
        ),
    }
}

/// Calls `whoami::username`: the name of the user who runs the process.
#[verifier::external_body]
pub(crate) fn current_user() -> (name: String) {
    whoami::username()
}

/// The line declares a host.
pub open spec fn is_host_line(line: Seq<char>) -> bool {
    "Host "@.is_prefix_of(trimmed(line))
}

/// The host name that a host line declares.
pub open spec fn alias_of(line: Seq<char>) -> Seq<char> {
    trimmed(without_leading(trimmed(line), "Host "@))
}

/// The profile that a host of the configuration becomes.
pub open spec fn candidate(alias: Seq<char>, entry: HostEntrySpec, fallback_user: Seq<char>) -> ServerSpec {
    ServerSpec {
        name: alias,
        user: match entry.user {
            Some(user) => user,
            None => fallback_user,
        },
        host: match entry.host_name {
            Some(host) => host,
            None => alias,
        },
        port: match entry.port {
            Some(port) => port,
            None => DEFAULT_PORT,
        },
        auth_type: match entry.identity_files {
            Some(files) => if files.len() > 0 {
                AuthSpec::Key(files[0])
            } else {
                AuthSpec::Agent
            },
            None => AuthSpec::Agent,
        },
        group: "Imported"@,
    }
}

/// Some profile has exactly this name.
pub open spec fn has_name(profiles: Seq<ServerSpec>, name: Seq<char>) -> bool {
    exists|i: int| 0 <= i < profiles.len() && (#[trigger] profiles[i]).name == name
}

/// The catalogue after one line of the configuration: a host line whose
/// name holds no `*` and is not the name of a profile adds a candidate;
/// any other line adds nothing.
pub open spec fn import_line(
    profiles: Seq<ServerSpec>,
    line: Seq<char>,
    hosts: Map<Seq<char>, HostEntrySpec>,
    fallback_user: Seq<char>,
) -> Seq<ServerSpec> {
    if is_host_line(line) && !alias_of(line).contains('*') && !has_name(profiles, alias_of(line)) {
        profiles.push(candidate(alias_of(line), hosts[alias_of(line)], fallback_user))
    } else {
        profiles
    }
}

/// The catalogue after the lines of the configuration, taken in order.
pub open spec fn import_lines(
    profiles: Seq<ServerSpec>,
    lines: Seq<Seq<char>>,
    hosts: Map<Seq<char>, HostEntrySpec>,
    fallback_user: Seq<char>,
) -> Seq<ServerSpec>
    decreases lines.len(),
{
    if lines.len() == 0 {
        profiles
    } else {
        import_lines(
            import_line(profiles, lines[0], hosts, fallback_user),
            lines.drop_first(),
            hosts,
            fallback_user,
        )
    }
}

/// The catalogue after the import of a configuration text.
pub open spec fn imported(
    profiles: Seq<ServerSpec>,
    text: Seq<char>,
    hosts: Map<Seq<char>, HostEntrySpec>,
    fallback_user: Seq<char>,
) -> Seq<ServerSpec> {
    import_lines(profiles, lines_spec(text), hosts, fallback_user)
}

/// An import never removes or changes a profile: the catalogue before is
/// the beginning of the catalogue after.
pub proof fn lemma_import_keeps_profiles(
    profiles: Seq<ServerSpec>,
    lines: Seq<Seq<char>>,
    hosts: Map<Seq<char>, HostEntrySpec>,
    fallback_user: Seq<char>,
)
    ensures
        profiles.is_prefix_of(import_lines(profiles, lines, hosts, fallback_user)),
    decreases lines.len(),
{
    if lines.len() > 0 {
        let next = import_line(profiles, lines[0], hosts, fallback_user);
        lemma_import_keeps_profiles(next, lines.drop_first(), hosts, fallback_user);
        let last = import_lines(next, lines.drop_first(), hosts, fallback_user);
        assert(profiles.is_prefix_of(next));
        assert(profiles =~= last.subrange(0, profiles.len() as int)) by {
            assert(next =~= last.subrange(0, next.len() as int));
        }
    }
}

/// Whether some profile has exactly this name.
pub fn contains_name(servers: &Vec<Server>, name: &str) -> (found: bool)
    ensures
        found == has_name(servers.deep_view(), name@),
{
    let mut i: usize = 0;
    while i < servers.len()
        invariant
            i <= servers.len(),
            forall|k: int| 0 <= k < i ==> (#[trigger] servers.deep_view()[k]).name != name@,
        decreases servers.len() - i,
    {
        if text_eq(servers[i].name.as_str(), name) {
            assert(servers.deep_view()[i as int].name == name@);
            return true;
        }
        i += 1;
    }
    false
}

/// The profile that a host of the configuration becomes: its own host
/// name, user and port where the configuration gives them, the first
/// identity file as its key, and the group `Imported`.
pub fn make_candidate(alias: &str, entry: HostEntry, fallback_user: &str) -> (server: Server)
    ensures
        server@ == candidate(alias@, entry@, fallback_user@),
{
    let HostEntry { host_name, user, port, identity_files } = entry;
    let user = match user {
        Some(user) => user,
        None => String::from_str(fallback_user),
    };
    let host = match host_name {
        Some(host) => host,
        None => String::from_str(alias),
    };
    let port = match port {
        Some(port) => port,
        None => DEFAULT_PORT,
    };
    let auth_type = match identity_files {
        Some(files) => if files.len() > 0 {
            AuthType::Key(files[0].clone())
        } else {
            AuthType::Agent
        },
        None => AuthType::Agent,
    };
    Server {
        name: String::from_str(alias),
        user,
        host,
        port,
        auth_type,
        group: String::from_str("Imported"),
    }
}

/// Adds to `servers` a candidate for every host that the text declares and
/// that is not there by name, and returns how many were added.
pub fn import_hosts(
    servers: &mut Vec<Server>,
    text: &str,
    config: &SshConfig,
    fallback_user: &str,
) -> (count: usize)
    ensures
        final(servers).deep_view() == imported(
            old(servers).deep_view(),
            text@,
            ssh_config_hosts(*config),
            fallback_user@,
        ),
        count == final(servers).len() - old(servers).len(),
{
    let lines = lines_of(text);
    let ghost hosts = ssh_config_hosts(*config);
    let ghost all = lines.deep_view();
    let ghost goal = imported(old(servers).deep_view(), text@, hosts, fallback_user@);
    let mut count: usize = 0;
    let mut i: usize = 0;
    proof {
        reveal_strlit("Host ");
        assert(all.skip(0) =~= all);
    }
    while i < lines.len()
        invariant
            i <= lines.len(),
            all == lines.deep_view(),
            hosts == ssh_config_hosts(*config),
            "Host "@.len() == 5,
            count <= i,
            servers.len() == old(servers).len() + count,
            import_lines(servers.deep_view(), all.skip(i as int), hosts, fallback_user@) == goal,
        decreases lines.len() - i,
    {
        let ghost before = servers.deep_view();
        let ghost line = all[i as int];
        proof {
            assert(all.skip(i as int)[0] == line);
            assert(all.skip(i as int).drop_first() =~= all.skip(i + 1));
            assert(lines[i as int]@ == line);
        }
        let inner = trim_of(lines[i].as_str());
        if starts_with_text(inner, "Host ") {
            let alias = trim_of(strip_leading(inner, "Host "));
            if !has_char(alias, '*') && !contains_name(servers, alias) {
                let entry = query_host(config, alias);
                servers.push(make_candidate(alias, entry, fallback_user));
                count += 1;
                assert(servers.deep_view() =~= import_line(before, line, hosts, fallback_user@));
            }
        }
        assert(servers.deep_view() == import_line(before, line, hosts, fallback_user@));
        i += 1;
    }
    count
}

} // verus!
