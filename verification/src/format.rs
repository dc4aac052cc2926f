//! The three shapes that the stored file may have, and the order in which
//! they are tried.

use vstd::prelude::*;
use crate::json::{
    items_value, json_parse, lemma_array_value, lemma_member_at, lemma_object_value, member,
    member_of, members_value, parse_value, value_to_json, Json, JsonValue,
};
use crate::profile::{default_group, default_group_text, AuthSpec, AuthType, Server, ServerSpec};
use crate::text::text_eq;

verus! {

/// Mathematical value of an [`EncryptedConfig`].
pub struct SealedSpec {
    pub salt: Seq<char>,
    pub nonce: Seq<char>,
    pub ciphertext: Seq<char>,
}

/// The encrypted shape: salt, nonce and ciphertext, each as base64 text.
#[derive(Debug, Clone)]
pub struct EncryptedConfig {
    pub salt: String,
    pub nonce: String,
    pub ciphertext: String,
}

impl View for EncryptedConfig {
    type V = SealedSpec;

    open spec fn view(&self) -> SealedSpec {
        SealedSpec { salt: self.salt@, nonce: self.nonce@, ciphertext: self.ciphertext@ }
    }
}

/// The text of a member that is present and is a string.
pub open spec fn text_of(found: Option<JsonValue>) -> Option<Seq<char>> {
    match found {
        Some(JsonValue::Text(s)) => Some(s),
        _ => None,
    }
}

/// The port of a member that is present and is an integer from 0 to 65535.
pub open spec fn port_of(found: Option<JsonValue>) -> Option<u16> {
    match found {
        Some(JsonValue::Number(n)) => if n <= 0xffff {
            Some(n as u16)
        } else {
            None
        },
        _ => None,
    }
}

/// The group of a record: the member where it is a string, the default
/// where the member is absent, and no group where it is anything else.
pub open spec fn group_of(found: Option<JsonValue>) -> Option<Seq<char>> {
    match found {
        None => Some(default_group_text()),
        Some(JsonValue::Text(g)) => Some(g),
        Some(_) => None,
    }
}

/// The authentication method that a one-member object stands for.
pub open spec fn tagged_auth(tag: Seq<char>, body: JsonValue) -> Option<AuthSpec> {
    if tag == "Password"@ {
        match body {
            JsonValue::Text(secret) => Some(AuthSpec::Password(secret)),
            _ => None,
        }
    } else if tag == "Key"@ {
        match body {
            JsonValue::Text(path) => Some(AuthSpec::Key(path)),
            _ => None,
        }
    } else {
        None
    }
}

/// The authentication method of a record: the string `"Agent"`, or an object
/// with the one member `"Password"` or `"Key"` that holds a string.
pub open spec fn auth_of(found: Option<JsonValue>) -> Option<AuthSpec> {
    match found {
        Some(JsonValue::Text(s)) => if s == "Agent"@ {
            Some(AuthSpec::Agent)
        } else {
            None
        },
        Some(JsonValue::Object(members)) => if members.len() == 1 {
            tagged_auth(members[0].0, members[0].1)
        } else {
            None
        },
        _ => None,
    }
}

/// The profile that a record of the current shape holds. Members that the
/// shape does not name are passed over.
pub open spec fn current_record(j: JsonValue) -> Option<ServerSpec> {
    match j {
        JsonValue::Object(m) => {
            let name = text_of(member_of(m, "name"@));
            let user = text_of(member_of(m, "user"@));
            let host = text_of(member_of(m, "host"@));
            let port = port_of(member_of(m, "port"@));
            let auth = auth_of(member_of(m, "auth_type"@));
            let group = group_of(member_of(m, "group"@));
            if name is Some && user is Some && host is Some && port is Some && auth is Some
                && group is Some {
                Some(
                    ServerSpec {
                        name: name->0,
                        user: user->0,
                        host: host->0,
                        port: port->0,
                        auth_type: auth->0,
                        group: group->0,
                    },
                )
            } else {
                None
            }
        },
        _ => None,
    }
}

/// The profile that a record of the legacy shape is upgraded to: its four
/// members, the agent for authentication, and the default group.
pub open spec fn legacy_record(j: JsonValue) -> Option<ServerSpec> {
    match j {
        JsonValue::Object(m) => {
            let name = text_of(member_of(m, "name"@));
            let user = text_of(member_of(m, "user"@));
            let host = text_of(member_of(m, "host"@));
            let port = port_of(member_of(m, "port"@));
            if name is Some && user is Some && host is Some && port is Some {
                Some(
                    ServerSpec {
                        name: name->0,
                        user: user->0,
                        host: host->0,
                        port: port->0,
                        auth_type: AuthSpec::Agent,
                        group: default_group_text(),
                    },
                )
            } else {
                None
            }
        },
        _ => None,
    }
}

/// The profiles of a document of the current shape: an array whose every
/// item is a record of that shape.
pub open spec fn current_shape(j: JsonValue) -> Option<Seq<ServerSpec>> {
    match j {
        JsonValue::Array(items) => if forall|i: int|
            0 <= i < items.len() ==> current_record(#[trigger] items[i]) is Some {
            Some(Seq::new(items.len(), |i: int| current_record(items[i])->0))
        } else {
            None
        },
        _ => None,
    }
}

/// The profiles of a document of the legacy shape, upgraded.
pub open spec fn legacy_shape(j: JsonValue) -> Option<Seq<ServerSpec>> {
    match j {
        JsonValue::Array(items) => if forall|i: int|
            0 <= i < items.len() ==> legacy_record(#[trigger] items[i]) is Some {
            Some(Seq::new(items.len(), |i: int| legacy_record(items[i])->0))
        } else {
            None
        },
        _ => None,
    }
}

/// The three texts of a document of the encrypted shape.
pub open spec fn sealed_shape(j: JsonValue) -> Option<SealedSpec> {
    match j {
        JsonValue::Object(m) => {
            let salt = text_of(member_of(m, "salt"@));
            let nonce = text_of(member_of(m, "nonce"@));
            let ciphertext = text_of(member_of(m, "ciphertext"@));
            if salt is Some && nonce is Some && ciphertext is Some {
                Some(SealedSpec { salt: salt->0, nonce: nonce->0, ciphertext: ciphertext->0 })
            } else {
                None
            }
        },
        _ => None,
    }
}

/// What a document turns out to be.
pub enum Detected {
    Current(Seq<ServerSpec>),
    Legacy(Seq<ServerSpec>),
    Encrypted(SealedSpec),
    Unknown,
}

/// The shape of a document: the first of current, legacy and encrypted that
/// it has.
pub open spec fn shape_of(j: JsonValue) -> Detected {
    if current_shape(j) is Some {
        Detected::Current(current_shape(j)->0)
    } else if legacy_shape(j) is Some {
        Detected::Legacy(legacy_shape(j)->0)
    } else if sealed_shape(j) is Some {
        Detected::Encrypted(sealed_shape(j)->0)
    } else {
        Detected::Unknown
    }
}

/// A document that has both the current and the legacy shape is taken as
/// current.
pub proof fn lemma_current_before_legacy(j: JsonValue)
    requires
        current_shape(j) is Some,
        legacy_shape(j) is Some,
    ensures
        shape_of(j) == Detected::Current(current_shape(j)->0),
{
}

/// Every profile that comes out of a legacy document authenticates through
/// the agent and stands in the default group.
pub proof fn lemma_legacy_upgrade(j: JsonValue, i: int)
    requires
        legacy_shape(j) is Some,
        0 <= i < legacy_shape(j)->0.len(),
    ensures
        legacy_shape(j)->0[i].auth_type == AuthSpec::Agent,
        legacy_shape(j)->0[i].group == "General"@,
{
}

/// Every record of the current shape has the legacy shape too, so the order
/// of the attempts is what keeps its authentication and group.
pub proof fn lemma_current_record_is_legacy(j: JsonValue)
    requires
        current_record(j) is Some,
    ensures
        legacy_record(j) is Some,
{
}

fn text_member(members: &Vec<(String, Json)>, key: &str) -> (text: Option<String>)
    ensures
        match text {
            Some(s) => text_of(member_of(members_value(members@), key@)) == Some(s@),
            None => text_of(member_of(members_value(members@), key@)) is None,
        },
{
    match member(members, key) {
        Some(Json::Text(s)) => Some(s.clone()),
        _ => None,
    }
}

fn port_member(members: &Vec<(String, Json)>, key: &str) -> (port: Option<u16>)
    ensures
        port == port_of(member_of(members_value(members@), key@)),
{
    match member(members, key) {
        Some(Json::Number(n)) => if *n <= 0xffff {
            Some(*n as u16)
        } else {
            None
        },
        _ => None,
    }
}

fn group_member(members: &Vec<(String, Json)>, key: &str) -> (group: Option<String>)
    ensures
        match group {
            Some(g) => group_of(member_of(members_value(members@), key@)) == Some(g@),
            None => group_of(member_of(members_value(members@), key@)) is None,
        },
{
    match member(members, key) {
        None => Some(default_group()),
        Some(Json::Text(g)) => Some(g.clone()),
        Some(_) => None,
    }
}

fn tagged_auth_of(tag: &str, body: &Json) -> (auth: Option<AuthType>)
    ensures
        match auth {
            Some(a) => tagged_auth(tag@, body@) == Some(a@),
            None => tagged_auth(tag@, body@) is None,
        },
{
    if text_eq(tag, "Password") {
        match body {
            Json::Text(secret) => Some(AuthType::Password(secret.clone())),
            _ => None,
        }
    } else if text_eq(tag, "Key") {
        match body {
            Json::Text(path) => Some(AuthType::Key(path.clone())),
            _ => None,
        }
    } else {
        None
    }
}

fn auth_member(members: &Vec<(String, Json)>, key: &str) -> (auth: Option<AuthType>)
    ensures
        match auth {
            Some(a) => auth_of(member_of(members_value(members@), key@)) == Some(a@),
            None => auth_of(member_of(members_value(members@), key@)) is None,
        },
{
    match member(members, key) {
        Some(Json::Text(s)) => if text_eq(s.as_str(), "Agent") {
            Some(AuthType::Agent)
        } else {
            None
        },
        Some(Json::Object(inner)) => {
            proof {
                lemma_object_value(*inner);
            }
            if inner.len() == 1 {
                tagged_auth_of(inner[0].0.as_str(), &inner[0].1)
            } else {
                None
            }
        },
        _ => None,
    }
}

/// Reads one record of the current shape.
pub fn decode_current_record(j: &Json) -> (server: Option<Server>)
    ensures
        match server {
            Some(s) => current_record(j@) == Some(s@),
            None => current_record(j@) is None,
        },
{
    match j {
        Json::Object(members) => {
            proof {
                lemma_object_value(*members);
            }
            let name = text_member(members, "name");
            let user = text_member(members, "user");
            let host = text_member(members, "host");
            let port = port_member(members, "port");
            let auth = auth_member(members, "auth_type");
            let group = group_member(members, "group");
            match (name, user, host, port, auth, group) {
                (Some(name), Some(user), Some(host), Some(port), Some(auth_type), Some(group)) => {
                    Some(Server { name, user, host, port, auth_type, group })
                },
                _ => None,
            }
        },
        _ => None,
    }
}

/// Reads one record of the legacy shape and upgrades it.
pub fn decode_legacy_record(j: &Json) -> (server: Option<Server>)
    ensures
        match server {
            Some(s) => legacy_record(j@) == Some(s@),
            None => legacy_record(j@) is None,
        },
{
    match j {
        Json::Object(members) => {
            proof {
                lemma_object_value(*members);
            }
            let name = text_member(members, "name");
            let user = text_member(members, "user");
            let host = text_member(members, "host");
            let port = port_member(members, "port");
            match (name, user, host, port) {
                (Some(name), Some(user), Some(host), Some(port)) => {
                    Some(
                        Server {
                            name,
                            user,
                            host,
                            port,
                            auth_type: AuthType::Agent,
                            group: default_group(),
                        },
                    )
                },
                _ => None,
            }
        },
        _ => None,
    }
}

/// Reads a document of the current shape.
pub fn decode_current(j: &Json) -> (servers: Option<Vec<Server>>)
    ensures
        match servers {
            Some(v) => current_shape(j@) == Some(v.deep_view()),
            None => current_shape(j@) is None,
        },
{
    match j {
        Json::Array(items) => {
            proof {
                lemma_array_value(*items);
            }
            let ghost all = items_value(items@);
            let mut servers: Vec<Server> = Vec::new();
            let mut i: usize = 0;
            while i < items.len()
                invariant
                    i <= items.len(),
                    all == items_value(items@),
                    j@ == JsonValue::Array(all),
                    servers.len() == i,
                    forall|k: int| 0 <= k < i ==> current_record(#[trigger] all[k]) is Some,
                    forall|k: int|
                        0 <= k < i ==> (#[trigger] servers[k])@ == current_record(all[k])->0,
                decreases items.len() - i,
            {
                match decode_current_record(&items[i]) {
                    Some(server) => {
                        servers.push(server);
                    },
                    None => {
                        assert(current_record(all[i as int]) is None);
                        return None;
                    },
                }
                i += 1;
            }
            assert(servers.deep_view() =~= current_shape(j@)->0);
            Some(servers)
        },
        _ => None,
    }
}

/// Reads a document of the legacy shape and upgrades every record.
pub fn decode_legacy(j: &Json) -> (servers: Option<Vec<Server>>)
    ensures
        match servers {
            Some(v) => legacy_shape(j@) == Some(v.deep_view()),
            None => legacy_shape(j@) is None,
        },
{
    match j {
        Json::Array(items) => {
            proof {
                lemma_array_value(*items);
            }
            let ghost all = items_value(items@);
            let mut servers: Vec<Server> = Vec::new();
            let mut i: usize = 0;
            while i < items.len()
                invariant
                    i <= items.len(),
                    all == items_value(items@),
                    j@ == JsonValue::Array(all),
                    servers.len() == i,
                    forall|k: int| 0 <= k < i ==> legacy_record(#[trigger] all[k]) is Some,
                    forall|k: int|
                        0 <= k < i ==> (#[trigger] servers[k])@ == legacy_record(all[k])->0,
                decreases items.len() - i,
            {
                match decode_legacy_record(&items[i]) {
                    Some(server) => {
                        servers.push(server);
                    },
                    None => {
                        assert(legacy_record(all[i as int]) is None);
                        return None;
                    },
                }
                i += 1;
            }
            assert(servers.deep_view() =~= legacy_shape(j@)->0);
            Some(servers)
        },
        _ => None,
    }
}

/// Reads a document of the encrypted shape.
pub fn decode_sealed(j: &Json) -> (sealed: Option<EncryptedConfig>)
    ensures
        match sealed {
            Some(e) => sealed_shape(j@) == Some(e@),
            None => sealed_shape(j@) is None,
        },
{
    match j {
        Json::Object(members) => {
            proof {
                lemma_object_value(*members);
            }
            let salt = text_member(members, "salt");
            let nonce = text_member(members, "nonce");
            let ciphertext = text_member(members, "ciphertext");
            match (salt, nonce, ciphertext) {
                (Some(salt), Some(nonce), Some(ciphertext)) => {
                    Some(EncryptedConfig { salt, nonce, ciphertext })
                },
                _ => None,
            }
        },
        _ => None,
    }
}


/// The document that stands for an authentication method.
pub open spec fn auth_json(auth: AuthSpec) -> JsonValue {
    match auth {
        AuthSpec::Password(secret) => JsonValue::Object(
            seq![("Password"@, JsonValue::Text(secret))],
        ),
        AuthSpec::Key(path) => JsonValue::Object(seq![("Key"@, JsonValue::Text(path))]),
        AuthSpec::Agent => JsonValue::Text("Agent"@),
    }
}

/// The record of the current shape that stands for a profile.
pub open spec fn record_json(s: ServerSpec) -> JsonValue {
    JsonValue::Object(
        seq![
            ("name"@, JsonValue::Text(s.name)),
            ("user"@, JsonValue::Text(s.user)),
            ("host"@, JsonValue::Text(s.host)),
            ("port"@, JsonValue::Number(s.port as u64)),
            ("auth_type"@, auth_json(s.auth_type)),
            ("group"@, JsonValue::Text(s.group)),
        ],
    )
}

/// The document of the current shape that stands for a sequence of profiles.
pub open spec fn current_json(profiles: Seq<ServerSpec>) -> JsonValue {
    JsonValue::Array(Seq::new(profiles.len(), |i: int| record_json(profiles[i])))
}

/// The document of the encrypted shape that holds three texts.
pub open spec fn sealed_json(sealed: SealedSpec) -> JsonValue {
    JsonValue::Object(
        seq![
            ("salt"@, JsonValue::Text(sealed.salt)),
            ("nonce"@, JsonValue::Text(sealed.nonce)),
            ("ciphertext"@, JsonValue::Text(sealed.ciphertext)),
        ],
    )
}

/// The member names of the shapes are pairwise different.
pub open spec fn names_differ() -> bool {
    &&& "name"@ != "user"@
    &&& "name"@ != "host"@
    &&& "name"@ != "port"@
    &&& "name"@ != "auth_type"@
    &&& "name"@ != "group"@
    &&& "user"@ != "host"@
    &&& "user"@ != "port"@
    &&& "user"@ != "auth_type"@
    &&& "user"@ != "group"@
    &&& "host"@ != "port"@
    &&& "host"@ != "auth_type"@
    &&& "host"@ != "group"@
    &&& "port"@ != "auth_type"@
    &&& "port"@ != "group"@
    &&& "auth_type"@ != "group"@
    &&& "salt"@ != "nonce"@
    &&& "salt"@ != "ciphertext"@
    &&& "nonce"@ != "ciphertext"@
    &&& "Password"@ != "Key"@
}

/// The member names of the shapes are pairwise different.
pub proof fn lemma_names_differ()
    ensures
        names_differ(),
{
    reveal_strlit("name");
    reveal_strlit("user");
    reveal_strlit("host");
    reveal_strlit("port");
    reveal_strlit("auth_type");
    reveal_strlit("group");
    reveal_strlit("salt");
    reveal_strlit("nonce");
    reveal_strlit("ciphertext");
    reveal_strlit("Password");
    reveal_strlit("Key");
    assert("name"@[0] == 'n' && "user"@[0] == 'u' && "host"@[0] == 'h' && "port"@[0] == 'p');
    assert("auth_type"@.len() == 9 && "group"@.len() == 5 && "name"@.len() == 4);
    assert("salt"@.len() == 4 && "nonce"@.len() == 5 && "ciphertext"@.len() == 10);
    assert("Password"@.len() == 8 && "Key"@.len() == 3);
}

/// Reading the document of an authentication method gives the method back.
pub proof fn lemma_auth_round_trip(auth: AuthSpec)
    ensures
        auth_of(Some(auth_json(auth))) == Some(auth),
        auth_json(auth).printable(1),
{
    reveal_with_fuel(JsonValue::printable, 2);
    lemma_names_differ();
    match auth {
        AuthSpec::Password(secret) => {
            let m = seq![("Password"@, JsonValue::Text(secret))];
            assert(m.len() == 1 && m[0] == ("Password"@, JsonValue::Text(secret)));
        },
        AuthSpec::Key(path) => {
            let m = seq![("Key"@, JsonValue::Text(path))];
            assert(m.len() == 1 && m[0] == ("Key"@, JsonValue::Text(path)));
        },
        AuthSpec::Agent => {},
    }
}

/// Reading the record of a profile gives the profile back, and the record
/// can be written.
pub proof fn lemma_record_round_trip(s: ServerSpec)
    ensures
        current_record(record_json(s)) == Some(s),
        record_json(s).printable(2),
{
    reveal_with_fuel(JsonValue::printable, 2);
    lemma_names_differ();
    lemma_auth_round_trip(s.auth_type);
    let m = record_json(s)->Object_0;
    assert(m.len() == 6);
    assert(m[0] == ("name"@, JsonValue::Text(s.name)));
    assert(m[1] == ("user"@, JsonValue::Text(s.user)));
    assert(m[2] == ("host"@, JsonValue::Text(s.host)));
    assert(m[3] == ("port"@, JsonValue::Number(s.port as u64)));
    assert(m[4] == ("auth_type"@, auth_json(s.auth_type)));
    assert(m[5] == ("group"@, JsonValue::Text(s.group)));
    lemma_member_at(m, "name"@, 0);
    lemma_member_at(m, "user"@, 1);
    lemma_member_at(m, "host"@, 2);
    lemma_member_at(m, "port"@, 3);
    lemma_member_at(m, "auth_type"@, 4);
    lemma_member_at(m, "group"@, 5);
    assert(s.port as u64 as u16 == s.port);
}

/// Reading the document of a sequence of profiles gives the sequence back,
/// and the document can be written.
pub proof fn lemma_current_round_trip(profiles: Seq<ServerSpec>)
    ensures
        current_shape(current_json(profiles)) == Some(profiles),
        current_json(profiles).printable(3),
{
    let items = current_json(profiles)->Array_0;
    assert forall|i: int| 0 <= i < items.len() implies current_record(#[trigger] items[i])
        == Some(profiles[i]) && items[i].printable(2) by {
        lemma_record_round_trip(profiles[i]);
    }
    assert(current_shape(current_json(profiles))->0 =~= profiles);
}

/// The document of the encrypted shape is read as encrypted, never as
/// current or legacy, and can be written.
pub proof fn lemma_sealed_round_trip(sealed: SealedSpec)
    ensures
        shape_of(sealed_json(sealed)) == Detected::Encrypted(sealed),
        sealed_json(sealed).printable(1),
{
    reveal_with_fuel(JsonValue::printable, 2);
    lemma_names_differ();
    let m = sealed_json(sealed)->Object_0;
    assert(m.len() == 3);
    assert(m[0] == ("salt"@, JsonValue::Text(sealed.salt)));
    assert(m[1] == ("nonce"@, JsonValue::Text(sealed.nonce)));
    assert(m[2] == ("ciphertext"@, JsonValue::Text(sealed.ciphertext)));
    lemma_member_at(m, "salt"@, 0);
    lemma_member_at(m, "nonce"@, 1);
    lemma_member_at(m, "ciphertext"@, 2);
}

/// A document that can be written with some nesting can be written with
/// more.
pub proof fn lemma_printable_deeper(j: JsonValue, depth: nat, deeper: nat)
    requires
        j.printable(depth),
        depth <= deeper,
    ensures
        j.printable(deeper),
    decreases depth,
{
    match j {
        JsonValue::Array(items) => {
            assert forall|i: int| 0 <= i < items.len() implies (#[trigger] items[i]).printable(
                (deeper - 1) as nat,
            ) by {
                lemma_printable_deeper(items[i], (depth - 1) as nat, (deeper - 1) as nat);
            }
        },
        JsonValue::Object(members) => {
            assert forall|i: int| 0 <= i < members.len() implies (#[trigger] members[i]).1.printable(
                (deeper - 1) as nat,
            ) by {
                lemma_printable_deeper(members[i].1, (depth - 1) as nat, (deeper - 1) as nat);
            }
        },
        _ => {},
    }
}


fn text_entry(key: &str, text: &String) -> (entry: (String, Json))
    ensures
        entry.0@ == key@,
        entry.1@ == JsonValue::Text(text@),
{
    (String::from_str(key), Json::Text(text.clone()))
}

/// Writes an authentication method as a document.
pub fn encode_auth(auth: &AuthType) -> (j: Json)
    ensures
        j@ == auth_json(auth@),
{
    match auth {
        AuthType::Password(secret) => {
            let mut members: Vec<(String, Json)> = Vec::new();
            members.push(text_entry("Password", secret));
            proof {
                lemma_object_value(members);
                assert(members_value(members@) =~= seq![
                    ("Password"@, JsonValue::Text(secret@)),
                ]);
            }
            Json::Object(members)
        },
        AuthType::Key(path) => {
            let mut members: Vec<(String, Json)> = Vec::new();
            members.push(text_entry("Key", path));
            proof {
                lemma_object_value(members);
                assert(members_value(members@) =~= seq![("Key"@, JsonValue::Text(path@))]);
            }
            Json::Object(members)
        },
        AuthType::Agent => Json::Text(String::from_str("Agent")),
    }
}

/// Writes a profile as a record of the current shape.
pub fn encode_record(server: &Server) -> (j: Json)
    ensures
        j@ == record_json(server@),
{
    let mut members: Vec<(String, Json)> = Vec::new();
    members.push(text_entry("name", &server.name));
    members.push(text_entry("user", &server.user));
    members.push(text_entry("host", &server.host));
    members.push((String::from_str("port"), Json::Number(server.port as u64)));
    members.push((String::from_str("auth_type"), encode_auth(&server.auth_type)));
    members.push(text_entry("group", &server.group));
    proof {
        lemma_object_value(members);
        assert(members_value(members@) =~= record_json(server@)->Object_0);
    }
    Json::Object(members)
}

/// Writes profiles as a document of the current shape.
pub fn encode_current(servers: &Vec<Server>) -> (j: Json)
    ensures
        j@ == current_json(servers.deep_view()),
{
    let mut items: Vec<Json> = Vec::new();
    let mut i: usize = 0;
    while i < servers.len()
        invariant
            i <= servers.len(),
            items.len() == i,
            forall|k: int| 0 <= k < i ==> (#[trigger] items[k])@ == record_json(servers[k]@),
        decreases servers.len() - i,
    {
        items.push(encode_record(&servers[i]));
        i += 1;
    }
    proof {
        lemma_array_value(items);
        assert(items_value(items@) =~= current_json(servers.deep_view())->Array_0);
    }
    Json::Array(items)
}

/// Writes three texts as a document of the encrypted shape.
pub fn encode_sealed(sealed: &EncryptedConfig) -> (j: Json)
    ensures
        j@ == sealed_json(sealed@),
{
    let mut members: Vec<(String, Json)> = Vec::new();
    members.push(text_entry("salt", &sealed.salt));
    members.push(text_entry("nonce", &sealed.nonce));
    members.push(text_entry("ciphertext", &sealed.ciphertext));
    proof {
        lemma_object_value(members);
        assert(members_value(members@) =~= sealed_json(sealed@)->Object_0);
    }
    Json::Object(members)
}

/// What a stored file turns out to hold.
#[derive(Debug)]
pub enum FileShape {
    /// Profiles in the current shape.
    Current(Vec<Server>),
    /// Profiles in the legacy shape, already upgraded.
    Legacy(Vec<Server>),
    /// An encrypted catalogue, still sealed.
    Encrypted(EncryptedConfig),
    /// None of the three shapes.
    Unknown,
}

impl View for FileShape {
    type V = Detected;

    open spec fn view(&self) -> Detected {
        match self {
            FileShape::Current(servers) => Detected::Current(servers.deep_view()),
            FileShape::Legacy(servers) => Detected::Legacy(servers.deep_view()),
            FileShape::Encrypted(sealed) => Detected::Encrypted(sealed@),
            FileShape::Unknown => Detected::Unknown,
        }
    }
}

/// Tries the three shapes on a document, in order: current, legacy,
/// encrypted. The first that fits is the answer.
pub fn classify(j: &Json) -> (shape: FileShape)
    ensures
        shape@ == shape_of(j@),
{
    if let Some(servers) = decode_current(j) {
        return FileShape::Current(servers);
    }
    if let Some(servers) = decode_legacy(j) {
        return FileShape::Legacy(servers);
    }
    if let Some(sealed) = decode_sealed(j) {
        return FileShape::Encrypted(sealed);
    }
    FileShape::Unknown
}

/// The shape of a stored text: that of the document it holds, and unknown
/// where it holds none.
pub open spec fn detect(text: Seq<char>) -> Detected {
    match json_parse(text) {
        Some(j) => shape_of(j),
        None => Detected::Unknown,
    }
}

/// Finds the shape of a stored text.
pub fn detect_shape(content: &str) -> (shape: FileShape)
    ensures
        shape@ == detect(content@),
{
    match parse_value(content) {
        Some(value) => {
            let j = value_to_json(&value);
            classify(&j)
        },
        None => FileShape::Unknown,
    }
}


} // verus!
