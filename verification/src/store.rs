//! The credential store: the catalogue of profiles, its passphrase, and the
//! text that keeps both on disk.

use vstd::prelude::*;
use vstd::utf8::{
    decode_utf8, encode_utf8, encode_utf8_decode_utf8, encode_utf8_valid_utf8, valid_utf8,
};
use crate::crypto::{
    aes_gcm_seal, base64_bytes, base64_decode, base64_encode, base64_text, decrypt, decrypted,
    derive_key, derived_key, encrypt, random_bytes, utf8_text, MAX_PLAINTEXT, NONCE_LEN,
    SALT_LEN, TAG_LEN,
};
use crate::format::{
    current_json, current_shape, decode_current, detect, detect_shape, encode_current,
    encode_sealed, legacy_shape, lemma_current_round_trip, lemma_printable_deeper,
    lemma_sealed_round_trip, sealed_json, Detected, EncryptedConfig, FileShape, SealedSpec,
};
use crate::json::{
    json_compact, json_parse, json_pretty, json_to_value, parse_value, value_to_json,
    write_compact, write_pretty, Json,
};
use crate::import::{
    current_user, import_hosts, imported, lemma_import_keeps_profiles, parse_ssh_config,
    ssh_config_hosts, HostEntrySpec,
};
use crate::profile::{AuthSpec, Server, ServerSpec};
use crate::text::{lines_spec, text_eq};

verus! {

/// Mathematical value of a [`StoreError`].
pub enum Failure {
    Format(Seq<char>),
    Auth,
    PassphraseMismatch,
    Seal,
}

/// Why the store refused.
#[derive(Debug, Clone)]
pub enum StoreError {
    /// The file at `path` has none of the three known shapes.
    Format { path: String },
    /// The passphrase is wrong or the file was tampered with; which of the
    /// two is not told.
    Auth,
    /// The passphrase and its confirmation differ.
    PassphraseMismatch,
    /// The catalogue could not be sealed: no random bytes were to be had, or
    /// the payload is larger than the cipher or the encoding takes.
    Seal,
}

impl View for StoreError {
    type V = Failure;

    open spec fn view(&self) -> Failure {
        match self {
            StoreError::Format { path } => Failure::Format(path@),
            StoreError::Auth => Failure::Auth,
            StoreError::PassphraseMismatch => Failure::PassphraseMismatch,
            StoreError::Seal => Failure::Seal,
        }
    }
}

/// Why an import was refused.
#[derive(Clone, Copy, Debug, PartialEq, Eq, Structural)]
pub enum ImportError {
    /// The configuration does not parse.
    Parse,
}

/// What an error says to the user.
pub open spec fn failure_text(failure: Failure) -> Seq<char> {
    match failure {
        Failure::Format(path) => "Failed to parse config file at "@ + path,
        Failure::Auth => "Invalid password or corrupted data"@,
        Failure::PassphraseMismatch => "Passwords do not match"@,
        Failure::Seal => "Encryption failed"@,
    }
}

impl StoreError {
    /// What the error says to the user.
    pub fn message(&self) -> (text: String)
        ensures
            text@ == failure_text(self@),
    {
        match self {
            StoreError::Format { path } => {
                let mut text = String::from_str("Failed to parse config file at ");
                text.append(path.as_str());
                text
            },
            StoreError::Auth => String::from_str("Invalid password or corrupted data"),
            StoreError::PassphraseMismatch => String::from_str("Passwords do not match"),
            StoreError::Seal => String::from_str("Encryption failed"),
        }
    }
}

/// The directory of the stored file, below the user's configuration
/// directory.
pub const STORE_DIRECTORY: &'static str = "ssh-manager";

/// The name of the stored file.
pub const STORE_FILE: &'static str = "servers.json";

/// Mathematical value of a [`Config`].
pub struct ConfigSpec {
    pub profiles: Seq<ServerSpec>,
    pub passphrase: Option<Seq<char>>,
}

/// The catalogue: profiles in display order, and the passphrase once one
/// has been supplied.
pub struct Config {
    pub servers: Vec<Server>,
    master_password: Option<String>,
}

impl View for Config {
    type V = ConfigSpec;

    open spec fn view(&self) -> ConfigSpec {
        ConfigSpec { profiles: self.profiles(), passphrase: self.passphrase() }
    }
}

/// Mathematical value of a [`Loaded`].
pub enum LoadedSpec {
    Ready(ConfigSpec),
    Migrated(ConfigSpec),
    Locked(SealedSpec),
}

/// What loading found.
pub enum Loaded {
    /// No file, or profiles in the current shape.
    Ready(Config),
    /// Profiles in the legacy shape, upgraded in memory only.
    Migrated(Config),
    /// An encrypted catalogue; a passphrase is needed to go on.
    Locked(EncryptedConfig),
}

impl View for Loaded {
    type V = LoadedSpec;

    open spec fn view(&self) -> LoadedSpec {
        match self {
            Loaded::Ready(config) => LoadedSpec::Ready(config@),
            Loaded::Migrated(config) => LoadedSpec::Migrated(config@),
            Loaded::Locked(sealed) => LoadedSpec::Locked(sealed@),
        }
    }
}

/// What loading finds in a file: `content` is its text, `None` where there
/// is no file yet.
pub open spec fn loaded(path: Seq<char>, content: Option<Seq<char>>) -> Result<
    LoadedSpec,
    Failure,
> {
    match content {
        None => Ok(LoadedSpec::Ready(ConfigSpec { profiles: Seq::empty(), passphrase: None })),
        Some(text) => match detect(text) {
            Detected::Current(profiles) => Ok(
                LoadedSpec::Ready(ConfigSpec { profiles, passphrase: None }),
            ),
            Detected::Legacy(profiles) => Ok(
                LoadedSpec::Migrated(ConfigSpec { profiles, passphrase: None }),
            ),
            Detected::Encrypted(sealed) => Ok(LoadedSpec::Locked(sealed)),
            Detected::Unknown => Err(Failure::Format(path)),
        },
    }
}

/// The payload that a passphrase opens: the three texts must be base64, the
/// nonce 12 bytes long, and the cipher must accept ciphertext and tag under
/// the key derived from passphrase and salt.
pub open spec fn opened(sealed: SealedSpec, passphrase: Seq<char>) -> Option<Seq<u8>> {
    match (
        base64_bytes(sealed.salt),
        base64_bytes(sealed.nonce),
        base64_bytes(sealed.ciphertext),
    ) {
        (Some(salt), Some(nonce), Some(ciphertext)) => decrypted(
            derived_key(passphrase, salt),
            nonce,
            ciphertext,
        ),
        _ => None,
    }
}

/// The profiles in an opened payload: it must be UTF-8 text that holds a
/// document of the current shape.
pub open spec fn payload_profiles(payload: Seq<u8>) -> Option<Seq<ServerSpec>> {
    if valid_utf8(payload) {
        match json_parse(decode_utf8(payload)) {
            Some(j) => current_shape(j),
            None => None,
        }
    } else {
        None
    }
}

/// What unlocking gives: an authentication failure where nothing opens, a
/// format failure where what opens holds no profiles.
pub open spec fn unlocked(path: Seq<char>, sealed: SealedSpec, passphrase: Seq<char>) -> Result<
    ConfigSpec,
    Failure,
> {
    match opened(sealed, passphrase) {
        None => Err(Failure::Auth),
        Some(payload) => match payload_profiles(payload) {
            Some(profiles) => Ok(ConfigSpec { profiles, passphrase: Some(passphrase) }),
            None => Err(Failure::Format(path)),
        },
    }
}

/// The bytes that are encrypted for a sequence of profiles.
pub open spec fn payload_of(profiles: Seq<ServerSpec>) -> Seq<u8> {
    encode_utf8(json_compact(current_json(profiles)))
}

/// The three texts that sealing produces.
pub open spec fn sealed_parts(
    profiles: Seq<ServerSpec>,
    passphrase: Seq<char>,
    salt: Seq<u8>,
    nonce: Seq<u8>,
) -> SealedSpec {
    SealedSpec {
        salt: base64_text(salt),
        nonce: base64_text(nonce),
        ciphertext: base64_text(
            aes_gcm_seal(derived_key(passphrase, salt), nonce, payload_of(profiles)),
        ),
    }
}

/// The text that sealing produces, or the refusal: salt and nonce must have
/// their lengths, and the payload must be one that the cipher and the
/// encoding take.
pub open spec fn sealed_text(
    profiles: Seq<ServerSpec>,
    passphrase: Seq<char>,
    salt: Seq<u8>,
    nonce: Seq<u8>,
) -> Result<Seq<char>, Failure> {
    if salt.len() != SALT_LEN || nonce.len() != NONCE_LEN {
        Err(Failure::Seal)
    } else if payload_of(profiles).len() > MAX_PLAINTEXT || payload_of(profiles).len() + TAG_LEN
        > usize::MAX / 4 * 3 {
        Err(Failure::Seal)
    } else {
        Ok(json_pretty(sealed_json(sealed_parts(profiles, passphrase, salt, nonce))))
    }
}

/// A stored text is an encrypted catalogue that `passphrase` opens to
/// `profiles`.
pub open spec fn reopens(text: Seq<char>, passphrase: Seq<char>, profiles: Seq<ServerSpec>) -> bool {
    &&& detect(text) is Encrypted
    &&& opened(detect(text)->Encrypted_0, passphrase) is Some
    &&& payload_profiles(opened(detect(text)->Encrypted_0, passphrase)->0) == Some(profiles)
}

/// The value of a result that carries a text.
pub open spec fn text_result(r: Result<String, StoreError>) -> Result<Seq<char>, Failure> {
    match r {
        Ok(text) => Ok(text@),
        Err(e) => Err(e@),
    }
}

/// The value of a result that carries a catalogue.
pub open spec fn config_result(r: Result<Config, StoreError>) -> Result<ConfigSpec, Failure> {
    match r {
        Ok(config) => Ok(config@),
        Err(e) => Err(e@),
    }
}

/// The value of a result of loading.
pub open spec fn loaded_result(r: Result<Loaded, StoreError>) -> Result<LoadedSpec, Failure> {
    match r {
        Ok(found) => Ok(found@),
        Err(e) => Err(e@),
    }
}

/// The passphrase that a save goes on with: the one held, or else the one
/// entered.
pub open spec fn kept_passphrase(before: ConfigSpec, entry: Seq<char>) -> Seq<char> {
    match before.passphrase {
        Some(held) => held,
        None => entry,
    }
}

/// The value of a draw of salt and nonce.
pub open spec fn drawn_value(drawn: Option<(Vec<u8>, Vec<u8>)>) -> Option<(Seq<u8>, Seq<u8>)> {
    match drawn {
        Some((salt, nonce)) => Some((salt@, nonce@)),
        None => None,
    }
}

/// The catalogue after a save, and the text to store or the refusal. Where
/// no passphrase is held and the confirmation differs from the entry, the
/// save fails and changes nothing. Otherwise the catalogue holds the
/// passphrase from then on, and the text is the one sealed with what was
/// drawn; a draw that failed fails the save.
pub open spec fn saved(
    before: ConfigSpec,
    entry: Seq<char>,
    confirmation: Seq<char>,
    drawn: Option<(Seq<u8>, Seq<u8>)>,
) -> (ConfigSpec, Result<Seq<char>, Failure>) {
    if before.passphrase is None && entry != confirmation {
        (before, Err(Failure::PassphraseMismatch))
    } else {
        (
            ConfigSpec {
                profiles: before.profiles,
                passphrase: Some(kept_passphrase(before, entry)),
            },
            match drawn {
                Some((salt, nonce)) => sealed_text(
                    before.profiles,
                    kept_passphrase(before, entry),
                    salt,
                    nonce,
                ),
                None => Err(Failure::Seal),
            },
        )
    }
}

/// Whatever the cipher refuses is reported as an authentication failure
/// and yields no profiles, be it for a passphrase other than the one that
/// sealed the catalogue or for a salt, a nonce or a ciphertext that was
/// changed. That the cipher does refuse these is its own strength and is
/// not claimed here.
pub proof fn lemma_refused_is_auth(path: Seq<char>, sealed: SealedSpec, passphrase: Seq<char>)
    requires
        opened(sealed, passphrase) is None,
    ensures
        unlocked(path, sealed, passphrase) == Err::<ConfigSpec, Failure>(Failure::Auth),
{
}

/// Profiles never come from anything but a payload that the cipher
/// accepted under the key of the passphrase: where unlocking succeeds, the
/// profiles are those that the accepted payload holds.
pub proof fn lemma_profiles_come_from_an_accepted_payload(
    path: Seq<char>,
    sealed: SealedSpec,
    passphrase: Seq<char>,
)
    requires
        unlocked(path, sealed, passphrase) is Ok,
    ensures
        opened(sealed, passphrase) is Some,
        payload_profiles(opened(sealed, passphrase)->0) == Some(
            unlocked(path, sealed, passphrase)->Ok_0.profiles,
        ),
{
}

/// A file that holds a document of the current shape loads as its
/// profiles, whether or not the document has the legacy shape as well.
pub proof fn lemma_current_file_is_current(path: Seq<char>, text: Seq<char>)
    requires
        json_parse(text) is Some,
        current_shape(json_parse(text)->0) is Some,
    ensures
        loaded(path, Some(text)) == Ok::<LoadedSpec, Failure>(
            LoadedSpec::Ready(
                ConfigSpec { profiles: current_shape(json_parse(text)->0)->0, passphrase: None },
            ),
        ),
{
}

/// A file that holds a document of the legacy shape, and not of the current
/// one, loads as migrated: every profile authenticates through the agent
/// and stands in the group `General`, and no passphrase is held.
pub proof fn lemma_legacy_file_is_migrated(path: Seq<char>, text: Seq<char>)
    requires
        json_parse(text) is Some,
        current_shape(json_parse(text)->0) is None,
        legacy_shape(json_parse(text)->0) is Some,
    ensures
        loaded(path, Some(text)) matches Ok(LoadedSpec::Migrated(config)) && config.passphrase
            is None && config.profiles == legacy_shape(json_parse(text)->0)->0 && forall|i: int|
            0 <= i < config.profiles.len() ==> (#[trigger] config.profiles[i]).auth_type
                == AuthSpec::Agent && config.profiles[i].group == "General"@,
{
}

/// With no file, loading gives an empty catalogue and no error.
pub proof fn lemma_no_file_is_empty(path: Seq<char>)
    ensures
        loaded(path, None) == Ok::<LoadedSpec, Failure>(
            LoadedSpec::Ready(ConfigSpec { profiles: Seq::empty(), passphrase: None }),
        ),
{
}

/// A text that reopens is loaded as an encrypted catalogue, and unlocking
/// it with the passphrase gives the profiles back, in order, together with
/// the passphrase.
pub proof fn lemma_reopens_round_trip(
    path: Seq<char>,
    text: Seq<char>,
    passphrase: Seq<char>,
    profiles: Seq<ServerSpec>,
)
    requires
        reopens(text, passphrase, profiles),
    ensures
        loaded(path, Some(text)) matches Ok(LoadedSpec::Locked(sealed)) && unlocked(
            path,
            sealed,
            passphrase,
        ) == Ok::<ConfigSpec, Failure>(ConfigSpec { profiles, passphrase: Some(passphrase) }),
{
}

impl Config {
    /// The profiles as mathematical values, in display order.
    pub closed spec fn profiles(&self) -> Seq<ServerSpec> {
        self.servers.deep_view()
    }

    /// The passphrase held, if any.
    pub closed spec fn passphrase(&self) -> Option<Seq<char>> {
        match self.master_password {
            Some(p) => Some(p@),
            None => None,
        }
    }

    /// An empty catalogue that holds no passphrase.
    pub fn new() -> (config: Config)
        ensures
            config@ == (ConfigSpec { profiles: Seq::empty(), passphrase: None }),
    {
        let config = Config { servers: Vec::new(), master_password: None };
        assert(config.profiles() =~= Seq::<ServerSpec>::empty());
        config
    }

    /// A catalogue of the given profiles that holds no passphrase.
    pub fn with_servers(servers: Vec<Server>) -> (config: Config)
        ensures
            config@ == (ConfigSpec { profiles: servers.deep_view(), passphrase: None }),
    {
        Config { servers, master_password: None }
    }

    /// The profiles, in display order.
    pub fn servers(&self) -> (servers: &Vec<Server>)
        ensures
            servers.deep_view() == self.profiles(),
    {
        &self.servers
    }

    /// Whether a passphrase is still to be chosen before the catalogue can
    /// be saved.
    pub fn needs_passphrase(&self) -> (needed: bool)
        ensures
            needed == (self.passphrase() is None),
    {
        self.master_password.is_none()
    }

    /// Appends `server` after every profile already there.
    pub fn add_server(&mut self, server: Server)
        ensures
            final(self).profiles() == old(self).profiles().push(server@),
            final(self).passphrase() == old(self).passphrase(),
    {
        self.servers.push(server);
        assert(self.profiles() =~= old(self).profiles().push(server@));
    }

    /// Removes the profile at `index`; an index past the end changes nothing.
    pub fn remove_server(&mut self, index: usize)
        ensures
            index < old(self).profiles().len() ==> final(self).profiles() == old(
                self,
            ).profiles().remove(index as int),
            index >= old(self).profiles().len() ==> final(self).profiles() == old(
                self,
            ).profiles(),
            final(self).passphrase() == old(self).passphrase(),
    {
        if index < self.servers.len() {
            self.servers.remove(index);
            assert(self.profiles() =~= old(self).profiles().remove(index as int));
        }
    }

    /// Reads the stored file. `content` is its text, or `None` where no file
    /// exists yet, which gives an empty catalogue. The three shapes are tried
    /// in order; a legacy file is upgraded in memory, an encrypted one is
    /// handed back still sealed, and a file of no known shape is refused
    /// with its path.
    pub fn load(path: &str, content: Option<&str>) -> (found: Result<Loaded, StoreError>)
        ensures
            loaded_result(found) == loaded(
                path@,
                match content {
                    Some(text) => Some(text@),
                    None => None,
                },
            ),
    {
        match content {
            None => Ok(Loaded::Ready(Config::new())),
            Some(text) => match detect_shape(text) {
                FileShape::Current(servers) => Ok(Loaded::Ready(Config::with_servers(servers))),
                FileShape::Legacy(servers) => Ok(Loaded::Migrated(Config::with_servers(servers))),
                FileShape::Encrypted(sealed) => Ok(Loaded::Locked(sealed)),
                FileShape::Unknown => Err(StoreError::Format { path: String::from_str(path) }),
            },
        }
    }

    /// Opens an encrypted catalogue with a passphrase and keeps the
    /// passphrase for later saves.
    pub fn unlock(path: &str, sealed: &EncryptedConfig, passphrase: String) -> (r: Result<
        Config,
        StoreError,
    >)
        ensures
            config_result(r) == unlocked(path@, sealed@, passphrase@),
    {
        let salt = match base64_decode(sealed.salt.as_str()) {
            Some(bytes) => bytes,
            None => {
                return Err(StoreError::Auth);
            },
        };
        let nonce = match base64_decode(sealed.nonce.as_str()) {
            Some(bytes) => bytes,
            None => {
                return Err(StoreError::Auth);
            },
        };
        let ciphertext = match base64_decode(sealed.ciphertext.as_str()) {
            Some(bytes) => bytes,
            None => {
                return Err(StoreError::Auth);
            },
        };
        let key = derive_key(passphrase.as_str(), salt.as_slice());
        let payload = match decrypt(&key, nonce.as_slice(), ciphertext.as_slice()) {
            Some(bytes) => bytes,
            None => {
                return Err(StoreError::Auth);
            },
        };
        match Config::read_payload(payload) {
            Some(servers) => Ok(Config { servers, master_password: Some(passphrase) }),
            None => Err(StoreError::Format { path: String::from_str(path) }),
        }
    }

    /// Reads the profiles out of an opened payload.
    pub fn read_payload(payload: Vec<u8>) -> (servers: Option<Vec<Server>>)
        ensures
            match servers {
                Some(v) => payload_profiles(payload@) == Some(v.deep_view()),
                None => payload_profiles(payload@) is None,
            },
    {
        let text = match utf8_text(payload) {
            Some(text) => text,
            None => {
                return None;
            },
        };
        match parse_value(text.as_str()) {
            Some(value) => {
                let document = value_to_json(&value);
                decode_current(&document)
            },
            None => None,
        }
    }

    /// Seals profiles under a passphrase with the given salt and nonce, and
    /// returns the text to store. Loading that text and unlocking it with
    /// the same passphrase gives the same profiles, in the same order.
    pub fn seal_with(servers: &Vec<Server>, passphrase: &str, salt: &[u8], nonce: &[u8]) -> (r:
        Result<String, StoreError>)
        ensures
            text_result(r) == sealed_text(servers.deep_view(), passphrase@, salt@, nonce@),
            r matches Ok(text) ==> reopens(text@, passphrase@, servers.deep_view()),
    {
        if salt.len() != SALT_LEN || nonce.len() != NONCE_LEN {
            return Err(StoreError::Seal);
        }
        let ghost profiles = servers.deep_view();
        let document = encode_current(servers);
        proof {
            lemma_current_round_trip(profiles);
            lemma_printable_deeper(document@, 3, 64);
        }
        let payload = match Config::written(&document, false) {
            Some(text) => text,
            None => {
                return Err(StoreError::Seal);
            },
        };
        let key = derive_key(passphrase, salt);
        let sealed = match encrypt(&key, nonce, payload.as_str().as_bytes()) {
            Some(bytes) => bytes,
            None => {
                return Err(StoreError::Seal);
            },
        };
        if sealed.len() > usize::MAX / 4 * 3 {
            return Err(StoreError::Seal);
        }
        let parts = EncryptedConfig {
            salt: base64_encode(salt),
            nonce: base64_encode(nonce),
            ciphertext: base64_encode(sealed.as_slice()),
        };
        let envelope = encode_sealed(&parts);
        proof {
            lemma_sealed_round_trip(parts@);
            lemma_printable_deeper(envelope@, 1, 64);
            encode_utf8_valid_utf8(payload@);
            encode_utf8_decode_utf8(payload@);
        }
        match Config::written(&envelope, true) {
            Some(text) => Ok(text),
            None => Err(StoreError::Seal),
        }
    }

    /// The text of a document, on one line or laid out.
    fn written(document: &Json, pretty: bool) -> (text: Option<String>)
        requires
            document@.printable(64),
        ensures
            text matches Some(t) && json_parse(t@) == Some(document@) && t@ == if pretty {
                json_pretty(document@)
            } else {
                json_compact(document@)
            },
    {
        match json_to_value(document) {
            Some(value) => if pretty {
                write_pretty(&value)
            } else {
                write_compact(&value)
            },
            None => None,
        }
    }
    /// Seals the whole catalogue under the passphrase, with a salt and a
    /// nonce drawn afresh, and returns the text to store. Where no
    /// passphrase is held yet, `entry` becomes the passphrase if
    /// `confirmation` repeats it; if not, nothing changes and nothing is to
    /// be written. Where one is held, the two arguments are not looked at.
    /// What is drawn comes from outside: the text is the one that
    /// [`Config::save_with`] gives for some draw.
    pub fn save(&mut self, entry: &str, confirmation: &str) -> (r: Result<String, StoreError>)
        ensures
            exists|drawn: Option<(Seq<u8>, Seq<u8>)>|
                (final(self)@, text_result(r)) == #[trigger] saved(
                    old(self)@,
                    entry@,
                    confirmation@,
                    drawn,
                ),
            r matches Ok(text) ==> reopens(
                text@,
                kept_passphrase(old(self)@, entry@),
                old(self).profiles(),
            ),
    {
        let drawn = if self.master_password.is_none() && !text_eq(entry, confirmation) {
            None
        } else {
            Config::fresh_salt_and_nonce()
        };
        let ghost draw = drawn_value(drawn);
        let r = self.save_with(entry, confirmation, drawn);
        assert((self@, text_result(r)) == saved(old(self)@, entry@, confirmation@, draw));
        r
    }

    /// Seals the whole catalogue as [`Config::save`] does, with the salt and
    /// the nonce that `drawn` holds; `None` stands for a draw that failed,
    /// which fails the save once the passphrase is settled.
    pub fn save_with(
        &mut self,
        entry: &str,
        confirmation: &str,
        drawn: Option<(Vec<u8>, Vec<u8>)>,
    ) -> (r: Result<String, StoreError>)
        ensures
            (final(self)@, text_result(r)) == saved(
                old(self)@,
                entry@,
                confirmation@,
                drawn_value(drawn),
            ),
            r matches Ok(text) ==> reopens(
                text@,
                kept_passphrase(old(self)@, entry@),
                old(self).profiles(),
            ),
    {
        if self.master_password.is_none() {
            if !text_eq(entry, confirmation) {
                return Err(StoreError::PassphraseMismatch);
            }
            self.master_password = Some(String::from_str(entry));
        }
        match (&self.master_password, drawn) {
            (Some(held), Some((salt, nonce))) => Config::seal_with(
                &self.servers,
                held.as_str(),
                salt.as_slice(),
                nonce.as_slice(),
            ),
            _ => Err(StoreError::Seal),
        }
    }

    /// Adds a candidate for every host that an OpenSSH client configuration
    /// declares and that the catalogue does not hold by name, and returns
    /// how many were added. `file_content` is the text of the
    /// configuration, or `None` where the user has none, which adds
    /// nothing. A text that does not parse is refused and adds nothing.
    /// What the configuration says of a host, and the name of the current
    /// user, come from outside: the catalogue is the import of the text
    /// under some such answers.
    pub fn import_ssh_config(&mut self, file_content: Option<&str>) -> (r: Result<
        usize,
        ImportError,
    >)
        ensures
            final(self).passphrase() == old(self).passphrase(),
            old(self).profiles().is_prefix_of(final(self).profiles()),
            file_content is None ==> r == Ok::<usize, ImportError>(0),
            match r {
                Ok(count) => {
                    &&& count == final(self).profiles().len() - old(self).profiles().len()
                    &&& file_content matches Some(text) ==> exists|
                        hosts: Map<Seq<char>, HostEntrySpec>,
                        user: Seq<char>,
                    |
                        final(self).profiles() == #[trigger] imported(
                            old(self).profiles(),
                            text@,
                            hosts,
                            user,
                        )
                },
                Err(_) => final(self).profiles() == old(self).profiles(),
            },
    {
        let text = match file_content {
            Some(text) => text,
            None => {
                return Ok(0);
            },
        };
        let config = match parse_ssh_config(text) {
            Some(config) => config,
            None => {
                return Err(ImportError::Parse);
            },
        };
        let user = current_user();
        proof {
            lemma_import_keeps_profiles(
                self.profiles(),
                lines_spec(text@),
                ssh_config_hosts(config),
                user@,
            );
        }
        let count = import_hosts(&mut self.servers, text, &config, user.as_str());
        assert(self.profiles() == imported(
            old(self).profiles(),
            text@,
            ssh_config_hosts(config),
            user@,
        ));
        Ok(count)
    }

    /// Draws a salt of 16 bytes and a nonce of 12 from the operating system.
    /// Whether the system gives them is for the system to say; what it
    /// gives has these lengths, and [`Config::pair_of_draws`] says what is
    /// made of the two outcomes.
    fn fresh_salt_and_nonce() -> (drawn: Option<(Vec<u8>, Vec<u8>)>)
        ensures
            drawn matches Some((salt, nonce)) ==> salt@.len() == SALT_LEN && nonce@.len()
                == NONCE_LEN,
    {
        let salt = random_bytes(SALT_LEN);
        let nonce = random_bytes(NONCE_LEN);
        Config::pair_of_draws(salt, nonce)
    }

    /// The draw that the outcomes of asking for a salt and for a nonce make:
    /// the two together where both gave bytes, and no draw where either
    /// failed.
    pub fn pair_of_draws(salt: Option<Vec<u8>>, nonce: Option<Vec<u8>>) -> (drawn: Option<
        (Vec<u8>, Vec<u8>),
    >)
        ensures
            drawn_value(drawn) == match (salt, nonce) {
                (Some(s), Some(n)) => Some((s@, n@)),
                _ => None,
            },
    {
        match (salt, nonce) {
            (Some(s), Some(n)) => Some((s, n)),
            _ => None,
        }
    }
}

} // verus!
