//! The configuration repository: the named-remote registry, the choice of
//! secrets backend, path resolution, and the composition of a registry
//! lookup with credential resolution into a fully resolved [`RemoteConfig`].
//!
//! Reading and writing the on-disk files is the caller's part; this module
//! owns every decision in between, and tells the caller through
//! [`PersistAction`] what must be written back.

use vstd::prelude::*;
use vstd::string::*;

use crate::error::{Error, ErrorKind};
use crate::remote::{Auth, CloneProtocol, Provider, RemoteConfig};
use crate::secrets::{
    get_auth_from_table, spec_auth_missing_message, spec_no_credentials_message, spec_resolution,
    store_token_in_table, AuthConfig, Resolution, SecretsTable,
};
use crate::strutil::{concat_strs, push_char};
use crate::table::{spec_find, Table, TableEntry};

verus! {

/// Classification of configuration and credential failures.
#[derive(Debug, Clone, Copy, PartialEq, Eq, Structural)]
pub enum ConfigErrorKind {
    ConfigNotFound,
    ConfigParseError,
    RemoteNotFound,
    AuthNotFound,
    SecretsFileNotFound,
    KeyringError,
}

/// A configuration-layer error, translated into the canonical taxonomy at
/// the interface by [`config_error_to_error`].
#[derive(Debug, Clone, PartialEq)]
pub struct ConfigError {
    pub message: String,
    pub kind: ConfigErrorKind,
}

/// The canonical kind each configuration failure maps to.
pub open spec fn spec_config_error_kind(k: ConfigErrorKind) -> ErrorKind {
    match k {
        ConfigErrorKind::ConfigNotFound => ErrorKind::NotFound,
        ConfigErrorKind::ConfigParseError => ErrorKind::Deserialization,
        ConfigErrorKind::RemoteNotFound => ErrorKind::NotFound,
        ConfigErrorKind::AuthNotFound => ErrorKind::Authentication,
        ConfigErrorKind::SecretsFileNotFound => ErrorKind::NotFound,
        ConfigErrorKind::KeyringError => ErrorKind::Authentication,
    }
}

/// Translate a configuration-layer error into the canonical taxonomy,
/// keeping the message.
pub fn config_error_to_error(e: ConfigError) -> (r: Error)
    ensures
        r.message == e.message,
        r.status is None,
        r.kind == spec_config_error_kind(e.kind),
{
    let kind = match e.kind {
        ConfigErrorKind::ConfigNotFound => ErrorKind::NotFound,
        ConfigErrorKind::ConfigParseError => ErrorKind::Deserialization,
        ConfigErrorKind::RemoteNotFound => ErrorKind::NotFound,
        ConfigErrorKind::AuthNotFound => ErrorKind::Authentication,
        ConfigErrorKind::SecretsFileNotFound => ErrorKind::NotFound,
        ConfigErrorKind::KeyringError => ErrorKind::Authentication,
    };
    Error { message: e.message, kind, status: None }
}

/// One persisted entry of the named-remote registry. Secrets are stored
/// separately, never inline in this record.
#[derive(Debug, Clone, PartialEq)]
pub struct GitRemoteConfig {
    pub provider: Provider,
    pub clone_protocol: CloneProtocol,
    pub url: String,
    pub username: String,
}

/// Where secrets are persisted. Exactly one backend is active per
/// configuration.
#[derive(Debug, Clone)]
pub enum Secrets {
    /// The OS keyring; the entry key combines the configuration path with
    /// the remote name, so independent configurations do not collide.
    Keyring,
    /// A separate on-disk mapping from remote name to credentials. `file` is
    /// the resolved path; `entries` holds the file's parsed contents, or
    /// `None` while the file does not exist.
    SecretsFile { file: String, entries: Option<SecretsTable> },
    /// Credentials inline in the main configuration file.
    Plaintext(SecretsTable),
}

/// Any table the backend carries has distinct names.
pub open spec fn secrets_wf(s: Secrets) -> bool {
    match s {
        Secrets::Keyring => true,
        Secrets::SecretsFile { entries, .. } => match entries {
            Some(t) => t.wf(),
            None => true,
        },
        Secrets::Plaintext(t) => t.wf(),
    }
}

/// What the caller must write back after a mutation.
#[derive(Debug, Clone, Copy, PartialEq, Eq, Structural)]
pub enum PersistAction {
    /// Nothing on disk changed.
    Nothing,
    /// The main configuration file must be rewritten.
    SaveConfig,
    /// The secrets file must be rewritten.
    SaveSecretsFile,
}

/// The registry of named remotes, the active secrets backend, and the path
/// the configuration was loaded from.
#[derive(Debug, Clone)]
pub struct Config {
    /// Maps each remote name to its configuration.
    pub remotes: Table<GitRemoteConfig>,
    pub secrets: Secrets,
    /// Configured highlight overrides; orthogonal to the core and carried
    /// through persistence unchanged.
    pub colors: Option<crate::colors::ConfigColorMap>,
    /// The canonical path of the configuration file; also the keyring
    /// service key.
    pub path: String,
}

/// Relies on `keyring::Entry::new`: builds the OS keyring entry addressed by
/// this service and user, or describes why it cannot.
#[verifier::external_body]
fn keyring_entry(service: &str, user: &str) -> (r: Result<keyring::Entry, String>) {
    match keyring::Entry::new(service, user) {
        Ok(e) => Ok(e),
        Err(e) => Err(e.to_string()),
    }
}

/// Relies on `keyring::Entry::get_password`: reads the secret the OS store
/// holds for the entry; the outcome depends on the machine's state.
#[verifier::external_body]
fn keyring_get_password(entry: &keyring::Entry) -> (r: Result<String, String>) {
    match entry.get_password() {
        Ok(p) => Ok(p),
        Err(e) => Err(e.to_string()),
    }
}

/// Relies on `keyring::Entry::set_password`: stores the secret in the OS
/// store; the outcome depends on the machine's state.
#[verifier::external_body]
fn keyring_set_password(entry: &keyring::Entry, password: &str) -> (r: Result<(), String>) {
    match entry.set_password(password) {
        Ok(()) => Ok(()),
        Err(e) => Err(e.to_string()),
    }
}

/// The OS keyring entry type, declared so wrappers can hold and pass it;
/// opaque to the verifier.
#[verifier::external_type_specification]
#[verifier::external_body]
pub struct ExEntry(keyring::Entry);

/// How a credential resolution against a secrets table surfaces at the
/// configuration interface: as canonical `Authentication` errors with the
/// instructing messages.
pub open spec fn auth_result_matches(
    r: Result<Auth, Error>,
    s: Seq<TableEntry<AuthConfig>>,
    name: Seq<char>,
) -> bool {
    match spec_resolution(s, name) {
        Resolution::Token(t) => r matches Ok(Auth::Token { token }) && token == t,
        Resolution::Basic(u, p) => (r matches Ok(Auth::Basic { username, password }) && username
            == u && (match p {
            Some(pw) => password == pw,
            None => password@ == Seq::<char>::empty(),
        })),
        Resolution::NoCredentials => (r matches Err(e) && e.kind == ErrorKind::Authentication
            && e.message@ == spec_no_credentials_message(name) && e.status is None),
        Resolution::NoEntry => (r matches Err(e) && e.kind == ErrorKind::Authentication
            && e.message@ == spec_auth_missing_message(name) && e.status is None),
    }
}

/// The message reported when a configured secrets file does not exist.
pub open spec fn spec_secrets_file_missing_message(file: Seq<char>) -> Seq<char> {
    ("Could not find secrets file ")@ + file + (".")@
}

/// The message reported when a remote name is not in the registry.
pub open spec fn spec_remote_missing_message(name: Seq<char>) -> Seq<char> {
    ("Could not find remote ")@ + name
}

impl Config {
    /// Tables carried by the registry and the secrets backend have distinct
    /// names.
    pub open spec fn wf(&self) -> bool {
        self.remotes.wf() && secrets_wf(self.secrets)
    }

    /// The provider of the named remote, or `NotFound` when the registry has
    /// no such name.
    pub fn get_remote_provider(&self, name: &str) -> (r: Result<Provider, Error>)
        ensures
            spec_find(self.remotes@, name@) matches Some(rc) ==> r == Result::<
                Provider,
                Error,
            >::Ok(rc.provider),
            spec_find(self.remotes@, name@) is None ==> (r matches Err(e) && e.kind
                == ErrorKind::NotFound && e.message@ == spec_remote_missing_message(name@)
                && e.status is None),
    {
        match self.remotes.get(name) {
            Some(rc) => Ok(rc.provider),
            None => {
                let m = concat_strs("Could not find remote ", name);
                Err(Error::not_found(m.as_str()))
            },
        }
    }

    /// Resolve credentials for the named remote from the given backend. The
    /// table backends resolve exactly as the table does, with failures
    /// translated into `Authentication`; a missing secrets file is
    /// `NotFound`; the keyring backend asks the OS store, yielding a token
    /// on success and `Authentication` on any failure.
    pub fn get_auth(&self, secrets: &Secrets, name: &str) -> (r: Result<Auth, Error>)
        ensures
            secrets matches Secrets::Plaintext(t) ==> auth_result_matches(r, t@, name@),
            secrets matches Secrets::SecretsFile { entries: Some(t), .. } ==> auth_result_matches(
                r,
                t@,
                name@,
            ),
            secrets matches Secrets::SecretsFile { file, entries: None } ==> (r matches Err(e)
                && e.kind == ErrorKind::NotFound && e.message@
                == spec_secrets_file_missing_message(file@) && e.status is None),
            secrets is Keyring ==> (match r {
                Ok(a) => a is Token,
                Err(e) => e.kind == ErrorKind::Authentication && e.status is None,
            }),
    {
        match secrets {
            Secrets::Plaintext(table) => match get_auth_from_table(table, name) {
                Ok(a) => Ok(a),
                Err(e) => Err(config_error_to_error(e)),
            },
            Secrets::SecretsFile { entries: Some(table), .. } => match get_auth_from_table(
                table,
                name,
            ) {
                Ok(a) => Ok(a),
                Err(e) => Err(config_error_to_error(e)),
            },
            Secrets::SecretsFile { file, entries: None } => {
                let mut m = concat_strs("Could not find secrets file ", file.as_str());
                m.append(".");
                Err(Error::not_found(m.as_str()))
            },
            Secrets::Keyring => {
                let entry = match keyring_entry(self.path.as_str(), name) {
                    Ok(e) => e,
                    Err(msg) => {
                        return Err(Error::authentication(msg.as_str()));
                    },
                };
                match keyring_get_password(&entry) {
                    Ok(token) => Ok(Auth::Token { token }),
                    Err(_) => {
                        let mut m = concat_strs("Could not find auth for remote ", name);
                        m.append(".\nDid you forget to add it to the keyring?");
                        Err(Error::authentication(m.as_str()))
                    },
                }
            },
        }
    }

    /// The fully resolved configuration of the named remote: the registry
    /// record joined with its resolved credentials. A name absent from the
    /// registry fails with `NotFound` before credential resolution is
    /// attempted.
    pub fn get_remote_config(&self, name: &str) -> (r: Result<RemoteConfig, Error>)
        ensures
            spec_find(self.remotes@, name@) is None ==> (r matches Err(e) && e.kind
                == ErrorKind::NotFound && e.message@ == spec_remote_missing_message(name@)
                && e.status is None),
            spec_find(self.remotes@, name@) matches Some(rc) ==> (match r {
                Ok(cfg) => {
                    &&& cfg.username == rc.username
                    &&& cfg.clone_protocol == rc.clone_protocol
                    &&& cfg.url == rc.url
                },
                Err(..) => true,
            }),
            spec_find(self.remotes@, name@) matches Some(rc) ==> (match self.secrets {
                Secrets::Plaintext(t) => resolved_auth_matches(r, t@, name@),
                Secrets::SecretsFile { entries: Some(t), .. } => resolved_auth_matches(r, t@, name@),
                Secrets::SecretsFile { file, entries: None } => (r matches Err(e) && e.kind
                    == ErrorKind::NotFound && e.message@ == spec_secrets_file_missing_message(
                    file@,
                ) && e.status is None),
                Secrets::Keyring => (match r {
                    Ok(cfg) => cfg.auth is Token,
                    Err(e) => e.kind == ErrorKind::Authentication && e.status is None,
                }),
            }),
    {
        match self.remotes.get(name) {
            Some(rc) => {
                let auth = match self.get_auth(&self.secrets, name) {
                    Ok(a) => a,
                    Err(e) => {
                        return Err(e);
                    },
                };
                Ok(
                    RemoteConfig {
                        username: rc.username.clone(),
                        clone_protocol: rc.clone_protocol,
                        url: rc.url.clone(),
                        auth,
                    },
                )
            },
            None => {
                let m = concat_strs("Could not find remote ", name);
                Err(Error::not_found(m.as_str()))
            },
        }
    }

    /// Register a new named remote. A duplicate name is rejected without any
    /// mutation, so the persisted registry is untouched by the failed
    /// attempt.
    pub fn add_remote(&mut self, name: &str, remote: GitRemoteConfig) -> (r: Result<(), Error>)
        requires
            old(self).wf(),
        ensures
            final(self).wf(),
            spec_find(old(self).remotes@, name@) is Some ==> (r matches Err(e) && e.kind
                == ErrorKind::Other && e.message@ == ("A remote named ")@ + name@ + (
            " already exists")@ && e.status is None && *final(self) == *old(self)),
            spec_find(old(self).remotes@, name@) is None ==> (r is Ok && spec_find(
                final(self).remotes@,
                name@,
            ) == Some(remote) && (forall|q: Seq<char>|
                q != name@ ==> spec_find(final(self).remotes@, q) == spec_find(
                    old(self).remotes@,
                    q,
                )) && final(self).secrets == old(self).secrets && final(self).path
                == old(self).path && final(self).colors == old(self).colors),
    {
        if self.remotes.contains(name) {
            let mut m = concat_strs("A remote named ", name);
            m.append(" already exists");
            return Err(Error::other(m.as_str()));
        }
        self.remotes.upsert(name, remote);
        Ok(())
    }

    /// Store a token for the named remote in the active secrets backend, and
    /// say what must be persisted. An unknown remote name is rejected with
    /// `NotFound` before anything is touched.
    pub fn store_token(&mut self, name: &str, token: &str) -> (r: Result<PersistAction, Error>)
        requires
            old(self).wf(),
        ensures
            final(self).wf(),
            final(self).remotes == old(self).remotes,
            final(self).path == old(self).path,
            final(self).colors == old(self).colors,
            spec_find(old(self).remotes@, name@) is None ==> (r matches Err(e) && e.kind
                == ErrorKind::NotFound && e.message@ == spec_remote_missing_message(name@)
                && e.status is None && *final(self) == *old(self)),
            spec_find(old(self).remotes@, name@) is Some ==> (match old(self).secrets {
                Secrets::Plaintext(t) => (r == Result::<PersistAction, Error>::Ok(
                    PersistAction::SaveConfig,
                ) && (final(self).secrets matches Secrets::Plaintext(t2) && token_stored(
                    t@,
                    t2@,
                    name@,
                    token@,
                ))),
                Secrets::SecretsFile { file, entries } => (r == Result::<PersistAction, Error>::Ok(
                    PersistAction::SaveSecretsFile,
                ) && (final(self).secrets matches Secrets::SecretsFile {
                    file: f2,
                    entries: Some(t2),
                } && f2 == file && token_stored(
                    (match entries {
                        Some(t) => t@,
                        None => Seq::<TableEntry<AuthConfig>>::empty(),
                    }),
                    t2@,
                    name@,
                    token@,
                ))),
                Secrets::Keyring => (final(self).secrets is Keyring && (match r {
                    Ok(a) => a == PersistAction::Nothing,
                    Err(e) => e.kind == ErrorKind::Authentication && e.status is None,
                })),
            }),
    {
        if !self.remotes.contains(name) {
            let m = concat_strs("Could not find remote ", name);
            return Err(Error::not_found(m.as_str()));
        }
        match &mut self.secrets {
            Secrets::Plaintext(table) => {
                store_token_in_table(table, name, token);
                Ok(PersistAction::SaveConfig)
            },
            Secrets::SecretsFile { entries, .. } => {
                match entries {
                    Some(table) => {
                        store_token_in_table(table, name, token);
                    },
                    None => {
                        let mut table = SecretsTable::new();
                        store_token_in_table(&mut table, name, token);
                        *entries = Some(table);
                    },
                }
                Ok(PersistAction::SaveSecretsFile)
            },
            Secrets::Keyring => {
                let entry = match keyring_entry(self.path.as_str(), name) {
                    Ok(e) => e,
                    Err(msg) => {
                        return Err(Error::authentication(msg.as_str()));
                    },
                };
                match keyring_set_password(&entry, token) {
                    Ok(()) => Ok(PersistAction::Nothing),
                    Err(msg) => Err(Error::authentication(msg.as_str())),
                }
            },
        }
    }

    /// The configuration written when none exists yet: an empty registry
    /// with the keyring backend, at the supplied path, or at the platform
    /// default path when the caller supplies none.
    pub fn save_default(path: &Option<String>, default_path: &str) -> (c: Config)
        ensures
            c.wf(),
            c.remotes@ == Seq::<TableEntry<GitRemoteConfig>>::empty(),
            c.secrets is Keyring,
            c.colors is None,
            match path {
                Some(p) => c.path == p,
                None => c.path@ == default_path@,
            },
    {
        let path = match path {
            Some(p) => p.clone(),
            None => String::from_str(default_path),
        };
        Config { remotes: Table::new(), secrets: Secrets::Keyring, colors: None, path }
    }
}

/// The state a token store leaves a table in: the name maps to a bare token
/// and every other name is untouched.
pub open spec fn token_stored(
    pre: Seq<TableEntry<AuthConfig>>,
    post: Seq<TableEntry<AuthConfig>>,
    name: Seq<char>,
    token: Seq<char>,
) -> bool {
    &&& (spec_find(post, name) matches Some(a) && a.username is None && a.password is None
        && (a.token matches Some(t) && t@ == token))
    &&& (forall|q: Seq<char>| q != name ==> spec_find(post, q) == spec_find(pre, q))
}

/// How a credential resolution surfaces inside a resolved `RemoteConfig`.
pub open spec fn resolved_auth_matches(
    r: Result<RemoteConfig, Error>,
    s: Seq<TableEntry<AuthConfig>>,
    name: Seq<char>,
) -> bool {
    match spec_resolution(s, name) {
        Resolution::Token(t) => (r matches Ok(cfg) && cfg.auth matches Auth::Token { token }
            && token == t),
        Resolution::Basic(u, p) => (r matches Ok(cfg) && cfg.auth matches Auth::Basic {
            username,
            password,
        } && username == u && (match p {
            Some(pw) => password == pw,
            None => password@ == Seq::<char>::empty(),
        })),
        Resolution::NoCredentials => (r matches Err(e) && e.kind == ErrorKind::Authentication
            && e.message@ == spec_no_credentials_message(name) && e.status is None),
        Resolution::NoEntry => (r matches Err(e) && e.kind == ErrorKind::Authentication
            && e.message@ == spec_auth_missing_message(name) && e.status is None),
    }
}

/// Resolve the configuration path: an explicit path wins; otherwise the
/// first existing of the platform configuration path and the home-directory
/// fallback; when neither exists, the configuration is not found.
pub fn resolve_config_path(
    explicit: Option<String>,
    primary: String,
    fallback: String,
    primary_exists: bool,
    fallback_exists: bool,
) -> (r: Result<String, Error>)
    ensures
        explicit matches Some(p) ==> r == Result::<String, Error>::Ok(p),
        explicit is None && primary_exists ==> r == Result::<String, Error>::Ok(primary),
        explicit is None && !primary_exists && fallback_exists ==> r == Result::<
            String,
            Error,
        >::Ok(fallback),
        explicit is None && !primary_exists && !fallback_exists ==> (r matches Err(e) && e.kind
            == ErrorKind::NotFound && e.message@ == ("Could not find config at ")@ + primary@ + (
        " or ")@ + fallback@ + (".")@ && e.status is None),
{
    match explicit {
        Some(p) => Ok(p),
        None => {
            if primary_exists {
                Ok(primary)
            } else if fallback_exists {
                Ok(fallback)
            } else {
                let mut m = concat_strs("Could not find config at ", primary.as_str());
                m.append(" or ");
                m.append(fallback.as_str());
                m.append(".");
                Err(Error::not_found(m.as_str()))
            }
        },
    }
}

/// A path with every `~` replaced by the home directory.
pub open spec fn spec_expand_home(s: Seq<char>, home: Seq<char>) -> Seq<char>
    decreases s.len(),
{
    if s.len() == 0 {
        Seq::empty()
    } else {
        spec_expand_home(s.drop_last(), home) + (if s.last() == '~' {
            home
        } else {
            seq![s.last()]
        })
    }
}

/// Expand every `~` in a configured secrets-file path to the home directory.
pub fn expand_home_path(path: &str, home: &str) -> (r: String)
    ensures
        r@ == spec_expand_home(path@, home@),
{
    let len = path.unicode_len();
    let mut out = String::new();
    let mut i: usize = 0;
    while i < len
        invariant
            i <= len,
            len == path@.len(),
            out@ == spec_expand_home(path@.take(i as int), home@),
        decreases len - i,
    {
        let c = path.get_char(i);
        proof {
            assert(path@.take(i + 1).drop_last() =~= path@.take(i as int));
            assert(path@.take(i + 1).last() == path@[i as int]);
        }
        if c == '~' {
            out.append(home);
        } else {
            push_char(&mut out, c);
            proof {
                assert(out@ =~= spec_expand_home(path@.take(i as int), home@) + seq![
                    path@[i as int],
                ]);
            }
        }
        i = i + 1;
    }
    proof {
        assert(path@.take(len as int) =~= path@);
    }
    out
}

} // verus!
