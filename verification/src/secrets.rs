//! The credential store's table backend: the persisted form of credentials
//! and their resolution into an in-memory [`Auth`]. Both the `Plaintext`
//! backend (inline in the main configuration) and the `SecretsFile` backend
//! (a separate on-disk mapping) resolve through one table; the keyring
//! backend resolves through the OS store instead.

use vstd::prelude::*;
use vstd::string::*;

use crate::config::{ConfigError, ConfigErrorKind};
use crate::remote::Auth;
use crate::strutil::concat_strs;
use crate::table::{spec_find, Table, TableEntry};

verus! {

/// The persisted form of credentials for one remote: a token, or a username
/// with an optional password. The token takes precedence when resolving.
#[derive(Debug, Clone, PartialEq)]
pub struct AuthConfig {
    pub username: Option<String>,
    pub password: Option<String>,
    pub token: Option<String>,
}

/// A mapping from remote names to persisted credentials.
pub type SecretsTable = Table<AuthConfig>;

/// How a lookup of `name` in a secrets table resolves: the token wins over a
/// username/password pair; an entry with neither, or no entry at all, is a
/// missing credential.
#[derive(Debug, Clone, PartialEq)]
pub enum Resolution {
    Token(String),
    Basic(String, Option<String>),
    NoCredentials,
    NoEntry,
}

/// The resolution of `name` against a table state.
pub open spec fn spec_resolution(s: Seq<TableEntry<AuthConfig>>, name: Seq<char>) -> Resolution {
    match spec_find(s, name) {
        Some(a) => match a.token {
            Some(t) => Resolution::Token(t),
            None => match a.username {
                Some(u) => Resolution::Basic(u, a.password),
                None => Resolution::NoCredentials,
            },
        },
        None => Resolution::NoEntry,
    }
}

/// The message reported when a table has no entry for the remote.
pub open spec fn spec_auth_missing_message(name: Seq<char>) -> Seq<char> {
    ("Could not find auth for remote ")@ + name + (".\nDid you forget to add it to the config?")@
}

/// The message reported when a table entry carries neither a token nor a
/// username, instructing the user which fields to set.
pub open spec fn spec_no_credentials_message(name: Seq<char>) -> Seq<char> {
    ("Could not find auth for remote ")@ + name + (
    ".\nDid you forget to add it to the config?\nYou need to set either a username/password combination, or an api token.")@
}

/// Resolve the credentials stored for `name`: the token if one is set, else
/// the username with its password (empty when none was stored); a missing
/// entry or an entry without either fails with `AuthNotFound`.
pub fn get_auth_from_table(table: &SecretsTable, name: &str) -> (r: Result<Auth, ConfigError>)
    ensures
        match spec_resolution(table@, name@) {
            Resolution::Token(t) => r matches Ok(Auth::Token { token }) && token == t,
            Resolution::Basic(u, p) => (r matches Ok(Auth::Basic { username, password })
                && username == u && (match p {
                Some(pw) => password == pw,
                None => password@ == Seq::<char>::empty(),
            })),
            Resolution::NoCredentials => (r matches Err(e) && e.kind == ConfigErrorKind::AuthNotFound
                && e.message@ == spec_no_credentials_message(name@)),
            Resolution::NoEntry => (r matches Err(e) && e.kind == ConfigErrorKind::AuthNotFound
                && e.message@ == spec_auth_missing_message(name@)),
        },
{
    match table.get(name) {
        Some(auth) => {
            match &auth.token {
                Some(t) => Ok(Auth::Token { token: t.clone() }),
                None => {
                    match &auth.username {
                        Some(u) => {
                            let password = match &auth.password {
                                Some(p) => p.clone(),
                                None => String::new(),
                            };
                            Ok(Auth::Basic { username: u.clone(), password })
                        },
                        None => {
                            let mut m = concat_strs("Could not find auth for remote ", name);
                            m.append(
                                ".\nDid you forget to add it to the config?\nYou need to set either a username/password combination, or an api token.",
                            );
                            Err(ConfigError { message: m, kind: ConfigErrorKind::AuthNotFound })
                        },
                    }
                },
            }
        },
        None => {
            let mut m = concat_strs("Could not find auth for remote ", name);
            m.append(".\nDid you forget to add it to the config?");
            Err(ConfigError { message: m, kind: ConfigErrorKind::AuthNotFound })
        },
    }
}

/// Store a bare token for `name`, replacing whatever credentials the table
/// held for it; every other entry is untouched.
pub fn store_token_in_table(table: &mut SecretsTable, name: &str, token: &str)
    requires
        old(table).wf(),
    ensures
        final(table).wf(),
        spec_find(final(table)@, name@) matches Some(a) && a.username is None && a.password is None
            && (a.token matches Some(t) && t@ == token@),
        spec_resolution(final(table)@, name@) matches Resolution::Token(t) && t@ == token@,
        forall|q: Seq<char>| q != name@ ==> spec_find(final(table)@, q) == spec_find(
            old(table)@,
            q,
        ),
{
    let auth = AuthConfig { username: None, password: None, token: Some(String::from_str(token)) };
    table.upsert(name, auth);
}

/// Law: storing a token and then resolving the same name yields exactly that
/// token. A table whose entry for `name` holds a bare token — the state
/// `store_token_in_table` leaves behind — resolves `name` to `Token`, for
/// every table state, name and token.
pub proof fn lemma_store_token_round_trip(
    s: Seq<TableEntry<AuthConfig>>,
    name: Seq<char>,
    a: AuthConfig,
)
    requires
        spec_find(s, name) == Some(a),
        a.token is Some,
        a.username is None,
        a.password is None,
    ensures
        spec_resolution(s, name) matches Resolution::Token(t) && t == a.token->Some_0,
{
}

} // verus!
