//! Canonical, provider-independent data model of the remote interface:
//! providers, authentication, clone protocols, repositories and commits,
//! together with the deterministic clone-URL construction shared by all
//! provider adapters.

use vstd::prelude::*;
use vstd::string::*;

use crate::strutil::{concat_strs, spec_starts_with, str_starts_with};

verus! {

/// The supported providers. Each provider has its own adapter; the
/// [`crate::factory::create_remote`] function returns the adapter for a given
/// provider tag.
#[derive(Debug, Clone, Copy, PartialEq, Eq, Structural)]
pub enum Provider {
    GitHub,
    GitLab,
    Gitea,
}

/// Credentials held in memory for one remote. Not every adapter accepts both
/// variants: the GitLab adapter requires `Token`.
#[derive(Debug, Clone, PartialEq)]
pub enum Auth {
    /// Authenticate using a username and password.
    Basic { username: String, password: String },
    /// Authenticate using a token.
    Token { token: String },
}

/// Protocol used when building clone URLs. Does not affect REST calls.
#[derive(Debug, Clone, Copy, PartialEq, Eq, Structural)]
pub enum CloneProtocol {
    SSH,
    HTTPS,
}

/// A fully resolved remote configuration, constructed per command invocation.
#[derive(Debug, Clone, PartialEq)]
pub struct RemoteConfig {
    pub username: String,
    pub clone_protocol: CloneProtocol,
    pub url: String,
    pub auth: Auth,
}

/// One commit, in canonical form. The date is a Unix timestamp in seconds.
#[derive(Debug, Clone, PartialEq)]
pub struct Commit {
    pub sha: String,
    pub message: String,
    pub author: String,
    pub date: i64,
}

/// A repository, in canonical provider-independent form.
#[derive(Debug, Clone, PartialEq)]
pub struct Repository {
    pub name: String,
    pub description: Option<String>,
    pub private: bool,
    pub fork: bool,
    pub default_branch: Option<String>,
    pub ssh_url: String,
    pub clone_url: String,
    /// Newest first; never longer than [`COMMIT_COUNT`].
    pub last_commits: Vec<Commit>,
}

/// Parameters for creating a repository.
#[derive(Debug, Clone, PartialEq)]
pub struct RepoCreateInfo {
    /// The name of the repository.
    pub name: String,
    /// An optional description of the repository.
    pub description: Option<String>,
    /// Whether the repository is private.
    pub private: bool,
    /// An optional license for the repository.
    pub license: Option<String>,
    /// Whether to initialize the repository with a README and (optional) license.
    pub init: bool,
}

/// Parameters for forking a repository.
#[derive(Debug, Clone, PartialEq)]
pub struct RepoForkOption {
    /// The owner of the repository to fork.
    pub owner: String,
    /// The name of the repository to fork.
    pub repo: String,
    /// The name of the fork, if different from the original.
    pub name: Option<String>,
    /// Organization name, if forking into an organization.
    pub organization: Option<String>,
    /// Only fork the default branch.
    pub default_branch_only: Option<bool>,
}

/// Parameters for listing repositories.
#[derive(Debug, Clone, Copy, PartialEq, Eq, Structural)]
pub struct ListReposInfo {
    /// Whether to include private repositories in the list.
    pub private: bool,
    /// Whether to include forked repositories in the list.
    pub forks: bool,
}

/// The fixed fetch limit on commit histories, applied uniformly across all
/// three adapters.
pub const COMMIT_COUNT: u8 = 25;

/// Rebuild an `Auth` value; the result is equal to the original.
pub fn clone_auth(a: &Auth) -> (r: Auth)
    ensures
        r == *a,
{
    match a {
        Auth::Basic { username, password } => Auth::Basic {
            username: username.clone(),
            password: password.clone(),
        },
        Auth::Token { token } => Auth::Token { token: token.clone() },
    }
}

/// Rebuild a `RemoteConfig` value; the result is equal to the original.
pub fn clone_remote_config(c: &RemoteConfig) -> (r: RemoteConfig)
    ensures
        r == *c,
{
    RemoteConfig {
        username: c.username.clone(),
        clone_protocol: c.clone_protocol,
        url: c.url.clone(),
        auth: clone_auth(&c.auth),
    }
}

/// The base URL with any `https://` or `http://` scheme prefix removed.
pub open spec fn spec_strip_scheme(u: Seq<char>) -> Seq<char> {
    if spec_starts_with(u, ("https://")@) {
        u.subrange(("https://")@.len() as int, u.len() as int)
    } else if spec_starts_with(u, ("http://")@) {
        u.subrange(("http://")@.len() as int, u.len() as int)
    } else {
        u
    }
}

/// Strip a leading `https://` or `http://` scheme from a base URL, leaving the
/// bare host for SSH-style URLs.
pub fn strip_scheme(url: &str) -> (r: String)
    ensures
        r@ == spec_strip_scheme(url@),
{
    proof {
        reveal_strlit("https://");
        reveal_strlit("http://");
    }
    let len = url.unicode_len();
    if str_starts_with(url, "https://") {
        String::from_str(url.substring_char(8, len))
    } else if str_starts_with(url, "http://") {
        String::from_str(url.substring_char(7, len))
    } else {
        String::from_str(url)
    }
}

/// The clone URL for a repository: `git@<host>:<user>/<repo>.git` under SSH,
/// `<base-url>/<user>/<repo>.git` under HTTPS, where `<host>` is the base URL
/// with its scheme prefix stripped.
pub open spec fn spec_clone_url(
    protocol: CloneProtocol,
    base_url: Seq<char>,
    username: Seq<char>,
    repo: Seq<char>,
) -> Seq<char> {
    match protocol {
        CloneProtocol::SSH => ("git@")@ + spec_strip_scheme(base_url) + (":")@ + username + ("/")@
            + repo + (".git")@,
        CloneProtocol::HTTPS => base_url + ("/")@ + username + ("/")@ + repo + (".git")@,
    }
}

/// Build the clone URL for the given repository under the configuration's
/// clone protocol.
pub fn clone_url_for(config: &RemoteConfig, username: &str, repo_name: &str) -> (r: String)
    ensures
        r@ == spec_clone_url(config.clone_protocol, config.url@, username@, repo_name@),
{
    match config.clone_protocol {
        CloneProtocol::SSH => {
            let mut r = String::from_str("git@");
            let host = strip_scheme(config.url.as_str());
            r.append(host.as_str());
            r.append(":");
            r.append(username);
            r.append("/");
            r.append(repo_name);
            r.append(".git");
            proof {
                assert(r@ =~= spec_clone_url(
                    config.clone_protocol,
                    config.url@,
                    username@,
                    repo_name@,
                ));
            }
            r
        },
        CloneProtocol::HTTPS => {
            let mut r = config.url.clone();
            r.append("/");
            r.append(username);
            r.append("/");
            r.append(repo_name);
            r.append(".git");
            proof {
                assert(r@ =~= spec_clone_url(
                    config.clone_protocol,
                    config.url@,
                    username@,
                    repo_name@,
                ));
            }
            r
        },
    }
}

/// The argument list handed to the external `git` executable to clone `url`
/// into `path`, optionally recursing into submodules.
pub fn clone_command_args(url: &str, path: &str, recursive: bool) -> (args: Vec<String>)
    ensures
        args@.len() == (if recursive { 4int } else { 3int }),
        args@[0]@ == ("clone")@,
        args@[1]@ == url@,
        args@[2]@ == path@,
        recursive ==> args@[3]@ == ("--recursive")@,
{
    let mut args: Vec<String> = Vec::new();
    args.push(String::from_str("clone"));
    args.push(String::from_str(url));
    args.push(String::from_str(path));
    if recursive {
        args.push(String::from_str("--recursive"));
    }
    args
}

/// The error reported when the external clone of `name` exits with a non-zero
/// status.
pub fn clone_failed_error(name: &str) -> (e: crate::error::Error)
    ensures
        e.kind == crate::error::ErrorKind::Other,
        e.message@ == ("Failed to clone repository ")@ + name@,
        e.status is None,
    {
    let m = concat_strs("Failed to clone repository ", name);
    crate::error::Error::other(m.as_str())
}

/// What registering a remote in the local repository takes: initialize it
/// first when it is not a repository yet, add the URL as `origin`, and
/// optionally pull one branch.
#[derive(Debug, Clone, PartialEq)]
pub struct AddRemotePlan {
    /// Run `git init` first.
    pub run_init: bool,
    /// The URL registered as the `origin` remote.
    pub origin_url: String,
    /// The branch pulled from `origin` afterwards, if any.
    pub pull_branch: Option<String>,
}

/// Plan the external git commands that register `url` as `origin`.
pub fn add_remote_plan(url: &str, branch: Option<String>, git_dir_exists: bool) -> (p:
    AddRemotePlan)
    ensures
        p.run_init == !git_dir_exists,
        p.origin_url@ == url@,
        p.pull_branch == branch,
{
    AddRemotePlan { run_init: !git_dir_exists, origin_url: String::from_str(url), pull_branch: branch }
}

/// The error reported when initializing an empty local repository fails.
pub fn git_init_failed_error() -> (e: crate::error::Error)
    ensures
        e.kind == crate::error::ErrorKind::Other,
        e.message@ == ("Failed to initialize empty git repository")@,
        e.status is None,
{
    crate::error::Error::other("Failed to initialize empty git repository")
}

/// The error reported when registering `origin` for `repo_name` fails.
pub fn add_origin_failed_error(repo_name: &str) -> (e: crate::error::Error)
    ensures
        e.kind == crate::error::ErrorKind::Other,
        e.message@ == ("Failed to add remote 'origin' for repository ")@ + repo_name@,
        e.status is None,
{
    let m = concat_strs("Failed to add remote 'origin' for repository ", repo_name);
    crate::error::Error::other(m.as_str())
}

/// The error reported when pulling `branch` of `repo_name` fails.
pub fn pull_failed_error(branch: &str, repo_name: &str) -> (e: crate::error::Error)
    ensures
        e.kind == crate::error::ErrorKind::Other,
        e.message@ == ("Failed to pull branch ")@ + branch@ + (" from repository ")@ + repo_name@,
        e.status is None,
{
    let mut m = concat_strs("Failed to pull branch ", branch);
    m.append(" from repository ");
    m.append(repo_name);
    crate::error::Error::other(m.as_str())
}

/// The provider named by its command-line spelling, or an error naming the
/// unknown spelling.
pub fn parse_provider(s: &str) -> (r: Result<Provider, crate::error::Error>)
    ensures
        s@ == ("github")@ ==> r == Result::<Provider, crate::error::Error>::Ok(Provider::GitHub),
        s@ == ("gitea")@ ==> r == Result::<Provider, crate::error::Error>::Ok(Provider::Gitea),
        s@ == ("gitlab")@ ==> r == Result::<Provider, crate::error::Error>::Ok(Provider::GitLab),
        s@ != ("github")@ && s@ != ("gitea")@ && s@ != ("gitlab")@ ==> (r matches Err(e) && e.kind
            == crate::error::ErrorKind::Other && e.message@ == ("Unknown provider: ")@ + s@
            && e.status is None),
{
    proof {
        // the three spellings are pairwise distinct literals
        reveal_strlit("github");
        reveal_strlit("gitea");
        reveal_strlit("gitlab");
        assert(("github")@.len() == 6);
        assert(("gitea")@.len() == 5);
        assert(("gitlab")@.len() == 6);
        assert(("github")@[3] == 'h' && ("gitlab")@[3] == 'l');
        assert(("github")@ != ("gitea")@);
        assert(("github")@ != ("gitlab")@);
        assert(("gitea")@ != ("gitlab")@);
    }
    if crate::strutil::str_eq(s, "github") {
        Ok(Provider::GitHub)
    } else if crate::strutil::str_eq(s, "gitea") {
        Ok(Provider::Gitea)
    } else if crate::strutil::str_eq(s, "gitlab") {
        Ok(Provider::GitLab)
    } else {
        let m = concat_strs("Unknown provider: ", s);
        Err(crate::error::Error::other(m.as_str()))
    }
}

/// The clone protocol named by its command-line spelling, or an error naming
/// the unknown spelling.
pub fn parse_clone_protocol(s: &str) -> (r: Result<CloneProtocol, crate::error::Error>)
    ensures
        s@ == ("ssh")@ ==> r == Result::<CloneProtocol, crate::error::Error>::Ok(CloneProtocol::SSH),
        s@ == ("https")@ ==> r == Result::<CloneProtocol, crate::error::Error>::Ok(
            CloneProtocol::HTTPS,
        ),
        s@ != ("ssh")@ && s@ != ("https")@ ==> (r matches Err(e) && e.kind
            == crate::error::ErrorKind::Other && e.message@ == ("Unknown clone protocol: ")@ + s@
            && e.status is None),
{
    proof {
        // the two spellings are distinct literals
        reveal_strlit("ssh");
        reveal_strlit("https");
        assert(("ssh")@.len() == 3);
        assert(("https")@.len() == 5);
        assert(("ssh")@ != ("https")@);
    }
    if crate::strutil::str_eq(s, "ssh") {
        Ok(CloneProtocol::SSH)
    } else if crate::strutil::str_eq(s, "https") {
        Ok(CloneProtocol::HTTPS)
    } else {
        let m = concat_strs("Unknown clone protocol: ", s);
        Err(crate::error::Error::other(m.as_str()))
    }
}

/// The command-line spelling of a provider.
pub fn provider_name(p: Provider) -> (r: &'static str)
    ensures
        p == Provider::GitHub ==> r@ == ("github")@,
        p == Provider::GitLab ==> r@ == ("gitlab")@,
        p == Provider::Gitea ==> r@ == ("gitea")@,
{
    match p {
        Provider::GitHub => "github",
        Provider::GitLab => "gitlab",
        Provider::Gitea => "gitea",
    }
}

/// The command-line spelling of a clone protocol.
pub fn clone_protocol_name(p: CloneProtocol) -> (r: &'static str)
    ensures
        p == CloneProtocol::SSH ==> r@ == ("ssh")@,
        p == CloneProtocol::HTTPS ==> r@ == ("https")@,
{
    match p {
        CloneProtocol::SSH => "ssh",
        CloneProtocol::HTTPS => "https",
    }
}

} // verus!
