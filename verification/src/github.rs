//! The GitHub adapter: translation of GitHub-native errors and models into
//! the canonical types, the search-query construction, and the decisions the
//! adapter makes around its REST calls. The unverified async driver performs
//! the calls themselves and hands their results to these functions as plain
//! values.

use vstd::prelude::*;
use vstd::string::*;

use crate::aggregate::{normalize_commits, spec_normalize_commits};
use crate::error::{Error, ErrorKind};
use crate::remote::{
    clone_remote_config, clone_url_for, spec_clone_url, Commit, RemoteConfig, Repository,
};

verus! {

/// A GitHub-native failure, reduced to plain values. `Api` carries the
/// response of the GitHub API itself; the other variants classify transport
/// and encoding failures, whose formatted description travels in `message`.
#[derive(Debug, Clone, PartialEq)]
pub enum GithubFailure {
    Api { status: u16, message: String },
    Serialization { message: String },
    Deserialization { message: String },
    Other { message: String },
}

/// Commit author data as GitHub reports it: possibly absent, with a possibly
/// absent date.
#[derive(Debug, Clone, PartialEq)]
pub struct GithubAuthor {
    pub name: String,
    pub date: Option<i64>,
}

/// One commit as GitHub reports it.
#[derive(Debug, Clone, PartialEq)]
pub struct GithubCommitData {
    pub sha: String,
    pub message: String,
    pub author: Option<GithubAuthor>,
}

/// What the GitHub repository model contributes to the canonical form.
/// GitHub leaves many fields optional.
#[derive(Debug, Clone, PartialEq)]
pub struct GithubRepoSummary {
    pub name: String,
    pub description: Option<String>,
    pub default_branch: Option<String>,
    pub private: Option<bool>,
    pub fork: Option<bool>,
    pub ssh_url: Option<String>,
    pub clone_url: Option<String>,
}

/// The canonical kind an API failure with the given status maps to.
pub open spec fn github_status_kind(status: u16) -> ErrorKind {
    if status == 404 {
        ErrorKind::NotFound
    } else if status == 401 {
        ErrorKind::Authentication
    } else {
        ErrorKind::Other
    }
}

/// Translate a GitHub-native failure into the canonical taxonomy: API
/// responses map 404 to `NotFound` and 401 to `Authentication` and keep their
/// status; encoding failures keep their classification; everything else is
/// `Other`.
pub fn github_error_to_error(f: GithubFailure) -> (r: Error)
    ensures
        f matches GithubFailure::Api { status, message } ==> (r.message == message && r.kind
            == github_status_kind(status) && r.status == Some(status)),
        f matches GithubFailure::Serialization { message } ==> (r.message == message && r.kind
            == ErrorKind::Serialization && r.status is None),
        f matches GithubFailure::Deserialization { message } ==> (r.message == message && r.kind
            == ErrorKind::Deserialization && r.status is None),
        f matches GithubFailure::Other { message } ==> (r.message == message && r.kind
            == ErrorKind::Other && r.status is None),
{
    match f {
        GithubFailure::Api { status, message } => {
            let kind = if status == 404 {
                ErrorKind::NotFound
            } else if status == 401 {
                ErrorKind::Authentication
            } else {
                ErrorKind::Other
            };
            Error { message, kind, status: Some(status) }
        },
        GithubFailure::Serialization { message } => Error {
            message,
            kind: ErrorKind::Serialization,
            status: None,
        },
        GithubFailure::Deserialization { message } => Error {
            message,
            kind: ErrorKind::Deserialization,
            status: None,
        },
        GithubFailure::Other { message } => Error {
            message,
            kind: ErrorKind::Other,
            status: None,
        },
    }
}

/// The outcome of the authentication probe: a 401 or 403 API response means
/// "not authenticated" rather than an error; any other failure propagates.
pub fn github_check_auth(probe: Result<(), GithubFailure>) -> (r: Result<bool, Error>)
    ensures
        probe is Ok ==> r == Result::<bool, Error>::Ok(true),
        probe matches Err(f) ==> (match f {
            GithubFailure::Api { status, message } => {
                &&& (status == 401 || status == 403) ==> r == Result::<bool, Error>::Ok(false)
                &&& (status != 401 && status != 403) ==> (r matches Err(err) && err.message
                    == message && err.kind == github_status_kind(status) && err.status == Some(
                    status,
                ))
            },
            GithubFailure::Serialization { message } => (r matches Err(err) && err.message
                == message && err.kind == ErrorKind::Serialization && err.status is None),
            GithubFailure::Deserialization { message } => (r matches Err(err) && err.message
                == message && err.kind == ErrorKind::Deserialization && err.status is None),
            GithubFailure::Other { message } => (r matches Err(err) && err.message == message
                && err.kind == ErrorKind::Other && err.status is None),
        }),
{
    match probe {
        Ok(()) => Ok(true),
        Err(f) => {
            let is_unauthenticated = match &f {
                GithubFailure::Api { status, .. } => *status == 401 || *status == 403,
                _ => false,
            };
            if is_unauthenticated {
                Ok(false)
            } else {
                Err(github_error_to_error(f))
            }
        },
    }
}

/// The search query for the authenticated user's repositories:
/// `user:<name>`, with ` fork:true` appended when forks are wanted.
pub fn github_search_query(username: &str, forks: bool) -> (r: String)
    ensures
        forks ==> r@ == ("user:")@ + username@ + (" fork:true")@,
        !forks ==> r@ == ("user:")@ + username@,
{
    let mut q = String::from_str("user:");
    q.append(username);
    if forks {
        q.append(" fork:true");
    }
    q
}

/// The SSH URL used when GitHub reports none for a repository.
pub fn github_default_ssh_url(username: &str, name: &str) -> (r: String)
    ensures
        r@ == ("git@github.com:")@ + username@ + ("/")@ + name@ + (".git")@,
{
    let mut r = String::from_str("git@github.com:");
    r.append(username);
    r.append("/");
    r.append(name);
    r.append(".git");
    r
}

/// The clone URL used when GitHub reports none for a repository.
pub fn github_default_clone_url(username: &str, name: &str) -> (r: String)
    ensures
        r@ == ("https://github.com/")@ + username@ + ("/")@ + name@ + (".git")@,
{
    let mut r = String::from_str("https://github.com/");
    r.append(username);
    r.append("/");
    r.append(name);
    r.append(".git");
    r
}

/// The canonical commit a GitHub commit record maps to: a missing author
/// becomes `"unknown"`, a missing date becomes the epoch.
pub open spec fn commit_matches_github(r: Commit, c: GithubCommitData) -> bool {
    &&& r.sha == c.sha
    &&& r.message == c.message
    &&& (match c.author {
        Some(a) => r.author == a.name && r.date == (match a.date {
            Some(d) => d,
            None => 0i64,
        }),
        None => r.author@ == ("unknown")@ && r.date == 0i64,
    })
}

/// The canonical commit for one GitHub commit record.
pub fn github_commit(c: GithubCommitData) -> (r: Commit)
    ensures
        r.sha == c.sha,
        r.message == c.message,
        c.author matches Some(a) ==> r.author == a.name && r.date == (match a.date {
            Some(d) => d,
            None => 0i64,
        }),
        c.author is None ==> r.author@ == ("unknown")@ && r.date == 0i64,
{
    match c.author {
        Some(a) => Commit {
            sha: c.sha,
            message: c.message,
            author: a.name,
            date: match a.date {
                Some(d) => d,
                None => 0,
            },
        },
        None => Commit { sha: c.sha, message: c.message, author: String::from_str("unknown"), date: 0 },
    }
}

/// The canonical commits for a fetched GitHub commit list, in order.
pub fn github_commits(list: Vec<GithubCommitData>) -> (r: Vec<Commit>)
    ensures
        r@.len() == list@.len(),
        forall|i: int| 0 <= i < list@.len() ==> commit_matches_github(#[trigger] r@[i], list@[i]),
{
    let ghost orig = list@;
    let mut rest = list;
    let mut out: Vec<Commit> = Vec::new();
    while rest.len() > 0
        invariant
            out@.len() + rest@.len() == orig.len(),
            rest@ == orig.subrange(out@.len() as int, orig.len() as int),
            forall|i: int| 0 <= i < out@.len() ==> commit_matches_github(
                #[trigger] out@[i],
                orig[i],
            ),
        decreases rest@.len(),
    {
        let ghost p = out@.len() as int;
        let c = rest.remove(0);
        proof {
            assert(c == orig[p]);
            assert(rest@ =~= orig.subrange(p + 1, orig.len() as int));
        }
        let mapped = github_commit(c);
        out.push(mapped);
    }
    out
}

/// The canonical repository a GitHub summary maps to, apart from its commit
/// history: optional privacy and fork flags default to `false`, and missing
/// URLs fall back to the GitHub defaults built from the owner and name.
pub open spec fn github_repo_matches(
    r: Repository,
    s: GithubRepoSummary,
    username: Seq<char>,
) -> bool {
    &&& r.name == s.name
    &&& r.description == s.description
    &&& r.default_branch == s.default_branch
    &&& r.private == (match s.private {
        Some(b) => b,
        None => false,
    })
    &&& r.fork == (match s.fork {
        Some(b) => b,
        None => false,
    })
    &&& (match s.ssh_url {
        Some(u) => r.ssh_url == u,
        None => r.ssh_url@ == ("git@github.com:")@ + username + ("/")@ + s.name@ + (".git")@,
    })
    &&& (match s.clone_url {
        Some(u) => r.clone_url == u,
        None => r.clone_url@ == ("https://github.com/")@ + username + ("/")@ + s.name@ + (".git")@,
    })
}

/// Assemble the canonical repository from a GitHub summary and the outcome of
/// its commit-history fetch. A 409 API response from the commit fetch is
/// GitHub's signal for a repository with no commits and yields an empty
/// history, not an error; any other API failure is surfaced with its status,
/// and a transport failure is surfaced as `Other`.
pub fn github_repo_info(
    username: &str,
    summary: GithubRepoSummary,
    commits: Result<Vec<Commit>, GithubFailure>,
) -> (r: Result<Repository, Error>)
    ensures
        commits matches Ok(list) ==> (r matches Ok(repo) && github_repo_matches(
            repo,
            summary,
            username@,
        ) && repo.last_commits@ == spec_normalize_commits(list@)),
        commits matches Err(f) ==> (match f {
            GithubFailure::Api { status, message } => {
                &&& status == 409 ==> (r matches Ok(repo) && github_repo_matches(
                    repo,
                    summary,
                    username@,
                ) && repo.last_commits@ == Seq::<Commit>::empty())
                &&& status != 409 ==> (r matches Err(err) && err.message == message && err.kind
                    == ErrorKind::Other && err.status == Some(status))
            },
            GithubFailure::Serialization { message } => (r matches Err(err) && err.message
                == message && err.kind == ErrorKind::Serialization && err.status is None),
            GithubFailure::Deserialization { message } => (r matches Err(err) && err.message
                == message && err.kind == ErrorKind::Deserialization && err.status is None),
            GithubFailure::Other { message } => (r matches Err(err) && err.message == message
                && err.kind == ErrorKind::Other && err.status is None),
        }),
{
    let list = match commits {
        Ok(list) => normalize_commits(list),
        Err(f) => {
            match f {
                GithubFailure::Api { status, message } => {
                    if status == 409 {
                        let empty: Vec<Commit> = Vec::new();
                        empty
                    } else {
                        return Err(
                            Error { message, kind: ErrorKind::Other, status: Some(status) },
                        );
                    }
                },
                GithubFailure::Serialization { message } => {
                    return Err(Error { message, kind: ErrorKind::Serialization, status: None });
                },
                GithubFailure::Deserialization { message } => {
                    return Err(Error { message, kind: ErrorKind::Deserialization, status: None });
                },
                GithubFailure::Other { message } => {
                    return Err(Error { message, kind: ErrorKind::Other, status: None });
                },
            }
        },
    };
    let ssh_url = match summary.ssh_url {
        Some(u) => u,
        None => github_default_ssh_url(username, summary.name.as_str()),
    };
    let clone_url = match summary.clone_url {
        Some(u) => u,
        None => github_default_clone_url(username, summary.name.as_str()),
    };
    Ok(
        Repository {
            name: summary.name,
            description: summary.description,
            private: match summary.private {
                Some(b) => b,
                None => false,
            },
            fork: match summary.fork {
                Some(b) => b,
                None => false,
            },
            default_branch: summary.default_branch,
            ssh_url,
            clone_url,
            last_commits: list,
        },
    )
}

/// The GitHub adapter. Both `Auth` variants are accepted; the API client
/// built from the configuration lives with the unverified driver.
#[derive(Debug, Clone)]
pub struct GitHubRemote {
    pub config: RemoteConfig,
}

impl GitHubRemote {
    /// Construct the adapter. GitHub accepts token and basic authentication,
    /// so construction never fails.
    pub fn new(config: &RemoteConfig) -> (r: Result<GitHubRemote, Error>)
        ensures
            r matches Ok(remote) && remote.config == *config,
    {
        Ok(GitHubRemote { config: clone_remote_config(config) })
    }

    /// The configuration of the remote.
    pub fn get_config(&self) -> (r: &RemoteConfig)
        ensures
            r == &self.config,
    {
        &self.config
    }

    /// The clone URL for the given repository under this remote's protocol.
    pub fn clone_url(&self, username: &str, repo_name: &str) -> (r: String)
        ensures
            r@ == spec_clone_url(self.config.clone_protocol, self.config.url@, username@, repo_name@),
    {
        clone_url_for(&self.config, username, repo_name)
    }
}

} // verus!
