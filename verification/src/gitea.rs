//! The Gitea adapter: translation of Gitea-native errors and models into the
//! canonical types, and the decisions the adapter makes around its REST
//! calls. The unverified async driver performs the calls themselves and hands
//! their results to these functions as plain values.

use vstd::prelude::*;
use vstd::string::*;

use crate::aggregate::{normalize_commits, spec_normalize_commits};
use crate::error::{Error, ErrorKind};
use crate::remote::{
    clone_remote_config, clone_url_for, spec_clone_url, Commit, RemoteConfig, Repository,
};

verus! {

/// Classification used by the Gitea SDK for its errors.
#[derive(Debug, Clone, Copy, PartialEq, Eq, Structural)]
pub enum GiteaErrorKind {
    Http,
    Serialization,
    Other,
}

/// A Gitea-native failure, reduced to plain values: the SDK's message, HTTP
/// status code and error classification.
#[derive(Debug, Clone, PartialEq)]
pub struct GiteaError {
    pub message: String,
    pub status: u16,
    pub kind: GiteaErrorKind,
}

/// What the Gitea repository model contributes to the canonical form.
#[derive(Debug, Clone, PartialEq)]
pub struct GiteaRepoSummary {
    pub name: String,
    pub description: String,
    pub default_branch: String,
    pub private: bool,
    pub fork: bool,
    pub ssh_url: String,
    pub clone_url: String,
}

/// The canonical kind a Gitea-native failure maps to: the status decides
/// first (404 is `NotFound`, 401 is `Authentication`), then serialization
/// failures keep their classification, and everything else is `Other`.
pub open spec fn spec_gitea_error_kind(e: GiteaError) -> ErrorKind {
    if e.status == 404 {
        ErrorKind::NotFound
    } else if e.status == 401 {
        ErrorKind::Authentication
    } else {
        match e.kind {
            GiteaErrorKind::Http => ErrorKind::Other,
            GiteaErrorKind::Serialization => ErrorKind::Serialization,
            GiteaErrorKind::Other => ErrorKind::Other,
        }
    }
}

/// Translate a Gitea-native error into the canonical taxonomy; the message
/// and status are preserved.
pub fn gitea_error_to_error(e: GiteaError) -> (r: Error)
    ensures
        r.message == e.message,
        r.status == Some(e.status),
        r.kind == spec_gitea_error_kind(e),
{
    let kind = if e.status == 404 {
        ErrorKind::NotFound
    } else if e.status == 401 {
        ErrorKind::Authentication
    } else {
        match e.kind {
            GiteaErrorKind::Http => ErrorKind::Other,
            GiteaErrorKind::Serialization => ErrorKind::Serialization,
            GiteaErrorKind::Other => ErrorKind::Other,
        }
    };
    Error { message: e.message, status: Some(e.status), kind }
}

/// The outcome of the authentication probe: a 401 or 403 response means "not
/// authenticated" rather than an error; any other failure propagates.
pub fn gitea_check_auth(probe: Result<(), GiteaError>) -> (r: Result<bool, Error>)
    ensures
        probe is Ok ==> r == Result::<bool, Error>::Ok(true),
        probe matches Err(e) ==> {
            &&& (e.status == 401 || e.status == 403) ==> r == Result::<bool, Error>::Ok(false)
            &&& (e.status != 401 && e.status != 403) ==> (r matches Err(err) && {
                &&& err.message == e.message
                &&& err.status == Some(e.status)
                &&& err.kind == spec_gitea_error_kind(e)
            })
        },
{
    match probe {
        Ok(()) => Ok(true),
        Err(e) => {
            if e.status == 401 || e.status == 403 {
                Ok(false)
            } else {
                Err(gitea_error_to_error(e))
            }
        },
    }
}

/// The canonical repository a Gitea summary maps to, apart from its commit
/// history.
pub open spec fn gitea_repo_matches(r: Repository, s: GiteaRepoSummary) -> bool {
    &&& r.name == s.name
    &&& r.description == Some(s.description)
    &&& r.default_branch == Some(s.default_branch)
    &&& r.private == s.private
    &&& r.fork == s.fork
    &&& r.ssh_url == s.ssh_url
    &&& r.clone_url == s.clone_url
}

/// Assemble the canonical repository from a Gitea summary and the outcome of
/// its commit-history fetch. A 409 from the commit fetch is Gitea's signal
/// for an empty repository and yields an empty history, not an error; any
/// other failure is surfaced with its status.
pub fn gitea_repo_info(summary: GiteaRepoSummary, commits: Result<Vec<Commit>, GiteaError>) -> (r:
    Result<Repository, Error>)
    ensures
        commits matches Ok(list) ==> (r matches Ok(repo) && gitea_repo_matches(repo, summary)
            && repo.last_commits@ == spec_normalize_commits(list@)),
        commits matches Err(e) ==> {
            &&& e.status == 409 ==> (r matches Ok(repo) && gitea_repo_matches(repo, summary)
                && repo.last_commits@ == Seq::<Commit>::empty())
            &&& e.status != 409 ==> (r matches Err(err) && err.message == e.message && err.kind
                == ErrorKind::Other && err.status == Some(e.status))
        },
{
    let list = match commits {
        Ok(list) => normalize_commits(list),
        Err(e) => {
            if e.status == 409 {
                let empty: Vec<Commit> = Vec::new();
                empty
            } else {
                return Err(Error { message: e.message, kind: ErrorKind::Other, status: Some(e.status) });
            }
        },
    };
    Ok(
        Repository {
            name: summary.name,
            description: Some(summary.description),
            private: summary.private,
            fork: summary.fork,
            default_branch: Some(summary.default_branch),
            ssh_url: summary.ssh_url,
            clone_url: summary.clone_url,
            last_commits: list,
        },
    )
}

/// The Gitea adapter. Both `Auth` variants are accepted; the SDK client built
/// from the configuration lives with the unverified driver.
#[derive(Debug, Clone)]
pub struct GiteaRemote {
    pub config: RemoteConfig,
}

impl GiteaRemote {
    /// Construct the adapter. Gitea accepts token and basic authentication,
    /// so construction never fails.
    pub fn new(config: &RemoteConfig) -> (r: Result<GiteaRemote, Error>)
        ensures
            r matches Ok(remote) && remote.config == *config,
    {
        Ok(GiteaRemote { config: clone_remote_config(config) })
    }

    /// The configuration of the remote.
    pub fn get_config(&self) -> (r: &RemoteConfig)
        ensures
            r == &self.config,
    {
        &self.config
    }

    /// The clone URL for the given repository under this remote's protocol.
    pub fn clone_url(&self, username: &str, repo_name: &str) -> (r: String)
        ensures
            r@ == spec_clone_url(self.config.clone_protocol, self.config.url@, username@, repo_name@),
    {
        clone_url_for(&self.config, username, repo_name)
    }
}

} // verus!
