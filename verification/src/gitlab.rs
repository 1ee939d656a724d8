//! The GitLab adapter: translation of GitLab-native errors and models into
//! the canonical types, the project-path encoding, and the decisions the
//! adapter makes around its REST calls. The unverified async driver performs
//! the calls themselves and hands their results to these functions as plain
//! values.
//!
//! GitLab is the one provider that restricts authentication: only token
//! authentication is supported, and constructing the adapter with basic
//! credentials fails before any network call.

use vstd::prelude::*;
use vstd::string::*;

use crate::aggregate::{normalize_commits, spec_normalize_commits};
use crate::error::{Error, ErrorKind};
use crate::remote::{
    clone_remote_config, clone_url_for, spec_clone_url, Auth, Commit, RemoteConfig, Repository,
};
use crate::strutil::{
    concat_strs, lower_of, lowercase, push_char, spec_starts_with, str_eq, str_starts_with,
};

verus! {

/// What `urlencoding::encode` returns; the result depends on the characters
/// alone.
pub uninterp spec fn url_encoded(s: Seq<char>) -> Seq<char>;

/// Relies on `urlencoding::encode`: percent-encodes every byte except ASCII
/// alphanumerics and `-`, `_`, `.`, `~`; a function of the characters alone.
#[verifier::external_body]
fn url_encode(s: &str) -> (r: String)
    ensures
        r@ == url_encoded(s@),
{
    urlencoding::encode(s).into_owned()
}

/// The name with every space replaced by a dash.
pub open spec fn spec_dashed(s: Seq<char>) -> Seq<char> {
    Seq::new(s.len(), |i: int| if s[i] == ' ' { '-' } else { s[i] })
}

/// Replace every space in a project name by a dash.
pub fn replace_spaces(s: &str) -> (r: String)
    ensures
        r@ == spec_dashed(s@),
{
    let len = s.unicode_len();
    let mut out = String::new();
    let mut i: usize = 0;
    while i < len
        invariant
            i <= len,
            len == s@.len(),
            out@ == spec_dashed(s@).take(i as int),
        decreases len - i,
    {
        let c = s.get_char(i);
        if c == ' ' {
            push_char(&mut out, '-');
        } else {
            push_char(&mut out, c);
        }
        proof {
            assert(out@ =~= spec_dashed(s@).take(i + 1));
        }
        i = i + 1;
    }
    proof {
        assert(spec_dashed(s@).take(len as int) =~= spec_dashed(s@));
    }
    out
}

/// The URL path slug of a project name: spaces become dashes, then the name
/// is lowercased.
pub fn gitlab_path_slug(name: &str) -> (r: String)
    ensures
        r@ == lower_of(spec_dashed(name@)),
{
    let dashed = replace_spaces(name);
    lowercase(dashed.as_str())
}

/// The percent-encoded `owner/name` path that identifies a project in the
/// GitLab API, with the name turned into its slug first.
pub fn gitlab_encoded_path(owner: &str, name: &str) -> (r: String)
    ensures
        r@ == url_encoded(owner@) + ("/")@ + url_encoded(lower_of(spec_dashed(name@))),
{
    let mut r = url_encode(owner);
    r.append("/");
    let slug = gitlab_path_slug(name);
    let encoded = url_encode(slug.as_str());
    r.append(encoded.as_str());
    r
}

/// The host handed to the GitLab client builder: the base URL without its
/// `https://` prefix.
pub open spec fn spec_gitlab_host(u: Seq<char>) -> Seq<char> {
    if spec_starts_with(u, ("https://")@) {
        u.subrange(("https://")@.len() as int, u.len() as int)
    } else {
        u
    }
}

/// Strip a leading `https://` from the base URL for the client builder.
pub fn gitlab_host(url: &str) -> (r: String)
    ensures
        r@ == spec_gitlab_host(url@),
{
    proof {
        reveal_strlit("https://");
    }
    let len = url.unicode_len();
    if str_starts_with(url, "https://") {
        String::from_str(url.substring_char(8, len))
    } else {
        String::from_str(url)
    }
}

/// A project as the GitLab API reports it, reduced to plain values.
#[derive(Debug, Clone, PartialEq)]
pub struct GitlabProject {
    pub name: String,
    pub description: Option<String>,
    pub default_branch: Option<String>,
    /// Whether the project was forked from another project.
    pub forked: bool,
    pub ssh_url_to_repo: String,
    pub http_url_to_repo: String,
    pub visibility: String,
    pub empty_repo: bool,
    pub id: u64,
}

/// A failure of the GitLab API surface: the HTTP status when the service
/// answered, and the formatted description of the failure.
#[derive(Debug, Clone, PartialEq)]
pub struct GitlabFailure {
    pub status: Option<u16>,
    pub message: String,
}

/// A GitLab message-only error: the client reports `401 Unauthorized` as a
/// bare message, which is classified as an authentication failure; any other
/// bare message is `Other`.
pub fn gitlab_message_error(msg: String) -> (r: Error)
    ensures
        r.message == msg,
        r.status is None,
        r.kind == (if msg@ == ("401 Unauthorized")@ {
            ErrorKind::Authentication
        } else {
            ErrorKind::Other
        }),
{
    let authentication = str_eq(msg.as_str(), "401 Unauthorized");
    if authentication {
        Error { message: msg, kind: ErrorKind::Authentication, status: None }
    } else {
        Error { message: msg, kind: ErrorKind::Other, status: None }
    }
}

/// The canonical kind a GitLab service response maps to: 404 is `NotFound`,
/// 401 is `Authentication`, everything else `Other`.
pub open spec fn gitlab_status_kind(status: u16) -> ErrorKind {
    if status == 404 {
        ErrorKind::NotFound
    } else if status == 401 {
        ErrorKind::Authentication
    } else {
        ErrorKind::Other
    }
}

/// The error for a GitLab service response with the given status.
pub fn gitlab_service_error(status: u16) -> (r: Error)
    ensures
        r.message@ == ("Gitlab service error")@,
        r.kind == gitlab_status_kind(status),
        r.status == Some(status),
{
    let kind = if status == 404 {
        ErrorKind::NotFound
    } else if status == 401 {
        ErrorKind::Authentication
    } else {
        ErrorKind::Other
    };
    Error { message: String::from_str("Gitlab service error"), kind, status: Some(status) }
}

/// The outcome of the authentication probe: a 401 or 403 service response
/// means "not authenticated" rather than an error; any other failure
/// propagates as `Other`, prefixed with what was being attempted.
pub fn gitlab_check_auth(probe: Result<(), GitlabFailure>) -> (r: Result<bool, Error>)
    ensures
        probe is Ok ==> r == Result::<bool, Error>::Ok(true),
        probe matches Err(f) ==> {
            &&& (f.status == Some(401u16) || f.status == Some(403u16)) ==> r == Result::<
                bool,
                Error,
            >::Ok(false)
            &&& (f.status != Some(401u16) && f.status != Some(403u16)) ==> (r matches Err(err)
                && err.kind == ErrorKind::Other && err.message@ == ("Failed to check auth: ")@
                + f.message@ && err.status is None)
        },
{
    match probe {
        Ok(()) => Ok(true),
        Err(f) => {
            let unauthenticated = match f.status {
                Some(code) => code == 401 || code == 403,
                None => false,
            };
            if unauthenticated {
                Ok(false)
            } else {
                let m = concat_strs("Failed to check auth: ", f.message.as_str());
                Err(Error { message: m, kind: ErrorKind::Other, status: None })
            }
        },
    }
}

/// The canonical repository a GitLab project maps to, apart from its commit
/// history: a project is private exactly when its visibility is `private`,
/// and a fork exactly when it records a fork parent.
pub open spec fn gitlab_repo_matches(r: Repository, p: GitlabProject) -> bool {
    &&& r.name == p.name
    &&& r.description == p.description
    &&& r.default_branch == p.default_branch
    &&& r.private == (p.visibility@ == ("private")@)
    &&& r.fork == p.forked
    &&& r.ssh_url == p.ssh_url_to_repo
    &&& r.clone_url == p.http_url_to_repo
}

/// Assemble the canonical repository from a GitLab project and the outcome
/// of its commit-history fetch. An empty project is GitLab's signal for a
/// repository with no commits: no fetch is made and the history is empty; a
/// failed fetch propagates its error unchanged.
pub fn gitlab_project_info(project: GitlabProject, commits: Option<Result<Vec<Commit>, Error>>) -> (r:
    Result<Repository, Error>)
    requires
        project.empty_repo <==> commits is None,
    ensures
        commits is None ==> (r matches Ok(repo) && gitlab_repo_matches(repo, project)
            && repo.last_commits@ == Seq::<Commit>::empty()),
        commits matches Some(fetched) ==> (match fetched {
            Ok(list) => (r matches Ok(repo) && gitlab_repo_matches(repo, project)
                && repo.last_commits@ == spec_normalize_commits(list@)),
            Err(e) => r == Result::<Repository, Error>::Err(e),
        }),
{
    let list = match commits {
        None => {
            let empty: Vec<Commit> = Vec::new();
            empty
        },
        Some(Ok(list)) => normalize_commits(list),
        Some(Err(e)) => {
            return Err(e);
        },
    };
    let private = str_eq(project.visibility.as_str(), "private");
    Ok(
        Repository {
            name: project.name,
            description: project.description,
            private,
            fork: project.forked,
            default_branch: project.default_branch,
            ssh_url: project.ssh_url_to_repo,
            clone_url: project.http_url_to_repo,
            last_commits: list,
        },
    )
}

/// The GitLab adapter. Only token authentication is supported; the API
/// client built from the configuration lives with the unverified driver.
#[derive(Debug, Clone)]
pub struct GitlabRemote {
    pub config: RemoteConfig,
}

impl GitlabRemote {
    /// Construct the adapter. GitLab rejects basic authentication before any
    /// network call is attempted.
    pub fn new(config: &RemoteConfig) -> (r: Result<GitlabRemote, Error>)
        ensures
            config.auth matches Auth::Token { .. } ==> (r matches Ok(remote) && remote.config
                == *config),
            config.auth matches Auth::Basic { .. } ==> (r matches Err(err) && err.kind
                == ErrorKind::Other && err.message@ == (
            "Only token authentication is supported for Gitlab")@ && err.status is None),
    {
        match &config.auth {
            Auth::Token { .. } => Ok(GitlabRemote { config: clone_remote_config(config) }),
            Auth::Basic { .. } => Err(
                Error::other("Only token authentication is supported for Gitlab"),
            ),
        }
    }

    /// The configuration of the remote.
    pub fn get_config(&self) -> (r: &RemoteConfig)
        ensures
            r == &self.config,
    {
        &self.config
    }

    /// The clone URL for the given repository under this remote's protocol.
    pub fn clone_url(&self, username: &str, repo_name: &str) -> (r: String)
        ensures
            r@ == spec_clone_url(self.config.clone_protocol, self.config.url@, username@, repo_name@),
    {
        clone_url_for(&self.config, username, repo_name)
    }
}

} // verus!
