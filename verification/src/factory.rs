//! The remote factory: the single polymorphism seam. A [`Provider`] tag and a
//! resolved configuration map to the matching adapter of the closed union
//! [`AnyRemote`]; nothing else in the system branches on the provider.

use vstd::prelude::*;

use crate::error::{Error, ErrorKind};
use crate::gitea::GiteaRemote;
use crate::github::GitHubRemote;
use crate::gitlab::GitlabRemote;
use crate::remote::{clone_url_for, spec_clone_url, Auth, Provider, RemoteConfig};

verus! {

/// The closed union of the three provider adapters.
#[derive(Debug, Clone)]
pub enum AnyRemote {
    GitHub(GitHubRemote),
    GitLab(GitlabRemote),
    Gitea(GiteaRemote),
}

/// Whether a provider accepts the given authentication variant: GitLab
/// requires a token, the others accept either variant.
pub open spec fn provider_accepts_auth(provider: Provider, auth: Auth) -> bool {
    provider == Provider::GitLab ==> auth is Token
}

impl AnyRemote {
    /// The configuration the adapter was constructed with.
    pub fn get_config(&self) -> (r: &RemoteConfig)
        ensures
            r == &self.spec_config(),
    {
        match self {
            AnyRemote::GitHub(remote) => remote.get_config(),
            AnyRemote::GitLab(remote) => remote.get_config(),
            AnyRemote::Gitea(remote) => remote.get_config(),
        }
    }

    /// The adapter's configuration, for contracts.
    pub open spec fn spec_config(&self) -> RemoteConfig {
        match self {
            AnyRemote::GitHub(remote) => remote.config,
            AnyRemote::GitLab(remote) => remote.config,
            AnyRemote::Gitea(remote) => remote.config,
        }
    }

    /// The provider this adapter belongs to.
    pub fn provider(&self) -> (p: Provider)
        ensures
            p == (match self {
                AnyRemote::GitHub(..) => Provider::GitHub,
                AnyRemote::GitLab(..) => Provider::GitLab,
                AnyRemote::Gitea(..) => Provider::Gitea,
            }),
    {
        match self {
            AnyRemote::GitHub(..) => Provider::GitHub,
            AnyRemote::GitLab(..) => Provider::GitLab,
            AnyRemote::Gitea(..) => Provider::Gitea,
        }
    }

    /// The clone URL for the given repository under this remote's protocol.
    pub fn clone_url(&self, username: &str, repo_name: &str) -> (r: String)
        ensures
            r@ == spec_clone_url(
                self.spec_config().clone_protocol,
                self.spec_config().url@,
                username@,
                repo_name@,
            ),
    {
        clone_url_for(self.get_config(), username, repo_name)
    }
}

/// Construct the adapter for the given provider. This fails exactly when the
/// authentication variant is structurally incompatible with the provider —
/// before any network call is attempted.
pub fn create_remote(config: &RemoteConfig, provider: Provider) -> (r: Result<AnyRemote, Error>)
    ensures
        r is Ok <==> provider_accepts_auth(provider, config.auth),
        provider == Provider::GitHub ==> (r matches Ok(AnyRemote::GitHub(a)) && a.config
            == *config),
        provider == Provider::Gitea ==> (r matches Ok(AnyRemote::Gitea(a)) && a.config == *config),
        provider == Provider::GitLab && config.auth is Token ==> (r matches Ok(
            AnyRemote::GitLab(a),
        ) && a.config == *config),
        provider == Provider::GitLab && config.auth is Basic ==> (r matches Err(err) && err.kind
            == ErrorKind::Other && err.message@ == (
        "Only token authentication is supported for Gitlab")@ && err.status is None),
{
    match provider {
        Provider::GitHub => match GitHubRemote::new(config) {
            Ok(remote) => Ok(AnyRemote::GitHub(remote)),
            Err(e) => Err(e),
        },
        Provider::Gitea => match GiteaRemote::new(config) {
            Ok(remote) => Ok(AnyRemote::Gitea(remote)),
            Err(e) => Err(e),
        },
        Provider::GitLab => match GitlabRemote::new(config) {
            Ok(remote) => Ok(AnyRemote::GitLab(remote)),
            Err(e) => Err(e),
        },
    }
}

} // verus!
