//! The request records the command layer hands to the library:
//! already-parsed, strongly-typed argument structures. Flag syntax and help
//! text live with the command-line front end; these are the bare data.

use vstd::prelude::*;

use crate::remote::{CloneProtocol, Provider};

verus! {

/// When to color the output.
#[derive(Debug, Clone, Copy, PartialEq, Eq, Structural)]
pub enum Color {
    /// Color when the output is a terminal and coloring is not switched off.
    Auto,
    /// Always color.
    Always,
    /// Never color.
    Never,
}

/// How listing and creation results are printed.
#[derive(Debug, Clone, Copy, PartialEq, Eq, Structural)]
pub enum OutputFormat {
    /// Human-readable text.
    Human,
    /// Machine-readable JSON.
    Json,
}

/// The shells completions can be generated for.
#[derive(Debug, Clone, Copy, PartialEq, Eq, Structural)]
pub enum Shell {
    Bash,
    Fish,
    Zsh,
    PowerShell,
}

/// Generate shell completions for the specified shell.
#[derive(Debug, Clone, PartialEq)]
pub struct Completions {
    /// The shell for which to generate completions.
    pub shell: Shell,
}

/// Add authentication to a named remote.
#[derive(Debug, Clone, PartialEq)]
pub struct Login {
    /// Name of the remote as defined in the configuration.
    pub remote: String,
}

/// The authentication subcommands.
#[derive(Debug, Clone, PartialEq)]
pub enum AuthCommands {
    Login(Login),
    /// Show the authentication status of every configured remote.
    Status,
}

/// The authentication command.
#[derive(Debug, Clone, PartialEq)]
pub struct Auth {
    pub subcommand: AuthCommands,
}

/// List repositories on a remote.
#[derive(Debug, Clone, PartialEq)]
pub struct List {
    /// Name of the remote as defined in the configuration.
    pub remote: String,
    /// Show private repositories.
    pub private: bool,
    /// Show forks.
    pub forks: bool,
    /// Output format override.
    pub format: Option<OutputFormat>,
}

/// Create a repository on a remote.
#[derive(Debug, Clone, PartialEq)]
pub struct Create {
    /// Create a private repository.
    pub private: bool,
    /// Clone the repository after creation.
    pub clone: bool,
    /// Initialize and clone all submodules; only meaningful with `clone`.
    pub recursive: bool,
    /// Register the new repository as `origin` locally; ignored with `clone`.
    pub add_remote: bool,
    /// Description of the repository.
    pub description: Option<String>,
    /// Initialize the repository with a README.
    pub init: bool,
    /// License to use for the repository.
    pub license: Option<String>,
    /// Name of the repository.
    pub name: String,
    /// Name of the remote as defined in the configuration.
    pub remote: String,
    /// Output format override.
    pub format: Option<OutputFormat>,
}

/// Clone a repository from a remote.
#[derive(Debug, Clone, PartialEq)]
pub struct CloneRepo {
    /// Name of the repository.
    pub name: String,
    /// Name of the remote as defined in the configuration.
    pub remote: String,
    /// Initialize and clone all submodules.
    pub recursive: bool,
    /// Path to clone into; the repository name when absent.
    pub path: Option<String>,
}

/// Delete a repository on a remote.
#[derive(Debug, Clone, PartialEq)]
pub struct Delete {
    /// Name of the repository.
    pub name: String,
    /// Name of the remote as defined in the configuration.
    pub remote: String,
    /// Delete without confirmation.
    pub force: bool,
}

/// Fork a repository on a remote.
#[derive(Debug, Clone, PartialEq)]
pub struct Fork {
    /// Clone the fork after creation.
    pub clone: bool,
    /// Register the fork as `origin` locally; ignored with `clone`.
    pub add_remote: bool,
    /// Output format override.
    pub format: Option<OutputFormat>,
    /// Name of the fork; the original name when absent.
    pub target: Option<String>,
    /// Only fork the default branch.
    pub default_branch_only: bool,
    /// Organization owning the fork; the authenticated user when absent.
    pub organization: Option<String>,
    /// The owner of the repository to fork.
    pub owner: String,
    /// Name of the repository to fork.
    pub repository: String,
    /// Name of the remote as defined in the configuration.
    pub remote: String,
}

/// The repository subcommands.
#[derive(Debug, Clone, PartialEq)]
pub enum RepoCommands {
    Clone(CloneRepo),
    List(List),
    Create(Create),
    Fork(Fork),
    Delete(Delete),
}

/// The repository command.
#[derive(Debug, Clone, PartialEq)]
pub struct Repo {
    pub subcommand: RepoCommands,
}

/// Register a new remote in the configuration.
#[derive(Debug, Clone, PartialEq)]
pub struct Add {
    /// The protocol used when cloning from this remote.
    pub clone_protocol: Option<CloneProtocol>,
    /// The provider of the remote.
    pub provider: Option<Provider>,
    /// The username used when interacting with the remote.
    pub username: Option<String>,
    /// The base URL of the remote, without a trailing slash.
    pub url: Option<String>,
    /// The name the remote is referred to by.
    pub name: String,
}

/// The remote-management subcommands.
#[derive(Debug, Clone, PartialEq)]
pub enum RemoteCommands {
    List,
    Add(Add),
}

} // verus!
