use gritty::commands::{confirmation_accepted, delete_not_found_error};
use gritty::error::{Error, ErrorKind};
use gritty::factory::{create_remote, AnyRemote};
use gritty::gitea::GiteaRemote;
use gritty::github::{github_default_clone_url, github_default_ssh_url, github_search_query};
use gritty::gitlab::GitlabRemote;
use gritty::log::leftpad;
use gritty::remote::{
    add_remote_plan, clone_command_args, clone_failed_error, clone_protocol_name, parse_clone_protocol,
    parse_provider, provider_name, strip_scheme, Auth, CloneProtocol, Provider, RemoteConfig,
};

fn gitea_config(protocol: CloneProtocol) -> RemoteConfig {
    RemoteConfig {
        username: "alice".to_string(),
        clone_protocol: protocol,
        url: "https://gitea.example.com".to_string(),
        auth: Auth::Token {
            token: "tok".to_string(),
        },
    }
}

#[test]
fn clone_url_ssh_scenario() {
    let remote = GiteaRemote::new(&gitea_config(CloneProtocol::SSH)).unwrap();
    assert_eq!(
        remote.clone_url("alice", "myrepo"),
        "git@gitea.example.com:alice/myrepo.git"
    );
}

#[test]
fn clone_url_https_scenario() {
    let remote = GiteaRemote::new(&gitea_config(CloneProtocol::HTTPS)).unwrap();
    assert_eq!(
        remote.clone_url("alice", "myrepo"),
        "https://gitea.example.com/alice/myrepo.git"
    );
}

#[test]
fn clone_url_through_factory() {
    let remote = create_remote(&gitea_config(CloneProtocol::SSH), Provider::Gitea).unwrap();
    assert!(matches!(remote, AnyRemote::Gitea(..)));
    assert_eq!(
        remote.clone_url("bob", "tool"),
        "git@gitea.example.com:bob/tool.git"
    );
    assert_eq!(remote.get_config().username, "alice");
}

#[test]
fn scheme_stripping() {
    assert_eq!(strip_scheme("https://example.com"), "example.com");
    assert_eq!(strip_scheme("http://example.com"), "example.com");
    assert_eq!(strip_scheme("example.com"), "example.com");
}

#[test]
fn gitlab_rejects_basic_auth() {
    let config = RemoteConfig {
        username: "alice".to_string(),
        clone_protocol: CloneProtocol::HTTPS,
        url: "https://gitlab.com".to_string(),
        auth: Auth::Basic {
            username: "alice".to_string(),
            password: "hunter2".to_string(),
        },
    };
    let err = GitlabRemote::new(&config).unwrap_err();
    assert_eq!(err.kind, ErrorKind::Other);
    assert_eq!(err.message, "Only token authentication is supported for Gitlab");

    let err = create_remote(&config, Provider::GitLab).unwrap_err();
    assert_eq!(err.message, "Only token authentication is supported for Gitlab");
}

#[test]
fn adapters_accept_compatible_auth() {
    let basic = RemoteConfig {
        username: "alice".to_string(),
        clone_protocol: CloneProtocol::HTTPS,
        url: "https://example.com".to_string(),
        auth: Auth::Basic {
            username: "alice".to_string(),
            password: "hunter2".to_string(),
        },
    };
    assert!(create_remote(&basic, Provider::GitHub).is_ok());
    assert!(create_remote(&basic, Provider::Gitea).is_ok());

    let token = gitea_config(CloneProtocol::HTTPS);
    let gitlab = create_remote(&token, Provider::GitLab).unwrap();
    assert_eq!(gitlab.provider(), Provider::GitLab);
}

#[test]
fn provider_spellings() {
    assert_eq!(parse_provider("github").unwrap(), Provider::GitHub);
    assert_eq!(parse_provider("gitea").unwrap(), Provider::Gitea);
    assert_eq!(parse_provider("gitlab").unwrap(), Provider::GitLab);
    let err = parse_provider("sourcehut").unwrap_err();
    assert_eq!(err.kind, ErrorKind::Other);
    assert_eq!(err.message, "Unknown provider: sourcehut");

    assert_eq!(provider_name(Provider::GitHub), "github");
    assert_eq!(provider_name(Provider::GitLab), "gitlab");
    assert_eq!(provider_name(Provider::Gitea), "gitea");
}

#[test]
fn clone_protocol_spellings() {
    assert_eq!(parse_clone_protocol("ssh").unwrap(), CloneProtocol::SSH);
    assert_eq!(parse_clone_protocol("https").unwrap(), CloneProtocol::HTTPS);
    let err = parse_clone_protocol("git").unwrap_err();
    assert_eq!(err.kind, ErrorKind::Other);
    assert_eq!(err.message, "Unknown clone protocol: git");

    assert_eq!(clone_protocol_name(CloneProtocol::SSH), "ssh");
    assert_eq!(clone_protocol_name(CloneProtocol::HTTPS), "https");
}

#[test]
fn clone_command_arguments() {
    let args = clone_command_args("https://x/y.git", "dest", false);
    assert_eq!(args, vec!["clone".to_string(), "https://x/y.git".to_string(), "dest".to_string()]);
    let args = clone_command_args("https://x/y.git", "dest", true);
    assert_eq!(args.len(), 4);
    assert_eq!(args[3], "--recursive");
}

#[test]
fn add_remote_planning() {
    let plan = add_remote_plan("git@h:o/r.git", Some("main".to_string()), false);
    assert!(plan.run_init);
    assert_eq!(plan.origin_url, "git@h:o/r.git");
    assert_eq!(plan.pull_branch, Some("main".to_string()));

    let plan = add_remote_plan("git@h:o/r.git", None, true);
    assert!(!plan.run_init);
    assert_eq!(plan.pull_branch, None);
}

#[test]
fn subprocess_error_messages() {
    assert_eq!(
        clone_failed_error("myrepo").message,
        "Failed to clone repository myrepo"
    );
    assert_eq!(
        gritty::remote::git_init_failed_error().message,
        "Failed to initialize empty git repository"
    );
    assert_eq!(
        gritty::remote::add_origin_failed_error("myrepo").message,
        "Failed to add remote 'origin' for repository myrepo"
    );
    assert_eq!(
        gritty::remote::pull_failed_error("main", "myrepo").message,
        "Failed to pull branch main from repository myrepo"
    );
}

#[test]
fn github_query_and_defaults() {
    assert_eq!(github_search_query("alice", false), "user:alice");
    assert_eq!(github_search_query("alice", true), "user:alice fork:true");
    assert_eq!(
        github_default_ssh_url("alice", "repo"),
        "git@github.com:alice/repo.git"
    );
    assert_eq!(
        github_default_clone_url("alice", "repo"),
        "https://github.com/alice/repo.git"
    );
}

#[test]
fn error_constructors() {
    let e = Error::not_found("a");
    assert_eq!(e.kind, ErrorKind::NotFound);
    assert_eq!(e.message, "a");
    assert_eq!(e.status, None);
    assert_eq!(Error::serialization("b").kind, ErrorKind::Serialization);
    assert_eq!(Error::deserialization("c").kind, ErrorKind::Deserialization);
    assert_eq!(Error::authentication("d").kind, ErrorKind::Authentication);
    assert_eq!(Error::other("e").kind, ErrorKind::Other);
}

#[test]
fn confirmation_inputs() {
    assert!(confirmation_accepted("y"));
    assert!(confirmation_accepted("Y"));
    assert!(!confirmation_accepted("n"));
    assert!(!confirmation_accepted(""));
    assert!(!confirmation_accepted("yes"));
}

#[test]
fn delete_error_names_repository() {
    let e = delete_not_found_error("tool", "origin");
    assert_eq!(e.kind, ErrorKind::NotFound);
    assert_eq!(e.message, "Repository tool not found on remote origin.");
}

#[test]
fn leftpad_pads_to_width() {
    assert_eq!(leftpad("ab", 5), "ab   ");
    assert_eq!(leftpad("abcdef", 3), "abcdef");
    assert_eq!(leftpad("", 2), "  ");
}
