use gritty::config::{
    config_error_to_error, expand_home_path, resolve_config_path, Config, ConfigError,
    ConfigErrorKind, GitRemoteConfig, PersistAction, Secrets,
};
use gritty::error::ErrorKind;
use gritty::remote::{Auth, CloneProtocol, Provider};
use gritty::secrets::SecretsTable;
use gritty::table::Table;

fn test_config(secrets: Secrets) -> Config {
    let mut remotes: Table<GitRemoteConfig> = Table::new();
    remotes.upsert(
        "origin",
        GitRemoteConfig {
            provider: Provider::GitHub,
            clone_protocol: CloneProtocol::HTTPS,
            url: "https://github.com".to_string(),
            username: "alice".to_string(),
        },
    );
    Config {
        remotes,
        secrets,
        colors: None,
        path: "/tmp/config.toml".to_string(),
    }
}

#[test]
fn store_then_get_token_plaintext() {
    let mut config = test_config(Secrets::Plaintext(SecretsTable::new()));
    let action = config.store_token("origin", "abc123").unwrap();
    assert_eq!(action, PersistAction::SaveConfig);
    let auth = config.get_auth(&config.secrets, "origin").unwrap();
    assert_eq!(
        auth,
        Auth::Token {
            token: "abc123".to_string()
        }
    );
}

#[test]
fn store_then_get_token_secrets_file() {
    let mut config = test_config(Secrets::SecretsFile {
        file: "/tmp/secrets.toml".to_string(),
        entries: None,
    });
    let action = config.store_token("origin", "abc123").unwrap();
    assert_eq!(action, PersistAction::SaveSecretsFile);
    let auth = config.get_auth(&config.secrets, "origin").unwrap();
    assert_eq!(
        auth,
        Auth::Token {
            token: "abc123".to_string()
        }
    );
}

#[test]
fn store_then_get_token_keyring() {
    // The keyring backend talks to the OS store; whether a store is available
    // depends on the machine. When the token can be stored, it must resolve
    // back to exactly the stored token; when it cannot, resolution reports an
    // authentication failure.
    let nanos = std::time::SystemTime::now()
        .duration_since(std::time::UNIX_EPOCH)
        .unwrap()
        .subsec_nanos();
    let name = format!("origin-{}", nanos);
    let mut config = test_config(Secrets::Keyring);
    config.add_remote(
        &name,
        GitRemoteConfig {
            provider: Provider::Gitea,
            clone_protocol: CloneProtocol::SSH,
            url: "https://gitea.example.com".to_string(),
            username: "alice".to_string(),
        },
    )
    .unwrap();
    match config.store_token(&name, "abc123") {
        Ok(action) => {
            assert_eq!(action, PersistAction::Nothing);
            let auth = config.get_auth(&config.secrets, &name).unwrap();
            assert_eq!(
                auth,
                Auth::Token {
                    token: "abc123".to_string()
                }
            );
        }
        Err(e) => {
            assert_eq!(e.kind, ErrorKind::Authentication);
            assert!(config.get_auth(&config.secrets, &name).is_err());
        }
    }
}

#[test]
fn get_auth_prefers_token_over_basic() {
    let mut table = SecretsTable::new();
    table.upsert(
        "origin",
        gritty::secrets::AuthConfig {
            username: Some("user".to_string()),
            password: Some("pass".to_string()),
            token: Some("tok".to_string()),
        },
    );
    let config = test_config(Secrets::Plaintext(table));
    let auth = config.get_auth(&config.secrets, "origin").unwrap();
    assert_eq!(
        auth,
        Auth::Token {
            token: "tok".to_string()
        }
    );
}

#[test]
fn get_auth_basic_with_default_password() {
    let mut table = SecretsTable::new();
    table.upsert(
        "origin",
        gritty::secrets::AuthConfig {
            username: Some("user".to_string()),
            password: None,
            token: None,
        },
    );
    let config = test_config(Secrets::Plaintext(table));
    let auth = config.get_auth(&config.secrets, "origin").unwrap();
    assert_eq!(
        auth,
        Auth::Basic {
            username: "user".to_string(),
            password: "".to_string()
        }
    );
}

#[test]
fn get_auth_without_credentials_fails() {
    let mut table = SecretsTable::new();
    table.upsert(
        "origin",
        gritty::secrets::AuthConfig {
            username: None,
            password: None,
            token: None,
        },
    );
    let config = test_config(Secrets::Plaintext(table));
    let err = config.get_auth(&config.secrets, "origin").unwrap_err();
    assert_eq!(err.kind, ErrorKind::Authentication);
    assert_eq!(
        err.message,
        "Could not find auth for remote origin.\nDid you forget to add it to the config?\nYou need to set either a username/password combination, or an api token."
    );
}

#[test]
fn get_auth_missing_entry_fails() {
    let config = test_config(Secrets::Plaintext(SecretsTable::new()));
    let err = config.get_auth(&config.secrets, "origin").unwrap_err();
    assert_eq!(err.kind, ErrorKind::Authentication);
    assert_eq!(
        err.message,
        "Could not find auth for remote origin.\nDid you forget to add it to the config?"
    );
}

#[test]
fn get_auth_missing_secrets_file() {
    let config = test_config(Secrets::SecretsFile {
        file: "/tmp/none.toml".to_string(),
        entries: None,
    });
    let err = config.get_auth(&config.secrets, "origin").unwrap_err();
    assert_eq!(err.kind, ErrorKind::NotFound);
    assert_eq!(err.message, "Could not find secrets file /tmp/none.toml.");
}

#[test]
fn resolved_remote_config_scenario() {
    let mut table = SecretsTable::new();
    table.upsert(
        "origin",
        gritty::secrets::AuthConfig {
            username: None,
            password: None,
            token: Some("abc123".to_string()),
        },
    );
    let config = test_config(Secrets::Plaintext(table));
    let resolved = config.get_remote_config("origin").unwrap();
    assert_eq!(resolved.username, "alice");
    assert_eq!(resolved.clone_protocol, CloneProtocol::HTTPS);
    assert_eq!(resolved.url, "https://github.com");
    assert_eq!(
        resolved.auth,
        Auth::Token {
            token: "abc123".to_string()
        }
    );
}

#[test]
fn get_remote_config_unknown_remote() {
    let config = test_config(Secrets::Plaintext(SecretsTable::new()));
    let err = config.get_remote_config("upstream").unwrap_err();
    assert_eq!(err.kind, ErrorKind::NotFound);
    assert_eq!(err.message, "Could not find remote upstream");
}

#[test]
fn get_remote_provider_lookup() {
    let config = test_config(Secrets::Plaintext(SecretsTable::new()));
    assert_eq!(config.get_remote_provider("origin").unwrap(), Provider::GitHub);
    let err = config.get_remote_provider("upstream").unwrap_err();
    assert_eq!(err.kind, ErrorKind::NotFound);
    assert_eq!(err.message, "Could not find remote upstream");
}

#[test]
fn duplicate_remote_is_rejected_without_mutation() {
    let mut config = test_config(Secrets::Plaintext(SecretsTable::new()));
    let before = config.remotes.len();
    let err = config
        .add_remote(
            "origin",
            GitRemoteConfig {
                provider: Provider::GitLab,
                clone_protocol: CloneProtocol::SSH,
                url: "https://gitlab.com".to_string(),
                username: "bob".to_string(),
            },
        )
        .unwrap_err();
    assert_eq!(err.kind, ErrorKind::Other);
    assert_eq!(err.message, "A remote named origin already exists");
    assert_eq!(config.remotes.len(), before);
    // the registered remote is untouched
    assert_eq!(config.get_remote_provider("origin").unwrap(), Provider::GitHub);
    let kept = config.remotes.get("origin").unwrap();
    assert_eq!(kept.username, "alice");
    assert_eq!(kept.url, "https://github.com");
}

#[test]
fn add_new_remote_succeeds() {
    let mut config = test_config(Secrets::Plaintext(SecretsTable::new()));
    config
        .add_remote(
            "upstream",
            GitRemoteConfig {
                provider: Provider::Gitea,
                clone_protocol: CloneProtocol::SSH,
                url: "https://gitea.example.com".to_string(),
                username: "bob".to_string(),
            },
        )
        .unwrap();
    assert_eq!(config.remotes.len(), 2);
    assert_eq!(config.get_remote_provider("upstream").unwrap(), Provider::Gitea);
}

#[test]
fn store_token_unknown_remote_rejected() {
    let mut config = test_config(Secrets::Plaintext(SecretsTable::new()));
    let err = config.store_token("upstream", "tok").unwrap_err();
    assert_eq!(err.kind, ErrorKind::NotFound);
    assert_eq!(err.message, "Could not find remote upstream");
    // nothing was stored
    assert!(config.get_auth(&config.secrets, "upstream").is_err());
}

#[test]
fn config_path_resolution_cases() {
    let primary = "/home/u/.config/gritty/config.toml".to_string();
    let fallback = "/home/u/.gritty.toml".to_string();

    let explicit = resolve_config_path(
        Some("/etc/gritty.toml".to_string()),
        primary.clone(),
        fallback.clone(),
        false,
        false,
    )
    .unwrap();
    assert_eq!(explicit, "/etc/gritty.toml");

    let first = resolve_config_path(None, primary.clone(), fallback.clone(), true, true).unwrap();
    assert_eq!(first, primary);

    let second = resolve_config_path(None, primary.clone(), fallback.clone(), false, true).unwrap();
    assert_eq!(second, fallback);

    let err = resolve_config_path(None, primary.clone(), fallback.clone(), false, false)
        .unwrap_err();
    assert_eq!(err.kind, ErrorKind::NotFound);
    assert_eq!(
        err.message,
        "Could not find config at /home/u/.config/gritty/config.toml or /home/u/.gritty.toml."
    );
}

#[test]
fn home_path_expansion() {
    assert_eq!(expand_home_path("~/secrets.toml", "/home/u"), "/home/u/secrets.toml");
    assert_eq!(expand_home_path("/abs/path.toml", "/home/u"), "/abs/path.toml");
    assert_eq!(expand_home_path("", "/home/u"), "");
}

#[test]
fn default_config_shape() {
    let c = Config::save_default(&None, "/home/u/.config/gritty/config.toml");
    assert_eq!(c.path, "/home/u/.config/gritty/config.toml");
    assert_eq!(c.remotes.len(), 0);
    assert!(matches!(c.secrets, Secrets::Keyring));

    let c2 = Config::save_default(&Some("/etc/gritty.toml".to_string()), "/ignored");
    assert_eq!(c2.path, "/etc/gritty.toml");
}

#[test]
fn config_error_translation() {
    let cases = [
        (ConfigErrorKind::ConfigNotFound, ErrorKind::NotFound),
        (ConfigErrorKind::ConfigParseError, ErrorKind::Deserialization),
        (ConfigErrorKind::RemoteNotFound, ErrorKind::NotFound),
        (ConfigErrorKind::AuthNotFound, ErrorKind::Authentication),
        (ConfigErrorKind::SecretsFileNotFound, ErrorKind::NotFound),
        (ConfigErrorKind::KeyringError, ErrorKind::Authentication),
    ];
    for (kind, expected) in cases {
        let e = config_error_to_error(ConfigError {
            message: "m".to_string(),
            kind,
        });
        assert_eq!(e.kind, expected);
        assert_eq!(e.message, "m");
        assert_eq!(e.status, None);
    }
}

#[test]
fn store_token_replaces_existing_credentials() {
    let mut table = SecretsTable::new();
    table.upsert(
        "origin",
        gritty::secrets::AuthConfig {
            username: Some("user".to_string()),
            password: Some("pass".to_string()),
            token: None,
        },
    );
    let mut config = test_config(Secrets::Plaintext(table));
    config.store_token("origin", "fresh").unwrap();
    let auth = config.get_auth(&config.secrets, "origin").unwrap();
    assert_eq!(
        auth,
        Auth::Token {
            token: "fresh".to_string()
        }
    );
}

#[test]
fn secrets_file_with_loaded_entries_resolves() {
    let mut table = SecretsTable::new();
    table.upsert(
        "origin",
        gritty::secrets::AuthConfig {
            username: None,
            password: None,
            token: Some("filed".to_string()),
        },
    );
    let config = test_config(Secrets::SecretsFile {
        file: "/tmp/secrets.toml".to_string(),
        entries: Some(table),
    });
    let resolved = config.get_remote_config("origin").unwrap();
    assert_eq!(
        resolved.auth,
        Auth::Token {
            token: "filed".to_string()
        }
    );
}

#[test]
fn home_path_expansion_multiple() {
    assert_eq!(expand_home_path("~/a/~/b", "/h"), "/h/a//h/b");
}
