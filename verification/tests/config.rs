use fxabot::config::{Config, Github, Inner, Server};

fn full() -> Config {
    Config::new(Inner {
        github: Some(Github {
            username: "bot".to_string(),
            authorized: vec!["alice".to_string(), "bob".to_string()],
            api: Some("https://example.test/api/v3".to_string()),
            token: Some("s3cr3t-t0ken".to_string()),
            webhook_secret: Some("hush".to_string()),
        }),
        server: Server { host: "0.0.0.0".to_string(), port: Some(3000) },
    })
}

fn bare() -> Config {
    Config::new(Inner {
        github: None,
        server: Server { host: "127.0.0.1".to_string(), port: None },
    })
}

#[test]
fn configured_values_are_handed_out() {
    let config = full();
    assert_eq!(config.server_host(), "0.0.0.0");
    assert_eq!(config.server_port(), 3000);
    assert_eq!(config.github_name(), "bot");
    assert_eq!(config.github_authorized(), ["alice".to_string(), "bob".to_string()]);
    assert_eq!(config.github_api(), "https://example.test/api/v3");
    assert_eq!(config.github_token(), Some("s3cr3t-t0ken"));
    assert_eq!(config.github_webhook_secret(), Some("hush"));
}

#[test]
fn missing_values_have_their_defaults() {
    let config = bare();
    assert_eq!(config.server_host(), "127.0.0.1");
    assert_eq!(config.server_port(), 0);
    assert_eq!(config.github_name(), "");
    assert!(config.github_authorized().is_empty());
    assert_eq!(config.github_api(), "https://api.github.com");
    assert_eq!(config.github_token(), None);
    assert_eq!(config.github_webhook_secret(), None);
}

#[test]
fn api_defaults_when_only_the_bot_is_named() {
    let config = Config::new(Inner {
        github: Some(Github {
            username: "bot".to_string(),
            authorized: vec![],
            api: None,
            token: None,
            webhook_secret: None,
        }),
        server: Server { host: "127.0.0.1".to_string(), port: Some(0) },
    });
    assert_eq!(config.github_api(), "https://api.github.com");
    assert_eq!(config.github_token(), None);
    assert_eq!(config.github_webhook_secret(), None);
    assert_eq!(config.server_port(), 0);
}

#[test]
fn clones_share_the_configuration() {
    let config = full();
    let other = config.clone();
    assert_eq!(other.github_name(), config.github_name());
    assert_eq!(other.github_api(), config.github_api());
}
