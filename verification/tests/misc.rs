use discli::cli::{Cli, Commands};
use discli::config::env::{Config, Environment};
use discli::error::DiscliError;
use discli::text;

fn environment(token: Option<&str>, channel: Option<&str>) -> Environment {
    Environment {
        discord_token: token.map(|v| v.to_string()),
        channel_id: channel.map(|v| v.to_string()),
        hook_enabled: None,
        hooks_file: None,
        prompts_dir: None,
        log_level: None,
    }
}

#[test]
fn test_cli_help() {
    let cli = Cli { command: None, legacy_message: vec![] };
    assert!(cli.command.is_none());
    assert!(cli.legacy_message.is_empty());
}

#[test]
fn cli_commands_hold_their_arguments() {
    let cli = Cli {
        command: Some(Commands::Listen {
            foreground: true,
            hooks_file: Some("h.yaml".to_string()),
            prompts_dir: None,
            verbose: false,
        }),
        legacy_message: vec!["old".to_string()],
    };
    assert!(matches!(
        cli.command,
        Some(Commands::Listen { foreground: true, hooks_file: Some(file), prompts_dir: None, verbose: false })
            if file == "h.yaml"
    ));
}

#[test]
fn test_error_display() {
    let err = DiscliError::Config("Test error".to_string());
    assert_eq!(err.message(), "Configuration error: Test error");
}

#[test]
fn test_error_from_io() {
    let io_err = std::io::Error::new(std::io::ErrorKind::NotFound, "File not found");
    let discli_err: DiscliError = io_err.into();
    assert!(matches!(discli_err, DiscliError::Io(_)));
}

#[test]
fn io_error_keeps_its_text() {
    let io_err = std::io::Error::new(std::io::ErrorKind::NotFound, "File not found");
    let discli_err: DiscliError = io_err.into();
    assert_eq!(discli_err.message(), "IO error: File not found");
}

#[test]
fn every_error_has_its_prefix() {
    let d = || "d".to_string();
    assert_eq!(DiscliError::Config(d()).message(), "Configuration error: d");
    assert_eq!(DiscliError::DiscordApi(d()).message(), "Discord API error: d");
    assert_eq!(DiscliError::Network(d()).message(), "Network error: d");
    assert_eq!(DiscliError::Io(d()).message(), "IO error: d");
    assert_eq!(DiscliError::Attachment(d()).message(), "Attachment error: d");
    assert_eq!(DiscliError::Validation(d()).message(), "Validation error: d");
    assert_eq!(DiscliError::Mime(d()).message(), "MIME type error: d");
    assert_eq!(DiscliError::Gateway(d()).message(), "Gateway error: d");
    assert_eq!(DiscliError::WebSocket(d()).message(), "WebSocket error: d");
    assert_eq!(DiscliError::Timeout(d()).message(), "Timeout error: d");
    assert_eq!(DiscliError::Process(d()).message(), "Process error: d");
    assert_eq!(DiscliError::Remote(d()).message(), "Remote error: d");
    assert_eq!(DiscliError::Config(String::new()).message(), "Configuration error: ");
}

#[test]
fn config_needs_token_and_channel() {
    match Config::load(environment(None, None)) {
        Err(DiscliError::Config(text)) => assert_eq!(text, "DISCORD_TOKEN not set"),
        other => panic!("expected a configuration error, got {:?}", other),
    }
    match Config::load(environment(None, Some("123"))) {
        Err(DiscliError::Config(text)) => assert_eq!(text, "DISCORD_TOKEN not set"),
        other => panic!("expected a configuration error, got {:?}", other),
    }
    match Config::load(environment(Some("test"), None)) {
        Err(DiscliError::Config(text)) => assert_eq!(text, "DISCORD_CHANNEL_ID not set"),
        other => panic!("expected a configuration error, got {:?}", other),
    }
}

#[test]
fn config_defaults() {
    let config = Config::load(environment(Some("test"), Some("123"))).unwrap();
    assert_eq!(config.discord_token, "test");
    assert_eq!(config.channel_id, "123");
    assert!(!config.hook_enabled);
    assert_eq!(config.hooks_file, "./hooks.yaml");
    assert_eq!(config.prompts_dir, "./prompts");
    assert_eq!(config.log_level, "info");
}

#[test]
fn config_from_set_variables() {
    for (value, expected) in [("true", true), ("1", true), ("TRUE", false), ("yes", false), ("0", false), ("", false), ("true ", false)] {
        let env = Environment {
            hook_enabled: Some(value.to_string()),
            hooks_file: Some("/etc/h.yaml".to_string()),
            prompts_dir: Some("/etc/p".to_string()),
            log_level: Some("debug".to_string()),
            ..environment(Some("t"), Some("c"))
        };
        let config = Config::load(env).unwrap();
        assert_eq!(config.hook_enabled, expected);
        assert_eq!(config.hooks_file, "/etc/h.yaml");
        assert_eq!(config.prompts_dir, "/etc/p");
        assert_eq!(config.log_level, "debug");
    }
}

#[test]
fn text_helpers() {
    assert_eq!(text::to_chars("héy"), vec!['h', 'é', 'y']);
    assert!(text::equal("abc", "abc"));
    assert!(!text::equal("abc", "abd"));
    assert!(!text::equal("abc", "ab"));
    assert!(text::equal("", ""));
    assert!(text::starts_with("hello", "he"));
    assert!(text::starts_with("hello", ""));
    assert!(!text::starts_with("he", "hello"));
    assert!(text::contains("hello", "ell"));
    assert!(text::contains("hello", "hello"));
    assert!(text::contains("hello", "o"));
    assert!(!text::contains("hello", "hello!"));
    assert!(!text::contains("", "a"));
    assert!(text::list_contains(&vec!["a".to_string(), "b".to_string()], "b"));
    assert!(!text::list_contains(&vec!["a".to_string(), "b".to_string()], "c"));
    assert!(!text::list_contains(&vec![], ""));
    assert!(text::chars_occur_at(&vec!['a', 'b', 'c'], 1, &vec!['b', 'c']));
    assert!(!text::chars_occur_at(&vec!['a', 'b', 'c'], 2, &vec!['b', 'c']));
    assert!(text::chars_occur_at(&vec!['a'], 1, &vec![]));
    assert!(!text::chars_occur_at(&vec!['a'], 2, &vec![]));
    assert_eq!(text::clone_list(&vec!["x".to_string(), "".to_string()]), vec!["x".to_string(), "".to_string()]);
}

#[test]
fn decimal_numerals() {
    assert_eq!(text::decimal_string(0), "0");
    assert_eq!(text::decimal_string(7), "7");
    assert_eq!(text::decimal_string(10), "10");
    assert_eq!(text::decimal_string(1234567890), "1234567890");
    assert_eq!(text::decimal_string(u64::MAX), "18446744073709551615");
}

#[test]
fn joined_lists() {
    assert_eq!(text::join(&vec![], ", "), "");
    assert_eq!(text::join(&vec!["a".to_string()], ", "), "a");
    assert_eq!(text::join(&vec!["a".to_string(), "b".to_string(), "".to_string()], ", "), "a, b, ");
    assert_eq!(text::join(&vec!["a".to_string(), "b".to_string()], ""), "ab");
}
