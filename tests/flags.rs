use agent_browser::config::Config;
use agent_browser::flags::{clean_args, extract_config_path, EnvSnapshot, Flags};

fn parse_flags(a: &[String]) -> Flags {
    agent_browser::flags::parse_flags(&a.to_vec(), &EnvSnapshot::default(), Config::default())
}

fn args(s: &str) -> Vec<String> {
    s.split_whitespace().map(String::from).collect()
}

#[test]
fn test_parse_headers_flag() {
    let flags = parse_flags(&args(r#"open example.com --headers {"Auth":"token"}"#));
    assert_eq!(flags.headers, Some(r#"{"Auth":"token"}"#.to_string()));
}

#[test]
fn test_parse_headers_flag_with_spaces() {
    // Headers JSON is passed as a single quoted argument in shell
    let input: Vec<String> = vec![
        "open".to_string(),
        "example.com".to_string(),
        "--headers".to_string(),
        r#"{"Authorization": "Bearer token"}"#.to_string(),
    ];
    let flags = parse_flags(&input);
    assert_eq!(
        flags.headers,
        Some(r#"{"Authorization": "Bearer token"}"#.to_string())
    );
}

#[test]
fn test_parse_no_headers_flag() {
    let flags = parse_flags(&args("open example.com"));
    assert!(flags.headers.is_none());
}

#[test]
fn test_clean_args_removes_headers() {
    let input: Vec<String> = vec![
        "open".to_string(),
        "example.com".to_string(),
        "--headers".to_string(),
        r#"{"Auth":"token"}"#.to_string(),
    ];
    let clean = clean_args(&input);
    assert_eq!(clean, vec!["open", "example.com"]);
}

#[test]
fn test_clean_args_removes_headers_at_start() {
    let input: Vec<String> = vec![
        "--headers".to_string(),
        r#"{"Auth":"token"}"#.to_string(),
        "open".to_string(),
        "example.com".to_string(),
    ];
    let clean = clean_args(&input);
    assert_eq!(clean, vec!["open", "example.com"]);
}

#[test]
fn test_headers_with_other_flags() {
    let input: Vec<String> = vec![
        "open".to_string(),
        "example.com".to_string(),
        "--headers".to_string(),
        r#"{"Auth":"token"}"#.to_string(),
        "--json".to_string(),
        "--headed".to_string(),
    ];
    let flags = parse_flags(&input);
    assert_eq!(flags.headers, Some(r#"{"Auth":"token"}"#.to_string()));
    assert!(flags.json);
    assert!(flags.headed);

    let clean = clean_args(&input);
    assert_eq!(clean, vec!["open", "example.com"]);
}

#[test]
fn test_parse_executable_path_flag() {
    let flags = parse_flags(&args(
        "--executable-path /path/to/chromium open example.com",
    ));
    assert_eq!(flags.executable_path, Some("/path/to/chromium".to_string()));
}

#[test]
fn test_parse_executable_path_flag_no_value() {
    let flags = parse_flags(&args("--executable-path"));
    assert_eq!(flags.executable_path, None);
}

#[test]
fn test_clean_args_removes_executable_path() {
    let cleaned = clean_args(&args(
        "--executable-path /path/to/chromium open example.com",
    ));
    assert_eq!(cleaned, vec!["open", "example.com"]);
}

#[test]
fn test_clean_args_removes_executable_path_with_other_flags() {
    let cleaned = clean_args(&args(
        "--json --executable-path /path/to/chromium --headed open example.com",
    ));
    assert_eq!(cleaned, vec!["open", "example.com"]);
}

#[test]
fn test_parse_flags_with_session_and_executable_path() {
    let flags = parse_flags(&args(
        "--session test --executable-path /custom/chrome open example.com",
    ));
    assert_eq!(flags.session, "test");
    assert_eq!(flags.executable_path, Some("/custom/chrome".to_string()));
}

#[test]
fn test_cli_executable_path_tracking() {
    // When --executable-path is passed via CLI, cli_executable_path should be true
    let flags = parse_flags(&args("--executable-path /path/to/chrome snapshot"));
    assert!(flags.cli_executable_path);
    assert_eq!(flags.executable_path, Some("/path/to/chrome".to_string()));
}

#[test]
fn test_cli_executable_path_not_set_without_flag() {
    // When no --executable-path is passed, cli_executable_path should be false
    // (even if env var sets executable_path to Some value, which we can't test here)
    let flags = parse_flags(&args("snapshot"));
    assert!(!flags.cli_executable_path);
}

#[test]
fn test_cli_extension_tracking() {
    let flags = parse_flags(&args("--extension /path/to/ext snapshot"));
    assert!(flags.cli_extensions);
}

#[test]
fn test_cli_profile_tracking() {
    let flags = parse_flags(&args("--profile /path/to/profile snapshot"));
    assert!(flags.cli_profile);
}

#[test]
fn test_cli_annotate_tracking() {
    let flags = parse_flags(&args("--annotate screenshot"));
    assert!(flags.cli_annotate);
    assert!(flags.annotate);
}

#[test]
fn test_cli_annotate_not_set_without_flag() {
    let flags = parse_flags(&args("screenshot"));
    assert!(!flags.cli_annotate);
}

#[test]
fn test_cli_multiple_flags_tracking() {
    let flags = parse_flags(&args(
        "--executable-path /chrome --profile /profile --proxy http://proxy snapshot",
    ));
    assert!(flags.cli_executable_path);
    assert!(flags.cli_profile);
    assert!(flags.cli_proxy);
    assert!(!flags.cli_extensions);
    assert!(!flags.cli_state);
}

#[test]
fn test_config_merge_project_overrides_user() {
    let user = Config {
        headed: Some(true),
        proxy: Some("http://user-proxy:8080".to_string()),
        profile: Some("/user/profile".to_string()),
        ..Config::default()
    };
    let project = Config {
        proxy: Some("http://project-proxy:9090".to_string()),
        debug: Some(true),
        ..Config::default()
    };
    let merged = user.merge(project);
    assert_eq!(merged.headed, Some(true)); // kept from user
    assert_eq!(merged.proxy.as_deref(), Some("http://project-proxy:9090")); // overridden by project
    assert_eq!(merged.profile.as_deref(), Some("/user/profile")); // kept from user
    assert_eq!(merged.debug, Some(true)); // added by project
}

#[test]
fn test_config_merge_none_does_not_override() {
    let user = Config {
        headed: Some(true),
        proxy: Some("http://proxy:8080".to_string()),
        ..Config::default()
    };
    let project = Config::default();
    let merged = user.merge(project);
    assert_eq!(merged.headed, Some(true));
    assert_eq!(merged.proxy.as_deref(), Some("http://proxy:8080"));
}

#[test]
fn test_extract_config_path() {
    assert_eq!(
        extract_config_path(&args("--config ./my-config.json open example.com")),
        Some(Some("./my-config.json".to_string()))
    );
}

#[test]
fn test_extract_config_path_missing() {
    assert_eq!(extract_config_path(&args("open example.com")), None);
}

#[test]
fn test_extract_config_path_no_value() {
    assert_eq!(extract_config_path(&args("--config")), Some(None));
}

#[test]
fn test_extract_config_path_skips_flag_values() {
    assert_eq!(extract_config_path(&args("--args --config open")), None);
}

#[test]
fn test_clean_args_removes_config() {
    let cleaned = clean_args(&args("--config ./config.json open example.com"));
    assert_eq!(cleaned, vec!["open", "example.com"]);
}

#[test]
fn test_headed_false() {
    let flags = parse_flags(&args("--headed false open example.com"));
    assert!(!flags.headed);
}

#[test]
fn test_headed_true_explicit() {
    let flags = parse_flags(&args("--headed true open example.com"));
    assert!(flags.headed);
}

#[test]
fn test_headed_bare_defaults_true() {
    let flags = parse_flags(&args("--headed open example.com"));
    assert!(flags.headed);
}

#[test]
fn test_debug_false() {
    let flags = parse_flags(&args("--debug false open example.com"));
    assert!(!flags.debug);
}

#[test]
fn test_json_false() {
    let flags = parse_flags(&args("--json false open example.com"));
    assert!(!flags.json);
}

#[test]
fn test_ignore_https_errors_false() {
    let flags = parse_flags(&args("--ignore-https-errors false open"));
    assert!(!flags.ignore_https_errors);
}

#[test]
fn test_allow_file_access_false() {
    let flags = parse_flags(&args("--allow-file-access false open"));
    assert!(!flags.allow_file_access);
    assert!(flags.cli_allow_file_access);
}

#[test]
fn test_auto_connect_false() {
    let flags = parse_flags(&args("--auto-connect false open"));
    assert!(!flags.auto_connect);
}

#[test]
fn test_full_bare_defaults_true() {
    let flags = parse_flags(&args("--full open example.com"));
    assert!(flags.full);
}

#[test]
fn test_full_false() {
    let flags = parse_flags(&args("--full false open example.com"));
    assert!(!flags.full);
}

#[test]
fn test_full_short_flag() {
    let flags = parse_flags(&args("-f open example.com"));
    assert!(flags.full);
}

#[test]
fn test_clean_args_removes_full_with_value() {
    let cleaned = clean_args(&args("--full false open example.com"));
    assert_eq!(cleaned, vec!["open", "example.com"]);
}

#[test]
fn test_clean_args_removes_short_full() {
    let cleaned = clean_args(&args("-f open example.com"));
    assert_eq!(cleaned, vec!["open", "example.com"]);
}

#[test]
fn test_clean_args_removes_bool_flag_with_value() {
    let cleaned = clean_args(&args("--headed false --debug true open example.com"));
    assert_eq!(cleaned, vec!["open", "example.com"]);
}

#[test]
fn test_clean_args_removes_bare_bool_flag() {
    let cleaned = clean_args(&args("--headed --debug open example.com"));
    assert_eq!(cleaned, vec!["open", "example.com"]);
}

#[test]
fn test_config_merge_extensions_concatenated() {
    let user = Config {
        extensions: Some(vec!["/ext1".to_string()]),
        ..Config::default()
    };
    let project = Config {
        extensions: Some(vec!["/ext2".to_string(), "/ext3".to_string()]),
        ..Config::default()
    };
    let merged = user.merge(project);
    assert_eq!(
        merged.extensions,
        Some(vec!["/ext1".to_string(), "/ext2".to_string(), "/ext3".to_string()])
    );
}

#[test]
fn test_config_merge_extensions_user_only() {
    let user = Config {
        extensions: Some(vec!["/ext1".to_string()]),
        ..Config::default()
    };
    let project = Config::default();
    let merged = user.merge(project);
    assert_eq!(merged.extensions, Some(vec!["/ext1".to_string()]));
}

#[test]
fn test_config_merge_extensions_project_only() {
    let user = Config::default();
    let project = Config {
        extensions: Some(vec!["/ext2".to_string()]),
        ..Config::default()
    };
    let merged = user.merge(project);
    assert_eq!(merged.extensions, Some(vec!["/ext2".to_string()]));
}
