use agent_browser::envelope::{Envelope, Scalar, Value as Field};
use agent_browser::error::ParseError;
use agent_browser::flags::Flags;
use serde_json::{Number, Value};

fn scalar_json(s: &Scalar) -> Value {
    match s {
        Scalar::Bool(b) => Value::Bool(*b),
        Scalar::Int(i) => Value::Number(Number::from(*i)),
        Scalar::Text(t) => Value::String(t.clone()),
    }
}

fn field_json(v: &Field) -> Value {
    match v {
        Field::Null => Value::Null,
        Field::Bool(b) => Value::Bool(*b),
        Field::Int(i) => {
            if let Ok(n) = i64::try_from(*i) {
                Value::Number(Number::from(n))
            } else {
                Value::Number(Number::from(u64::try_from(*i).unwrap()))
            }
        }
        Field::Decimal(t) => {
            let x: f64 = t.parse().unwrap();
            Value::Number(Number::from_f64(x).unwrap())
        }
        Field::Text(t) => Value::String(t.clone()),
        Field::TextList(ts) => Value::Array(ts.iter().map(|t| Value::String(t.clone())).collect()),
        Field::Json(t) => serde_json::from_str(t).unwrap(),
        Field::Records(rs) => Value::Array(
            rs.iter()
                .map(|r| {
                    let mut o = serde_json::Map::new();
                    for e in r {
                        o.insert(e.key.clone(), scalar_json(&e.value));
                    }
                    Value::Object(o)
                })
                .collect(),
        ),
    }
}

fn to_json(e: &Envelope) -> Value {
    let mut o = serde_json::Map::new();
    o.insert("id".to_string(), Value::String(e.id.clone()));
    o.insert("action".to_string(), Value::String(e.action.clone()));
    for f in &e.fields {
        o.insert(f.key.clone(), field_json(&f.value));
    }
    Value::Object(o)
}

fn parse_command(a: &[String], flags: &Flags) -> Result<Value, ParseError> {
    agent_browser::compile::parse_command(&a.to_vec(), flags).map(|e| to_json(&e))
}

fn default_flags() -> Flags {
    Flags {
        session: "test".to_string(),
        json: false,
        full: false,
        headed: false,
        debug: false,
        headers: None,
        executable_path: None,
        extensions: Vec::new(),
        cdp: None,
        profile: None,
        state: None,
        proxy: None,
        proxy_bypass: None,
        args: None,
        user_agent: None,
        provider: None,
        ignore_https_errors: false,
        allow_file_access: false,
        device: None,
        auto_connect: false,
        session_name: None,
        cli_executable_path: false,
        cli_extensions: false,
        cli_profile: false,
        cli_state: false,
        cli_args: false,
        cli_user_agent: false,
        cli_proxy: false,
        cli_proxy_bypass: false,
        cli_allow_file_access: false,
        cli_annotate: false,
        annotate: false,
        color_scheme: None,
    }
}

fn args(s: &str) -> Vec<String> {
    s.split_whitespace().map(String::from).collect()
}

#[test]
fn test_cookies_get() {
    let cmd = parse_command(&args("cookies"), &default_flags()).unwrap();
    assert_eq!(cmd["action"], "cookies_get");
}

#[test]
fn test_cookies_get_explicit() {
    let cmd = parse_command(&args("cookies get"), &default_flags()).unwrap();
    assert_eq!(cmd["action"], "cookies_get");
}

#[test]
fn test_cookies_set() {
    let cmd = parse_command(&args("cookies set mycookie myvalue"), &default_flags()).unwrap();
    assert_eq!(cmd["action"], "cookies_set");
    assert_eq!(cmd["cookies"][0]["name"], "mycookie");
    assert_eq!(cmd["cookies"][0]["value"], "myvalue");
}

#[test]
fn test_cookies_set_missing_value() {
    let result = parse_command(&args("cookies set mycookie"), &default_flags());
    assert!(result.is_err());
}

#[test]
fn test_cookies_clear() {
    let cmd = parse_command(&args("cookies clear"), &default_flags()).unwrap();
    assert_eq!(cmd["action"], "cookies_clear");
}

#[test]
fn test_cookies_set_with_url() {
    let cmd = parse_command(
        &args("cookies set mycookie myvalue --url https://example.com"),
        &default_flags(),
    )
    .unwrap();
    assert_eq!(cmd["action"], "cookies_set");
    assert_eq!(cmd["cookies"][0]["name"], "mycookie");
    assert_eq!(cmd["cookies"][0]["value"], "myvalue");
    assert_eq!(cmd["cookies"][0]["url"], "https://example.com");
}

#[test]
fn test_cookies_set_with_domain() {
    let cmd = parse_command(
        &args("cookies set mycookie myvalue --domain example.com"),
        &default_flags(),
    )
    .unwrap();
    assert_eq!(cmd["action"], "cookies_set");
    assert_eq!(cmd["cookies"][0]["name"], "mycookie");
    assert_eq!(cmd["cookies"][0]["value"], "myvalue");
    assert_eq!(cmd["cookies"][0]["domain"], "example.com");
}

#[test]
fn test_cookies_set_with_path() {
    let cmd = parse_command(
        &args("cookies set mycookie myvalue --path /api"),
        &default_flags(),
    )
    .unwrap();
    assert_eq!(cmd["action"], "cookies_set");
    assert_eq!(cmd["cookies"][0]["name"], "mycookie");
    assert_eq!(cmd["cookies"][0]["value"], "myvalue");
    assert_eq!(cmd["cookies"][0]["path"], "/api");
}

#[test]
fn test_cookies_set_with_httponly() {
    let cmd = parse_command(
        &args("cookies set mycookie myvalue --httpOnly"),
        &default_flags(),
    )
    .unwrap();
    assert_eq!(cmd["action"], "cookies_set");
    assert_eq!(cmd["cookies"][0]["name"], "mycookie");
    assert_eq!(cmd["cookies"][0]["value"], "myvalue");
    assert_eq!(cmd["cookies"][0]["httpOnly"], true);
}

#[test]
fn test_cookies_set_with_secure() {
    let cmd = parse_command(
        &args("cookies set mycookie myvalue --secure"),
        &default_flags(),
    )
    .unwrap();
    assert_eq!(cmd["action"], "cookies_set");
    assert_eq!(cmd["cookies"][0]["name"], "mycookie");
    assert_eq!(cmd["cookies"][0]["value"], "myvalue");
    assert_eq!(cmd["cookies"][0]["secure"], true);
}

#[test]
fn test_cookies_set_with_samesite() {
    let cmd = parse_command(
        &args("cookies set mycookie myvalue --sameSite Strict"),
        &default_flags(),
    )
    .unwrap();
    assert_eq!(cmd["action"], "cookies_set");
    assert_eq!(cmd["cookies"][0]["name"], "mycookie");
    assert_eq!(cmd["cookies"][0]["value"], "myvalue");
    assert_eq!(cmd["cookies"][0]["sameSite"], "Strict");
}

#[test]
fn test_cookies_set_with_expires() {
    let cmd = parse_command(
        &args("cookies set mycookie myvalue --expires 1234567890"),
        &default_flags(),
    )
    .unwrap();
    assert_eq!(cmd["action"], "cookies_set");
    assert_eq!(cmd["cookies"][0]["name"], "mycookie");
    assert_eq!(cmd["cookies"][0]["value"], "myvalue");
    assert_eq!(cmd["cookies"][0]["expires"], 1234567890);
}

#[test]
fn test_cookies_set_with_multiple_flags() {
    let cmd = parse_command(&args("cookies set mycookie myvalue --url https://example.com --httpOnly --secure --sameSite Lax"), &default_flags()).unwrap();
    assert_eq!(cmd["action"], "cookies_set");
    assert_eq!(cmd["cookies"][0]["name"], "mycookie");
    assert_eq!(cmd["cookies"][0]["value"], "myvalue");
    assert_eq!(cmd["cookies"][0]["url"], "https://example.com");
    assert_eq!(cmd["cookies"][0]["httpOnly"], true);
    assert_eq!(cmd["cookies"][0]["secure"], true);
    assert_eq!(cmd["cookies"][0]["sameSite"], "Lax");
}

#[test]
fn test_cookies_set_with_all_flags() {
    let cmd = parse_command(&args("cookies set mycookie myvalue --url https://example.com --domain example.com --path /api --httpOnly --secure --sameSite None --expires 9999999999"), &default_flags()).unwrap();
    assert_eq!(cmd["action"], "cookies_set");
    assert_eq!(cmd["cookies"][0]["name"], "mycookie");
    assert_eq!(cmd["cookies"][0]["value"], "myvalue");
    assert_eq!(cmd["cookies"][0]["url"], "https://example.com");
    assert_eq!(cmd["cookies"][0]["domain"], "example.com");
    assert_eq!(cmd["cookies"][0]["path"], "/api");
    assert_eq!(cmd["cookies"][0]["httpOnly"], true);
    assert_eq!(cmd["cookies"][0]["secure"], true);
    assert_eq!(cmd["cookies"][0]["sameSite"], "None");
    assert_eq!(cmd["cookies"][0]["expires"], 9999999999i64);
}

#[test]
fn test_cookies_set_invalid_samesite() {
    let result = parse_command(
        &args("cookies set mycookie myvalue --sameSite Invalid"),
        &default_flags(),
    );
    assert!(result.is_err());
}

#[test]
fn test_storage_local_get() {
    let cmd = parse_command(&args("storage local"), &default_flags()).unwrap();
    assert_eq!(cmd["action"], "storage_get");
    assert_eq!(cmd["type"], "local");
    assert!(cmd.get("key").is_none());
}

#[test]
fn test_storage_local_get_key() {
    let cmd = parse_command(&args("storage local get mykey"), &default_flags()).unwrap();
    assert_eq!(cmd["action"], "storage_get");
    assert_eq!(cmd["type"], "local");
    assert_eq!(cmd["key"], "mykey");
}

#[test]
fn test_storage_session_get() {
    let cmd = parse_command(&args("storage session"), &default_flags()).unwrap();
    assert_eq!(cmd["action"], "storage_get");
    assert_eq!(cmd["type"], "session");
}

#[test]
fn test_storage_local_set() {
    let cmd =
        parse_command(&args("storage local set mykey myvalue"), &default_flags()).unwrap();
    assert_eq!(cmd["action"], "storage_set");
    assert_eq!(cmd["type"], "local");
    assert_eq!(cmd["key"], "mykey");
    assert_eq!(cmd["value"], "myvalue");
}

#[test]
fn test_storage_session_set() {
    let cmd =
        parse_command(&args("storage session set skey svalue"), &default_flags()).unwrap();
    assert_eq!(cmd["action"], "storage_set");
    assert_eq!(cmd["type"], "session");
    assert_eq!(cmd["key"], "skey");
    assert_eq!(cmd["value"], "svalue");
}

#[test]
fn test_storage_set_missing_value() {
    let result = parse_command(&args("storage local set mykey"), &default_flags());
    assert!(result.is_err());
}

#[test]
fn test_storage_local_clear() {
    let cmd = parse_command(&args("storage local clear"), &default_flags()).unwrap();
    assert_eq!(cmd["action"], "storage_clear");
    assert_eq!(cmd["type"], "local");
}

#[test]
fn test_storage_session_clear() {
    let cmd = parse_command(&args("storage session clear"), &default_flags()).unwrap();
    assert_eq!(cmd["action"], "storage_clear");
    assert_eq!(cmd["type"], "session");
}

#[test]
fn test_storage_invalid_type() {
    let result = parse_command(&args("storage invalid"), &default_flags());
    assert!(result.is_err());
}

#[test]
fn test_navigate_with_https() {
    let cmd = parse_command(&args("open https://example.com"), &default_flags()).unwrap();
    assert_eq!(cmd["action"], "navigate");
    assert_eq!(cmd["url"], "https://example.com");
}

#[test]
fn test_navigate_without_protocol() {
    let cmd = parse_command(&args("open example.com"), &default_flags()).unwrap();
    assert_eq!(cmd["action"], "navigate");
    assert_eq!(cmd["url"], "https://example.com");
}

#[test]
fn test_navigate_with_headers() {
    let mut flags = default_flags();
    flags.headers = Some(r#"{"Authorization": "Bearer token"}"#.to_string());
    let cmd = parse_command(&args("open api.example.com"), &flags).unwrap();
    assert_eq!(cmd["action"], "navigate");
    assert_eq!(cmd["url"], "https://api.example.com");
    assert_eq!(cmd["headers"]["Authorization"], "Bearer token");
}

#[test]
fn test_navigate_with_multiple_headers() {
    let mut flags = default_flags();
    flags.headers =
        Some(r#"{"Authorization": "Bearer token", "X-Custom": "value"}"#.to_string());
    let cmd = parse_command(&args("open api.example.com"), &flags).unwrap();
    assert_eq!(cmd["headers"]["Authorization"], "Bearer token");
    assert_eq!(cmd["headers"]["X-Custom"], "value");
}

#[test]
fn test_navigate_without_headers_flag() {
    let cmd = parse_command(&args("open example.com"), &default_flags()).unwrap();
    assert_eq!(cmd["action"], "navigate");
    // headers should not be present when flag is not set
    assert!(cmd.get("headers").is_none());
}

#[test]
fn test_navigate_with_invalid_headers_json() {
    let mut flags = default_flags();
    flags.headers = Some("not valid json".to_string());
    let result = parse_command(&args("open api.example.com"), &flags);
    // Invalid JSON should return a ParseError, not silently drop headers
    assert!(result.is_err());
    let err = result.unwrap_err();
    let msg = err.format();
    assert!(msg.contains("Invalid JSON for --headers"));
}

#[test]
fn test_set_headers_parses_json() {
    let input: Vec<String> = vec![
        "set".to_string(),
        "headers".to_string(),
        r#"{"Authorization":"Bearer token"}"#.to_string(),
    ];
    let cmd = parse_command(&input, &default_flags()).unwrap();
    assert_eq!(cmd["action"], "headers");
    // Headers should be an object, not a string
    assert!(cmd["headers"].is_object());
    assert_eq!(cmd["headers"]["Authorization"], "Bearer token");
}

#[test]
fn test_set_headers_with_multiple_values() {
    let input: Vec<String> = vec![
        "set".to_string(),
        "headers".to_string(),
        r#"{"Authorization": "Bearer token", "X-Custom": "value"}"#.to_string(),
    ];
    let cmd = parse_command(&input, &default_flags()).unwrap();
    assert_eq!(cmd["headers"]["Authorization"], "Bearer token");
    assert_eq!(cmd["headers"]["X-Custom"], "value");
}

#[test]
fn test_set_headers_invalid_json_error() {
    let input: Vec<String> = vec![
        "set".to_string(),
        "headers".to_string(),
        "not-valid-json".to_string(),
    ];
    let result = parse_command(&input, &default_flags());
    assert!(result.is_err());
}

#[test]
fn test_back() {
    let cmd = parse_command(&args("back"), &default_flags()).unwrap();
    assert_eq!(cmd["action"], "back");
}

#[test]
fn test_forward() {
    let cmd = parse_command(&args("forward"), &default_flags()).unwrap();
    assert_eq!(cmd["action"], "forward");
}

#[test]
fn test_reload() {
    let cmd = parse_command(&args("reload"), &default_flags()).unwrap();
    assert_eq!(cmd["action"], "reload");
}

#[test]
fn test_click() {
    let cmd = parse_command(&args("click #button"), &default_flags()).unwrap();
    assert_eq!(cmd["action"], "click");
    assert_eq!(cmd["selector"], "#button");
}

#[test]
fn test_fill() {
    let cmd = parse_command(&args("fill #input hello world"), &default_flags()).unwrap();
    assert_eq!(cmd["action"], "fill");
    assert_eq!(cmd["selector"], "#input");
    assert_eq!(cmd["value"], "hello world");
}

#[test]
fn test_type_command() {
    let cmd = parse_command(&args("type #input some text"), &default_flags()).unwrap();
    assert_eq!(cmd["action"], "type");
    assert_eq!(cmd["selector"], "#input");
    assert_eq!(cmd["text"], "some text");
}

#[test]
fn test_select() {
    let cmd = parse_command(&args("select #menu option1"), &default_flags()).unwrap();
    assert_eq!(cmd["action"], "select");
    assert_eq!(cmd["selector"], "#menu");
    assert_eq!(cmd["values"], "option1");
}

#[test]
fn test_select_multiple_values() {
    let cmd = parse_command(&args("select #menu opt1 opt2 opt3"), &default_flags()).unwrap();
    assert_eq!(cmd["action"], "select");
    assert_eq!(cmd["selector"], "#menu");
    assert_eq!(cmd["values"], Value::Array(vec![Value::from("opt1"), Value::from("opt2"), Value::from("opt3")]));
}

#[test]
fn test_frame_main() {
    let cmd = parse_command(&args("frame main"), &default_flags()).unwrap();
    assert_eq!(cmd["action"], "mainframe");
}

#[test]
fn test_tab_new() {
    let cmd = parse_command(&args("tab new"), &default_flags()).unwrap();
    assert_eq!(cmd["action"], "tab_new");
    assert!(
        cmd.get("url").is_none(),
        "url should not be present when not provided"
    );
}

#[test]
fn test_tab_new_with_url() {
    let cmd = parse_command(&args("tab new https://example.com"), &default_flags()).unwrap();
    assert_eq!(cmd["action"], "tab_new");
    assert_eq!(cmd["url"], "https://example.com");
}

#[test]
fn test_tab_list() {
    let cmd = parse_command(&args("tab list"), &default_flags()).unwrap();
    assert_eq!(cmd["action"], "tab_list");
}

#[test]
fn test_tab_switch() {
    let cmd = parse_command(&args("tab 2"), &default_flags()).unwrap();
    assert_eq!(cmd["action"], "tab_switch");
    assert_eq!(cmd["index"], 2);
}

#[test]
fn test_tab_close() {
    let cmd = parse_command(&args("tab close"), &default_flags()).unwrap();
    assert_eq!(cmd["action"], "tab_close");
}

#[test]
fn test_screenshot() {
    let cmd = parse_command(&args("screenshot"), &default_flags()).unwrap();
    assert_eq!(cmd["action"], "screenshot");
    assert_eq!(cmd["path"], serde_json::Value::Null);
    assert_eq!(cmd["selector"], serde_json::Value::Null);
}

#[test]
fn test_screenshot_path() {
    let cmd = parse_command(&args("screenshot out.png"), &default_flags()).unwrap();
    assert_eq!(cmd["action"], "screenshot");
    assert_eq!(cmd["path"], "out.png");
}

#[test]
fn test_screenshot_full_page() {
    let mut flags = default_flags();
    flags.full = true;
    let cmd = parse_command(&args("screenshot"), &flags).unwrap();
    assert_eq!(cmd["action"], "screenshot");
    assert_eq!(cmd["fullPage"], true);
}

#[test]
fn test_screenshot_with_ref() {
    let cmd = parse_command(&args("screenshot @e1"), &default_flags()).unwrap();
    assert_eq!(cmd["action"], "screenshot");
    assert_eq!(cmd["selector"], "@e1");
    assert_eq!(cmd["path"], serde_json::Value::Null);
}

#[test]
fn test_screenshot_with_css_class() {
    let cmd = parse_command(&args("screenshot .my-button"), &default_flags()).unwrap();
    assert_eq!(cmd["action"], "screenshot");
    assert_eq!(cmd["selector"], ".my-button");
    assert_eq!(cmd["path"], serde_json::Value::Null);
}

#[test]
fn test_screenshot_with_css_id() {
    let cmd = parse_command(&args("screenshot #header"), &default_flags()).unwrap();
    assert_eq!(cmd["action"], "screenshot");
    assert_eq!(cmd["selector"], "#header");
    assert_eq!(cmd["path"], serde_json::Value::Null);
}

#[test]
fn test_screenshot_with_path() {
    let cmd = parse_command(&args("screenshot ./output.png"), &default_flags()).unwrap();
    assert_eq!(cmd["action"], "screenshot");
    assert_eq!(cmd["selector"], serde_json::Value::Null);
    assert_eq!(cmd["path"], "./output.png");
}

#[test]
fn test_screenshot_with_selector_and_path() {
    let cmd = parse_command(&args("screenshot .btn ./button.png"), &default_flags()).unwrap();
    assert_eq!(cmd["action"], "screenshot");
    assert_eq!(cmd["selector"], ".btn");
    assert_eq!(cmd["path"], "./button.png");
}

#[test]
fn test_snapshot() {
    let cmd = parse_command(&args("snapshot"), &default_flags()).unwrap();
    assert_eq!(cmd["action"], "snapshot");
}

#[test]
fn test_snapshot_interactive() {
    let cmd = parse_command(&args("snapshot -i"), &default_flags()).unwrap();
    assert_eq!(cmd["action"], "snapshot");
    assert_eq!(cmd["interactive"], true);
}

#[test]
fn test_snapshot_cursor() {
    let cmd = parse_command(&args("snapshot -C"), &default_flags()).unwrap();
    assert_eq!(cmd["action"], "snapshot");
    assert_eq!(cmd["cursor"], true);
}

#[test]
fn test_snapshot_interactive_cursor() {
    let cmd = parse_command(&args("snapshot -i -C"), &default_flags()).unwrap();
    assert_eq!(cmd["action"], "snapshot");
    assert_eq!(cmd["interactive"], true);
    assert_eq!(cmd["cursor"], true);
}

#[test]
fn test_snapshot_compact() {
    let cmd = parse_command(&args("snapshot --compact"), &default_flags()).unwrap();
    assert_eq!(cmd["action"], "snapshot");
    assert_eq!(cmd["compact"], true);
}

#[test]
fn test_snapshot_depth() {
    let cmd = parse_command(&args("snapshot -d 3"), &default_flags()).unwrap();
    assert_eq!(cmd["action"], "snapshot");
    assert_eq!(cmd["maxDepth"], 3);
}

#[test]
fn test_wait_selector() {
    let cmd = parse_command(&args("wait #element"), &default_flags()).unwrap();
    assert_eq!(cmd["action"], "wait");
    assert_eq!(cmd["selector"], "#element");
}

#[test]
fn test_wait_timeout() {
    let cmd = parse_command(&args("wait 5000"), &default_flags()).unwrap();
    assert_eq!(cmd["action"], "wait");
    assert_eq!(cmd["timeout"], 5000);
}

#[test]
fn test_wait_url() {
    let cmd = parse_command(&args("wait --url **/dashboard"), &default_flags()).unwrap();
    assert_eq!(cmd["action"], "waitforurl");
    assert_eq!(cmd["url"], "**/dashboard");
}

#[test]
fn test_wait_load() {
    let cmd = parse_command(&args("wait --load networkidle"), &default_flags()).unwrap();
    assert_eq!(cmd["action"], "waitforloadstate");
    assert_eq!(cmd["state"], "networkidle");
}

#[test]
fn test_wait_load_missing_state() {
    let result = parse_command(&args("wait --load"), &default_flags());
    assert!(result.is_err());
    assert!(matches!(
        result.unwrap_err(),
        ParseError::MissingArguments { .. }
    ));
}

#[test]
fn test_wait_fn() {
    let cmd = parse_command(&args("wait --fn window.ready"), &default_flags()).unwrap();
    assert_eq!(cmd["action"], "waitforfunction");
    assert_eq!(cmd["expression"], "window.ready");
}

#[test]
fn test_wait_text() {
    let cmd = parse_command(&args("wait --text Welcome"), &default_flags()).unwrap();
    assert_eq!(cmd["action"], "wait");
    assert_eq!(cmd["selector"], "text=Welcome");
}

#[test]
fn test_record_start() {
    let cmd = parse_command(&args("record start output.webm"), &default_flags()).unwrap();
    assert_eq!(cmd["action"], "recording_start");
    assert_eq!(cmd["path"], "output.webm");
    assert!(cmd.get("url").is_none());
}

#[test]
fn test_record_start_with_url() {
    let cmd = parse_command(
        &args("record start demo.webm https://example.com"),
        &default_flags(),
    )
    .unwrap();
    assert_eq!(cmd["action"], "recording_start");
    assert_eq!(cmd["path"], "demo.webm");
    assert_eq!(cmd["url"], "https://example.com");
}

#[test]
fn test_record_start_with_url_no_protocol() {
    let cmd = parse_command(
        &args("record start demo.webm example.com"),
        &default_flags(),
    )
    .unwrap();
    assert_eq!(cmd["action"], "recording_start");
    assert_eq!(cmd["path"], "demo.webm");
    assert_eq!(cmd["url"], "https://example.com");
}

#[test]
fn test_record_start_missing_path() {
    let result = parse_command(&args("record start"), &default_flags());
    assert!(result.is_err());
    assert!(matches!(
        result.unwrap_err(),
        ParseError::MissingArguments { .. }
    ));
}

#[test]
fn test_record_stop() {
    let cmd = parse_command(&args("record stop"), &default_flags()).unwrap();
    assert_eq!(cmd["action"], "recording_stop");
}

#[test]
fn test_record_restart() {
    let cmd = parse_command(&args("record restart output.webm"), &default_flags()).unwrap();
    assert_eq!(cmd["action"], "recording_restart");
    assert_eq!(cmd["path"], "output.webm");
    assert!(cmd.get("url").is_none());
}

#[test]
fn test_record_restart_with_url() {
    let cmd = parse_command(
        &args("record restart demo.webm https://example.com"),
        &default_flags(),
    )
    .unwrap();
    assert_eq!(cmd["action"], "recording_restart");
    assert_eq!(cmd["path"], "demo.webm");
    assert_eq!(cmd["url"], "https://example.com");
}

#[test]
fn test_record_restart_missing_path() {
    let result = parse_command(&args("record restart"), &default_flags());
    assert!(result.is_err());
    assert!(matches!(
        result.unwrap_err(),
        ParseError::MissingArguments { .. }
    ));
}

#[test]
fn test_record_invalid_subcommand() {
    let result = parse_command(&args("record foo"), &default_flags());
    assert!(result.is_err());
    assert!(matches!(
        result.unwrap_err(),
        ParseError::UnknownSubcommand { .. }
    ));
}

#[test]
fn test_record_missing_subcommand() {
    let result = parse_command(&args("record"), &default_flags());
    assert!(result.is_err());
    assert!(matches!(
        result.unwrap_err(),
        ParseError::MissingArguments { .. }
    ));
}

#[test]
fn test_profiler_start() {
    let cmd = parse_command(&args("profiler start"), &default_flags()).unwrap();
    assert_eq!(cmd["action"], "profiler_start");
    assert!(cmd.get("categories").is_none());
}

#[test]
fn test_profiler_start_with_categories() {
    let cmd = parse_command(
        &args("profiler start --categories devtools.timeline,v8.execute"),
        &default_flags(),
    )
    .unwrap();
    assert_eq!(cmd["action"], "profiler_start");
    let categories = cmd["categories"].as_array().unwrap();
    assert_eq!(categories.len(), 2);
    assert_eq!(categories[0], "devtools.timeline");
    assert_eq!(categories[1], "v8.execute");
}

#[test]
fn test_profiler_start_categories_missing_value() {
    let result = parse_command(&args("profiler start --categories"), &default_flags());
    assert!(result.is_err());
    assert!(matches!(
        result.unwrap_err(),
        ParseError::MissingArguments { .. }
    ));
}

#[test]
fn test_profiler_stop_with_path() {
    let cmd = parse_command(&args("profiler stop trace.json"), &default_flags()).unwrap();
    assert_eq!(cmd["action"], "profiler_stop");
    assert_eq!(cmd["path"], "trace.json");
}

#[test]
fn test_profiler_stop_no_path() {
    let cmd = parse_command(&args("profiler stop"), &default_flags()).unwrap();
    assert_eq!(cmd["action"], "profiler_stop");
    assert!(cmd.get("path").is_none());
}

#[test]
fn test_profiler_invalid_subcommand() {
    let result = parse_command(&args("profiler foo"), &default_flags());
    assert!(result.is_err());
    assert!(matches!(
        result.unwrap_err(),
        ParseError::UnknownSubcommand { .. }
    ));
}

#[test]
fn test_profiler_missing_subcommand() {
    let result = parse_command(&args("profiler"), &default_flags());
    assert!(result.is_err());
    assert!(matches!(
        result.unwrap_err(),
        ParseError::MissingArguments { .. }
    ));
}

#[test]
fn test_eval_basic() {
    let cmd = parse_command(&args("eval document.title"), &default_flags()).unwrap();
    assert_eq!(cmd["action"], "evaluate");
    assert_eq!(cmd["script"], "document.title");
}

#[test]
fn test_eval_base64_short_flag() {
    // "document.title" in base64
    let cmd = parse_command(&args("eval -b ZG9jdW1lbnQudGl0bGU="), &default_flags()).unwrap();
    assert_eq!(cmd["action"], "evaluate");
    assert_eq!(cmd["script"], "document.title");
}

#[test]
fn test_eval_base64_long_flag() {
    // "document.title" in base64
    let cmd = parse_command(
        &args("eval --base64 ZG9jdW1lbnQudGl0bGU="),
        &default_flags(),
    )
    .unwrap();
    assert_eq!(cmd["action"], "evaluate");
    assert_eq!(cmd["script"], "document.title");
}

#[test]
fn test_eval_base64_with_special_chars() {
    // "document.querySelector('[src*=\"_next\"]')" in base64
    let cmd = parse_command(
        &args("eval -b ZG9jdW1lbnQucXVlcnlTZWxlY3RvcignW3NyYyo9Il9uZXh0Il0nKQ=="),
        &default_flags(),
    )
    .unwrap();
    assert_eq!(cmd["action"], "evaluate");
    assert_eq!(cmd["script"], "document.querySelector('[src*=\"_next\"]')");
}

#[test]
fn test_eval_base64_invalid() {
    let result = parse_command(&args("eval -b !!!invalid!!!"), &default_flags());
    assert!(result.is_err());
    let err = result.unwrap_err();
    assert!(matches!(err, ParseError::InvalidValue { .. }));
    assert!(err.format().contains("Invalid base64"));
}

#[test]
fn test_unknown_command() {
    let result = parse_command(&args("unknowncommand"), &default_flags());
    assert!(result.is_err());
    assert!(matches!(
        result.unwrap_err(),
        ParseError::UnknownCommand { .. }
    ));
}

#[test]
fn test_empty_args() {
    let result = parse_command(&[], &default_flags());
    assert!(result.is_err());
    assert!(matches!(
        result.unwrap_err(),
        ParseError::MissingArguments { .. }
    ));
}

#[test]
fn test_get_missing_subcommand() {
    let result = parse_command(&args("get"), &default_flags());
    assert!(result.is_err());
    let err = result.unwrap_err();
    assert!(matches!(err, ParseError::MissingArguments { .. }));
    assert!(err.format().contains("get"));
}

#[test]
fn test_get_unknown_subcommand() {
    let result = parse_command(&args("get foo"), &default_flags());
    assert!(result.is_err());
    let err = result.unwrap_err();
    assert!(matches!(err, ParseError::UnknownSubcommand { .. }));
    assert!(err.format().contains("foo"));
    assert!(err.format().contains("text"));
}

#[test]
fn test_get_text_missing_selector() {
    let result = parse_command(&args("get text"), &default_flags());
    assert!(result.is_err());
    let err = result.unwrap_err();
    assert!(matches!(err, ParseError::MissingArguments { .. }));
    assert!(err.format().contains("get text"));
}

#[test]
fn test_mouse_wheel() {
    let cmd = parse_command(&args("mouse wheel 100 50"), &default_flags()).unwrap();
    assert_eq!(cmd["action"], "wheel");
    assert_eq!(cmd["deltaY"], 100);
    assert_eq!(cmd["deltaX"], 50);
}

#[test]
fn test_set_media() {
    let cmd = parse_command(&args("set media dark"), &default_flags()).unwrap();
    assert_eq!(cmd["action"], "emulatemedia");
    assert_eq!(cmd["colorScheme"], "dark");
    assert_eq!(cmd["reducedMotion"], "no-preference");
}

#[test]
fn test_set_media_reduced_motion() {
    let cmd = parse_command(&args("set media light reduced-motion"), &default_flags()).unwrap();
    assert_eq!(cmd["action"], "emulatemedia");
    assert_eq!(cmd["colorScheme"], "light");
    assert_eq!(cmd["reducedMotion"], "reduce");
}

#[test]
fn test_find_first_no_value() {
    let cmd = parse_command(&args("find first a click"), &default_flags()).unwrap();
    assert_eq!(cmd["action"], "nth");
    assert_eq!(cmd["index"], 0);
    assert!(cmd.get("value").is_none());
}

#[test]
fn test_find_first_with_value() {
    let cmd = parse_command(&args("find first input fill hello"), &default_flags()).unwrap();
    assert_eq!(cmd["action"], "nth");
    assert_eq!(cmd["index"], 0);
    assert_eq!(cmd["value"], "hello");
}

#[test]
fn test_find_nth_no_value() {
    let cmd = parse_command(&args("find nth 2 a click"), &default_flags()).unwrap();
    assert_eq!(cmd["action"], "nth");
    assert_eq!(cmd["index"], 2);
    assert!(cmd.get("value").is_none());
}

#[test]
fn test_download() {
    let cmd = parse_command(&args("download #btn ./file.pdf"), &default_flags()).unwrap();
    assert_eq!(cmd["action"], "download");
    assert_eq!(cmd["selector"], "#btn");
    assert_eq!(cmd["path"], "./file.pdf");
}

#[test]
fn test_download_with_ref() {
    let cmd = parse_command(&args("download @e5 ./report.xlsx"), &default_flags()).unwrap();
    assert_eq!(cmd["action"], "download");
    assert_eq!(cmd["selector"], "@e5");
    assert_eq!(cmd["path"], "./report.xlsx");
}

#[test]
fn test_download_missing_path() {
    let result = parse_command(&args("download #btn"), &default_flags());
    assert!(result.is_err());
    assert!(matches!(
        result.unwrap_err(),
        ParseError::MissingArguments { .. }
    ));
}

#[test]
fn test_download_missing_selector() {
    let result = parse_command(&args("download"), &default_flags());
    assert!(result.is_err());
    assert!(matches!(
        result.unwrap_err(),
        ParseError::MissingArguments { .. }
    ));
}

#[test]
fn test_wait_download() {
    let cmd = parse_command(&args("wait --download"), &default_flags()).unwrap();
    assert_eq!(cmd["action"], "waitfordownload");
    assert!(cmd.get("path").is_none());
}

#[test]
fn test_wait_download_with_path() {
    let cmd = parse_command(&args("wait --download ./file.pdf"), &default_flags()).unwrap();
    assert_eq!(cmd["action"], "waitfordownload");
    assert_eq!(cmd["path"], "./file.pdf");
}

#[test]
fn test_wait_download_with_timeout() {
    let cmd =
        parse_command(&args("wait --download --timeout 30000"), &default_flags()).unwrap();
    assert_eq!(cmd["action"], "waitfordownload");
    assert_eq!(cmd["timeout"], 30000);
}

#[test]
fn test_wait_download_with_path_and_timeout() {
    let cmd = parse_command(
        &args("wait --download ./file.pdf --timeout 30000"),
        &default_flags(),
    )
    .unwrap();
    assert_eq!(cmd["action"], "waitfordownload");
    assert_eq!(cmd["path"], "./file.pdf");
    assert_eq!(cmd["timeout"], 30000);
}

#[test]
fn test_wait_download_short_flag() {
    let cmd = parse_command(&args("wait -d ./file.pdf"), &default_flags()).unwrap();
    assert_eq!(cmd["action"], "waitfordownload");
    assert_eq!(cmd["path"], "./file.pdf");
}

#[test]
fn test_connect_with_port() {
    let cmd = parse_command(&args("connect 9222"), &default_flags()).unwrap();
    assert_eq!(cmd["action"], "launch");
    assert_eq!(cmd["cdpPort"], 9222);
    assert!(cmd.get("cdpUrl").is_none());
}

#[test]
fn test_connect_with_ws_url() {
    let input: Vec<String> = vec![
        "connect".to_string(),
        "ws://localhost:9222/devtools/browser/abc123".to_string(),
    ];
    let cmd = parse_command(&input, &default_flags()).unwrap();
    assert_eq!(cmd["action"], "launch");
    assert_eq!(cmd["cdpUrl"], "ws://localhost:9222/devtools/browser/abc123");
    assert!(cmd.get("cdpPort").is_none());
}

#[test]
fn test_connect_with_wss_url() {
    let input: Vec<String> = vec![
        "connect".to_string(),
        "wss://remote-browser.example.com/cdp?token=xyz".to_string(),
    ];
    let cmd = parse_command(&input, &default_flags()).unwrap();
    assert_eq!(cmd["action"], "launch");
    assert_eq!(
        cmd["cdpUrl"],
        "wss://remote-browser.example.com/cdp?token=xyz"
    );
    assert!(cmd.get("cdpPort").is_none());
}

#[test]
fn test_connect_with_http_url() {
    let input: Vec<String> = vec!["connect".to_string(), "http://localhost:9222".to_string()];
    let cmd = parse_command(&input, &default_flags()).unwrap();
    assert_eq!(cmd["action"], "launch");
    assert_eq!(cmd["cdpUrl"], "http://localhost:9222");
    assert!(cmd.get("cdpPort").is_none());
}

#[test]
fn test_connect_missing_argument() {
    let result = parse_command(&args("connect"), &default_flags());
    assert!(result.is_err());
    assert!(matches!(
        result.unwrap_err(),
        ParseError::MissingArguments { .. }
    ));
}

#[test]
fn test_connect_invalid_port() {
    let result = parse_command(&args("connect notanumber"), &default_flags());
    assert!(result.is_err());
    let err = result.unwrap_err();
    assert!(matches!(err, ParseError::InvalidValue { .. }));
    assert!(err.format().contains("not a valid port number or URL"));
}

#[test]
fn test_connect_port_zero() {
    let result = parse_command(&args("connect 0"), &default_flags());
    assert!(result.is_err());
    let err = result.unwrap_err();
    assert!(matches!(err, ParseError::InvalidValue { .. }));
    assert!(err.format().contains("port must be greater than 0"));
}

#[test]
fn test_connect_port_out_of_range() {
    let result = parse_command(&args("connect 65536"), &default_flags());
    assert!(result.is_err());
    let err = result.unwrap_err();
    assert!(matches!(err, ParseError::InvalidValue { .. }));
    assert!(err.format().contains("out of range"));
    assert!(err.format().contains("1-65535"));
}

#[test]
fn test_connect_port_max_valid() {
    let cmd = parse_command(&args("connect 65535"), &default_flags()).unwrap();
    assert_eq!(cmd["action"], "launch");
    assert_eq!(cmd["cdpPort"], 65535);
}

#[test]
fn test_connect_port_min_valid() {
    let cmd = parse_command(&args("connect 1"), &default_flags()).unwrap();
    assert_eq!(cmd["action"], "launch");
    assert_eq!(cmd["cdpPort"], 1);
}

#[test]
fn test_trace_start() {
    let cmd = parse_command(&args("trace start"), &default_flags()).unwrap();
    assert_eq!(cmd["action"], "trace_start");
}

#[test]
fn test_trace_stop_with_path() {
    let cmd = parse_command(&args("trace stop ./trace.zip"), &default_flags()).unwrap();
    assert_eq!(cmd["action"], "trace_stop");
    assert_eq!(cmd["path"], "./trace.zip");
}

#[test]
fn test_trace_stop_without_path() {
    let cmd = parse_command(&args("trace stop"), &default_flags()).unwrap();
    assert_eq!(cmd["action"], "trace_stop");
    assert!(cmd.get("path").is_none() || cmd["path"].is_null());
}

#[test]
fn test_diff_snapshot_basic() {
    let cmd = parse_command(&args("diff snapshot"), &default_flags()).unwrap();
    assert_eq!(cmd["action"], "diff_snapshot");
}

#[test]
fn test_diff_snapshot_baseline() {
    let cmd =
        parse_command(&args("diff snapshot --baseline before.txt"), &default_flags()).unwrap();
    assert_eq!(cmd["action"], "diff_snapshot");
    assert_eq!(cmd["baseline"], "before.txt");
}

#[test]
fn test_diff_snapshot_selector_compact_depth() {
    let cmd = parse_command(
        &args("diff snapshot --selector #main --compact --depth 3"),
        &default_flags(),
    )
    .unwrap();
    assert_eq!(cmd["action"], "diff_snapshot");
    assert_eq!(cmd["selector"], "#main");
    assert_eq!(cmd["compact"], true);
    assert_eq!(cmd["maxDepth"], 3);
}

#[test]
fn test_diff_snapshot_short_flags() {
    let cmd =
        parse_command(&args("diff snapshot -b snap.txt -s .content -c -d 2"), &default_flags())
            .unwrap();
    assert_eq!(cmd["action"], "diff_snapshot");
    assert_eq!(cmd["baseline"], "snap.txt");
    assert_eq!(cmd["selector"], ".content");
    assert_eq!(cmd["compact"], true);
    assert_eq!(cmd["maxDepth"], 2);
}

#[test]
fn test_diff_screenshot_baseline() {
    let cmd = parse_command(
        &args("diff screenshot --baseline before.png"),
        &default_flags(),
    )
    .unwrap();
    assert_eq!(cmd["action"], "diff_screenshot");
    assert_eq!(cmd["baseline"], "before.png");
}

#[test]
fn test_diff_screenshot_all_options() {
    let cmd = parse_command(
        &args("diff screenshot --baseline b.png --output d.png --threshold 0.2 --selector #hero --full"),
        &default_flags(),
    )
    .unwrap();
    assert_eq!(cmd["action"], "diff_screenshot");
    assert_eq!(cmd["baseline"], "b.png");
    assert_eq!(cmd["output"], "d.png");
    assert_eq!(cmd["threshold"], 0.2);
    assert_eq!(cmd["selector"], "#hero");
    assert_eq!(cmd["fullPage"], true);
}

#[test]
fn test_diff_screenshot_global_full_flag() {
    let mut flags = default_flags();
    flags.full = true;
    let cmd =
        parse_command(&args("diff screenshot --baseline b.png"), &flags).unwrap();
    assert_eq!(cmd["action"], "diff_screenshot");
    assert_eq!(cmd["fullPage"], true);
}

#[test]
fn test_diff_url_basic() {
    let cmd = parse_command(
        &args("diff url https://a.com https://b.com"),
        &default_flags(),
    )
    .unwrap();
    assert_eq!(cmd["action"], "diff_url");
    assert_eq!(cmd["url1"], "https://a.com");
    assert_eq!(cmd["url2"], "https://b.com");
}

#[test]
fn test_diff_url_with_screenshot_full() {
    let cmd = parse_command(
        &args("diff url https://a.com https://b.com --screenshot --full"),
        &default_flags(),
    )
    .unwrap();
    assert_eq!(cmd["action"], "diff_url");
    assert_eq!(cmd["screenshot"], true);
    assert_eq!(cmd["fullPage"], true);
}

#[test]
fn test_diff_url_with_wait_until() {
    let cmd = parse_command(
        &args("diff url https://a.com https://b.com --wait-until networkidle"),
        &default_flags(),
    )
    .unwrap();
    assert_eq!(cmd["action"], "diff_url");
    assert_eq!(cmd["waitUntil"], "networkidle");
}

#[test]
fn test_diff_url_global_full_flag() {
    let mut flags = default_flags();
    flags.full = true;
    let cmd =
        parse_command(&args("diff url https://a.com https://b.com"), &flags).unwrap();
    assert_eq!(cmd["fullPage"], true);
}

#[test]
fn test_diff_missing_subcommand() {
    let result = parse_command(&args("diff"), &default_flags());
    assert!(result.is_err());
    assert!(matches!(
        result.unwrap_err(),
        ParseError::MissingArguments { .. }
    ));
}

#[test]
fn test_diff_unknown_subcommand() {
    let result = parse_command(&args("diff invalid"), &default_flags());
    assert!(result.is_err());
    assert!(matches!(
        result.unwrap_err(),
        ParseError::UnknownSubcommand { .. }
    ));
}

#[test]
fn test_diff_snapshot_baseline_missing_value() {
    let result = parse_command(&args("diff snapshot --baseline"), &default_flags());
    assert!(result.is_err());
    assert!(matches!(
        result.unwrap_err(),
        ParseError::MissingArguments { .. }
    ));
}

#[test]
fn test_diff_snapshot_selector_missing_value() {
    let result = parse_command(&args("diff snapshot --selector"), &default_flags());
    assert!(result.is_err());
    assert!(matches!(
        result.unwrap_err(),
        ParseError::MissingArguments { .. }
    ));
}

#[test]
fn test_diff_snapshot_depth_missing_value() {
    let result = parse_command(&args("diff snapshot --depth"), &default_flags());
    assert!(result.is_err());
    assert!(matches!(
        result.unwrap_err(),
        ParseError::MissingArguments { .. }
    ));
}

#[test]
fn test_diff_screenshot_threshold_missing_value() {
    let result = parse_command(
        &args("diff screenshot --baseline b.png --threshold"),
        &default_flags(),
    );
    assert!(result.is_err());
    assert!(matches!(
        result.unwrap_err(),
        ParseError::MissingArguments { .. }
    ));
}

#[test]
fn test_diff_screenshot_output_missing_value() {
    let result = parse_command(
        &args("diff screenshot --baseline b.png --output"),
        &default_flags(),
    );
    assert!(result.is_err());
    assert!(matches!(
        result.unwrap_err(),
        ParseError::MissingArguments { .. }
    ));
}

#[test]
fn test_diff_url_wait_until_missing_value() {
    let result = parse_command(
        &args("diff url https://a.com https://b.com --wait-until"),
        &default_flags(),
    );
    assert!(result.is_err());
    assert!(matches!(
        result.unwrap_err(),
        ParseError::MissingArguments { .. }
    ));
}

#[test]
fn test_diff_snapshot_unexpected_arg() {
    let result = parse_command(&args("diff snapshot foo"), &default_flags());
    assert!(result.is_err());
    assert!(matches!(
        result.unwrap_err(),
        ParseError::InvalidValue { .. }
    ));
}

#[test]
fn test_diff_screenshot_unexpected_arg() {
    let result = parse_command(
        &args("diff screenshot --baseline b.png unexpected"),
        &default_flags(),
    );
    assert!(result.is_err());
    assert!(matches!(
        result.unwrap_err(),
        ParseError::InvalidValue { .. }
    ));
}

#[test]
fn test_diff_url_unexpected_arg() {
    let result = parse_command(
        &args("diff url https://a.com https://b.com extra"),
        &default_flags(),
    );
    assert!(result.is_err());
    assert!(matches!(
        result.unwrap_err(),
        ParseError::InvalidValue { .. }
    ));
}

#[test]
fn test_diff_snapshot_unknown_flag() {
    let result = parse_command(&args("diff snapshot --invalid"), &default_flags());
    assert!(result.is_err());
    assert!(matches!(
        result.unwrap_err(),
        ParseError::InvalidValue { .. }
    ));
}

#[test]
fn test_diff_url_missing_urls() {
    let result = parse_command(&args("diff url"), &default_flags());
    assert!(result.is_err());
    assert!(matches!(
        result.unwrap_err(),
        ParseError::MissingArguments { .. }
    ));
}

#[test]
fn test_diff_url_missing_second_url() {
    let result = parse_command(&args("diff url https://a.com"), &default_flags());
    assert!(result.is_err());
    assert!(matches!(
        result.unwrap_err(),
        ParseError::MissingArguments { .. }
    ));
}

#[test]
fn test_diff_snapshot_depth_invalid_value() {
    let result = parse_command(&args("diff snapshot --depth abc"), &default_flags());
    assert!(result.is_err());
    assert!(matches!(
        result.unwrap_err(),
        ParseError::InvalidValue { .. }
    ));
}

#[test]
fn test_diff_screenshot_threshold_invalid_value() {
    let result = parse_command(
        &args("diff screenshot --baseline b.png --threshold abc"),
        &default_flags(),
    );
    assert!(result.is_err());
    assert!(matches!(
        result.unwrap_err(),
        ParseError::InvalidValue { .. }
    ));
}

#[test]
fn test_diff_screenshot_threshold_out_of_range() {
    let result = parse_command(
        &args("diff screenshot --baseline b.png --threshold 1.5"),
        &default_flags(),
    );
    assert!(result.is_err());
    assert!(matches!(
        result.unwrap_err(),
        ParseError::InvalidValue { .. }
    ));
}

#[test]
fn test_diff_screenshot_threshold_negative() {
    let result = parse_command(
        &args("diff screenshot --baseline b.png --threshold -0.5"),
        &default_flags(),
    );
    assert!(result.is_err());
}

#[test]
fn test_diff_url_with_selector() {
    let cmd = parse_command(
        &args("diff url https://a.com https://b.com --selector #main"),
        &default_flags(),
    )
    .unwrap();
    assert_eq!(cmd["action"], "diff_url");
    assert_eq!(cmd["selector"], "#main");
}

#[test]
fn test_diff_url_with_compact_depth() {
    let cmd = parse_command(
        &args("diff url https://a.com https://b.com --compact --depth 3"),
        &default_flags(),
    )
    .unwrap();
    assert_eq!(cmd["action"], "diff_url");
    assert_eq!(cmd["compact"], true);
    assert_eq!(cmd["maxDepth"], 3);
}

#[test]
fn test_diff_url_with_short_snapshot_flags() {
    let cmd = parse_command(
        &args("diff url https://a.com https://b.com -s .content -c -d 2"),
        &default_flags(),
    )
    .unwrap();
    assert_eq!(cmd["action"], "diff_url");
    assert_eq!(cmd["selector"], ".content");
    assert_eq!(cmd["compact"], true);
    assert_eq!(cmd["maxDepth"], 2);
}

#[test]
fn test_diff_url_depth_invalid_value() {
    let result = parse_command(
        &args("diff url https://a.com https://b.com --depth abc"),
        &default_flags(),
    );
    assert!(result.is_err());
    assert!(matches!(
        result.unwrap_err(),
        ParseError::InvalidValue { .. }
    ));
}

#[test]
fn test_diff_snapshot_depth_negative_value() {
    let result = parse_command(&args("diff snapshot --depth -1"), &default_flags());
    assert!(result.is_err());
    assert!(matches!(
        result.unwrap_err(),
        ParseError::InvalidValue { .. }
    ));
}

#[test]
fn test_diff_url_depth_negative_value() {
    let result = parse_command(
        &args("diff url https://a.com https://b.com --depth -1"),
        &default_flags(),
    );
    assert!(result.is_err());
    assert!(matches!(
        result.unwrap_err(),
        ParseError::InvalidValue { .. }
    ));
}

#[test]
fn test_diff_url_selector_missing_value() {
    let result = parse_command(
        &args("diff url https://a.com https://b.com --selector"),
        &default_flags(),
    );
    assert!(result.is_err());
    assert!(matches!(
        result.unwrap_err(),
        ParseError::MissingArguments { .. }
    ));
}
