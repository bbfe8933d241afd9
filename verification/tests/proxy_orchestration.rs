//! Proxy configuration, batch planning, size probes, numerals, and the
//! chat data types.

use jan_core::chat::ChatMessage;
use jan_core::decimal::{parse_u64, u64_to_string};
use jan_core::errors::DownloadError;
use jan_core::orchestrator::{
    check_headers, checked_total_size, distinct_destinations, event_name, first_error_index,
    make_file_id, plan_batch, remote_size_outcome, DownloadItem,
};
use jan_core::proxy::{
    client_plan_for_item, create_proxy_from_config, should_bypass_proxy, validate_proxy_config,
    ProxyConfig,
};

fn strings(v: &[&str]) -> Vec<String> {
    v.iter().map(|s| s.to_string()).collect()
}

fn config(url: &str) -> ProxyConfig {
    ProxyConfig {
        url: url.to_string(),
        username: None,
        password: None,
        no_proxy: None,
        ignore_ssl: None,
        verify_proxy_ssl: None,
        verify_proxy_host_ssl: None,
        verify_peer_ssl: None,
        verify_host_ssl: None,
    }
}

fn message_of(r: Result<(), DownloadError>) -> String {
    match r {
        Err(DownloadError::Configuration { message }) => message,
        _ => panic!("expected a configuration error"),
    }
}

#[test]
fn valid_proxy_config_passes() {
    assert!(validate_proxy_config(&config("http://proxy.example.com:8080")).is_ok());
    assert!(validate_proxy_config(&config("socks5://127.0.0.1:1080")).is_ok());
}

#[test]
fn malformed_proxy_url_is_rejected() {
    let msg = message_of(validate_proxy_config(&config("not a url")));
    assert_eq!(msg, "Invalid proxy URL: not a url");
}

#[test]
fn unsupported_scheme_is_rejected() {
    let msg = message_of(validate_proxy_config(&config("ftp://proxy.example.com")));
    assert_eq!(msg, "Unsupported proxy scheme: ftp");
}

#[test]
fn credentials_must_come_in_pairs() {
    let mut c = config("http://proxy.example.com");
    c.username = Some("alice".to_string());
    assert_eq!(
        message_of(validate_proxy_config(&c)),
        "Username provided without password"
    );
    let mut c = config("http://proxy.example.com");
    c.password = Some("SECRET-REDACTED".to_string());
    assert_eq!(
        message_of(validate_proxy_config(&c)),
        "Password provided without username"
    );
}

#[test]
fn bad_no_proxy_entries_are_rejected() {
    let mut c = config("http://proxy.example.com");
    c.no_proxy = Some(strings(&["good.example.com", ""]));
    assert_eq!(message_of(validate_proxy_config(&c)), "Empty no_proxy entry");
    let mut c = config("http://proxy.example.com");
    c.no_proxy = Some(strings(&["*."]));
    assert_eq!(
        message_of(validate_proxy_config(&c)),
        "Invalid wildcard pattern: *."
    );
}

#[test]
fn bypass_matches_exact_wildcard_and_star() {
    let list = strings(&["internal.example.com", "*.corp.example.com"]);
    assert!(should_bypass_proxy("https://internal.example.com/x", &list));
    assert!(should_bypass_proxy("https://api.corp.example.com/v1", &list));
    assert!(!should_bypass_proxy("https://public.example.com/", &list));
    assert!(should_bypass_proxy("https://anywhere.net/", &strings(&["*"])));
    assert!(!should_bypass_proxy("https://anywhere.net/", &strings(&[])));
    // an unparseable URL never bypasses
    assert!(!should_bypass_proxy("not a url", &strings(&["*"])));
}

#[test]
fn proxy_handle_builds_for_valid_config() {
    assert!(create_proxy_from_config(&config("http://127.0.0.1:8080")).is_ok());
    assert!(create_proxy_from_config(&config("ftp://127.0.0.1")).is_err());
    let mut c = config("http://127.0.0.1:8080");
    c.username = Some("alice".to_string());
    c.password = Some("SECRET-REDACTED".to_string());
    assert!(create_proxy_from_config(&c).is_ok());
}

#[test]
fn client_plan_attaches_or_bypasses() {
    let plan = client_plan_for_item("https://host/x", &None).unwrap();
    assert!(!plan.accept_invalid_certs && plan.proxy.is_none());

    let mut c = config("http://127.0.0.1:8080");
    c.ignore_ssl = Some(true);
    let plan = client_plan_for_item("https://host/x", &Some(c)).unwrap();
    assert!(plan.accept_invalid_certs && plan.proxy.is_some());

    let mut c = config("http://127.0.0.1:8080");
    c.no_proxy = Some(strings(&["host"]));
    let plan = client_plan_for_item("https://host/x", &Some(c)).unwrap();
    assert!(plan.proxy.is_none());

    // a bad configuration is rejected when the proxy is wanted
    let c = config("ftp://127.0.0.1");
    assert!(client_plan_for_item("https://host/x", &Some(c)).is_err());
}

fn item(url: &str, path: &[&str]) -> DownloadItem {
    DownloadItem {
        url: url.to_string(),
        save_path: strings(path),
        sha256: None,
        size: None,
        proxy: None,
    }
}

#[test]
fn batch_plan_ids_and_paths() {
    let items = vec![
        item("https://x/a.bin", &["models", "a", "a.bin"]),
        item("https://x/b.bin", &["models", "b", "b.bin"]),
    ];
    let entries = plan_batch("task42", &items).unwrap();
    assert_eq!(entries.len(), 2);
    assert_eq!(entries[0].file_id, "task42-0");
    assert_eq!(entries[1].file_id, "task42-1");
    assert_eq!(entries[0].segments, strings(&["models", "a", "a.bin"]));
    assert!(distinct_destinations(&entries));
}

#[test]
fn batch_plan_rejects_escaping_path() {
    let items = vec![
        item("https://x/a.bin", &["models", "a", "a.bin"]),
        item("https://x/evil.bin", &["..", "..", "etc", "passwd"]),
    ];
    assert!(matches!(
        plan_batch("task42", &items),
        Err(DownloadError::PathSecurity)
    ));
}

#[test]
fn duplicate_destinations_are_detected() {
    let items = vec![
        item("https://x/a.bin", &["models", "a", "a.bin"]),
        item("https://y/a.bin", &["models", ".", "a", "a.bin"]),
    ];
    let entries = plan_batch("t", &items).unwrap();
    assert!(!distinct_destinations(&entries));
}

#[test]
fn remote_size_reads_content_length() {
    assert_eq!(remote_size_outcome(200, &Some("12345".to_string())).unwrap(), 12345);
    // a missing header yields size zero, never an error
    assert_eq!(remote_size_outcome(204, &None).unwrap(), 0);
    assert!(matches!(
        remote_size_outcome(404, &Some("10".to_string())),
        Err(DownloadError::Transport { status: 404, .. })
    ));
    assert!(matches!(
        remote_size_outcome(200, &Some("12MB".to_string())),
        Err(DownloadError::Transport { status: 200, .. })
    ));
}

#[test]
fn total_size_checks_for_overflow() {
    assert_eq!(checked_total_size(&vec![500, 1500]), Some(2000));
    assert_eq!(checked_total_size(&vec![]), Some(0));
    assert_eq!(checked_total_size(&vec![u64::MAX, 1]), None);
}

#[test]
fn first_error_is_reported_in_item_order() {
    let outcomes: Vec<Option<DownloadError>> = vec![
        None,
        Some(DownloadError::Cancelled),
        Some(DownloadError::HashMismatch),
    ];
    assert_eq!(first_error_index(&outcomes), Some(1));
    let all_ok: Vec<Option<DownloadError>> = vec![None, None];
    assert_eq!(first_error_index(&all_ok), None);
}

#[test]
fn header_pairs_are_checked() {
    let good = vec![
        ("authorization".to_string(), "Bearer abc".to_string()),
        ("x-custom".to_string(), "1".to_string()),
    ];
    assert!(check_headers(&good).is_ok());
    let bad_name = vec![("no spaces allowed".to_string(), "v".to_string())];
    assert!(matches!(
        check_headers(&bad_name),
        Err(DownloadError::Configuration { .. })
    ));
    let bad_value = vec![("x-custom".to_string(), "line\nbreak".to_string())];
    assert!(matches!(
        check_headers(&bad_value),
        Err(DownloadError::Configuration { .. })
    ));
}

#[test]
fn event_and_file_names() {
    assert_eq!(event_name("task42"), "download-task42");
    assert_eq!(make_file_id("task42", 7), "task42-7");
}

#[test]
fn numerals_print_and_parse() {
    assert_eq!(u64_to_string(0), "0");
    assert_eq!(u64_to_string(10485760), "10485760");
    assert_eq!(u64_to_string(u64::MAX), "18446744073709551615");
    assert_eq!(parse_u64("0"), Some(0));
    assert_eq!(parse_u64("1000"), Some(1000));
    assert_eq!(parse_u64("18446744073709551615"), Some(u64::MAX));
    assert_eq!(parse_u64("18446744073709551616"), None);
    assert_eq!(parse_u64(""), None);
    assert_eq!(parse_u64("12a"), None);
    assert_eq!(parse_u64("-5"), None);
}

#[test]
fn chat_constructors_set_roles() {
    let m = ChatMessage::new_user("hello".to_string());
    assert_eq!(m.role, "user");
    assert_eq!(m.content, "hello");
    assert!(m.timestamp.is_some());
    let m = ChatMessage::new_assistant("hi".to_string());
    assert_eq!(m.role, "assistant");
    let m = ChatMessage::new_system("rules".to_string());
    assert_eq!(m.role, "system");
}
