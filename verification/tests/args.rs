use flopsy::args::Args;

fn args(bind: Option<&str>, port: Option<u16>, hosts: &[&str]) -> Args {
    Args {
        bind: bind.map(String::from),
        port,
        hosts: hosts.iter().map(|h| h.to_string()).collect(),
        check_host: None,
        on_failover: None,
        max_backoff: 60,
    }
}

#[test]
fn port_binds_on_all_interfaces() {
    assert_eq!(args(None, Some(5432), &["h"]).bind_address(), "[::]:5432");
    assert_eq!(args(None, Some(0), &["h"]).bind_address(), "[::]:0");
    assert_eq!(args(None, Some(7), &["h"]).bind_address(), "[::]:7");
    assert_eq!(args(None, Some(80), &["h"]).bind_address(), "[::]:80");
    assert_eq!(args(None, Some(10000), &["h"]).bind_address(), "[::]:10000");
    assert_eq!(args(None, Some(65535), &["h"]).bind_address(), "[::]:65535");
}

#[test]
fn bind_is_used_as_given() {
    assert_eq!(args(Some("127.0.0.1:6432"), None, &["h"]).bind_address(), "127.0.0.1:6432");
    assert_eq!(args(Some(""), None, &["h"]).bind_address(), "");
}

#[test]
fn port_goes_before_bind() {
    assert_eq!(args(Some("127.0.0.1:6432"), Some(1), &["h"]).bind_address(), "[::]:1");
}

#[test]
fn valid_args_name_one_bind_target_and_a_host() {
    assert!(args(Some("127.0.0.1:6432"), None, &["h"]).is_valid());
    assert!(args(None, Some(5432), &["h1", "h2"]).is_valid());
    assert!(!args(None, None, &["h"]).is_valid());
    assert!(!args(Some("127.0.0.1:6432"), Some(5432), &["h"]).is_valid());
    assert!(!args(None, Some(5432), &[]).is_valid());
}

#[test]
fn valid_args_cap_the_delay_at_a_second_or_more() {
    let mut with_cap = args(None, Some(5432), &["h"]);
    with_cap.max_backoff = 0;
    assert!(!with_cap.is_valid());
    with_cap.max_backoff = 1;
    assert!(with_cap.is_valid());
    with_cap.max_backoff = u64::MAX;
    assert!(with_cap.is_valid());
}
