use ipbot::config::{load_config, numeric_override, parse_u64, ConfigError};

fn s(t: &str) -> Option<String> {
    Some(String::from(t))
}

#[test]
fn missing_token_aborts_first() {
    let r = load_config(None, s("socks5://127.0.0.1:1080"), None, None, None);
    assert_eq!(r.err().expect("token is required"), ConfigError::MissingToken);
}

#[test]
fn missing_proxy_aborts_too() {
    let r = load_config(s("123:abc"), None, None, None, None);
    assert_eq!(r.err().expect("proxy is required"), ConfigError::MissingProxy);
}

#[test]
fn defaults_apply_when_no_override_is_given() {
    let c = load_config(s("123:abc"), s("socks5://127.0.0.1:1080"), None, None, None)
        .expect("both required values are present");
    assert_eq!(c.token, "123:abc");
    assert_eq!(c.proxy, "socks5://127.0.0.1:1080");
    assert_eq!(c.request_timeout_secs, 20);
    assert_eq!(c.connect_timeout_secs, 10);
    assert_eq!(c.shutdown_grace_secs, 5);
}

#[test]
fn numeric_overrides_are_honoured() {
    let c = load_config(s("123:abc"), s("socks5://localhost:9050"), s("45"), s("7"), s("12"))
        .expect("both required values are present");
    assert_eq!(c.request_timeout_secs, 45);
    assert_eq!(c.connect_timeout_secs, 7);
    assert_eq!(c.shutdown_grace_secs, 12);
}

#[test]
fn unreadable_overrides_fall_back_to_defaults() {
    let c = load_config(s("123:abc"), s("socks5://localhost:9050"), s("soon"), s(""), s("-3"))
        .expect("both required values are present");
    assert_eq!(c.request_timeout_secs, 20);
    assert_eq!(c.connect_timeout_secs, 10);
    assert_eq!(c.shutdown_grace_secs, 5);
}

#[test]
fn override_resolution_matches_parse_then_default() {
    assert_eq!(numeric_override(None, 9), 9);
    assert_eq!(numeric_override(s("0"), 9), 0);
    assert_eq!(numeric_override(s("31"), 9), 31);
    assert_eq!(numeric_override(s("31s"), 9), 9);
}

#[test]
fn parse_reads_plain_decimals() {
    assert_eq!(parse_u64("0"), Some(0));
    assert_eq!(parse_u64("7"), Some(7));
    assert_eq!(parse_u64("007"), Some(7));
    assert_eq!(parse_u64("4294967296"), Some(4294967296));
}

#[test]
fn parse_tolerates_one_leading_plus() {
    assert_eq!(parse_u64("+12"), Some(12));
    assert_eq!(parse_u64("+"), None);
    assert_eq!(parse_u64("++1"), None);
}

#[test]
fn parse_rejects_what_is_not_a_decimal() {
    assert_eq!(parse_u64(""), None);
    assert_eq!(parse_u64("-1"), None);
    assert_eq!(parse_u64("1.5"), None);
    assert_eq!(parse_u64("12a"), None);
    assert_eq!(parse_u64(" 12"), None);
}

#[test]
fn parse_respects_the_64_bit_bound() {
    assert_eq!(parse_u64("18446744073709551615"), Some(u64::MAX));
    assert_eq!(parse_u64("18446744073709551616"), None);
    assert_eq!(parse_u64("99999999999999999999999"), None);
}
