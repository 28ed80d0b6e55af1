use ngrok_monitor::text::{parse_u16, parse_u64, render_body};

#[test]
fn render_substitutes_placeholder() {
    let body = render_body("URL: {url}", "https://x.ngrok.io");
    assert_eq!(body, "URL: https://x.ngrok.io");
}

#[test]
fn render_default_template() {
    let body = render_body(
        "The ngrok tunnel public URL has changed. New URL: {url}",
        "tcp://0.tcp.ngrok.io:12345",
    );
    assert_eq!(
        body,
        "The ngrok tunnel public URL has changed. New URL: tcp://0.tcp.ngrok.io:12345"
    );
}

#[test]
fn render_every_occurrence() {
    assert_eq!(render_body("{url} and {url}", "a"), "a and a");
}

#[test]
fn render_without_placeholder() {
    assert_eq!(render_body("no substitution here", "x"), "no substitution here");
}

#[test]
fn render_empty_template() {
    assert_eq!(render_body("", "x"), "");
}

#[test]
fn render_partial_placeholder_is_kept() {
    assert_eq!(render_body("{url", "x"), "{url");
    assert_eq!(render_body("{Url}", "x"), "{Url}");
}

#[test]
fn render_does_not_rescan_replacement() {
    assert_eq!(render_body("a{url}b", "{url}"), "a{url}b");
}

#[test]
fn parse_u64_plain() {
    assert_eq!(parse_u64("10"), Some(10));
    assert_eq!(parse_u64("0"), Some(0));
    assert_eq!(parse_u64("007"), Some(7));
}

#[test]
fn parse_u64_leading_plus() {
    assert_eq!(parse_u64("+587"), Some(587));
    assert_eq!(parse_u64("+"), None);
}

#[test]
fn parse_u64_rejects_junk() {
    assert_eq!(parse_u64(""), None);
    assert_eq!(parse_u64("12a"), None);
    assert_eq!(parse_u64("-1"), None);
    assert_eq!(parse_u64("1 0"), None);
}

#[test]
fn parse_u64_bounds() {
    assert_eq!(parse_u64("18446744073709551615"), Some(u64::MAX));
    assert_eq!(parse_u64("18446744073709551616"), None);
    assert_eq!(parse_u64("99999999999999999999999999"), None);
}

#[test]
fn parse_u16_bounds() {
    assert_eq!(parse_u16("587"), Some(587));
    assert_eq!(parse_u16("65535"), Some(65535));
    assert_eq!(parse_u16("65536"), None);
    assert_eq!(parse_u16("abc"), None);
}
