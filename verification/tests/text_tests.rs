use openfeedback::config::ConfigError;
use openfeedback::providers::proxy::connect_request;
use openfeedback::text::{escape_html, escape_md, parse_i64, parse_u16, str_eq, strip_html};

fn rendered(n: u64) -> String {
    let m = ConfigError::EscalateNotBeforeTimeout { escalate_after: n, default_timeout: 0 }.message();
    let start = "escalate_after_secs (".len();
    let end = m.find(')').unwrap();
    m[start..end].to_string()
}

#[test]
fn escape_html_replaces_special_characters() {
    assert_eq!(escape_html("a < b && c > d").as_str(), "a &lt; b &amp;&amp; c &gt; d");
    assert_eq!(escape_html("&lt;").as_str(), "&amp;lt;");
}

#[test]
fn escape_html_leaves_plain_text_alone() {
    assert_eq!(escape_html("Deploy to prod?").as_str(), "Deploy to prod?");
    assert_eq!(escape_html("").as_str(), "");
}

#[test]
fn escape_html_output_has_no_angle_brackets() {
    let out = escape_html("<script>alert('x')</script>");
    assert!(!out.contains('<'));
    assert!(!out.contains('>'));
}

#[test]
fn escape_md_escapes_markdown_characters() {
    assert_eq!(escape_md("*bold* _it_ `code` ~s~ \\").as_str(), "\\*bold\\* \\_it\\_ \\`code\\` \\~s\\~ \\\\");
    assert_eq!(escape_md("plain title").as_str(), "plain title");
}

#[test]
fn strip_html_removes_tags() {
    assert_eq!(
        strip_html("\u{274C} <b>Rejected.</b> Reply to this message to add a reason (or ignore to skip).").as_str(),
        "\u{274C} Rejected. Reply to this message to add a reason (or ignore to skip)."
    );
    assert_eq!(strip_html("a<b>c").as_str(), "ac");
    assert_eq!(strip_html("a>b").as_str(), "ab");
    assert_eq!(strip_html("<unterminated").as_str(), "");
}

#[test]
fn strip_html_keeps_plain_text() {
    assert_eq!(strip_html("no tags here").as_str(), "no tags here");
}

#[test]
fn strip_html_output_has_no_angle_brackets() {
    let out = strip_html("x < y > z <<>> w");
    assert!(!out.contains('<') && !out.contains('>'));
}

#[test]
fn decimal_rendering() {
    assert_eq!(rendered(0), "0");
    assert_eq!(rendered(3600), "3600");
    assert_eq!(rendered(u64::MAX), "18446744073709551615");
}

#[test]
fn parse_u16_follows_str_parse() {
    for s in ["0", "80", "+443", "65535", "65536", "", "+", "-1", "12a", " 1", "007"] {
        assert_eq!(parse_u16(s), s.parse::<u16>().ok(), "input {s:?}");
    }
}

#[test]
fn parse_i64_follows_str_parse() {
    for s in [
        "0",
        "-0",
        "123456789012345678",
        "9223372036854775807",
        "9223372036854775808",
        "-9223372036854775808",
        "-9223372036854775809",
        "+5",
        "-",
        "",
        "1e3",
        "99999999999999999999999",
    ] {
        assert_eq!(parse_i64(s), s.parse::<i64>().ok(), "input {s:?}");
    }
}

#[test]
fn decimal_then_parse_round_trips() {
    for n in [0u16, 1, 80, 443, 3128, 65535] {
        let request = connect_request("h", n);
        let port = request.trim_start_matches("CONNECT h:").split(' ').next().unwrap();
        assert_eq!(parse_u16(port), Some(n));
    }
}

#[test]
fn string_equality() {
    assert!(str_eq("telegram", "telegram"));
    assert!(!str_eq("telegram", "Telegram"));
    assert!(!str_eq("tele", "telegram"));
    assert!(str_eq("", ""));
}

fn unescape(s: &str) -> String {
    s.replace("&lt;", "<").replace("&gt;", ">").replace("&amp;", "&")
}

#[test]
fn escaped_html_reads_back() {
    for s in ["a < b && c > d", "&amp;", "&lt;tag&gt;", "plain", ""] {
        let e = escape_html(s);
        assert_eq!(unescape(e.as_str()), s);
        for (i, _) in e.match_indices('&') {
            let rest = &e[i..];
            assert!(rest.starts_with("&amp;") || rest.starts_with("&lt;") || rest.starts_with("&gt;"));
        }
    }
}

#[test]
fn strip_html_keeps_characters_in_order_and_is_idempotent() {
    let s = "a<b>c <i>d</i> e>f";
    let out = strip_html(s);
    let mut rest = s.chars();
    assert!(out.chars().all(|c| rest.any(|d| d == c)));
    assert_eq!(strip_html(out.as_str()), out);
}
