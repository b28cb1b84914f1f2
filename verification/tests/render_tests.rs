use openfeedback::render::{body_source, BodySource};

#[test]
fn body_file_wins() {
    assert!(matches!(body_source(Some("/tmp/plan.md"), Some("inline")), BodySource::File(p) if p == "/tmp/plan.md"));
}

#[test]
fn inline_body() {
    assert!(matches!(body_source(None, Some("Release v2.0")), BodySource::Inline(t) if t == "Release v2.0"));
}

#[test]
fn missing_body_is_empty() {
    assert!(matches!(body_source(None, None), BodySource::Inline(t) if t.is_empty()));
}
