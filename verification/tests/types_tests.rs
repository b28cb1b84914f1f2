use openfeedback::i18n::Locale;
use openfeedback::providers::{decision_response, provider_timeout, timeout_notice, DISCORD, TELEGRAM};
use openfeedback::types::{timestamp_from, Decision, FeedbackRequest, FeedbackResponse, Timestamp, TimeoutKind};

#[test]
fn exit_codes() {
    let ts = Timestamp { secs: 0, nanos: 0 };
    let approved = FeedbackResponse::decided(Decision::Approved, "u".to_string(), 1, None, "t", "telegram", ts);
    let rejected = FeedbackResponse::decided(Decision::Rejected, "u".to_string(), 1, None, "t", "telegram", ts);
    assert_eq!(approved.exit_code(), 0);
    assert_eq!(rejected.exit_code(), 1);
    assert_eq!(FeedbackResponse::timeout_at("t", ts).exit_code(), 2);
}

#[test]
fn timeout_response_shape() {
    let r = FeedbackResponse::timeout("Proceed with PR?").expect("a clock after 1970");
    assert_eq!(r.decision, Decision::Timeout);
    assert_eq!(r.user, "");
    assert_eq!(r.user_id, 0);
    assert_eq!(r.feedback, None);
    assert_eq!(r.request_title, "Proceed with PR?");
    assert_eq!(r.provider, None);
    assert_eq!(r.escalated_from, None);
    assert!(r.timestamp.nanos < 1_000_000_000);
    assert!(r.timestamp.secs > 1_600_000_000);
}

#[test]
fn with_provider_sets_only_the_provider() {
    let ts = Timestamp { secs: 5, nanos: 6 };
    let r = FeedbackResponse::timeout_at("t", ts).with_provider("discord");
    assert_eq!(r.provider.as_deref(), Some("discord"));
    assert_eq!(r.decision, Decision::Timeout);
    assert_eq!(r.timestamp, ts);
}

#[test]
fn decision_names() {
    assert_eq!(Decision::Approved.as_str(), "approved");
    assert_eq!(Decision::Rejected.as_str(), "rejected");
    assert_eq!(Decision::Timeout.as_str(), "timeout");
}

#[test]
fn timeout_kind_defaults_to_final() {
    assert_eq!(TimeoutKind::default(), TimeoutKind::Final);
}

#[test]
fn timeout_notices_follow_the_kind() {
    let m = Locale::En.messages();
    assert_eq!(timeout_notice(&m, TimeoutKind::Final), "\u{23F0} Request timed out \u{2014} no response received.");
    assert_eq!(timeout_notice(&m, TimeoutKind::Escalated), "\u{23E9} No response \u{2014} escalated to the next channel.");
}

#[test]
fn locale_tags_and_texts() {
    assert_eq!(Locale::En.tag(), "en");
    assert_eq!(Locale::ZhCN.tag(), "zh-CN");
    assert_eq!(Locale::ZhTW.tag(), "zh-TW");
    assert_eq!(Locale::En.messages().prompt_text, "Please approve or reject this request.");
    assert_eq!(Locale::ZhCN.messages().approved_callback, "\u{5DF2}\u{6279}\u{51C6} \u{2714}");
}

#[test]
fn provider_timeouts_name_the_provider() {
    let r = provider_timeout("Deploy?", "discord").expect("a clock after 1970");
    assert_eq!(r.decision, Decision::Timeout);
    assert_eq!(r.user, "");
    assert_eq!(r.user_id, 0);
    assert_eq!(r.provider.as_deref(), Some("discord"));
    assert_eq!(r.escalated_from, None);
    assert_eq!(r.exit_code(), 2);
}

#[test]
fn reasons_are_kept_only_after_a_rejection() {
    let ts = Timestamp { secs: 9, nanos: 0 };
    let req = |wait: u64| FeedbackRequest {
        title: "T".to_string(),
        body: String::new(),
        timeout_secs: 60,
        reject_feedback_timeout_secs: wait,
        timeout_kind: TimeoutKind::Final,
    };
    let r = decision_response(Decision::Rejected, "u".to_string(), 3, Some("too risky".to_string()), &req(60), "telegram", ts);
    assert_eq!(r.feedback.as_deref(), Some("too risky"));
    assert_eq!(r.provider.as_deref(), Some("telegram"));
    assert_eq!(r.request_title, "T");
    let r = decision_response(Decision::Approved, "u".to_string(), 3, Some("x".to_string()), &req(60), "telegram", ts);
    assert_eq!(r.feedback, None);
    let r = decision_response(Decision::Rejected, "u".to_string(), 3, Some("x".to_string()), &req(0), "telegram", ts);
    assert_eq!(r.feedback, None);
}

#[test]
fn clock_reads_after_1970() {
    let t = openfeedback::types::now().expect("a clock after 1970");
    assert!(t.secs > 1_600_000_000);
    assert!(t.nanos < 1_000_000_000);
}

#[test]
fn timestamp_from_clock_reading() {
    assert_eq!(timestamp_from(5, 6), Some(Timestamp { secs: 5, nanos: 6 }));
    assert_eq!(timestamp_from(1_700_000_000, 999_999_999), Some(Timestamp { secs: 1_700_000_000, nanos: 999_999_999 }));
    assert_eq!(timestamp_from(i64::MAX as u64, 0), Some(Timestamp { secs: i64::MAX, nanos: 0 }));
    assert_eq!(timestamp_from(i64::MAX as u64 + 1, 0), None);
    assert_eq!(timestamp_from(u64::MAX, 7), None);
}

#[test]
fn provider_names() {
    assert_eq!(TELEGRAM, "telegram");
    assert_eq!(DISCORD, "discord");
}
