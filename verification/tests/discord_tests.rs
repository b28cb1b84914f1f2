use openfeedback::config::DiscordConfig;
use openfeedback::i18n::Locale;
use openfeedback::providers::discord::{
    display_name, hello_heartbeat, interaction_callback_url, DiscordProvider, DiscordUser, EventData,
    GatewayAction, GatewayError, GatewayFrame, GatewayPayload, GatewayState, InteractionOutcome,
    BTN_APPROVE, BTN_REJECT, BUTTON_STYLE_DANGER, BUTTON_STYLE_SUCCESS, INTENTS,
};
use openfeedback::providers::wants_feedback;
use openfeedback::types::{Decision, FeedbackRequest, TimeoutKind};

const OUR: &str = "9001";

fn provider(trusted: &[&str]) -> DiscordProvider {
    DiscordProvider::new(
        DiscordConfig {
            bot_token: "tok".to_string(),
            channel_id: "555".to_string(),
            application_id: "app".to_string(),
            trusted_user_ids: trusted.iter().map(|s| s.to_string()).collect(),
        },
        Locale::En,
    )
    .ok()
    .expect("an HTTP client")
}

fn user(id: Option<&str>, username: Option<&str>, global: Option<&str>) -> DiscordUser {
    DiscordUser {
        id: id.map(|s| s.to_string()),
        username: username.map(|s| s.to_string()),
        global_name: global.map(|s| s.to_string()),
        bot: None,
    }
}

fn empty_data() -> EventData {
    EventData {
        interaction_type: None,
        id: None,
        token: None,
        message_id: None,
        custom_id: None,
        has_member: false,
        member_user: user(None, None, None),
        user: user(None, None, None),
        channel_id: None,
        author: user(None, None, None),
        reference_id: None,
        content: None,
    }
}

fn click(custom_id: &str, member: bool, uid: &str) -> EventData {
    let mut d = empty_data();
    d.interaction_type = Some(3);
    d.id = Some("int1".to_string());
    d.token = Some("tk".to_string());
    d.message_id = Some(OUR.to_string());
    d.custom_id = Some(custom_id.to_string());
    d.has_member = member;
    if member {
        d.member_user = user(Some(uid), Some("ada"), Some("Ada L"));
    } else {
        d.user = user(Some(uid), Some("ada"), None);
    }
    d
}

fn message(channel: &str, author_id: &str, reference: Option<&str>, content: &str) -> EventData {
    let mut d = empty_data();
    d.channel_id = Some(channel.to_string());
    d.author = user(Some(author_id), Some("bob"), None);
    d.reference_id = reference.map(|s| s.to_string());
    d.content = Some(content.to_string());
    d
}

fn dispatch(event: &str, data: EventData, seq: Option<u64>) -> GatewayFrame {
    GatewayFrame::Text(GatewayPayload { op: Some(0), seq, event: Some(event.to_string()), data })
}

fn op(code: Option<u64>) -> GatewayFrame {
    GatewayFrame::Text(GatewayPayload { op: code, seq: None, event: None, data: empty_data() })
}

fn request(reject_wait: u64) -> FeedbackRequest {
    FeedbackRequest {
        title: "Ship *it*?".to_string(),
        body: "**body** stays".to_string(),
        timeout_secs: 60,
        reject_feedback_timeout_secs: reject_wait,
        timeout_kind: TimeoutKind::Final,
    }
}

#[test]
fn display_name_rules() {
    assert_eq!(display_name(&user(None, Some("ada"), Some("Ada L"))), "Ada L");
    assert_eq!(display_name(&user(None, Some("ada"), Some(""))), "@ada");
    assert_eq!(display_name(&user(None, Some("ada"), None)), "@ada");
    assert_eq!(display_name(&user(None, None, None)), "unknown");
}

#[test]
fn discord_trust_rules() {
    assert!(provider(&[]).is_trusted("1"));
    assert!(provider(&["1", "2"]).is_trusted("2"));
    assert!(!provider(&["1"]).is_trusted("2"));
}

#[test]
fn content_and_components() {
    let p = provider(&[]);
    assert_eq!(
        p.build_content(&request(0)),
        "\u{1F50D} **Ship \\*it\\*?**\n\n**body** stays\n\n_Please approve or reject this request._"
    );
    let rows = p.build_components(false);
    assert_eq!(rows.len(), 1);
    assert_eq!(rows[0].components[0].custom_id, BTN_APPROVE);
    assert_eq!(rows[0].components[0].style, BUTTON_STYLE_SUCCESS);
    assert_eq!(rows[0].components[0].label, "\u{2705} Approve");
    assert_eq!(rows[0].components[1].custom_id, BTN_REJECT);
    assert_eq!(rows[0].components[1].style, BUTTON_STYLE_DANGER);
    assert!(p.build_components(true)[0].components.iter().all(|b| b.disabled));
    assert_eq!(p.auth_header(), "Bot tok");
    assert_eq!(INTENTS, (1 << 9) | (1 << 12) | (1 << 15));
}

#[test]
fn discord_approve_click_decides() {
    let p = provider(&["42"]);
    match p.handle_interaction(&click(BTN_APPROVE, true, "42"), OUR, &request(60)) {
        InteractionOutcome::Decided { decision, user, user_id, interaction_id, token, updated_content, feedback_prompt } => {
            assert_eq!(decision, Decision::Approved);
            assert_eq!(user, "Ada L");
            assert_eq!(user_id, 42);
            assert_eq!(interaction_id, "int1");
            assert_eq!(token, "tk");
            assert_eq!(updated_content, format!("{}\n\nApproved \u{2714}", p.build_content(&request(60))));
            assert_eq!(feedback_prompt, None);
        }
        _ => panic!("expected a decision"),
    }
}

#[test]
fn reject_click_asks_for_a_reason() {
    let p = provider(&[]);
    match p.handle_interaction(&click(BTN_REJECT, false, "not-a-number"), OUR, &request(60)) {
        InteractionOutcome::Decided { decision, user, user_id, feedback_prompt, .. } => {
            assert_eq!(decision, Decision::Rejected);
            assert_eq!(user, "@ada");
            assert_eq!(user_id, 0);
            assert_eq!(
                feedback_prompt.as_deref(),
                Some("\u{274C} Rejected. Reply to this message to add a reason (or ignore to skip).")
            );
        }
        _ => panic!("expected a decision"),
    }
}

#[test]
fn reject_without_reason_time_posts_no_prompt() {
    let p = provider(&[]);
    match p.handle_interaction(&click(BTN_REJECT, false, "1"), OUR, &request(0)) {
        InteractionOutcome::Decided { decision, feedback_prompt, .. } => {
            assert_eq!(decision, Decision::Rejected);
            assert_eq!(feedback_prompt, None);
        }
        _ => panic!("expected a decision"),
    }
}

#[test]
fn untrusted_and_foreign_clicks() {
    let p = provider(&["1"]);
    assert!(matches!(
        p.handle_interaction(&click(BTN_APPROVE, false, "2"), OUR, &request(0)),
        InteractionOutcome::Untrusted { interaction_id, token } if interaction_id == "int1" && token == "tk"
    ));
    let mut other = click(BTN_APPROVE, false, "1");
    other.message_id = Some("1234".to_string());
    assert!(matches!(p.handle_interaction(&other, OUR, &request(0)), InteractionOutcome::Ignored));
    let mut wrong_type = click(BTN_APPROVE, false, "1");
    wrong_type.interaction_type = Some(2);
    assert!(matches!(p.handle_interaction(&wrong_type, OUR, &request(0)), InteractionOutcome::Ignored));
    assert!(matches!(p.handle_interaction(&click("other", false, "1"), OUR, &request(0)), InteractionOutcome::Ignored));
}

#[test]
fn reply_to_original_approves() {
    let p = provider(&["7"]);
    let r = p.match_reply_to_original(&message("555", "7", Some(OUR), "looks good"), OUR);
    assert_eq!(r, Some(("@bob".to_string(), 7, "looks good".to_string())));
    assert_eq!(p.match_reply_to_original(&message("556", "7", Some(OUR), "x"), OUR), None);
    assert_eq!(p.match_reply_to_original(&message("555", "8", Some(OUR), "x"), OUR), None);
    assert_eq!(p.match_reply_to_original(&message("555", "7", Some("1"), "x"), OUR), None);
    assert_eq!(p.match_reply_to_original(&message("555", "7", None, "x"), OUR), None);
    assert_eq!(p.match_reply_to_original(&message("555", "7", Some(OUR), ""), OUR), None);
    let mut from_bot = message("555", "7", Some(OUR), "x");
    from_bot.author.bot = Some(true);
    assert_eq!(p.match_reply_to_original(&from_bot, OUR), None);
}

#[test]
fn gateway_opcodes() {
    let p = provider(&[]);
    let mut st = GatewayState::new();
    let r = request(0);
    assert!(matches!(p.gateway_step(&mut st, &op(Some(11)), OUR, &r), GatewayAction::Continue));
    assert!(matches!(p.gateway_step(&mut st, &op(Some(1)), OUR, &r), GatewayAction::Heartbeat));
    match p.gateway_step(&mut st, &op(Some(7)), OUR, &r) {
        GatewayAction::Fail(e) => assert_eq!(e.message(), "Gateway asked us to reconnect/invalid-session (op 7)"),
        _ => panic!("expected failure"),
    }
    assert!(matches!(p.gateway_step(&mut st, &op(Some(9)), OUR, &r), GatewayAction::Fail(GatewayError::Reconnect(9))));
    assert!(matches!(p.gateway_step(&mut st, &op(None), OUR, &r), GatewayAction::Continue));
    assert!(matches!(p.gateway_step(&mut st, &GatewayFrame::Other, OUR, &r), GatewayAction::Continue));
    match p.gateway_step(&mut st, &GatewayFrame::Malformed, OUR, &r) {
        GatewayAction::Fail(e) => assert_eq!(e.message(), "Gateway payload not JSON"),
        _ => panic!("expected failure"),
    }
    match p.gateway_step(&mut st, &GatewayFrame::Close("None".to_string()), OUR, &r) {
        GatewayAction::Fail(e) => assert_eq!(e.message(), "Gateway closed: None"),
        _ => panic!("expected failure"),
    }
    match p.gateway_step(&mut st, &GatewayFrame::ReadError("reset".to_string()), OUR, &r) {
        GatewayAction::Fail(e) => assert_eq!(e.message(), "Gateway read error: reset"),
        _ => panic!("expected failure"),
    }
}

#[test]
fn gateway_tracks_sequence_numbers() {
    let p = provider(&[]);
    let mut st = GatewayState::new();
    let r = request(0);
    p.gateway_step(&mut st, &dispatch("READY", empty_data(), Some(3)), OUR, &r);
    assert_eq!(st.last_seq, Some(3));
    p.gateway_step(&mut st, &op(Some(11)), OUR, &r);
    assert_eq!(st.last_seq, Some(3));
}

#[test]
fn gateway_dispatches() {
    let p = provider(&[]);
    let mut st = GatewayState::new();
    let r = request(0);
    assert!(matches!(
        p.gateway_step(&mut st, &dispatch("INTERACTION_CREATE", click(BTN_APPROVE, false, "5"), None), OUR, &r),
        GatewayAction::Interaction(InteractionOutcome::Decided { decision: Decision::Approved, .. })
    ));
    match p.gateway_step(&mut st, &dispatch("MESSAGE_CREATE", message("555", "5", Some(OUR), "fine"), None), OUR, &r) {
        GatewayAction::ReplyApproved { user, user_id, text } => {
            assert_eq!(user, "@bob");
            assert_eq!(user_id, 5);
            assert_eq!(text, "fine");
        }
        _ => panic!("expected an approval"),
    }
    assert!(matches!(
        p.gateway_step(&mut st, &dispatch("MESSAGE_CREATE", message("555", "5", None, "fine"), None), OUR, &r),
        GatewayAction::Continue
    ));
}

#[test]
fn feedback_after_rejection() {
    let p = provider(&["5"]);
    let mut st = GatewayState::new();
    assert_eq!(p.feedback_step(&mut st, &dispatch("MESSAGE_CREATE", message("555", "5", None, "too risky"), Some(9))).as_deref(), Some("too risky"));
    assert_eq!(st.last_seq, Some(9));
    assert_eq!(p.feedback_step(&mut st, &dispatch("MESSAGE_CREATE", message("555", "6", None, "x"), None)), None);
    assert_eq!(p.feedback_step(&mut st, &dispatch("MESSAGE_CREATE", message("1", "5", None, "x"), None)), None);
    assert_eq!(p.feedback_step(&mut st, &dispatch("MESSAGE_CREATE", message("555", "5", None, ""), None)), None);
    assert_eq!(p.feedback_step(&mut st, &dispatch("TYPING_START", message("555", "5", None, "x"), None)), None);
    assert_eq!(p.feedback_step(&mut st, &GatewayFrame::Malformed), None);
}

#[test]
fn feedback_is_wanted_only_after_a_rejection_with_time() {
    assert!(wants_feedback(Decision::Rejected, &request(60)));
    assert!(!wants_feedback(Decision::Rejected, &request(0)));
    assert!(!wants_feedback(Decision::Approved, &request(60)));
}

#[test]
fn prompt_ids_are_kept_when_not_empty() {
    let mut st = GatewayState::new();
    st.record_feedback_prompt(Some(String::new()));
    assert_eq!(st.pending_feedback_prompt_id, None);
    st.record_feedback_prompt(Some("77".to_string()));
    assert_eq!(st.pending_feedback_prompt_id.as_deref(), Some("77"));
    st.record_feedback_prompt(None);
    assert_eq!(st.pending_feedback_prompt_id.as_deref(), Some("77"));
}

#[test]
fn hello_interval() {
    assert_eq!(hello_heartbeat(Some(41250)).ok(), Some(41250));
    assert_eq!(hello_heartbeat(None).err().unwrap().message(), "HELLO missing heartbeat_interval");
    assert_eq!(GatewayError::HeartbeatFailed.message(), "Gateway heartbeat send failed");
}

#[test]
fn rest_urls() {
    let p = provider(&[]);
    assert_eq!(p.messages_url(), "https://discord.com/api/v10/channels/555/messages");
    assert_eq!(p.message_url("77"), "https://discord.com/api/v10/channels/555/messages/77");
    assert_eq!(interaction_callback_url("1", "tk"), "https://discord.com/api/v10/interactions/1/tk/callback");
}
