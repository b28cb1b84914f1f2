use openfeedback::config::TelegramConfig;
use openfeedback::i18n::Locale;
use openfeedback::providers::telegram::{
    next_offset, CallbackMessage, CallbackQuery, Chat, Message, PollAction, ReplyMessage,
    ReplyToMessage, TelegramProvider, TelegramResponse, Update, UpdatesPhase, User,
};
use openfeedback::types::{Decision, FeedbackRequest, TimeoutKind};

const CHAT: i64 = -1001;
const SENT: i64 = 77;

fn provider(trusted: Vec<i64>) -> TelegramProvider {
    TelegramProvider::new(
        TelegramConfig { bot_token: "123:abc".to_string(), chat_id: CHAT, trusted_user_ids: trusted },
        Locale::En,
    )
    .ok()
    .expect("an HTTP client")
}

fn user(id: i64, username: Option<&str>, last: Option<&str>) -> User {
    User {
        id,
        first_name: "Ada".to_string(),
        last_name: last.map(|s| s.to_string()),
        username: username.map(|s| s.to_string()),
    }
}

fn click(from: User, message_id: i64, data: Option<&str>) -> Update {
    Update {
        update_id: 10,
        callback_query: Some(CallbackQuery {
            id: "cb1".to_string(),
            from,
            message: Some(CallbackMessage { message_id, chat: Chat { id: CHAT } }),
            data: data.map(|s| s.to_string()),
        }),
        message: None,
    }
}

fn reply(from: Option<User>, chat: i64, reply_to: Option<i64>, text: Option<&str>) -> Update {
    Update {
        update_id: 11,
        callback_query: None,
        message: Some(ReplyMessage {
            from,
            chat: Chat { id: chat },
            text: text.map(|s| s.to_string()),
            reply_to_message: reply_to.map(|id| Box::new(ReplyToMessage { message_id: id })),
        }),
    }
}

fn request() -> FeedbackRequest {
    FeedbackRequest {
        title: "Deploy <prod>?".to_string(),
        body: "Release v2.0 & friends".to_string(),
        timeout_secs: 300,
        reject_feedback_timeout_secs: 60,
        timeout_kind: TimeoutKind::Final,
    }
}

#[test]
fn base_url_carries_the_token() {
    assert_eq!(provider(vec![]).base_url, "https://api.telegram.org/bot123:abc");
}

#[test]
fn display_names() {
    assert_eq!(user(1, Some("ada"), Some("L")).display_name(), "@ada");
    assert_eq!(user(1, None, Some("Lovelace")).display_name(), "Ada Lovelace");
    assert_eq!(user(1, None, None).display_name(), "Ada");
}

#[test]
fn trust_rules() {
    assert!(provider(vec![]).is_trusted(5));
    assert!(provider(vec![1, 5]).is_trusted(5));
    assert!(!provider(vec![1, 2]).is_trusted(5));
}

#[test]
fn request_text_escapes_title_and_body() {
    assert_eq!(
        provider(vec![]).request_text(&request()),
        "\u{1F50D} <b>Deploy &lt;prod&gt;?</b>\n\nRelease v2.0 &amp; friends\n\n<i>Please approve or reject this request.</i>"
    );
}

#[test]
fn keyboard_has_approve_and_reject() {
    let k = provider(vec![]).keyboard();
    assert_eq!(k.inline_keyboard.len(), 1);
    assert_eq!(k.inline_keyboard[0][0].text, "\u{2705} Approve");
    assert_eq!(k.inline_keyboard[0][0].callback_data, "approve");
    assert_eq!(k.inline_keyboard[0][1].text, "\u{274C} Reject");
    assert_eq!(k.inline_keyboard[0][1].callback_data, "reject");
}

#[test]
fn approve_click_decides() {
    match provider(vec![42]).poll_step(SENT, &click(user(42, Some("ada"), None), SENT, Some("approve"))) {
        PollAction::Button { decision, callback_id, callback_text, chat_id, message_id, user, user_id } => {
            assert_eq!(decision, Decision::Approved);
            assert_eq!(callback_id, "cb1");
            assert_eq!(callback_text, "Approved \u{2714}");
            assert_eq!(chat_id, CHAT);
            assert_eq!(message_id, SENT);
            assert_eq!(user, "@ada");
            assert_eq!(user_id, 42);
        }
        _ => panic!("expected a decision"),
    }
}

#[test]
fn reject_click_decides() {
    match provider(vec![]).poll_step(SENT, &click(user(7, None, None), SENT, Some("reject"))) {
        PollAction::Button { decision, callback_text, .. } => {
            assert_eq!(decision, Decision::Rejected);
            assert_eq!(callback_text, "Rejected \u{2714}");
        }
        _ => panic!("expected a decision"),
    }
}

#[test]
fn untrusted_click_is_refused() {
    match provider(vec![1]).poll_step(SENT, &click(user(42, None, None), SENT, Some("approve"))) {
        PollAction::Unauthorized { callback_id, text } => {
            assert_eq!(callback_id, "cb1");
            assert_eq!(text, "You are not authorized.");
        }
        _ => panic!("expected a refusal"),
    }
}

#[test]
fn clicks_elsewhere_are_skipped() {
    let p = provider(vec![]);
    assert!(matches!(p.poll_step(SENT, &click(user(1, None, None), SENT + 1, Some("approve"))), PollAction::Skip));
    assert!(matches!(p.poll_step(SENT, &click(user(1, None, None), SENT, Some("maybe"))), PollAction::Skip));
    assert!(matches!(p.poll_step(SENT, &click(user(1, None, None), SENT, None)), PollAction::Skip));
    let mut no_message = click(user(1, None, None), SENT, Some("approve"));
    no_message.callback_query.as_mut().unwrap().message = None;
    assert!(matches!(p.poll_step(SENT, &no_message), PollAction::Skip));
}

#[test]
fn reply_to_request_approves_with_feedback() {
    match provider(vec![42]).poll_step(SENT, &reply(Some(user(42, None, Some("L"))), CHAT, Some(SENT), Some("ok but hurry"))) {
        PollAction::ReplyApproval { user, user_id, feedback } => {
            assert_eq!(user, "Ada L");
            assert_eq!(user_id, 42);
            assert_eq!(feedback.as_deref(), Some("ok but hurry"));
        }
        _ => panic!("expected an approval"),
    }
}

#[test]
fn reply_without_sender_is_unknown_user() {
    match provider(vec![]).poll_step(SENT, &reply(None, CHAT, Some(SENT), None)) {
        PollAction::ReplyApproval { user, user_id, feedback } => {
            assert_eq!(user, "unknown");
            assert_eq!(user_id, 0);
            assert_eq!(feedback, None);
        }
        _ => panic!("expected an approval"),
    }
}

#[test]
fn replies_elsewhere_are_skipped() {
    let p = provider(vec![42]);
    assert!(matches!(p.poll_step(SENT, &reply(Some(user(42, None, None)), CHAT + 1, Some(SENT), Some("x"))), PollAction::Skip));
    assert!(matches!(p.poll_step(SENT, &reply(Some(user(42, None, None)), CHAT, Some(SENT + 1), Some("x"))), PollAction::Skip));
    assert!(matches!(p.poll_step(SENT, &reply(Some(user(42, None, None)), CHAT, None, Some("x"))), PollAction::Skip));
    assert!(matches!(p.poll_step(SENT, &reply(Some(user(9, None, None)), CHAT, Some(SENT), Some("x"))), PollAction::Skip));
}

#[test]
fn reject_feedback_from_trusted_message() {
    let p = provider(vec![42]);
    assert_eq!(p.reject_feedback(&reply(Some(user(42, None, None)), CHAT, None, Some("too risky"))).as_deref(), Some("too risky"));
    assert_eq!(p.reject_feedback(&reply(Some(user(9, None, None)), CHAT, None, Some("x"))), None);
    assert_eq!(p.reject_feedback(&reply(Some(user(42, None, None)), CHAT + 1, None, Some("x"))), None);
    assert_eq!(p.reject_feedback(&reply(Some(user(42, None, None)), CHAT, None, None)), None);
    assert_eq!(p.reject_feedback(&click(user(42, None, None), SENT, Some("approve"))), None);
}

#[test]
fn offsets_acknowledge_updates() {
    assert_eq!(next_offset(&click(user(1, None, None), SENT, None)), 11);
}

#[test]
fn sent_message_id_from_answer() {
    let ok = TelegramResponse { ok: true, result: Some(Message { message_id: 5 }), description: None };
    assert_eq!(TelegramProvider::sent_message_id(ok).ok(), Some(5));
    let refused: TelegramResponse<Message> = TelegramResponse { ok: false, result: None, description: Some("Bad Request".to_string()) };
    assert_eq!(TelegramProvider::sent_message_id(refused).err().unwrap().message(), "Telegram sendMessage failed: Bad Request");
    let empty: TelegramResponse<Message> = TelegramResponse { ok: true, result: None, description: None };
    assert_eq!(TelegramProvider::sent_message_id(empty).err().unwrap().message(), "No message in response");
}

#[test]
fn locale_texts_follow_the_configuration() {
    let p = TelegramProvider::new(
        TelegramConfig { bot_token: "t".to_string(), chat_id: 1, trusted_user_ids: vec![] },
        Locale::ZhTW,
    )
    .ok()
    .expect("an HTTP client");
    assert_eq!(p.messages.approve_button, "\u{2705} \u{6279}\u{51C6}");
    assert_eq!(p.messages.reject_button, "\u{274C} \u{62D2}\u{7D55}");
}

#[test]
fn long_poll_urls() {
    let p = provider(vec![]);
    assert_eq!(
        p.updates_url(3600, UpdatesPhase::Decision, None),
        "https://api.telegram.org/bot123:abc/getUpdates?timeout=30&allowed_updates=[\"callback_query\",\"message\"]"
    );
    assert_eq!(
        p.updates_url(4, UpdatesPhase::RejectFeedback, Some(12)),
        "https://api.telegram.org/bot123:abc/getUpdates?timeout=4&allowed_updates=[\"message\"]&offset=12"
    );
    assert_eq!(
        p.updates_url(60, UpdatesPhase::RejectFeedback, Some(-5)),
        "https://api.telegram.org/bot123:abc/getUpdates?timeout=10&allowed_updates=[\"message\"]&offset=-5"
    );
    assert!(p.updates_url(0, UpdatesPhase::Decision, Some(i64::MIN)).ends_with("timeout=0&allowed_updates=[\"callback_query\",\"message\"]&offset=-9223372036854775808"));
}
