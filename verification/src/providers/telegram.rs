//! Telegram: the request message, its buttons, and the decisions taken on
//! each update that long polling returns.
use vstd::prelude::*;

use crate::config::{ConfigError, ConfigErrorView, TelegramConfig};
use crate::i18n::{messages_of, Locale, Messages};
use crate::text::{
    escape_html, opt_view, owned, push_char, push_decimal, push_signed_decimal, push_str,
    spec_decimal, spec_escape_html, spec_signed_decimal, str_eq,
};
use crate::types::{Decision, FeedbackRequest};

verus! {

/// A user as Telegram describes one.
pub struct User {
    pub id: i64,
    pub first_name: String,
    pub last_name: Option<String>,
    pub username: Option<String>,
}

/// A chat, by its id.
pub struct Chat {
    pub id: i64,
}

/// The message a callback button belongs to.
pub struct CallbackMessage {
    pub message_id: i64,
    pub chat: Chat,
}

/// A click on an inline button.
pub struct CallbackQuery {
    pub id: String,
    pub from: User,
    pub message: Option<CallbackMessage>,
    pub data: Option<String>,
}

/// The message a reply answers.
pub struct ReplyToMessage {
    pub message_id: i64,
}

/// A message posted in a chat.
pub struct ReplyMessage {
    pub from: Option<User>,
    pub chat: Chat,
    pub text: Option<String>,
    pub reply_to_message: Option<Box<ReplyToMessage>>,
}

/// One entry of a `getUpdates` answer.
pub struct Update {
    pub update_id: i64,
    pub callback_query: Option<CallbackQuery>,
    pub message: Option<ReplyMessage>,
}

/// A sent message, by its id.
pub struct Message {
    pub message_id: i64,
}

/// The envelope of every Bot API answer.
pub struct TelegramResponse<T> {
    pub ok: bool,
    pub result: Option<T>,
    pub description: Option<String>,
}

/// One inline button: its label and the data a click reports.
pub struct InlineKeyboardButton {
    pub text: String,
    pub callback_data: String,
}

/// Inline buttons, row by row.
pub struct InlineKeyboardMarkup {
    pub inline_keyboard: Vec<Vec<InlineKeyboardButton>>,
}

/// The name shown for a user: `@username` when there is one, else the
/// first name followed by the last name when there is one.
pub open spec fn spec_display_name(u: User) -> Seq<char> {
    match u.username {
        Some(name) => seq!['@'] + name@,
        None => match u.last_name {
            Some(last) => u.first_name@ + seq![' '] + last@,
            None => u.first_name@,
        },
    }
}

impl User {
    /// The name shown for this user.
    pub fn display_name(&self) -> (n: String)
        ensures
            n@ == spec_display_name(*self),
    {
        match &self.username {
            Some(name) => {
                let mut out = String::new();
                push_char(&mut out, '@');
                push_str(&mut out, name.as_str());
                proof {
                    assert(out@ =~= seq!['@'] + name@);
                }
                out
            },
            None => match &self.last_name {
                Some(last) => {
                    let mut out = self.first_name.clone();
                    push_char(&mut out, ' ');
                    push_str(&mut out, last.as_str());
                    proof {
                        assert(out@ =~= self.first_name@ + seq![' '] + last@);
                    }
                    out
                },
                None => self.first_name.clone(),
            },
        }
    }
}

/// Whether `user_id` may decide: anyone when the list is empty, else only
/// the listed ids.
pub open spec fn spec_is_trusted(trusted: Seq<i64>, user_id: i64) -> bool {
    trusted.len() == 0 || trusted.contains(user_id)
}

/// The Telegram side of a request: the bot's configuration, its HTTP
/// client, the Bot API base URL and the texts of the chosen locale.
pub struct TelegramProvider {
    pub config: TelegramConfig,
    pub client: reqwest::Client,
    pub base_url: String,
    pub messages: Messages,
}

/// The Bot API base URL of a bot token.
pub open spec fn spec_base_url(token: Seq<char>) -> Seq<char> {
    "https://api.telegram.org/bot"@ + token
}

/// The text of the request message: a magnifier, the escaped title in
/// bold, the escaped body, and the prompt in italics.
pub open spec fn spec_request_text(title: Seq<char>, body: Seq<char>, prompt: Seq<char>) -> Seq<char> {
    "\u{1F50D} <b>"@ + spec_escape_html(title) + "</b>\n\n"@ + spec_escape_html(body)
        + "\n\n<i>"@ + prompt + "</i>"@
}

/// What the poll loop does with one update.
pub enum PollAction {
    /// Not for this request: go on polling.
    Skip,
    /// A click by a user who may not decide: answer the callback with the
    /// refusal `text` and go on polling.
    Unauthorized { callback_id: String, text: &'static str },
    /// A trusted click on a decision button: answer the callback with
    /// `callback_text`, remove the buttons of `message_id` in `chat_id`, and
    /// (after asking for a reason on a rejection) report the decision.
    Button {
        decision: Decision,
        callback_id: String,
        callback_text: &'static str,
        chat_id: i64,
        message_id: i64,
        user: String,
        user_id: i64,
    },
    /// A trusted reply to the request message: remove the buttons and
    /// report an approval that carries the reply as feedback.
    ReplyApproval { user: String, user_id: i64, feedback: Option<String> },
}

/// Which updates a long poll waits for.
#[derive(Clone, Copy, PartialEq, Eq, Structural)]
pub enum UpdatesPhase {
    /// Waiting for a decision: button clicks and messages, for up to 30 s
    /// per poll.
    Decision,
    /// Waiting for the reason of a rejection: messages only, for up to
    /// 10 s per poll.
    RejectFeedback,
}

/// Seconds to wait between two long polls.
pub const POLL_INTERVAL_SECS: u64 = 3;

/// The longest wait of one long poll in a phase, in seconds.
pub open spec fn spec_poll_cap(phase: UpdatesPhase) -> u64 {
    match phase {
        UpdatesPhase::Decision => 30,
        UpdatesPhase::RejectFeedback => 10,
    }
}

/// The update kinds a long poll asks for, as a JSON list.
pub open spec fn spec_allowed_updates(phase: UpdatesPhase) -> Seq<char> {
    match phase {
        UpdatesPhase::Decision => "[\"callback_query\",\"message\"]"@,
        UpdatesPhase::RejectFeedback => "[\"message\"]"@,
    }
}

/// The `getUpdates` URL of a long poll that may wait `remaining_secs`,
/// capped by the phase, acknowledging updates before `offset`.
pub open spec fn spec_updates_url(
    base_url: Seq<char>,
    remaining_secs: u64,
    phase: UpdatesPhase,
    offset: Option<i64>,
) -> Seq<char> {
    let wait = if remaining_secs < spec_poll_cap(phase) {
        remaining_secs
    } else {
        spec_poll_cap(phase)
    };
    base_url + "/getUpdates?timeout="@ + spec_decimal(wait as nat) + "&allowed_updates="@
        + spec_allowed_updates(phase) + match offset {
        Some(o) => "&offset="@ + spec_signed_decimal(o as int),
        None => Seq::empty(),
    }
}

/// The answer to a click by a user who may not decide.
pub const NOT_AUTHORIZED: &'static str = "You are not authorized.";

/// The text of a callback's data, empty when there is none.
pub open spec fn spec_data(data: Option<String>) -> Seq<char> {
    match data {
        Some(d) => d@,
        None => Seq::empty(),
    }
}

/// Whether `a` is what the poll loop does with update `u` for the request
/// message `sent` posted in chat `chat_id`.
pub open spec fn spec_poll_action(
    trusted: Seq<i64>,
    chat_id: i64,
    msgs: Messages,
    sent: i64,
    u: Update,
    a: PollAction,
) -> bool {
    match u.callback_query {
        Some(cb) => match cb.message {
            None => a is Skip,
            Some(m) => if m.message_id != sent {
                a is Skip
            } else if !spec_is_trusted(trusted, cb.from.id) {
                a matches PollAction::Unauthorized { callback_id, text } && callback_id@ == cb.id@
                    && text@ == NOT_AUTHORIZED@
            } else if spec_data(cb.data) == "approve"@ || spec_data(cb.data) == "reject"@ {
                let approve = spec_data(cb.data) == "approve"@;
                a matches PollAction::Button {
                    decision,
                    callback_id,
                    callback_text,
                    chat_id: c,
                    message_id,
                    user,
                    user_id,
                } && decision == (if approve {
                    Decision::Approved
                } else {
                    Decision::Rejected
                }) && callback_text@ == (if approve {
                    msgs.approved_callback@
                } else {
                    msgs.rejected_callback@
                }) && callback_id@ == cb.id@ && c == m.chat.id && message_id == m.message_id
                    && user@ == spec_display_name(cb.from) && user_id == cb.from.id
            } else {
                a is Skip
            },
        },
        None => match u.message {
            None => a is Skip,
            Some(msg) => if msg.chat.id != chat_id {
                a is Skip
            } else {
                match msg.reply_to_message {
                    None => a is Skip,
                    Some(r) => if r.message_id != sent {
                        a is Skip
                    } else {
                        let uid = match msg.from {
                            Some(f) => f.id,
                            None => 0,
                        };
                        if !spec_is_trusted(trusted, uid) {
                            a is Skip
                        } else {
                            a matches PollAction::ReplyApproval { user, user_id, feedback }
                                && user_id == uid && opt_view(feedback) == opt_view(msg.text)
                                && user@ == match msg.from {
                                Some(f) => spec_display_name(f),
                                None => "unknown"@,
                            }
                        }
                    },
                }
            },
        },
    }
}

/// The reason a trusted user gives after rejecting: the text of a message
/// in the configured chat, if the update holds one.
pub open spec fn spec_reject_feedback(trusted: Seq<i64>, chat_id: i64, u: Update) -> Option<Seq<char>> {
    match u.message {
        Some(msg) => if msg.chat.id == chat_id && spec_is_trusted(
            trusted,
            match msg.from {
                Some(f) => f.id,
                None => 0,
            },
        ) {
            opt_view(msg.text)
        } else {
            None
        },
        None => None,
    }
}

/// Why posting the request message failed.
pub enum TelegramError {
    /// The Bot API refused the message, with its description.
    SendFailed(String),
    /// The Bot API accepted the message but sent none back.
    NoMessage,
}

/// The text shown for a Telegram error.
pub open spec fn spec_telegram_error_message(e: TelegramError) -> Seq<char> {
    match e {
        TelegramError::SendFailed(d) => "Telegram sendMessage failed: "@ + d@,
        TelegramError::NoMessage => "No message in response"@,
    }
}

impl TelegramError {
    /// The text shown for this error.
    pub fn message(&self) -> (m: String)
        ensures
            m@ == spec_telegram_error_message(*self),
    {
        match self {
            TelegramError::SendFailed(d) => {
                let mut m = owned("Telegram sendMessage failed: ");
                push_str(&mut m, d.as_str());
                m
            },
            TelegramError::NoMessage => owned("No message in response"),
        }
    }
}

/// The offset that acknowledges `update` in the next `getUpdates` call.
pub fn next_offset(update: &Update) -> (o: i64)
    requires
        update.update_id < i64::MAX,
    ensures
        o == update.update_id + 1,
{
    update.update_id + 1
}

/// Whether a list of ids holds `id`.
fn contains_id(ids: &Vec<i64>, id: i64) -> (r: bool)
    ensures
        r == ids@.contains(id),
{
    let mut i: usize = 0;
    while i < ids.len()
        invariant
            i <= ids.len(),
            forall|j: int| 0 <= j < i ==> ids@[j] != id,
        decreases ids.len() - i,
    {
        if ids[i] == id {
            proof {
                assert(ids@[i as int] == id);
            }
            return true;
        }
        i = i + 1;
    }
    false
}

impl TelegramProvider {
    /// The Telegram side of a request, with the texts of `locale`; an
    /// error when the machine cannot provide an HTTP client.
    pub fn new(config: TelegramConfig, locale: Locale) -> (r: Result<Self, ConfigError>)
        ensures
            match r {
                Ok(p) => {
                    &&& p.config == config
                    &&& p.base_url@ == spec_base_url(config.bot_token@)
                    &&& messages_of(locale, p.messages)
                },
                Err(e) => e@ == ConfigErrorView::HttpClientUnavailable,
            },
    {
        let client = match super::new_http_client() {
            Ok(c) => c,
            Err(e) => return Err(e),
        };
        let mut base_url = owned("https://api.telegram.org/bot");
        push_str(&mut base_url, config.bot_token.as_str());
        Ok(TelegramProvider { config, client, base_url, messages: locale.messages() })
    }

    /// Whether `user_id` may decide.
    pub fn is_trusted(&self, user_id: i64) -> (r: bool)
        ensures
            r == spec_is_trusted(self.config.trusted_user_ids@, user_id),
    {
        self.config.trusted_user_ids.len() == 0 || contains_id(
            &self.config.trusted_user_ids,
            user_id,
        )
    }

    /// The text of the request message, in Telegram's HTML parse mode.
    pub fn request_text(&self, request: &FeedbackRequest) -> (t: String)
        ensures
            t@ == spec_request_text(request.title@, request.body@, self.messages.prompt_text@),
    {
        let mut t = owned("\u{1F50D} <b>");
        let title = escape_html(request.title.as_str());
        push_str(&mut t, title.as_str());
        push_str(&mut t, "</b>\n\n");
        let body = escape_html(request.body.as_str());
        push_str(&mut t, body.as_str());
        push_str(&mut t, "\n\n<i>");
        push_str(&mut t, self.messages.prompt_text);
        push_str(&mut t, "</i>");
        t
    }

    /// The `getUpdates` URL of a long poll in `phase` that may wait
    /// `remaining_secs`, acknowledging the updates before `offset`.
    pub fn updates_url(&self, remaining_secs: u64, phase: UpdatesPhase, offset: Option<i64>) -> (u: String)
        ensures
            u@ == spec_updates_url(self.base_url@, remaining_secs, phase, offset),
    {
        let cap: u64 = match phase {
            UpdatesPhase::Decision => 30,
            UpdatesPhase::RejectFeedback => 10,
        };
        let wait = if remaining_secs < cap {
            remaining_secs
        } else {
            cap
        };
        let mut u = self.base_url.clone();
        push_str(&mut u, "/getUpdates?timeout=");
        push_decimal(&mut u, wait);
        push_str(&mut u, "&allowed_updates=");
        match phase {
            UpdatesPhase::Decision => push_str(&mut u, "[\"callback_query\",\"message\"]"),
            UpdatesPhase::RejectFeedback => push_str(&mut u, "[\"message\"]"),
        }
        let ghost before = u@;
        match offset {
            Some(o) => {
                push_str(&mut u, "&offset=");
                push_signed_decimal(&mut u, o);
            },
            None => {
                proof {
                    assert(u@ =~= before + Seq::<char>::empty());
                }
            },
        }
        u
    }

    /// The buttons under the request message: one row holding Approve
    /// (data `approve`) and Reject (data `reject`).
    pub fn keyboard(&self) -> (k: InlineKeyboardMarkup)
        ensures
            k.inline_keyboard@.len() == 1,
            k.inline_keyboard@[0]@.len() == 2,
            k.inline_keyboard@[0]@[0].text@ == self.messages.approve_button@,
            k.inline_keyboard@[0]@[0].callback_data@ == "approve"@,
            k.inline_keyboard@[0]@[1].text@ == self.messages.reject_button@,
            k.inline_keyboard@[0]@[1].callback_data@ == "reject"@,
    {
        let mut row: Vec<InlineKeyboardButton> = Vec::new();
        row.push(
            InlineKeyboardButton {
                text: owned(self.messages.approve_button),
                callback_data: owned("approve"),
            },
        );
        row.push(
            InlineKeyboardButton {
                text: owned(self.messages.reject_button),
                callback_data: owned("reject"),
            },
        );
        let mut rows: Vec<Vec<InlineKeyboardButton>> = Vec::new();
        rows.push(row);
        InlineKeyboardMarkup { inline_keyboard: rows }
    }

    /// The id of the posted request message, from the Bot API's answer.
    pub fn sent_message_id(resp: TelegramResponse<Message>) -> (r: Result<i64, TelegramError>)
        ensures
            !resp.ok ==> (r matches Err(TelegramError::SendFailed(d)) && d@ == spec_data(
                resp.description,
            )),
            resp.ok ==> match resp.result {
                Some(m) => r == Ok::<i64, TelegramError>(m.message_id),
                None => r matches Err(TelegramError::NoMessage),
            },
    {
        if !resp.ok {
            let d = match resp.description {
                Some(d) => d,
                None => String::new(),
            };
            return Err(TelegramError::SendFailed(d));
        }
        match resp.result {
            Some(m) => Ok(m.message_id),
            None => Err(TelegramError::NoMessage),
        }
    }

    /// What to do with one update while waiting for a decision on the
    /// request message `sent_message_id`.
    pub fn poll_step(&self, sent_message_id: i64, update: &Update) -> (a: PollAction)
        ensures
            spec_poll_action(
                self.config.trusted_user_ids@,
                self.config.chat_id,
                self.messages,
                sent_message_id,
                *update,
                a,
            ),
    {
        match &update.callback_query {
            Some(cb) => {
                let data: &str = match &cb.data {
                    Some(d) => d.as_str(),
                    None => "",
                };
                proof {
                    reveal_strlit("");
                    assert(data@ == spec_data(cb.data));
                }
                let cb_msg = match &cb.message {
                    Some(m) => m,
                    None => return PollAction::Skip,
                };
                if cb_msg.message_id != sent_message_id {
                    return PollAction::Skip;
                }
                if !self.is_trusted(cb.from.id) {
                    return PollAction::Unauthorized { callback_id: cb.id.clone(), text: NOT_AUTHORIZED };
                }
                let decision = if str_eq(data, "approve") {
                    Decision::Approved
                } else if str_eq(data, "reject") {
                    Decision::Rejected
                } else {
                    return PollAction::Skip;
                };
                let callback_text = if decision == Decision::Approved {
                    self.messages.approved_callback
                } else {
                    self.messages.rejected_callback
                };
                PollAction::Button {
                    decision,
                    callback_id: cb.id.clone(),
                    callback_text,
                    chat_id: cb_msg.chat.id,
                    message_id: cb_msg.message_id,
                    user: cb.from.display_name(),
                    user_id: cb.from.id,
                }
            },
            None => match &update.message {
                None => PollAction::Skip,
                Some(msg) => {
                    if msg.chat.id != self.config.chat_id {
                        return PollAction::Skip;
                    }
                    match &msg.reply_to_message {
                        None => PollAction::Skip,
                        Some(reply_to) => {
                            if reply_to.message_id != sent_message_id {
                                return PollAction::Skip;
                            }
                            let user_id = match &msg.from {
                                Some(u) => u.id,
                                None => 0,
                            };
                            if !self.is_trusted(user_id) {
                                return PollAction::Skip;
                            }
                            let user = match &msg.from {
                                Some(u) => u.display_name(),
                                None => owned("unknown"),
                            };
                            PollAction::ReplyApproval {
                                user,
                                user_id,
                                feedback: crate::text::copy_opt(&msg.text),
                            }
                        },
                    }
                },
            },
        }
    }

    /// The reason carried by one update while waiting after a rejection:
    /// any text message from a trusted user in the configured chat.
    pub fn reject_feedback(&self, update: &Update) -> (r: Option<String>)
        ensures
            opt_view(r) == spec_reject_feedback(
                self.config.trusted_user_ids@,
                self.config.chat_id,
                *update,
            ),
    {
        match &update.message {
            Some(msg) => {
                if msg.chat.id != self.config.chat_id {
                    return None;
                }
                let user_id = match &msg.from {
                    Some(u) => u.id,
                    None => 0,
                };
                if !self.is_trusted(user_id) {
                    return None;
                }
                crate::text::copy_opt(&msg.text)
            },
            None => None,
        }
    }
}

/// A click counts only on the request message itself, only from a trusted
/// user and only on one of the two decision buttons; a reply counts only
/// when it answers the request message from a trusted user in the
/// configured chat, and then it approves with the reply as feedback.
pub proof fn lemma_poll_decides_only_for_trusted(
    trusted: Seq<i64>,
    chat_id: i64,
    msgs: Messages,
    sent: i64,
    u: Update,
    a: PollAction,
)
    requires
        spec_poll_action(trusted, chat_id, msgs, sent, u, a),
    ensures
        a matches PollAction::Button { decision, user_id, message_id, .. } ==> {
            &&& spec_is_trusted(trusted, user_id)
            &&& message_id == sent
            &&& (decision == Decision::Approved || decision == Decision::Rejected)
        },
        a matches PollAction::ReplyApproval { user_id, .. } ==> {
            &&& spec_is_trusted(trusted, user_id)
            &&& u.callback_query is None
            &&& u.message matches Some(m) && m.chat.id == chat_id && (
            m.reply_to_message matches Some(r) && r.message_id == sent)
        },
{
}

/// A reply to the request message, posted in the configured chat by a
/// trusted user, approves the request with the reply's text as feedback.
pub proof fn lemma_reply_approves_with_feedback(
    trusted: Seq<i64>,
    chat_id: i64,
    msgs: Messages,
    sent: i64,
    u: Update,
    a: PollAction,
)
    requires
        spec_poll_action(trusted, chat_id, msgs, sent, u, a),
        u.callback_query is None,
        u.message matches Some(m) && m.chat.id == chat_id && (m.reply_to_message matches Some(r)
            && r.message_id == sent) && spec_is_trusted(
            trusted,
            match m.from {
                Some(f) => f.id,
                None => 0,
            },
        ),
    ensures
        a matches PollAction::ReplyApproval { feedback, .. } && opt_view(feedback) == opt_view(
            u.message->0.text,
        ),
{
}

/// Every id on the trusted list may decide, however long the list is.
pub proof fn lemma_listed_user_is_trusted(trusted: Seq<i64>, i: int)
    requires
        0 <= i < trusted.len(),
    ensures
        spec_is_trusted(trusted, trusted[i]),
{
    assert(trusted.contains(trusted[i]));
}

/// With an empty trusted list, anyone may decide; with a non-empty one,
/// exactly the listed ids may.
pub proof fn lemma_trust_is_membership(trusted: Seq<i64>, user_id: i64)
    ensures
        trusted.len() == 0 ==> spec_is_trusted(trusted, user_id),
        trusted.len() > 0 ==> (spec_is_trusted(trusted, user_id) <==> exists|i: int|
            0 <= i < trusted.len() && trusted[i] == user_id),
{
    if trusted.len() > 0 && spec_is_trusted(trusted, user_id) {
        let i = trusted.index_of(user_id);
        assert(0 <= i < trusted.len() && trusted[i] == user_id);
    }
}

/// A click on the request message's approve or reject button by a user
/// that is on the trusted list (or by anyone when the list is empty)
/// decides the request accordingly, on behalf of the clicking user.
pub proof fn lemma_trusted_click_decides(
    trusted: Seq<i64>,
    chat_id: i64,
    msgs: Messages,
    sent: i64,
    u: Update,
    a: PollAction,
)
    requires
        spec_poll_action(trusted, chat_id, msgs, sent, u, a),
        u.callback_query matches Some(cb) && (cb.message matches Some(m) && m.message_id == sent)
            && (trusted.len() == 0 || exists|i: int| 0 <= i < trusted.len() && trusted[i] == cb.from.id)
            && (cb.data matches Some(d) && (d@ == "approve"@ || d@ == "reject"@)),
    ensures
        a matches PollAction::Button { decision, user_id, message_id, .. } && user_id
            == u.callback_query->0.from.id && message_id == sent && decision == (if u.callback_query->0.data->0@
            == "approve"@ {
            Decision::Approved
        } else {
            Decision::Rejected
        }),
{
    let cb = u.callback_query->0;
    if trusted.len() > 0 {
        let i = choose|i: int| 0 <= i < trusted.len() && trusted[i] == cb.from.id;
        assert(trusted.contains(trusted[i]));
    }
    reveal_strlit("approve");
    reveal_strlit("reject");
    assert("approve"@ != "reject"@) by {
        assert("approve"@[0] != "reject"@[0]);
    }
}

/// After a rejection, a text message posted in the configured chat by a
/// user on the trusted list (by anyone when the list is empty) is taken
/// as the reason, word for word.
pub proof fn lemma_trusted_message_is_reason(trusted: Seq<i64>, chat_id: i64, u: Update)
    requires
        u.message matches Some(m) && m.chat.id == chat_id && (trusted.len() == 0 || exists|i: int|
            0 <= i < trusted.len() && trusted[i] == (match m.from {
                Some(f) => f.id,
                None => 0,
            })),
    ensures
        spec_reject_feedback(trusted, chat_id, u) == opt_view(u.message->0.text),
{
    let m = u.message->0;
    let uid = match m.from {
        Some(f) => f.id,
        None => 0,
    };
    if trusted.len() > 0 {
        let i = choose|i: int| 0 <= i < trusted.len() && trusted[i] == uid;
        assert(trusted.contains(trusted[i]));
    }
}

/// After a rejection, nothing is taken as the reason from an update
/// without a message, from a message in another chat, or from a user
/// missing from a non-empty trusted list.
pub proof fn lemma_reason_only_from_trusted_in_chat(trusted: Seq<i64>, chat_id: i64, u: Update)
    ensures
        u.message is None ==> spec_reject_feedback(trusted, chat_id, u) is None,
        u.message matches Some(m) && m.chat.id != chat_id ==> spec_reject_feedback(trusted, chat_id, u)
            is None,
        u.message matches Some(m) && trusted.len() > 0 && (forall|i: int|
            0 <= i < trusted.len() ==> #[trigger] trusted[i] != (match m.from {
                Some(f) => f.id,
                None => 0,
            })) ==> spec_reject_feedback(trusted, chat_id, u) is None,
{
}

} // verus!
