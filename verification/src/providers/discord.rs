//! Discord: the request message, its components, and the decisions taken on
//! each Gateway event.
use vstd::prelude::*;

use crate::config::{ConfigError, ConfigErrorView, DiscordConfig};
use crate::i18n::{messages_of, Locale, Messages};
use crate::text::{
    escape_md, opt_view, owned, parse_i64, push_char, push_decimal, push_str, spec_decimal,
    spec_escape_md, spec_parse_signed, spec_strip_html, str_eq, str_is_empty, strip_html,
};
use crate::types::{Decision, FeedbackRequest};

verus! {

/// The REST API root.
pub const API_BASE: &'static str = "https://discord.com/api/v10";

/// The Gateway endpoint.
pub const GATEWAY_URL: &'static str = "wss://gateway.discord.gg/?v=10&encoding=json";

/// Gateway intents: GUILD_MESSAGES (bit 9), DIRECT_MESSAGES (bit 12) and
/// MESSAGE_CONTENT (bit 15). INTERACTION_CREATE needs no intent.
pub const INTENTS: u64 = 37376;

/// Component type of a row of components.
pub const COMPONENT_TYPE_ACTION_ROW: u64 = 1;

/// Component type of a button.
pub const COMPONENT_TYPE_BUTTON: u64 = 2;

/// Style of the approve button.
pub const BUTTON_STYLE_SUCCESS: u64 = 3;

/// Style of the reject button.
pub const BUTTON_STYLE_DANGER: u64 = 4;

/// Interaction type of a click on a message component.
pub const INTERACTION_TYPE_COMPONENT: u64 = 3;

/// Interaction response that acknowledges a click without changing the
/// message.
pub const INTERACTION_RESPONSE_DEFERRED_UPDATE: u64 = 6;

/// Interaction response that edits the clicked message.
pub const INTERACTION_RESPONSE_UPDATE_MESSAGE: u64 = 7;

/// Custom id of the approve button.
pub const BTN_APPROVE: &'static str = "openfeedback::approve";

/// Custom id of the reject button.
pub const BTN_REJECT: &'static str = "openfeedback::reject";

/// A user object as the Gateway sends it (every field may be absent).
pub struct DiscordUser {
    pub id: Option<String>,
    pub username: Option<String>,
    pub global_name: Option<String>,
    pub bot: Option<bool>,
}

/// The fields of a dispatch's `d` object that the decisions read. Each one
/// is `None` when the event does not carry it.
pub struct EventData {
    /// `d.type`
    pub interaction_type: Option<u64>,
    /// `d.id`
    pub id: Option<String>,
    /// `d.token`
    pub token: Option<String>,
    /// `d.message.id`
    pub message_id: Option<String>,
    /// `d.data.custom_id`
    pub custom_id: Option<String>,
    /// Whether `d.member` is present.
    pub has_member: bool,
    /// `d.member.user`
    pub member_user: DiscordUser,
    /// `d.user`
    pub user: DiscordUser,
    /// `d.channel_id`
    pub channel_id: Option<String>,
    /// `d.author`
    pub author: DiscordUser,
    /// `d.message_reference.message_id`
    pub reference_id: Option<String>,
    /// `d.content`
    pub content: Option<String>,
}

/// A Gateway payload: opcode `op`, sequence number `s`, event name `t`
/// and data `d`.
pub struct GatewayPayload {
    pub op: Option<u64>,
    pub seq: Option<u64>,
    pub event: Option<String>,
    pub data: EventData,
}

/// One frame read from the Gateway connection.
pub enum GatewayFrame {
    /// A text frame holding a JSON payload.
    Text(GatewayPayload),
    /// A text frame that is not JSON.
    Malformed,
    /// A close frame, described.
    Close(String),
    /// A ping, pong, binary or raw frame.
    Other,
    /// The connection failed, described.
    ReadError(String),
}

/// What the Gateway session remembers between frames.
pub struct GatewayState {
    /// The last sequence number received, echoed in heartbeats.
    pub last_seq: Option<u64>,
    /// The id of the message that asks a rejecting user for a reason.
    pub pending_feedback_prompt_id: Option<String>,
}

/// Why a Gateway session ended without a decision.
pub enum GatewayError {
    ReadError(String),
    Closed(String),
    NotJson,
    Reconnect(u64),
    HeartbeatFailed,
    MissingHeartbeatInterval,
}

/// The text shown for a Gateway error.
pub open spec fn spec_gateway_error_message(e: GatewayError) -> Seq<char> {
    match e {
        GatewayError::ReadError(m) => "Gateway read error: "@ + m@,
        GatewayError::Closed(m) => "Gateway closed: "@ + m@,
        GatewayError::NotJson => "Gateway payload not JSON"@,
        GatewayError::Reconnect(op) => "Gateway asked us to reconnect/invalid-session (op "@
            + spec_decimal(op as nat) + ")"@,
        GatewayError::HeartbeatFailed => "Gateway heartbeat send failed"@,
        GatewayError::MissingHeartbeatInterval => "HELLO missing heartbeat_interval"@,
    }
}

impl GatewayError {
    /// The text shown for this error.
    pub fn message(&self) -> (m: String)
        ensures
            m@ == spec_gateway_error_message(*self),
    {
        match self {
            GatewayError::ReadError(e) => {
                let mut m = owned("Gateway read error: ");
                push_str(&mut m, e.as_str());
                m
            },
            GatewayError::Closed(e) => {
                let mut m = owned("Gateway closed: ");
                push_str(&mut m, e.as_str());
                m
            },
            GatewayError::NotJson => owned("Gateway payload not JSON"),
            GatewayError::Reconnect(op) => {
                let mut m = owned("Gateway asked us to reconnect/invalid-session (op ");
                push_decimal(&mut m, *op);
                push_str(&mut m, ")");
                m
            },
            GatewayError::HeartbeatFailed => owned("Gateway heartbeat send failed"),
            GatewayError::MissingHeartbeatInterval => owned("HELLO missing heartbeat_interval"),
        }
    }
}

/// The heartbeat interval announced by HELLO, in milliseconds.
pub fn hello_heartbeat(interval: Option<u64>) -> (r: Result<u64, GatewayError>)
    ensures
        match interval {
            Some(ms) => r == Ok::<u64, GatewayError>(ms),
            None => r matches Err(GatewayError::MissingHeartbeatInterval),
        },
{
    match interval {
        Some(ms) => Ok(ms),
        None => Err(GatewayError::MissingHeartbeatInterval),
    }
}

/// A button of the request message.
pub struct Button {
    pub style: u64,
    pub label: &'static str,
    pub custom_id: &'static str,
    pub disabled: bool,
}

/// A row of buttons.
pub struct ActionRow {
    pub components: Vec<Button>,
}

/// What a click on the request message leads to.
pub enum InteractionOutcome {
    /// Not a click on one of our buttons: nothing to do.
    Ignored,
    /// A click by a user who may not decide: acknowledge it silently.
    Untrusted { interaction_id: String, token: String },
    /// A trusted decision: edit the message to `updated_content` through the
    /// interaction, and post `feedback_prompt` as a reply when there is one
    /// (only on a rejection that allows time for a reason).
    Decided {
        decision: Decision,
        user: String,
        user_id: i64,
        interaction_id: String,
        token: String,
        updated_content: String,
        feedback_prompt: Option<String>,
    },
}

/// What the Gateway session does after one frame.
pub enum GatewayAction {
    /// Keep listening.
    Continue,
    /// The server asked for a heartbeat now.
    Heartbeat,
    /// End the session with an error.
    Fail(GatewayError),
    /// A click on a component.
    Interaction(InteractionOutcome),
    /// A trusted reply to the request message: remove the buttons and
    /// report an approval that carries the reply as feedback.
    ReplyApproved { user: String, user_id: i64, text: String },
}

/// The text of an optional string, empty when there is none.
pub open spec fn spec_text(s: Option<String>) -> Seq<char> {
    match s {
        Some(x) => x@,
        None => Seq::empty(),
    }
}

/// The URL that answers an interaction.
pub fn interaction_callback_url(interaction_id: &str, token: &str) -> (u: String)
    ensures
        u@ == API_BASE@ + "/interactions/"@ + interaction_id@ + "/"@ + token@ + "/callback"@,
{
    let mut u = owned(API_BASE);
    push_str(&mut u, "/interactions/");
    push_str(&mut u, interaction_id);
    push_str(&mut u, "/");
    push_str(&mut u, token);
    push_str(&mut u, "/callback");
    u
}

/// The name shown for a Discord user: the global name when it is set and
/// not empty, else `@username`, else `unknown`.
pub open spec fn spec_display_name(u: DiscordUser) -> Seq<char> {
    if u.global_name is Some && u.global_name->0@.len() > 0 {
        u.global_name->0@
    } else {
        match u.username {
            Some(name) => seq!['@'] + name@,
            None => "unknown"@,
        }
    }
}

/// The id parsed as an `i64`, 0 when it is not one.
pub open spec fn spec_id_or_zero(s: Seq<char>) -> i64 {
    match spec_parse_signed(s, i64::MIN as int, i64::MAX as int) {
        Some(v) => v as i64,
        None => 0,
    }
}

/// Whether the user `user_id` may decide: anyone when the list is empty,
/// else only the listed ids.
pub open spec fn spec_is_trusted(trusted: Seq<String>, user_id: Seq<char>) -> bool {
    trusted.len() == 0 || exists|i: int| 0 <= i < trusted.len() && trusted[i]@ == user_id
}

/// The content of the request message: a magnifier, the escaped title in
/// bold, the body as given, and the prompt in italics.
pub open spec fn spec_content(title: Seq<char>, body: Seq<char>, prompt: Seq<char>) -> Seq<char> {
    "\u{1F50D} **"@ + spec_escape_md(title) + "**\n\n"@ + body + "\n\n_"@ + prompt + "_"@
}

/// The display name of a user.
pub fn display_name(user: &DiscordUser) -> (n: String)
    ensures
        n@ == spec_display_name(*user),
{
    if let Some(global) = &user.global_name {
        if !str_is_empty(global.as_str()) {
            return global.clone();
        }
    }
    match &user.username {
        Some(u) => {
            let mut out = String::new();
            push_char(&mut out, '@');
            push_str(&mut out, u.as_str());
            proof {
                assert(out@ =~= seq!['@'] + u@);
            }
            out
        },
        None => owned("unknown"),
    }
}

/// The text of an optional string, empty when there is none.
fn text_of(s: &Option<String>) -> (t: &str)
    ensures
        t@ == spec_text(*s),
{
    match s {
        Some(x) => x.as_str(),
        None => {
            proof {
                reveal_strlit("");
            }
            ""
        },
    }
}

/// Whether an optional string holds exactly `t`.
fn opt_eq(s: &Option<String>, t: &str) -> (r: bool)
    ensures
        r == (opt_view(*s) == Some(t@)),
{
    match s {
        Some(x) => str_eq(x.as_str(), t),
        None => false,
    }
}

/// Parses an id, 0 when it is not an `i64`.
fn id_or_zero(s: &str) -> (n: i64)
    ensures
        n == spec_id_or_zero(s@),
{
    match parse_i64(s) {
        Some(v) => v,
        None => 0,
    }
}

/// The Discord side of a request: the bot's configuration, its HTTP
/// client and the texts of the chosen locale.
pub struct DiscordProvider {
    pub config: DiscordConfig,
    pub client: reqwest::Client,
    pub messages: Messages,
}

/// What a click described by `d` leads to, for the request message `our`.
pub open spec fn spec_interaction(
    trusted: Seq<String>,
    msgs: Messages,
    content: Seq<char>,
    reject_wait: u64,
    d: EventData,
    our: Seq<char>,
    o: InteractionOutcome,
) -> bool {
    let itype = match d.interaction_type {
        Some(t) => t,
        None => 0,
    };
    if itype != INTERACTION_TYPE_COMPONENT {
        o is Ignored
    } else if spec_text(d.message_id) != our {
        o is Ignored
    } else {
        let u = if d.has_member {
            d.member_user
        } else {
            d.user
        };
        let uid = spec_text(u.id);
        let cid = spec_text(d.custom_id);
        if !spec_is_trusted(trusted, uid) {
            o matches InteractionOutcome::Untrusted { interaction_id, token }
                && interaction_id@ == spec_text(d.id) && token@ == spec_text(d.token)
        } else if cid == BTN_APPROVE@ || cid == BTN_REJECT@ {
            let approve = cid == BTN_APPROVE@;
            o matches InteractionOutcome::Decided {
                decision,
                user,
                user_id,
                interaction_id,
                token,
                updated_content,
                feedback_prompt,
            } && decision == (if approve {
                Decision::Approved
            } else {
                Decision::Rejected
            }) && user@ == spec_display_name(u) && user_id == spec_id_or_zero(uid)
                && interaction_id@ == spec_text(d.id) && token@ == spec_text(d.token)
                && updated_content@ == content + "\n\n"@ + (if approve {
                msgs.approved_callback@
            } else {
                msgs.rejected_callback@
            }) && opt_view(feedback_prompt) == (if !approve && reject_wait > 0 {
                Some(spec_strip_html(msgs.reject_feedback_prompt@))
            } else {
                None
            })
        } else {
            o is Ignored
        }
    }
}

/// The reply described by `d` when it answers the request message `our`
/// in channel `channel` from a trusted human with some text: the replier's
/// name, id and text.
pub open spec fn spec_reply(trusted: Seq<String>, channel: Seq<char>, d: EventData, our: Seq<char>) -> Option<(Seq<char>, i64, Seq<char>)> {
    if opt_view(d.channel_id) != Some(channel) {
        None
    } else if d.author.bot == Some(true) {
        None
    } else if d.reference_id is None || d.reference_id->0@ != our {
        None
    } else if !spec_is_trusted(trusted, spec_text(d.author.id)) {
        None
    } else if spec_text(d.content).len() == 0 {
        None
    } else {
        Some(
            (
                spec_display_name(d.author),
                spec_id_or_zero(spec_text(d.author.id)),
                spec_text(d.content),
            ),
        )
    }
}

/// The sequence number remembered after a frame.
pub open spec fn spec_next_seq(last: Option<u64>, frame: GatewayFrame) -> Option<u64> {
    match frame {
        GatewayFrame::Text(p) => match p.seq {
            Some(s) => Some(s),
            None => last,
        },
        _ => last,
    }
}

/// A reply's triple taken by views.
pub open spec fn triple_view(r: Option<(String, i64, String)>) -> Option<(Seq<char>, i64, Seq<char>)> {
    match r {
        Some((a, b, c)) => Some((a@, b, c@)),
        None => None,
    }
}

/// What the Gateway session does after `frame`, for the request message
/// `our` and the request whose content is `content`.
pub open spec fn spec_gateway_action(
    trusted: Seq<String>,
    channel: Seq<char>,
    msgs: Messages,
    content: Seq<char>,
    reject_wait: u64,
    frame: GatewayFrame,
    our: Seq<char>,
    a: GatewayAction,
) -> bool {
    match frame {
        GatewayFrame::ReadError(e) => a matches GatewayAction::Fail(GatewayError::ReadError(m))
            && m@ == e@,
        GatewayFrame::Close(c) => a matches GatewayAction::Fail(GatewayError::Closed(m)) && m@
            == c@,
        GatewayFrame::Other => a is Continue,
        GatewayFrame::Malformed => a matches GatewayAction::Fail(GatewayError::NotJson),
        GatewayFrame::Text(p) => {
            let op = match p.op {
                Some(o) => o,
                None => 999,
            };
            if op == 11 {
                a is Continue
            } else if op == 1 {
                a is Heartbeat
            } else if op == 7 || op == 9 {
                a matches GatewayAction::Fail(GatewayError::Reconnect(o)) && o == op
            } else if op == 0 {
                let t = spec_text(p.event);
                if t == "INTERACTION_CREATE"@ {
                    a matches GatewayAction::Interaction(o) && spec_interaction(
                        trusted,
                        msgs,
                        content,
                        reject_wait,
                        p.data,
                        our,
                        o,
                    )
                } else if t == "MESSAGE_CREATE"@ {
                    match spec_reply(trusted, channel, p.data, our) {
                        Some((user, uid, text)) => a matches GatewayAction::ReplyApproved {
                            user: u,
                            user_id,
                            text: x,
                        } && u@ == user && user_id == uid && x@ == text,
                        None => a is Continue,
                    }
                } else {
                    a is Continue
                }
            } else {
                a is Continue
            }
        },
    }
}

/// The reason carried by a frame while waiting after a rejection: the
/// non-empty text of any message a trusted user posts in the channel.
pub open spec fn spec_feedback(trusted: Seq<String>, channel: Seq<char>, frame: GatewayFrame) -> Option<Seq<char>> {
    match frame {
        GatewayFrame::Text(p) => if p.op == Some(0u64) && opt_view(p.event) == Some(
            "MESSAGE_CREATE"@,
        ) && opt_view(p.data.channel_id) == Some(channel) && spec_is_trusted(
            trusted,
            spec_text(p.data.author.id),
        ) && spec_text(p.data.content).len() > 0 {
            Some(spec_text(p.data.content))
        } else {
            None
        },
        _ => None,
    }
}

impl DiscordProvider {
    /// The Discord side of a request, with the texts of `locale`; an error
    /// when the machine cannot provide an HTTP client.
    pub fn new(config: DiscordConfig, locale: Locale) -> (r: Result<Self, ConfigError>)
        ensures
            match r {
                Ok(p) => p.config == config && messages_of(locale, p.messages),
                Err(e) => e@ == ConfigErrorView::HttpClientUnavailable,
            },
    {
        let client = match super::new_http_client() {
            Ok(c) => c,
            Err(e) => return Err(e),
        };
        Ok(DiscordProvider { config, client, messages: locale.messages() })
    }

    /// The `Authorization` header of REST calls.
    pub fn auth_header(&self) -> (h: String)
        ensures
            h@ == "Bot "@ + self.config.bot_token@,
    {
        let mut h = owned("Bot ");
        push_str(&mut h, self.config.bot_token.as_str());
        h
    }

    /// The URL that posts messages to the configured channel.
    pub fn messages_url(&self) -> (u: String)
        ensures
            u@ == API_BASE@ + "/channels/"@ + self.config.channel_id@ + "/messages"@,
    {
        let mut u = owned(API_BASE);
        push_str(&mut u, "/channels/");
        push_str(&mut u, self.config.channel_id.as_str());
        push_str(&mut u, "/messages");
        u
    }

    /// The URL of one message of the configured channel.
    pub fn message_url(&self, message_id: &str) -> (u: String)
        ensures
            u@ == API_BASE@ + "/channels/"@ + self.config.channel_id@ + "/messages/"@
                + message_id@,
    {
        let mut u = self.messages_url();
        push_str(&mut u, "/");
        push_str(&mut u, message_id);
        proof {
            reveal_strlit("/messages");
            reveal_strlit("/messages/");
            reveal_strlit("/");
            assert(u@ =~= API_BASE@ + "/channels/"@ + self.config.channel_id@ + "/messages/"@
                + message_id@);
        }
        u
    }

    /// Whether the user `user_id` may decide.
    pub fn is_trusted(&self, user_id: &str) -> (r: bool)
        ensures
            r == spec_is_trusted(self.config.trusted_user_ids@, user_id@),
    {
        let ids = &self.config.trusted_user_ids;
        if ids.len() == 0 {
            return true;
        }
        let mut i: usize = 0;
        while i < ids.len()
            invariant
                i <= ids.len(),
                ids@ == self.config.trusted_user_ids@,
                forall|j: int| 0 <= j < i ==> ids@[j]@ != user_id@,
            decreases ids.len() - i,
        {
            if str_eq(ids[i].as_str(), user_id) {
                proof {
                    assert(ids@[i as int]@ == user_id@);
                }
                return true;
            }
            i = i + 1;
        }
        false
    }

    /// The components under the request message: one row holding the
    /// approve and reject buttons, both `disabled` or both enabled.
    pub fn build_components(&self, disabled: bool) -> (rows: Vec<ActionRow>)
        ensures
            rows@.len() == 1,
            rows@[0].components@.len() == 2,
            rows@[0].components@[0].style == BUTTON_STYLE_SUCCESS,
            rows@[0].components@[0].label@ == self.messages.approve_button@,
            rows@[0].components@[0].custom_id@ == BTN_APPROVE@,
            rows@[0].components@[0].disabled == disabled,
            rows@[0].components@[1].style == BUTTON_STYLE_DANGER,
            rows@[0].components@[1].label@ == self.messages.reject_button@,
            rows@[0].components@[1].custom_id@ == BTN_REJECT@,
            rows@[0].components@[1].disabled == disabled,
    {
        let mut components: Vec<Button> = Vec::new();
        components.push(
            Button {
                style: BUTTON_STYLE_SUCCESS,
                label: self.messages.approve_button,
                custom_id: BTN_APPROVE,
                disabled,
            },
        );
        components.push(
            Button {
                style: BUTTON_STYLE_DANGER,
                label: self.messages.reject_button,
                custom_id: BTN_REJECT,
                disabled,
            },
        );
        let mut rows: Vec<ActionRow> = Vec::new();
        rows.push(ActionRow { components });
        rows
    }

    /// The content of the request message (plain text and Markdown).
    pub fn build_content(&self, request: &FeedbackRequest) -> (c: String)
        ensures
            c@ == spec_content(request.title@, request.body@, self.messages.prompt_text@),
    {
        let mut c = owned("\u{1F50D} **");
        let title = escape_md(request.title.as_str());
        push_str(&mut c, title.as_str());
        push_str(&mut c, "**\n\n");
        push_str(&mut c, request.body.as_str());
        push_str(&mut c, "\n\n_");
        push_str(&mut c, self.messages.prompt_text);
        push_str(&mut c, "_");
        c
    }

    /// What a click described by `d` leads to, for the request message
    /// `our_message_id`.
    pub fn handle_interaction(&self, d: &EventData, our_message_id: &str, request: &FeedbackRequest) -> (o: InteractionOutcome)
        ensures
            spec_interaction(
                self.config.trusted_user_ids@,
                self.messages,
                spec_content(request.title@, request.body@, self.messages.prompt_text@),
                request.reject_feedback_timeout_secs,
                *d,
                our_message_id@,
                o,
            ),
    {
        let itype = match d.interaction_type {
            Some(t) => t,
            None => 0,
        };
        if itype != INTERACTION_TYPE_COMPONENT {
            return InteractionOutcome::Ignored;
        }
        if !str_eq(text_of(&d.message_id), our_message_id) {
            return InteractionOutcome::Ignored;
        }
        let interaction_id = owned(text_of(&d.id));
        let token = owned(text_of(&d.token));
        let custom_id = text_of(&d.custom_id);
        let user_obj = if d.has_member {
            &d.member_user
        } else {
            &d.user
        };
        let user_id_str = text_of(&user_obj.id);
        if !self.is_trusted(user_id_str) {
            return InteractionOutcome::Untrusted { interaction_id, token };
        }
        let decision = if str_eq(custom_id, BTN_APPROVE) {
            Decision::Approved
        } else if str_eq(custom_id, BTN_REJECT) {
            Decision::Rejected
        } else {
            return InteractionOutcome::Ignored;
        };
        let user = display_name(user_obj);
        let user_id = id_or_zero(user_id_str);
        let mut updated_content = self.build_content(request);
        push_str(&mut updated_content, "\n\n");
        let feedback_prompt = if decision == Decision::Approved {
            push_str(&mut updated_content, self.messages.approved_callback);
            None
        } else {
            push_str(&mut updated_content, self.messages.rejected_callback);
            if request.reject_feedback_timeout_secs > 0 {
                Some(strip_html(self.messages.reject_feedback_prompt))
            } else {
                None
            }
        };
        InteractionOutcome::Decided {
            decision,
            user,
            user_id,
            interaction_id,
            token,
            updated_content,
            feedback_prompt,
        }
    }

    /// The reply described by `d`, when it answers the request message
    /// `our_message_id` in the configured channel from a trusted human with
    /// some text: the replier's name, id and text.
    pub fn match_reply_to_original(&self, d: &EventData, our_message_id: &str) -> (r: Option<(String, i64, String)>)
        ensures
            triple_view(r) == spec_reply(
                self.config.trusted_user_ids@,
                self.config.channel_id@,
                *d,
                our_message_id@,
            ),
    {
        if !opt_eq(&d.channel_id, self.config.channel_id.as_str()) {
            return None;
        }
        if d.author.bot == Some(true) {
            return None;
        }
        let ref_id = match &d.reference_id {
            Some(r) => r,
            None => return None,
        };
        if !str_eq(ref_id.as_str(), our_message_id) {
            return None;
        }
        let user_id_str = text_of(&d.author.id);
        if !self.is_trusted(user_id_str) {
            return None;
        }
        let user_id = id_or_zero(user_id_str);
        let user_name = display_name(&d.author);
        let content = owned(text_of(&d.content));
        if str_is_empty(content.as_str()) {
            return None;
        }
        Some((user_name, user_id, content))
    }

    /// Takes in one frame of the Gateway session waiting for a decision on
    /// the request message `our_message_id`.
    pub fn gateway_step(
        &self,
        state: &mut GatewayState,
        frame: &GatewayFrame,
        our_message_id: &str,
        request: &FeedbackRequest,
    ) -> (a: GatewayAction)
        ensures
            final(state).last_seq == spec_next_seq(old(state).last_seq, *frame),
            final(state).pending_feedback_prompt_id == old(state).pending_feedback_prompt_id,
            spec_gateway_action(
                self.config.trusted_user_ids@,
                self.config.channel_id@,
                self.messages,
                spec_content(request.title@, request.body@, self.messages.prompt_text@),
                request.reject_feedback_timeout_secs,
                *frame,
                our_message_id@,
                a,
            ),
    {
        match frame {
            GatewayFrame::ReadError(e) => GatewayAction::Fail(GatewayError::ReadError(e.clone())),
            GatewayFrame::Close(c) => GatewayAction::Fail(GatewayError::Closed(c.clone())),
            GatewayFrame::Other => GatewayAction::Continue,
            GatewayFrame::Malformed => GatewayAction::Fail(GatewayError::NotJson),
            GatewayFrame::Text(p) => {
                if let Some(s) = p.seq {
                    state.last_seq = Some(s);
                }
                let op = match p.op {
                    Some(o) => o,
                    None => 999,
                };
                if op == 11 {
                    GatewayAction::Continue
                } else if op == 1 {
                    GatewayAction::Heartbeat
                } else if op == 7 || op == 9 {
                    GatewayAction::Fail(GatewayError::Reconnect(op))
                } else if op == 0 {
                    let event = text_of(&p.event);
                    if str_eq(event, "INTERACTION_CREATE") {
                        GatewayAction::Interaction(
                            self.handle_interaction(&p.data, our_message_id, request),
                        )
                    } else if str_eq(event, "MESSAGE_CREATE") {
                        match self.match_reply_to_original(&p.data, our_message_id) {
                            Some((user, user_id, text)) => GatewayAction::ReplyApproved {
                                user,
                                user_id,
                                text,
                            },
                            None => GatewayAction::Continue,
                        }
                    } else {
                        GatewayAction::Continue
                    }
                } else {
                    GatewayAction::Continue
                }
            },
        }
    }

    /// Takes in one frame while waiting for the reason of a rejection: the
    /// reason when the frame carries one.
    pub fn feedback_step(&self, state: &mut GatewayState, frame: &GatewayFrame) -> (r: Option<String>)
        ensures
            final(state).last_seq == spec_next_seq(old(state).last_seq, *frame),
            final(state).pending_feedback_prompt_id == old(state).pending_feedback_prompt_id,
            opt_view(r) == spec_feedback(
                self.config.trusted_user_ids@,
                self.config.channel_id@,
                *frame,
            ),
    {
        match frame {
            GatewayFrame::Text(p) => {
                if let Some(s) = p.seq {
                    state.last_seq = Some(s);
                }
                if p.op != Some(0u64) {
                    return None;
                }
                if !opt_eq(&p.event, "MESSAGE_CREATE") {
                    return None;
                }
                if !opt_eq(&p.data.channel_id, self.config.channel_id.as_str()) {
                    return None;
                }
                if !self.is_trusted(text_of(&p.data.author.id)) {
                    return None;
                }
                let content = owned(text_of(&p.data.content));
                if str_is_empty(content.as_str()) {
                    return None;
                }
                Some(content)
            },
            _ => None,
        }
    }
}

impl GatewayState {
    /// The state of a fresh session.
    pub fn new() -> (s: Self)
        ensures
            s.last_seq is None,
            s.pending_feedback_prompt_id is None,
    {
        GatewayState { last_seq: None, pending_feedback_prompt_id: None }
    }

    /// Remembers the id of the posted reason prompt, when posting it gave a
    /// non-empty id.
    pub fn record_feedback_prompt(&mut self, sent_id: Option<String>)
        ensures
            final(self).last_seq == old(self).last_seq,
            match sent_id {
                Some(id) => if id@.len() > 0 {
                    opt_view(final(self).pending_feedback_prompt_id) == Some(id@)
                } else {
                    final(self).pending_feedback_prompt_id == old(
                        self,
                    ).pending_feedback_prompt_id
                },
                None => final(self).pending_feedback_prompt_id == old(
                    self,
                ).pending_feedback_prompt_id,
            },
    {
        if let Some(id) = sent_id {
            if !str_is_empty(id.as_str()) {
                self.pending_feedback_prompt_id = Some(id);
            }
        }
    }
}

/// Only a trusted click on one of our two buttons on the request message
/// decides, and a decision is always an approval or a rejection.
pub proof fn lemma_interaction_decides_only_for_trusted(
    trusted: Seq<String>,
    msgs: Messages,
    content: Seq<char>,
    reject_wait: u64,
    d: EventData,
    our: Seq<char>,
    o: InteractionOutcome,
)
    requires
        spec_interaction(trusted, msgs, content, reject_wait, d, our, o),
    ensures
        o matches InteractionOutcome::Decided { decision, .. } ==> {
            &&& spec_text(d.message_id) == our
            &&& d.interaction_type == Some(INTERACTION_TYPE_COMPONENT)
            &&& spec_is_trusted(
                trusted,
                spec_text(
                    if d.has_member {
                        d.member_user
                    } else {
                        d.user
                    }.id,
                ),
            )
            &&& (decision == Decision::Approved || decision == Decision::Rejected)
        },
{
}

/// A reply to the request message, posted in the configured channel by a
/// trusted human with some text, approves the request with that text as
/// feedback; and every approval by reply comes from a trusted user.
pub proof fn lemma_reply_approves_with_feedback(
    trusted: Seq<String>,
    channel: Seq<char>,
    msgs: Messages,
    content: Seq<char>,
    reject_wait: u64,
    p: GatewayPayload,
    our: Seq<char>,
    a: GatewayAction,
)
    requires
        spec_gateway_action(
            trusted,
            channel,
            msgs,
            content,
            reject_wait,
            GatewayFrame::Text(p),
            our,
            a,
        ),
        p.op == Some(0u64),
        opt_view(p.event) == Some("MESSAGE_CREATE"@),
    ensures
        spec_reply(trusted, channel, p.data, our) is Some <==> a is ReplyApproved,
        a matches GatewayAction::ReplyApproved { text, .. } ==> {
            &&& text@ == spec_text(p.data.content)
            &&& text@.len() > 0
            &&& spec_is_trusted(trusted, spec_text(p.data.author.id))
            &&& opt_view(p.data.reference_id) == Some(our)
            &&& opt_view(p.data.channel_id) == Some(channel)
            &&& p.data.author.bot != Some(true)
        },
{
    reveal_strlit("MESSAGE_CREATE");
    reveal_strlit("INTERACTION_CREATE");
    assert("MESSAGE_CREATE"@ != "INTERACTION_CREATE"@) by {
        assert("MESSAGE_CREATE"@.len() != "INTERACTION_CREATE"@.len());
    }
}

/// Every id on the trusted list may decide, however long the list is.
pub proof fn lemma_listed_user_is_trusted(trusted: Seq<String>, i: int)
    requires
        0 <= i < trusted.len(),
    ensures
        spec_is_trusted(trusted, trusted[i]@),
{
}

/// A component click (interaction type 3) on the request message by a user
/// on the trusted list (by anyone when the list is empty) on the approve
/// or the reject button decides the request accordingly. The clicking user
/// is the guild member's user when the event carries a member, else the
/// event's user; which of the two it is has no bearing on the decision,
/// which follows the button alone.
pub proof fn lemma_trusted_click_decides(
    trusted: Seq<String>,
    msgs: Messages,
    content: Seq<char>,
    reject_wait: u64,
    d: EventData,
    our: Seq<char>,
    o: InteractionOutcome,
)
    requires
        spec_interaction(trusted, msgs, content, reject_wait, d, our, o),
        d.interaction_type == Some(3u64),
        d.message_id matches Some(m) && m@ == our,
        ({
            let clicker = if d.has_member {
                d.member_user
            } else {
                d.user
            };
            trusted.len() == 0 || exists|i: int|
                0 <= i < trusted.len() && (clicker.id matches Some(id) && #[trigger] trusted[i]@ == id@)
        }),
        d.custom_id matches Some(c) && (c@ == "openfeedback::approve"@ || c@
            == "openfeedback::reject"@),
    ensures
        o matches InteractionOutcome::Decided { decision, .. } && decision == (if d.custom_id->0@
            == "openfeedback::approve"@ {
            Decision::Approved
        } else {
            Decision::Rejected
        }),
{
    reveal_strlit("openfeedback::approve");
    reveal_strlit("openfeedback::reject");
    assert("openfeedback::approve"@ != "openfeedback::reject"@) by {
        assert("openfeedback::approve"@[14] != "openfeedback::reject"@[14]);
    }
    let clicker = if d.has_member {
        d.member_user
    } else {
        d.user
    };
    if trusted.len() > 0 {
        let i = choose|i: int|
            0 <= i < trusted.len() && (clicker.id matches Some(id) && #[trigger] trusted[i]@ == id@);
        assert(spec_text(clicker.id) == trusted[i]@);
    }
}

} // verus!
