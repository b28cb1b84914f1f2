//! The messaging providers and the orchestration between them.
pub mod discord;
pub mod orchestrator;
pub mod proxy;
pub mod telegram;

use vstd::prelude::*;

use crate::config::{Config, ConfigError, ConfigErrorView};
use crate::i18n::{messages_of, Messages};
use crate::text::{str_eq, owned};
use crate::text::opt_view;
use crate::types::{
    is_decided_response, Decision, FeedbackRequest, FeedbackResponse,
    Timestamp, TimeoutKind,
};
use discord::DiscordProvider;
use telegram::{spec_base_url, TelegramProvider};

verus! {

/// The HTTP client of an outside crate, carried through opaquely.
#[verifier::external_type_specification]
#[verifier::external_body]
pub struct ExHttpClient(reqwest::Client);

/// The builder of HTTP clients of an outside crate, carried through opaquely.
#[verifier::external_type_specification]
#[verifier::external_body]
pub struct ExHttpClientBuilder(reqwest::ClientBuilder);

/// The error of an outside crate's HTTP client, carried through opaquely.
#[verifier::external_type_specification]
#[verifier::external_body]
pub struct ExHttpError(reqwest::Error);

/// `reqwest::Client::builder`: a builder with the default configuration.
/// Nothing is said of it, which is opaque.
#[verifier::external_body]
fn http_client_builder() -> reqwest::ClientBuilder {
    reqwest::Client::builder()
}

/// `reqwest::ClientBuilder::build`: the client, or an error when no TLS
/// backend can be set up or the resolver cannot load the system
/// configuration. Which of the two comes back depends on the machine, so
/// nothing is said of it.
#[verifier::external_body]
fn build_http_client(builder: reqwest::ClientBuilder) -> Result<reqwest::Client, reqwest::Error> {
    builder.build()
}

/// An HTTP client with the default configuration, or
/// `HttpClientUnavailable` when the machine cannot provide one.
fn new_http_client() -> (r: Result<reqwest::Client, ConfigError>)
    ensures
        r matches Err(e) ==> e@ == ConfigErrorView::HttpClientUnavailable,
{
    match build_http_client(http_client_builder()) {
        Ok(client) => Ok(client),
        Err(_) => Err(ConfigError::HttpClientUnavailable),
    }
}

/// The name of the Telegram provider, as the configuration and the answers
/// write it.
pub const TELEGRAM: &'static str = "telegram";

/// The name of the Discord provider, as the configuration and the answers
/// write it.
pub const DISCORD: &'static str = "discord";

/// A provider ready to carry a request.
pub enum BuiltProvider {
    Telegram(TelegramProvider),
    Discord(DiscordProvider),
}

/// Whether building provider `name` from `cfg` succeeds, and the error
/// when it does not.
pub open spec fn spec_build(cfg: &Config, name: Seq<char>) -> Result<(), ConfigErrorView> {
    if name == "telegram"@ {
        if cfg.telegram is Some {
            Ok(())
        } else {
            Err(ConfigErrorView::TelegramConfigMissing)
        }
    } else if name == "discord"@ {
        if cfg.discord is Some {
            Ok(())
        } else {
            Err(ConfigErrorView::DiscordConfigMissing)
        }
    } else {
        Err(ConfigErrorView::UnknownProvider(name))
    }
}

/// Whether `p` is provider `name` built from the section of `cfg` that
/// names it, speaking the configured locale.
pub open spec fn built_from(p: BuiltProvider, cfg: &Config, name: Seq<char>) -> bool {
    if name == "telegram"@ {
        p matches BuiltProvider::Telegram(t) && cfg.telegram matches Some(tg) && t.config.bot_token
            == tg.bot_token && t.config.chat_id == tg.chat_id && t.config.trusted_user_ids@
            == tg.trusted_user_ids@ && t.base_url@ == spec_base_url(tg.bot_token@) && messages_of(
            cfg.locale,
            t.messages,
        )
    } else {
        p matches BuiltProvider::Discord(d) && cfg.discord matches Some(dc) && d.config.bot_token
            == dc.bot_token && d.config.channel_id == dc.channel_id && d.config.application_id
            == dc.application_id && d.config.trusted_user_ids@ == dc.trusted_user_ids@
            && messages_of(cfg.locale, d.messages)
    }
}

/// Whether `r` is provider `name` built from `cfg`, or the error of a
/// machine that cannot provide an HTTP client.
pub open spec fn built_or_client_error(r: Result<BuiltProvider, ConfigError>, cfg: &Config, name: Seq<char>) -> bool {
    match r {
        Ok(p) => built_from(p, cfg, name),
        Err(e) => e@ == ConfigErrorView::HttpClientUnavailable,
    }
}

/// Builds provider `name` (`telegram` or `discord`) from its section of
/// the configuration. Building fails with the error of `spec_build`, and
/// otherwise only when the machine cannot provide an HTTP client.
pub fn build(name: &str, config: &Config) -> (r: Result<BuiltProvider, ConfigError>)
    ensures
        match spec_build(config, name@) {
            Err(e) => r matches Err(x) && x@ == e,
            Ok(_) => built_or_client_error(r, config, name@),
        },
{
    if str_eq(name, TELEGRAM) {
        match &config.telegram {
            Some(tg) => match TelegramProvider::new(tg.duplicate(), config.locale) {
                Ok(p) => Ok(BuiltProvider::Telegram(p)),
                Err(e) => Err(e),
            },
            None => Err(ConfigError::TelegramConfigMissing),
        }
    } else if str_eq(name, DISCORD) {
        match &config.discord {
            Some(dc) => {
                proof {
                    reveal_strlit("telegram");
                    reveal_strlit("discord");
                    assert("telegram"@.len() != "discord"@.len());
                }
                match DiscordProvider::new(dc.duplicate(), config.locale) {
                    Ok(p) => Ok(BuiltProvider::Discord(p)),
                    Err(e) => Err(e),
                }
            },
            None => Err(ConfigError::DiscordConfigMissing),
        }
    } else {
        Err(ConfigError::UnknownProvider(owned(name)))
    }
}

/// The notice posted when a provider's budget runs out.
pub open spec fn spec_timeout_notice(messages: Messages, kind: TimeoutKind) -> Seq<char> {
    match kind {
        TimeoutKind::Final => messages.timeout_notice@,
        TimeoutKind::Escalated => messages.escalated_notice@,
    }
}

/// The notice posted when a provider's budget runs out: the timeout notice
/// for a final timeout, the escalation notice when the request moves on to
/// another provider.
pub fn timeout_notice(messages: &Messages, kind: TimeoutKind) -> (n: &'static str)
    ensures
        n@ == spec_timeout_notice(*messages, kind),
{
    match kind {
        TimeoutKind::Final => messages.timeout_notice,
        TimeoutKind::Escalated => messages.escalated_notice,
    }
}

/// Whether a decision asks for a reason before it is reported: only a
/// rejection, and only when the request allows time for one.
pub fn wants_feedback(decision: Decision, request: &FeedbackRequest) -> (r: bool)
    ensures
        r == (decision == Decision::Rejected && request.reject_feedback_timeout_secs > 0),
{
    decision == Decision::Rejected && request.reject_feedback_timeout_secs > 0
}

/// The answer a provider reports when its budget runs out: a timeout on
/// the request, naming the provider, stamped with the current time; `None`
/// when the clock cannot give the time.
pub fn provider_timeout(title: &str, provider: &str) -> (r: Option<FeedbackResponse>)
    ensures
        r matches Some(resp) ==> {
            &&& resp.decision == Decision::Timeout
            &&& resp.user@ == Seq::<char>::empty()
            &&& resp.user_id == 0
            &&& resp.feedback is None
            &&& resp.request_title@ == title@
            &&& opt_view(resp.provider) == Some(provider@)
            &&& resp.escalated_from is None
        },
{
    match FeedbackResponse::timeout(title) {
        Some(resp) => Some(resp.with_provider(provider)),
        None => None,
    }
}

/// The answer a provider reports for a decision taken on the request: the
/// reason is kept only where one was asked for, that is after a rejection
/// when the request allows time for one.
pub fn decision_response(
    decision: Decision,
    user: String,
    user_id: i64,
    reason: Option<String>,
    request: &FeedbackRequest,
    provider: &str,
    timestamp: Timestamp,
) -> (r: FeedbackResponse)
    ensures
        is_decided_response(
            r,
            decision,
            user@,
            user_id,
            if decision == Decision::Rejected && request.reject_feedback_timeout_secs > 0 {
                opt_view(reason)
            } else {
                None
            },
            request.title@,
            provider@,
            timestamp,
        ),
{
    let feedback = if wants_feedback(decision, request) {
        reason
    } else {
        None
    };
    FeedbackResponse::decided(
        decision,
        user,
        user_id,
        feedback,
        request.title.as_str(),
        provider,
        timestamp,
    )
}

} // verus!
