//! The configuration file: its model, its defaults, where it lives and the
//! rules a loaded configuration must satisfy.
use vstd::prelude::*;

use crate::i18n::Locale;
use crate::text::{chars_of, owned, push_decimal, push_str, spec_decimal, str_eq, str_is_empty};

verus! {

/// The `[telegram]` section.
pub struct TelegramConfig {
    pub bot_token: String,
    pub chat_id: i64,
    pub trusted_user_ids: Vec<i64>,
}

/// The `[discord]` section. Discord snowflakes are kept as strings.
pub struct DiscordConfig {
    pub bot_token: String,
    pub channel_id: String,
    pub application_id: String,
    pub trusted_user_ids: Vec<String>,
}

/// The `[logging]` section.
pub struct LoggingConfig {
    pub audit_file: String,
}

/// The whole configuration file.
pub struct Config {
    pub default_provider: String,
    pub default_timeout: u64,
    pub reject_feedback_timeout: u64,
    pub locale: Locale,
    /// Optional secondary provider. When set, the primary provider's
    /// timeout becomes a soft failover handoff.
    pub failover_provider: Option<String>,
    /// How long to wait on the primary before escalating.
    /// If unset, defaults to half of `default_timeout`.
    pub escalate_after_secs: Option<u64>,
    pub telegram: Option<TelegramConfig>,
    pub discord: Option<DiscordConfig>,
    pub logging: LoggingConfig,
}

/// A field-by-field copy of a list of integers.
pub fn copy_i64s(v: &Vec<i64>) -> (r: Vec<i64>)
    ensures
        r@ == v@,
{
    let mut r: Vec<i64> = Vec::new();
    let mut i: usize = 0;
    while i < v.len()
        invariant
            i <= v.len(),
            r@ == v@.take(i as int),
        decreases v.len() - i,
    {
        r.push(v[i]);
        proof {
            assert(v@.take(i + 1) =~= v@.take(i as int).push(v@[i as int]));
        }
        i = i + 1;
    }
    proof {
        assert(v@.take(v.len() as int) =~= v@);
    }
    r
}

/// A field-by-field copy of a list of strings.
pub fn copy_strings(v: &Vec<String>) -> (r: Vec<String>)
    ensures
        r@ == v@,
{
    let mut r: Vec<String> = Vec::new();
    let mut i: usize = 0;
    while i < v.len()
        invariant
            i <= v.len(),
            r@ == v@.take(i as int),
        decreases v.len() - i,
    {
        r.push(v[i].clone());
        proof {
            assert(v@.take(i + 1) =~= v@.take(i as int).push(v@[i as int]));
        }
        i = i + 1;
    }
    proof {
        assert(v@.take(v.len() as int) =~= v@);
    }
    r
}

impl TelegramConfig {
    /// A field-by-field copy.
    pub fn duplicate(&self) -> (r: Self)
        ensures
            r.bot_token == self.bot_token,
            r.chat_id == self.chat_id,
            r.trusted_user_ids@ == self.trusted_user_ids@,
    {
        TelegramConfig {
            bot_token: self.bot_token.clone(),
            chat_id: self.chat_id,
            trusted_user_ids: copy_i64s(&self.trusted_user_ids),
        }
    }
}

impl DiscordConfig {
    /// A field-by-field copy.
    pub fn duplicate(&self) -> (r: Self)
        ensures
            r.bot_token == self.bot_token,
            r.channel_id == self.channel_id,
            r.application_id == self.application_id,
            r.trusted_user_ids@ == self.trusted_user_ids@,
    {
        DiscordConfig {
            bot_token: self.bot_token.clone(),
            channel_id: self.channel_id.clone(),
            application_id: self.application_id.clone(),
            trusted_user_ids: copy_strings(&self.trusted_user_ids),
        }
    }
}

// ---------------------------------------------------------------------------
// Errors
// ---------------------------------------------------------------------------

/// Why a configuration was refused, or why a provider could not be built
/// from it.
pub enum ConfigError {
    TelegramSectionMissing,
    TelegramBotTokenEmpty,
    TelegramChatIdZero,
    DiscordSectionMissing,
    DiscordBotTokenEmpty,
    DiscordChannelIdEmpty,
    DiscordApplicationIdEmpty,
    UnknownProvider(String),
    FailoverSameAsDefault(String),
    EscalateNotBeforeTimeout { escalate_after: u64, default_timeout: u64 },
    TelegramConfigMissing,
    DiscordConfigMissing,
    HttpClientUnavailable,
}

/// `ConfigError` with its texts taken as character sequences.
pub enum ConfigErrorView {
    TelegramSectionMissing,
    TelegramBotTokenEmpty,
    TelegramChatIdZero,
    DiscordSectionMissing,
    DiscordBotTokenEmpty,
    DiscordChannelIdEmpty,
    DiscordApplicationIdEmpty,
    UnknownProvider(Seq<char>),
    FailoverSameAsDefault(Seq<char>),
    EscalateNotBeforeTimeout { escalate_after: u64, default_timeout: u64 },
    TelegramConfigMissing,
    DiscordConfigMissing,
    HttpClientUnavailable,
}

impl View for ConfigError {
    type V = ConfigErrorView;

    open spec fn view(&self) -> ConfigErrorView {
        match self {
            ConfigError::TelegramSectionMissing => ConfigErrorView::TelegramSectionMissing,
            ConfigError::TelegramBotTokenEmpty => ConfigErrorView::TelegramBotTokenEmpty,
            ConfigError::TelegramChatIdZero => ConfigErrorView::TelegramChatIdZero,
            ConfigError::DiscordSectionMissing => ConfigErrorView::DiscordSectionMissing,
            ConfigError::DiscordBotTokenEmpty => ConfigErrorView::DiscordBotTokenEmpty,
            ConfigError::DiscordChannelIdEmpty => ConfigErrorView::DiscordChannelIdEmpty,
            ConfigError::DiscordApplicationIdEmpty => ConfigErrorView::DiscordApplicationIdEmpty,
            ConfigError::UnknownProvider(n) => ConfigErrorView::UnknownProvider(n@),
            ConfigError::FailoverSameAsDefault(n) => ConfigErrorView::FailoverSameAsDefault(n@),
            ConfigError::EscalateNotBeforeTimeout { escalate_after, default_timeout } =>
                ConfigErrorView::EscalateNotBeforeTimeout {
                escalate_after: *escalate_after,
                default_timeout: *default_timeout,
            },
            ConfigError::TelegramConfigMissing => ConfigErrorView::TelegramConfigMissing,
            ConfigError::DiscordConfigMissing => ConfigErrorView::DiscordConfigMissing,
            ConfigError::HttpClientUnavailable => ConfigErrorView::HttpClientUnavailable,
        }
    }
}

/// A result whose error is taken by its view.
pub open spec fn result_view<T>(r: Result<T, ConfigError>) -> Result<(), ConfigErrorView> {
    match r {
        Ok(_) => Ok(()),
        Err(e) => Err(e@),
    }
}

/// The text shown for an error.
pub open spec fn spec_error_message(e: ConfigErrorView) -> Seq<char> {
    match e {
        ConfigErrorView::TelegramSectionMissing =>
            "telegram provider selected but [telegram] section missing"@,
        ConfigErrorView::TelegramBotTokenEmpty => "telegram.bot_token cannot be empty"@,
        ConfigErrorView::TelegramChatIdZero => "telegram.chat_id cannot be 0"@,
        ConfigErrorView::DiscordSectionMissing =>
            "discord provider selected but [discord] section missing"@,
        ConfigErrorView::DiscordBotTokenEmpty => "discord.bot_token cannot be empty"@,
        ConfigErrorView::DiscordChannelIdEmpty => "discord.channel_id cannot be empty"@,
        ConfigErrorView::DiscordApplicationIdEmpty => "discord.application_id cannot be empty"@,
        ConfigErrorView::UnknownProvider(n) => "Unknown provider: "@ + n,
        ConfigErrorView::FailoverSameAsDefault(n) =>
            "failover_provider must differ from default_provider (both are "@ + n + ")"@,
        ConfigErrorView::EscalateNotBeforeTimeout { escalate_after, default_timeout } =>
            "escalate_after_secs ("@ + spec_decimal(escalate_after as nat)
            + ") must be less than default_timeout ("@ + spec_decimal(default_timeout as nat)
            + ") so the failover provider has a non-zero budget"@,
        ConfigErrorView::TelegramConfigMissing => "telegram config missing"@,
        ConfigErrorView::DiscordConfigMissing => "discord config missing"@,
        ConfigErrorView::HttpClientUnavailable =>
            "HTTP client could not be built (no TLS backend or resolver configuration)"@,
    }
}

impl ConfigError {
    /// The text shown for this error.
    pub fn message(&self) -> (m: String)
        ensures
            m@ == spec_error_message(self@),
    {
        match self {
            ConfigError::TelegramSectionMissing => owned(
                "telegram provider selected but [telegram] section missing",
            ),
            ConfigError::TelegramBotTokenEmpty => owned("telegram.bot_token cannot be empty"),
            ConfigError::TelegramChatIdZero => owned("telegram.chat_id cannot be 0"),
            ConfigError::DiscordSectionMissing => owned(
                "discord provider selected but [discord] section missing",
            ),
            ConfigError::DiscordBotTokenEmpty => owned("discord.bot_token cannot be empty"),
            ConfigError::DiscordChannelIdEmpty => owned("discord.channel_id cannot be empty"),
            ConfigError::DiscordApplicationIdEmpty => owned(
                "discord.application_id cannot be empty",
            ),
            ConfigError::UnknownProvider(n) => {
                let mut m = owned("Unknown provider: ");
                push_str(&mut m, n.as_str());
                m
            },
            ConfigError::FailoverSameAsDefault(n) => {
                let mut m = owned("failover_provider must differ from default_provider (both are ");
                push_str(&mut m, n.as_str());
                push_str(&mut m, ")");
                m
            },
            ConfigError::EscalateNotBeforeTimeout { escalate_after, default_timeout } => {
                let mut m = owned("escalate_after_secs (");
                push_decimal(&mut m, *escalate_after);
                push_str(&mut m, ") must be less than default_timeout (");
                push_decimal(&mut m, *default_timeout);
                push_str(&mut m, ") so the failover provider has a non-zero budget");
                m
            },
            ConfigError::TelegramConfigMissing => owned("telegram config missing"),
            ConfigError::DiscordConfigMissing => owned("discord config missing"),
            ConfigError::HttpClientUnavailable => owned(
                "HTTP client could not be built (no TLS backend or resolver configuration)",
            ),
        }
    }
}

// ---------------------------------------------------------------------------
// Validation
// ---------------------------------------------------------------------------

/// What checking the section of provider `name` gives.
pub open spec fn spec_check_provider(cfg: &Config, name: Seq<char>) -> Result<(), ConfigErrorView> {
    if name == "telegram"@ {
        match cfg.telegram {
            None => Err(ConfigErrorView::TelegramSectionMissing),
            Some(tg) => if tg.bot_token@.len() == 0 {
                Err(ConfigErrorView::TelegramBotTokenEmpty)
            } else if tg.chat_id == 0 {
                Err(ConfigErrorView::TelegramChatIdZero)
            } else {
                Ok(())
            },
        }
    } else if name == "discord"@ {
        match cfg.discord {
            None => Err(ConfigErrorView::DiscordSectionMissing),
            Some(dc) => if dc.bot_token@.len() == 0 {
                Err(ConfigErrorView::DiscordBotTokenEmpty)
            } else if dc.channel_id@.len() == 0 || dc.channel_id@ == "0"@ {
                Err(ConfigErrorView::DiscordChannelIdEmpty)
            } else if dc.application_id@.len() == 0 {
                Err(ConfigErrorView::DiscordApplicationIdEmpty)
            } else {
                Ok(())
            },
        }
    } else {
        Err(ConfigErrorView::UnknownProvider(name))
    }
}

/// What validating a whole configuration gives.
pub open spec fn spec_validate(cfg: &Config) -> Result<(), ConfigErrorView> {
    match spec_check_provider(cfg, cfg.default_provider@) {
        Err(e) => Err(e),
        Ok(_) => match cfg.failover_provider {
            None => Ok(()),
            Some(fp) => if fp@ == cfg.default_provider@ {
                Err(ConfigErrorView::FailoverSameAsDefault(fp@))
            } else {
                match spec_check_provider(cfg, fp@) {
                    Err(e) => Err(e),
                    Ok(_) => match cfg.escalate_after_secs {
                        Some(after) => if after >= cfg.default_timeout {
                            Err(
                                ConfigErrorView::EscalateNotBeforeTimeout {
                                    escalate_after: after,
                                    default_timeout: cfg.default_timeout,
                                },
                            )
                        } else {
                            Ok(())
                        },
                        None => Ok(()),
                    },
                }
            },
        },
    }
}

impl Config {
    /// Checks that the section of provider `provider` is present and filled
    /// in; unknown provider names are refused.
    pub fn validate_provider(&self, provider: &str) -> (r: Result<(), ConfigError>)
        ensures
            result_view(r) == spec_check_provider(self, provider@),
    {
        if str_eq(provider, "telegram") {
            match &self.telegram {
                None => Err(ConfigError::TelegramSectionMissing),
                Some(tg) => {
                    if str_is_empty(tg.bot_token.as_str()) {
                        Err(ConfigError::TelegramBotTokenEmpty)
                    } else if tg.chat_id == 0 {
                        Err(ConfigError::TelegramChatIdZero)
                    } else {
                        Ok(())
                    }
                },
            }
        } else if str_eq(provider, "discord") {
            match &self.discord {
                None => Err(ConfigError::DiscordSectionMissing),
                Some(dc) => {
                    if str_is_empty(dc.bot_token.as_str()) {
                        Err(ConfigError::DiscordBotTokenEmpty)
                    } else if str_is_empty(dc.channel_id.as_str()) || str_eq(
                        dc.channel_id.as_str(),
                        "0",
                    ) {
                        Err(ConfigError::DiscordChannelIdEmpty)
                    } else if str_is_empty(dc.application_id.as_str()) {
                        Err(ConfigError::DiscordApplicationIdEmpty)
                    } else {
                        Ok(())
                    }
                },
            }
        } else {
            Err(ConfigError::UnknownProvider(owned(provider)))
        }
    }

    /// Checks the default provider, and, when a failover provider is set,
    /// that it differs from the default, that its section is filled in and
    /// that an explicit `escalate_after_secs` is below `default_timeout`.
    pub fn validate(&self) -> (r: Result<(), ConfigError>)
        ensures
            result_view(r) == spec_validate(self),
    {
        let first = self.validate_provider(self.default_provider.as_str());
        if let Err(e) = first {
            return Err(e);
        }
        match &self.failover_provider {
            None => Ok(()),
            Some(fp) => {
                if str_eq(fp.as_str(), self.default_provider.as_str()) {
                    return Err(ConfigError::FailoverSameAsDefault(fp.clone()));
                }
                let second = self.validate_provider(fp.as_str());
                if let Err(e) = second {
                    return Err(e);
                }
                match self.escalate_after_secs {
                    Some(after) => {
                        if after >= self.default_timeout {
                            Err(
                                ConfigError::EscalateNotBeforeTimeout {
                                    escalate_after: after,
                                    default_timeout: self.default_timeout,
                                },
                            )
                        } else {
                            Ok(())
                        }
                    },
                    None => Ok(()),
                }
            },
        }
    }

    /// The template written by `openfeedback init`.
    pub fn generate_default() -> (r: String)
        ensures
            r@ == DEFAULT_CONFIG_TEMPLATE@,
    {
        owned(DEFAULT_CONFIG_TEMPLATE)
    }

    /// Where the configuration file lives below the configuration
    /// directory `dir` (`~/.config` when there is none).
    pub fn config_path_in(dir: Option<String>) -> (p: String)
        ensures
            p@ == spec_config_path(crate::text::opt_view(dir)),
    {
        let base = dir_or(dir, "~/.config");
        let app_dir = join_path(base.as_str(), "openfeedback");
        join_path(app_dir.as_str(), "config.toml")
    }

    /// Where the configuration file lives for the current user.
    pub fn config_path() -> (p: String)
        ensures
            exists|dir: Option<Seq<char>>| p@ == spec_config_path(dir),
    {
        let dir = user_config_dir();
        let p = Self::config_path_in(dir);
        proof {
            let d = crate::text::opt_view(dir);
            assert(p@ == spec_config_path(d));
        }
        p
    }
}

/// A validated configuration names providers whose sections are present;
/// a failover provider differs from the default one and leaves the
/// secondary a non-zero budget when an escalation delay is set.
pub proof fn lemma_validated_config(cfg: &Config)
    requires
        spec_validate(cfg) is Ok,
    ensures
        spec_check_provider(cfg, cfg.default_provider@) is Ok,
        cfg.default_provider@ == "telegram"@ ==> cfg.telegram is Some,
        cfg.default_provider@ == "discord"@ ==> cfg.discord is Some,
        cfg.default_provider@ == "telegram"@ || cfg.default_provider@ == "discord"@,
        cfg.failover_provider matches Some(fp) ==> {
            &&& fp@ != cfg.default_provider@
            &&& spec_check_provider(cfg, fp@) is Ok
            &&& (fp@ == "telegram"@ ==> cfg.telegram is Some)
            &&& (fp@ == "discord"@ ==> cfg.discord is Some)
            &&& (cfg.escalate_after_secs matches Some(after) ==> after < cfg.default_timeout)
        },
{
    reveal_strlit("telegram");
    reveal_strlit("discord");
    assert("telegram"@ != "discord"@) by {
        assert("telegram"@.len() != "discord"@.len());
    }
}

/// With a valid default provider and a valid failover provider that
/// differs from it, the configuration is accepted exactly when no
/// escalation delay is set or the delay is strictly below
/// `default_timeout`; otherwise the refusal names both numbers.
pub proof fn lemma_escalation_delay_bound(cfg: &Config)
    requires
        spec_check_provider(cfg, cfg.default_provider@) is Ok,
        cfg.failover_provider matches Some(fp) && fp@ != cfg.default_provider@
            && spec_check_provider(cfg, fp@) is Ok,
    ensures
        (cfg.escalate_after_secs is None || cfg.escalate_after_secs->0 < cfg.default_timeout)
            ==> spec_validate(cfg) is Ok,
        cfg.escalate_after_secs is Some && cfg.escalate_after_secs->0 >= cfg.default_timeout ==> spec_validate(cfg)
            == Err::<(), ConfigErrorView>(
            ConfigErrorView::EscalateNotBeforeTimeout {
                escalate_after: cfg.escalate_after_secs->0,
                default_timeout: cfg.default_timeout,
            },
        ),
{
}

// ---------------------------------------------------------------------------
// Defaults and paths
// ---------------------------------------------------------------------------

/// The provider used when the file names none.
pub fn default_provider() -> (p: String)
    ensures
        p@ == "telegram"@,
{
    owned("telegram")
}

/// The total time budget, in seconds, when the file sets none.
pub fn default_timeout() -> (t: u64)
    ensures
        t == 3600,
{
    3600
}

/// How long, in seconds, to wait for a reject reason when the file sets
/// no value.
pub fn default_reject_feedback_timeout() -> (t: u64)
    ensures
        t == 60,
{
    60
}

/// `base` joined with the relative component `part`, as `PathBuf::join`
/// does it: a `/` goes between them unless `base` is empty or already ends
/// with one.
pub open spec fn spec_join(base: Seq<char>, part: Seq<char>) -> Seq<char> {
    if base.len() == 0 {
        part
    } else if base.last() == '/' {
        base + part
    } else {
        base + seq!['/'] + part
    }
}

/// The directory, or the fallback when there is none.
pub open spec fn spec_dir_or(dir: Option<Seq<char>>, fallback: Seq<char>) -> Seq<char> {
    match dir {
        Some(d) => d,
        None => fallback,
    }
}

/// The configuration file below the configuration directory `dir`.
pub open spec fn spec_config_path(dir: Option<Seq<char>>) -> Seq<char> {
    spec_join(spec_join(spec_dir_or(dir, "~/.config"@), "openfeedback"@), "config.toml"@)
}

/// The audit log below the local data directory `dir`.
pub open spec fn spec_audit_file(dir: Option<Seq<char>>) -> Seq<char> {
    spec_join(spec_join(spec_dir_or(dir, "~/.local/share"@), "openfeedback"@), "audit.jsonl"@)
}

/// Joins a relative path component to a directory.
pub fn join_path(base: &str, part: &str) -> (p: String)
    ensures
        p@ == spec_join(base@, part@),
{
    let chars = chars_of(base);
    let mut out = owned(base);
    if chars.len() > 0 && chars[chars.len() - 1] != '/' {
        push_str(&mut out, "/");
        proof {
            reveal_strlit("/");
        }
    }
    push_str(&mut out, part);
    proof {
        if base@.len() > 0 && base@.last() != '/' {
            assert(out@ =~= spec_join(base@, part@));
        } else {
            assert(out@ =~= spec_join(base@, part@));
        }
    }
    out
}

/// The directory, or `fallback` when there is none.
fn dir_or(dir: Option<String>, fallback: &str) -> (d: String)
    ensures
        d@ == spec_dir_or(crate::text::opt_view(dir), fallback@),
{
    match dir {
        Some(d) => d,
        None => owned(fallback),
    }
}

/// `dirs::config_dir`, with the path turned into a `String` (lossily, as
/// `to_string_lossy` does). The directory depends on the environment, so
/// nothing is said of it.
#[verifier::external_body]
fn user_config_dir() -> (d: Option<String>) {
    match dirs::config_dir() {
        Some(p) => Some(p.to_string_lossy().into_owned()),
        None => None,
    }
}

/// `dirs::data_local_dir`, with the path turned into a `String` (lossily,
/// as `to_string_lossy` does). The directory depends on the environment,
/// so nothing is said of it.
#[verifier::external_body]
fn user_data_local_dir() -> (d: Option<String>) {
    match dirs::data_local_dir() {
        Some(p) => Some(p.to_string_lossy().into_owned()),
        None => None,
    }
}

/// Where the audit log lives below the local data directory `dir`
/// (`~/.local/share` when there is none).
pub fn audit_file_in(dir: Option<String>) -> (p: String)
    ensures
        p@ == spec_audit_file(crate::text::opt_view(dir)),
{
    let base = dir_or(dir, "~/.local/share");
    let app_dir = join_path(base.as_str(), "openfeedback");
    join_path(app_dir.as_str(), "audit.jsonl")
}

/// Where the audit log lives for the current user.
pub fn default_audit_file() -> (p: String)
    ensures
        exists|dir: Option<Seq<char>>| p@ == spec_audit_file(dir),
{
    let dir = user_data_local_dir();
    let p = audit_file_in(dir);
    proof {
        let d = crate::text::opt_view(dir);
        assert(p@ == spec_audit_file(d));
    }
    p
}

impl Default for LoggingConfig {
    fn default() -> (l: Self)
        ensures
            exists|dir: Option<Seq<char>>| l.audit_file@ == spec_audit_file(dir),
    {
        LoggingConfig { audit_file: default_audit_file() }
    }
}

/// The configuration template written by `openfeedback init`.
pub const DEFAULT_CONFIG_TEMPLATE: &'static str = "default_provider = \"telegram\"\ndefault_timeout = 3600\n# Seconds to wait for reject feedback (0 = skip)\nreject_feedback_timeout = 60\n# locale: \"en\" (default), \"zh-CN\", \"zh-TW\"\nlocale = \"en\"\n\n# --- Optional failover ---\n# If set, when the primary provider times out without a decision,\n# openfeedback cleans up (removes buttons + sends an \"escalated\" notice)\n# and hands off to this secondary provider.\n# failover_provider = \"discord\"\n# escalate_after_secs = 1800   # default: half of default_timeout\n\n[telegram]\nbot_token = \"YOUR_BOT_TOKEN\"\nchat_id = 0\ntrusted_user_ids = []\n\n# [discord]\n# bot_token = \"YOUR_BOT_TOKEN\"\n# application_id = \"YOUR_APPLICATION_ID\"\n# channel_id = \"YOUR_CHANNEL_ID\"\n# trusted_user_ids = []\n\n[logging]\n# audit_file = \"~/.local/share/openfeedback/audit.jsonl\"\n";

} // verus!
