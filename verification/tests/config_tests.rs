use openfeedback::config::{
    audit_file_in, default_audit_file, default_provider, default_reject_feedback_timeout,
    default_timeout, join_path, Config, ConfigError, DiscordConfig, LoggingConfig, TelegramConfig,
    DEFAULT_CONFIG_TEMPLATE,
};
use openfeedback::i18n::Locale;

fn telegram() -> TelegramConfig {
    TelegramConfig { bot_token: "123:abc".to_string(), chat_id: -100, trusted_user_ids: vec![42] }
}

fn discord() -> DiscordConfig {
    DiscordConfig {
        bot_token: "token".to_string(),
        channel_id: "111".to_string(),
        application_id: "222".to_string(),
        trusted_user_ids: vec!["333".to_string()],
    }
}

fn config() -> Config {
    Config {
        default_provider: "telegram".to_string(),
        default_timeout: 3600,
        reject_feedback_timeout: 60,
        locale: Locale::En,
        failover_provider: None,
        escalate_after_secs: None,
        telegram: Some(telegram()),
        discord: None,
        logging: LoggingConfig { audit_file: "/tmp/audit.jsonl".to_string() },
    }
}

fn message(r: Result<(), ConfigError>) -> String {
    match r {
        Ok(()) => "ok".to_string(),
        Err(e) => e.message(),
    }
}

#[test]
fn defaults() {
    assert_eq!(default_provider().as_str(), "telegram");
    assert_eq!(default_timeout(), 3600);
    assert_eq!(default_reject_feedback_timeout(), 60);
    assert_eq!(Locale::default(), Locale::En);
}

#[test]
fn valid_single_provider_config() {
    assert_eq!(message(config().validate()), "ok");
}

#[test]
fn telegram_section_missing() {
    let mut c = config();
    c.telegram = None;
    assert_eq!(message(c.validate()), "telegram provider selected but [telegram] section missing");
}

#[test]
fn telegram_token_empty() {
    let mut c = config();
    c.telegram.as_mut().unwrap().bot_token = String::new();
    assert_eq!(message(c.validate()), "telegram.bot_token cannot be empty");
}

#[test]
fn telegram_chat_id_zero() {
    let mut c = config();
    c.telegram.as_mut().unwrap().chat_id = 0;
    assert_eq!(message(c.validate()), "telegram.chat_id cannot be 0");
}

#[test]
fn discord_checks() {
    let mut c = config();
    c.default_provider = "discord".to_string();
    c.telegram = None;
    assert_eq!(message(c.validate()), "discord provider selected but [discord] section missing");
    c.discord = Some(discord());
    assert_eq!(message(c.validate()), "ok");
    c.discord.as_mut().unwrap().bot_token = String::new();
    assert_eq!(message(c.validate()), "discord.bot_token cannot be empty");
    c.discord = Some(discord());
    c.discord.as_mut().unwrap().channel_id = "0".to_string();
    assert_eq!(message(c.validate()), "discord.channel_id cannot be empty");
    c.discord.as_mut().unwrap().channel_id = String::new();
    assert_eq!(message(c.validate()), "discord.channel_id cannot be empty");
    c.discord = Some(discord());
    c.discord.as_mut().unwrap().application_id = String::new();
    assert_eq!(message(c.validate()), "discord.application_id cannot be empty");
}

#[test]
fn unknown_provider() {
    let mut c = config();
    c.default_provider = "slack".to_string();
    assert_eq!(message(c.validate()), "Unknown provider: slack");
    assert_eq!(message(config().validate_provider("matrix")), "Unknown provider: matrix");
}

#[test]
fn failover_must_differ_from_default() {
    let mut c = config();
    c.failover_provider = Some("telegram".to_string());
    assert_eq!(
        message(c.validate()),
        "failover_provider must differ from default_provider (both are telegram)"
    );
}

#[test]
fn failover_section_must_exist() {
    let mut c = config();
    c.failover_provider = Some("discord".to_string());
    assert_eq!(message(c.validate()), "discord provider selected but [discord] section missing");
    c.discord = Some(discord());
    assert_eq!(message(c.validate()), "ok");
}

#[test]
fn escalate_after_must_be_below_timeout() {
    let mut c = config();
    c.discord = Some(discord());
    c.failover_provider = Some("discord".to_string());
    c.escalate_after_secs = Some(3600);
    assert_eq!(
        message(c.validate()),
        "escalate_after_secs (3600) must be less than default_timeout (3600) so the failover provider has a non-zero budget"
    );
    c.escalate_after_secs = Some(1800);
    assert_eq!(message(c.validate()), "ok");
}

#[test]
fn escalate_after_ignored_without_failover() {
    let mut c = config();
    c.escalate_after_secs = Some(99999);
    assert_eq!(message(c.validate()), "ok");
}

#[test]
fn build_error_messages() {
    assert_eq!(ConfigError::TelegramConfigMissing.message(), "telegram config missing");
    assert_eq!(ConfigError::DiscordConfigMissing.message(), "discord config missing");
}

#[test]
fn template_is_the_documented_one() {
    let t = Config::generate_default();
    assert_eq!(t.as_str(), DEFAULT_CONFIG_TEMPLATE);
    assert!(t.starts_with("default_provider = \"telegram\"\ndefault_timeout = 3600\n"));
    assert!(t.contains("\n[telegram]\nbot_token = \"YOUR_BOT_TOKEN\"\nchat_id = 0\ntrusted_user_ids = []\n"));
    assert!(t.ends_with("[logging]\n# audit_file = \"~/.local/share/openfeedback/audit.jsonl\"\n"));
}

#[test]
fn path_joining() {
    assert_eq!(join_path("/home/a/.config", "openfeedback").as_str(), "/home/a/.config/openfeedback");
    assert_eq!(join_path("/home/a/", "x").as_str(), "/home/a/x");
    assert_eq!(join_path("", "x").as_str(), "x");
    assert_eq!(
        Config::config_path_in(Some("/home/a/.config".to_string())).as_str(),
        "/home/a/.config/openfeedback/config.toml"
    );
    assert_eq!(Config::config_path_in(None).as_str(), "~/.config/openfeedback/config.toml");
    assert_eq!(audit_file_in(None).as_str(), "~/.local/share/openfeedback/audit.jsonl");
    assert_eq!(
        audit_file_in(Some("/data".to_string())).as_str(),
        "/data/openfeedback/audit.jsonl"
    );
}

#[test]
fn user_paths_end_with_the_application_files() {
    assert!(Config::config_path().ends_with("/openfeedback/config.toml"));
    assert!(default_audit_file().ends_with("/openfeedback/audit.jsonl"));
    assert!(LoggingConfig::default().audit_file.ends_with("/openfeedback/audit.jsonl"));
}
