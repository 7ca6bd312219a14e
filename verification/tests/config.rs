use finalunlock::config::{Config, ConfigError};

fn sample() -> Config {
    Config {
        bot_token: "123456:token".to_string(),
        chat_id: 42,
        admin_ids: vec![7, 11, -3],
        database_url: "sqlite:finalshell_bot.db".to_string(),
        max_user_requests: 3,
        log_level: "info".to_string(),
        guard_check_interval: 86400,
    }
}

#[test]
fn admins_are_those_listed() {
    let config = sample();
    assert!(config.is_admin(7));
    assert!(config.is_admin(11));
    assert!(config.is_admin(-3));
    assert!(!config.is_admin(3));
    assert!(!config.is_admin(0));
    let mut nobody = sample();
    nobody.admin_ids.clear();
    assert!(!nobody.is_admin(7));
}

#[test]
fn a_sound_configuration_passes() {
    assert_eq!(sample().validate(), Ok(()));
}

#[test]
fn first_broken_rule_is_reported() {
    let mut config = sample();
    config.max_user_requests = 0;
    assert_eq!(config.validate(), Err(ConfigError::NoRequestsAllowed));
    config.max_user_requests = -1;
    assert_eq!(config.validate(), Err(ConfigError::NoRequestsAllowed));
    config.chat_id = 0;
    assert_eq!(config.validate(), Err(ConfigError::ZeroChatId));
    config.bot_token = String::new();
    assert_eq!(config.validate(), Err(ConfigError::EmptyBotToken));
}

#[test]
fn config_error_messages() {
    assert_eq!(ConfigError::BotTokenNotSet.message(), "BOT_TOKEN 环境变量未设置");
    assert_eq!(ConfigError::ChatIdNotSet.message(), "CHAT_ID 环境变量未设置");
    assert_eq!(ConfigError::ChatIdMalformed.message(), "CHAT_ID 格式错误");
    assert_eq!(ConfigError::EmptyBotToken.message(), "Bot token 不能为空");
    assert_eq!(ConfigError::ZeroChatId.message(), "Chat ID 不能为空");
    assert_eq!(ConfigError::NoRequestsAllowed.message(), "最大用户请求数必须大于0");
}

#[test]
fn settings_with_every_value_given() {
    let config = Config::from_values(
        Some("123456:token"),
        Some("-1001234"),
        Some("7, 11 ,x,,-3"),
        Some("sqlite:other.db"),
        Some("5"),
        Some("debug"),
        Some("60"),
    )
    .unwrap();
    assert_eq!(config.bot_token, "123456:token");
    assert_eq!(config.chat_id, -1001234);
    assert_eq!(config.admin_ids, vec![7, 11, -3]);
    assert_eq!(config.database_url, "sqlite:other.db");
    assert_eq!(config.max_user_requests, 5);
    assert_eq!(config.log_level, "debug");
    assert_eq!(config.guard_check_interval, 60);
}

#[test]
fn settings_fall_back_to_defaults() {
    let config = Config::from_values(Some("t"), Some("1"), None, None, None, None, None).unwrap();
    assert!(config.admin_ids.is_empty());
    assert_eq!(config.database_url, "sqlite:finalshell_bot.db");
    assert_eq!(config.max_user_requests, 3);
    assert_eq!(config.log_level, "info");
    assert_eq!(config.guard_check_interval, 86400);
    let config =
        Config::from_values(Some("t"), Some("1"), Some(""), None, Some("many"), None, Some("-5")).unwrap();
    assert!(config.admin_ids.is_empty());
    assert_eq!(config.max_user_requests, 3);
    assert_eq!(config.guard_check_interval, 86400);
    let config = Config::from_values(Some("t"), Some("1"), None, None, Some("-2"), None, Some(" 5")).unwrap();
    assert_eq!(config.max_user_requests, -2);
    assert_eq!(config.guard_check_interval, 86400);
}

#[test]
fn settings_need_token_and_chat_id() {
    let missing = |r: Result<Config, ConfigError>| r.err();
    assert_eq!(
        missing(Config::from_values(None, None, None, None, None, None, None)),
        Some(ConfigError::BotTokenNotSet)
    );
    assert_eq!(
        missing(Config::from_values(Some("t"), None, None, None, None, None, None)),
        Some(ConfigError::ChatIdNotSet)
    );
    assert_eq!(
        missing(Config::from_values(Some("t"), Some("12a"), None, None, None, None, None)),
        Some(ConfigError::ChatIdMalformed)
    );
    assert_eq!(
        missing(Config::from_values(Some("t"), Some(" 12"), None, None, None, None, None)),
        Some(ConfigError::ChatIdMalformed)
    );
    assert_eq!(
        missing(Config::from_values(Some("t"), Some(""), None, None, None, None, None)),
        Some(ConfigError::ChatIdMalformed)
    );
    // an empty token is read, and caught by the rules afterwards
    let config = Config::from_values(Some(""), Some("0"), None, None, Some("0"), None, None).unwrap();
    assert_eq!(config.validate(), Err(ConfigError::EmptyBotToken));
}
