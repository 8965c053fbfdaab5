use tachy_daemon::channels::{env_var_name, parse_channels_yaml, ChannelType};

#[test]
fn parses_channel_config() {
    let yaml = "channels:\n  - type: slack\n    bot_token: $SLACK_TOKEN\n    channel: general\n    template: chat\n    enabled: true\n  - type: telegram\n    bot_token: $TG_TOKEN\n    allowed_users:\n      - alice\n      - bob\n    template: chat\n";
    let channels = parse_channels_yaml(yaml);
    assert_eq!(channels.len(), 2);
    assert_eq!(channels[0].kind, ChannelType::Slack);
    assert_eq!(channels[0].channel, "general");
    assert_eq!(channels[1].kind, ChannelType::Telegram);
    assert_eq!(channels[1].allowed_users.len(), 2);
}

#[test]
fn quotes_comments_and_defaults() {
    let yaml = "# channels\nchannels:\n  - type: \"discord\"\n    channel_id: \"123456789\"\n    model: 'llama'\n";
    let channels = parse_channels_yaml(yaml);
    assert_eq!(channels.len(), 1);
    let c = &channels[0];
    assert_eq!(c.kind, ChannelType::Discord);
    assert_eq!(c.channel_id, "123456789");
    assert_eq!(c.model, "llama");
    assert_eq!(c.bot_token, "");
    assert!(c.enabled);
    assert!(c.allowed_users.is_empty());
}

#[test]
fn invalid_channels_are_dropped() {
    // unknown type, a flag where text is expected, text where a flag is expected
    let yaml = "channels:\n  - type: irc\n  - type: slack\n    template: true\n  - type: webhook\n    enabled: maybe\n  - type: telegram\n    enabled: false\n";
    let channels = parse_channels_yaml(yaml);
    assert_eq!(channels.len(), 1);
    assert_eq!(channels[0].kind, ChannelType::Telegram);
    assert!(!channels[0].enabled);
}

#[test]
fn list_ends_at_next_key_and_crlf_lines() {
    let yaml = "channels:\r\n  - type: telegram\r\n    allowed_users:\r\n      - \"carol\"\r\n    template: chat\r\n    - ignored-item\r\n";
    let channels = parse_channels_yaml(yaml);
    assert_eq!(channels.len(), 1);
    assert_eq!(channels[0].allowed_users, vec!["carol".to_string()]);
    assert_eq!(channels[0].template, "chat");
}

#[test]
fn lines_before_any_channel_are_ignored() {
    let channels = parse_channels_yaml("bot_token: x\nchannel: y\n");
    assert!(channels.is_empty());
    assert!(parse_channels_yaml("").is_empty());
}

#[test]
fn env_references() {
    assert_eq!(env_var_name("$TACHY_TEST_TOKEN").as_deref(), Some("TACHY_TEST_TOKEN"));
    assert_eq!(env_var_name("plain_text"), None);
}

#[test]
fn messages_are_clipped_to_platform_limits() {
    use_clip();
}

fn use_clip() {
    let clip = tachy_daemon::channels::clip_message;
    assert_eq!(clip("short", 1900), "short");
    let long = "x".repeat(2000);
    let c = clip(&long, 1900);
    assert_eq!(c.len(), 1900 + "…".len());
    assert!(c.ends_with('…'));
    assert_eq!(clip("abcdef", 3), "abc…");
}
