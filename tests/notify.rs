use lambda_cli::notify::{
    escape_telegram_markdown, report, telegram_url, Channel, DeliveryOutcome, DiscordConfig,
    Fanout, SlackConfig, TelegramConfig, DISCORD_SUCCESS_COLOR,
};
use lambda_cli::{InstanceReadyMessage, NotifyConfig};

fn message(name: Option<&str>) -> InstanceReadyMessage {
    InstanceReadyMessage {
        instance_id: "abc123".to_string(),
        instance_name: name.map(|n| n.to_string()),
        ip: "1.2.3.4".to_string(),
        gpu_type: "gpu_1x_a100".to_string(),
        region: "us-east-1".to_string(),
    }
}

#[test]
fn test_escape_telegram_markdown() {
    assert_eq!(escape_telegram_markdown("hello"), "hello");
    assert_eq!(escape_telegram_markdown("hello_world"), "hello\\_world");
    assert_eq!(escape_telegram_markdown("gpu_1x_a100"), "gpu\\_1x\\_a100");
}

#[test]
fn test_instance_ready_message() {
    let msg = InstanceReadyMessage {
        instance_id: "abc123".to_string(),
        instance_name: Some("my-gpu".to_string()),
        ip: "1.2.3.4".to_string(),
        gpu_type: "gpu_1x_a100".to_string(),
        region: "us-east-1".to_string(),
    };

    assert_eq!(msg.ssh_command(), "ssh ubuntu@1.2.3.4");
    assert_eq!(msg.display_name(), "my-gpu");

    let msg_no_name = InstanceReadyMessage {
        instance_id: "abc123".to_string(),
        instance_name: None,
        ip: "1.2.3.4".to_string(),
        gpu_type: "gpu_1x_a100".to_string(),
        region: "us-east-1".to_string(),
    };

    assert_eq!(msg_no_name.display_name(), "abc123");
}

#[test]
fn test_notify_config_is_configured() {
    let empty = NotifyConfig::default();
    assert!(!empty.is_configured());

    let with_slack = NotifyConfig {
        slack: Some(SlackConfig { webhook_url: "https://hooks.slack.com/test".to_string() }),
        ..Default::default()
    };
    assert!(with_slack.is_configured());
    assert_eq!(with_slack.configured_channels(), vec!["Slack"]);
}

#[test]
fn escaping_every_markup_character() {
    assert_eq!(
        escape_telegram_markdown("_*[]()~`>#+-=|{}.!"),
        "\\_\\*\\[\\]\\(\\)\\~\\`\\>\\#\\+\\-\\=\\|\\{\\}\\.\\!"
    );
    assert_eq!(escape_telegram_markdown(""), "");
    assert_eq!(escape_telegram_markdown("a\\b"), "a\\b");
}

#[test]
fn escaping_twice_only_changes_text_with_markup() {
    let plain = "us east 1";
    assert_eq!(escape_telegram_markdown(&escape_telegram_markdown(plain)), escape_telegram_markdown(plain));
    let once = escape_telegram_markdown("gpu_1x");
    assert_eq!(once, "gpu\\_1x");
    assert_eq!(escape_telegram_markdown("gpu_1x"), once);
    let twice = escape_telegram_markdown(&once);
    assert_eq!(twice, "gpu\\\\_1x");
    assert_ne!(twice, once);
}

#[test]
fn config_from_values() {
    assert!(NotifyConfig::from_values(None, Some(String::new()), Some("t".to_string()), None).is_none());
    let c = NotifyConfig::from_values(
        Some("https://hooks.slack.com/x".to_string()),
        Some(String::new()),
        Some("tok".to_string()),
        Some("42".to_string()),
    )
    .unwrap();
    assert_eq!(c.slack.as_ref().unwrap().webhook_url, "https://hooks.slack.com/x");
    assert!(c.discord.is_none());
    assert_eq!(c.telegram.as_ref().unwrap().chat_id, "42");
    assert_eq!(c.configured_channels(), vec!["Slack", "Telegram"]);
    assert_eq!(c.channels(), vec![Channel::Slack, Channel::Telegram]);
}

#[test]
fn endpoints_of_channels() {
    let c = NotifyConfig {
        slack: None,
        discord: Some(DiscordConfig { webhook_url: "https://discord.test/hook".to_string() }),
        telegram: Some(TelegramConfig { bot_token: "T0K".to_string(), chat_id: "1".to_string() }),
    };
    assert!(c.endpoint(Channel::Slack).is_none());
    assert_eq!(c.endpoint(Channel::Discord).unwrap(), "https://discord.test/hook");
    assert_eq!(c.endpoint(Channel::Telegram).unwrap(), "https://api.telegram.org/botT0K/sendMessage");
    assert_eq!(telegram_url(&"abc".to_string()), "https://api.telegram.org/botabc/sendMessage");
}

#[test]
fn channel_texts() {
    let m = message(Some("my_gpu"));
    assert_eq!(
        m.slack_fields(),
        vec![
            "*Name:*\nmy_gpu".to_string(),
            "*GPU:*\ngpu_1x_a100".to_string(),
            "*Region:*\nus-east-1".to_string(),
            "*IP:*\n1.2.3.4".to_string(),
        ]
    );
    assert_eq!(m.slack_ssh_section(), "*SSH Command:*\n```ssh ubuntu@1.2.3.4```");
    let fields = m.discord_fields();
    assert_eq!(fields.len(), 5);
    assert_eq!(fields[3].name, "IP Address");
    assert_eq!(fields[3].value, "1.2.3.4");
    assert_eq!(fields[4].value, "```ssh ubuntu@1.2.3.4```");
    assert!(!fields[4].inline);
    assert_eq!(DISCORD_SUCCESS_COLOR, 5763719);
    assert_eq!(
        m.telegram_text(),
        "*GPU Instance Ready\\!*\n\n*Name:* `my\\_gpu`\n*GPU:* gpu\\_1x\\_a100\n*Region:* us\\-east\\-1\n*IP:* `1.2.3.4`\n\n*SSH Command:*\n```\nssh ubuntu@1.2.3.4\n```"
    );
}

#[test]
fn fanout_reports_each_channel_despite_failure() {
    let c = NotifyConfig {
        slack: Some(SlackConfig { webhook_url: "https://hooks.slack.com/x".to_string() }),
        discord: Some(DiscordConfig { webhook_url: "https://discord.test/hook".to_string() }),
        telegram: None,
    };
    let mut f = Fanout::new(&c);
    let mut attempted = Vec::new();
    let mut outcomes = vec![
        DeliveryOutcome::Rejected { status: "500 Internal Server Error".to_string(), body: "boom".to_string() },
        DeliveryOutcome::Delivered,
    ]
    .into_iter();
    while let Some(ch) = f.next_channel() {
        attempted.push(ch);
        f.record(outcomes.next().unwrap());
    }
    assert_eq!(attempted, vec![Channel::Slack, Channel::Discord]);
    let reports = f.into_reports();
    assert_eq!(reports.len(), 2);
    assert_eq!(reports[0].channel, Channel::Slack);
    assert_eq!(
        reports[0].result,
        Err("Slack webhook failed (500 Internal Server Error): boom".to_string())
    );
    assert_eq!(reports[1].channel, Channel::Discord);
    assert_eq!(reports[1].result, Ok(()));
}

#[test]
fn report_texts_per_channel() {
    let r = report(
        Channel::Telegram,
        DeliveryOutcome::Rejected { status: "400 Bad Request".to_string(), body: "bad".to_string() },
    );
    assert_eq!(r.result, Err("Telegram API failed (400 Bad Request): bad".to_string()));
    let r = report(
        Channel::Discord,
        DeliveryOutcome::Rejected { status: "404 Not Found".to_string(), body: String::new() },
    );
    assert_eq!(r.result, Err("Discord webhook failed (404 Not Found): ".to_string()));
    let r = report(Channel::Slack, DeliveryOutcome::Unreachable("connection refused".to_string()));
    assert_eq!(r.result, Err("connection refused".to_string()));
    assert_eq!(Channel::Discord.name(), "Discord");
}
