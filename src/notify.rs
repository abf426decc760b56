//! Instance-ready notifications: channel configuration, message text for
//! each channel's dialect, and the fan-out that reports every channel on
//! its own.
use vstd::prelude::*;
use vstd::string::*;
use crate::text::{given, is_given, push_char};

verus! {

/// What is announced when an instance can be reached.
#[derive(Debug, Clone)]
pub struct InstanceReadyMessage {
    pub instance_id: String,
    pub instance_name: Option<String>,
    pub ip: String,
    pub gpu_type: String,
    pub region: String,
}

/// The name under which an instance is shown: its own name, else its id.
pub open spec fn display_name_spec(m: InstanceReadyMessage) -> Seq<char> {
    match m.instance_name {
        Some(n) => n@,
        None => m.instance_id@,
    }
}

/// The command that logs into an instance at `ip`.
pub open spec fn ssh_command_spec(ip: Seq<char>) -> Seq<char> {
    "ssh ubuntu@"@ + ip
}

/// Characters that the bot channel's markup treats as control characters.
pub open spec fn is_markup_char(c: char) -> bool {
    c == '_' || c == '*' || c == '[' || c == ']' || c == '(' || c == ')' || c == '~' || c == '`'
        || c == '>' || c == '#' || c == '+' || c == '-' || c == '=' || c == '|' || c == '{'
        || c == '}' || c == '.' || c == '!'
}

/// `s` with a backslash put before each markup character.
pub open spec fn escape_spec(s: Seq<char>) -> Seq<char>
    decreases s.len(),
{
    if s.len() == 0 {
        Seq::empty()
    } else if is_markup_char(s.last()) {
        escape_spec(s.drop_last()) + seq!['\\', s.last()]
    } else {
        escape_spec(s.drop_last()).push(s.last())
    }
}

/// How many markup characters `s` holds.
pub open spec fn markup_count(s: Seq<char>) -> nat
    decreases s.len(),
{
    if s.len() == 0 {
        0
    } else {
        markup_count(s.drop_last()) + if is_markup_char(s.last()) { 1nat } else { 0nat }
    }
}

fn is_markup(c: char) -> (r: bool)
    ensures
        r == is_markup_char(c),
{
    c == '_' || c == '*' || c == '[' || c == ']' || c == '(' || c == ')' || c == '~' || c == '`'
        || c == '>' || c == '#' || c == '+' || c == '-' || c == '=' || c == '|' || c == '{'
        || c == '}' || c == '.' || c == '!'
}

/// Escapes `text` for the bot channel's markup dialect.
pub fn escape_telegram_markdown(text: &str) -> (r: String)
    ensures
        r@ == escape_spec(text@),
{
    let n = text.unicode_len();
    let mut result = String::new();
    let mut i: usize = 0;
    while i < n
        invariant
            n == text@.len(),
            i <= n,
            result@ == escape_spec(text@.subrange(0, i as int)),
        decreases n - i,
    {
        let c = text.get_char(i);
        let ghost next = text@.subrange(0, i as int + 1);
        assert(next.drop_last() =~= text@.subrange(0, i as int));
        assert(next.last() == c);
        if is_markup(c) {
            push_char(&mut result, '\\');
        }
        push_char(&mut result, c);
        proof {
            if is_markup_char(c) {
                assert(result@ =~= escape_spec(next.drop_last()) + seq!['\\', c]);
            }
        }
        i = i + 1;
    }
    assert(text@.subrange(0, n as int) =~= text@);
    result
}

proof fn lemma_count_concat(a: Seq<char>, b: Seq<char>)
    ensures
        markup_count(a + b) == markup_count(a) + markup_count(b),
    decreases b.len(),
{
    if b.len() > 0 {
        assert((a + b).drop_last() =~= a + b.drop_last());
        lemma_count_concat(a, b.drop_last());
    } else {
        assert(a + b =~= a);
    }
}

/// Escaping adds exactly one character per markup character and keeps every
/// markup character.
pub proof fn lemma_escape_counts(s: Seq<char>)
    ensures
        escape_spec(s).len() == s.len() + markup_count(s),
        markup_count(escape_spec(s)) == markup_count(s),
    decreases s.len(),
{
    if s.len() > 0 {
        lemma_escape_counts(s.drop_last());
        let c = s.last();
        if is_markup_char(c) {
            lemma_count_concat(escape_spec(s.drop_last()), seq!['\\', c]);
            assert(seq!['\\', c].drop_last() =~= seq!['\\']);
            assert(seq!['\\'].drop_last() =~= Seq::<char>::empty());
            assert(markup_count(Seq::<char>::empty()) == 0);
            assert(seq!['\\'].len() == 1 && seq!['\\'].last() == '\\');
            assert(!is_markup_char('\\'));
            assert(markup_count(seq!['\\']) == 0);
            assert(markup_count(seq!['\\', c]) == 1);
        } else {
            lemma_count_concat(escape_spec(s.drop_last()), seq![c]);
            assert(escape_spec(s.drop_last()).push(c) =~= escape_spec(s.drop_last()) + seq![c]);
            assert(seq![c].drop_last() =~= Seq::<char>::empty());
            assert(markup_count(Seq::<char>::empty()) == 0);
            assert(seq![c].len() == 1 && seq![c].last() == c);
            assert(markup_count(seq![c]) == 0);
        }
    }
}

/// Text without markup characters is left as it is.
pub proof fn lemma_escape_plain(s: Seq<char>)
    requires
        markup_count(s) == 0,
    ensures
        escape_spec(s) == s,
    decreases s.len(),
{
    if s.len() > 0 {
        lemma_escape_plain(s.drop_last());
        assert(escape_spec(s.drop_last()).push(s.last()) =~= s);
    }
}

/// Escaping an escaped text gives the escaped text again exactly when the
/// text holds no markup character; otherwise every markup character gains
/// one more backslash and the result grows.
pub proof fn lemma_escape_twice(s: Seq<char>)
    ensures
        (escape_spec(escape_spec(s)) == escape_spec(s)) <==> markup_count(s) == 0,
        escape_spec(escape_spec(s)).len() == escape_spec(s).len() + markup_count(s),
{
    lemma_escape_counts(s);
    lemma_escape_counts(escape_spec(s));
    if markup_count(s) == 0 {
        lemma_escape_plain(s);
    }
}

impl InstanceReadyMessage {
    /// The SSH command for this instance.
    pub fn ssh_command(&self) -> (r: String)
        ensures
            r@ == ssh_command_spec(self.ip@),
    {
        let mut s = String::from_str("ssh ubuntu@");
        s.append(self.ip.as_str());
        s
    }

    /// The instance's name if it has one, else its id.
    pub fn display_name(&self) -> (r: &str)
        ensures
            r@ == display_name_spec(*self),
    {
        match &self.instance_name {
            Some(n) => n.as_str(),
            None => self.instance_id.as_str(),
        }
    }
}


/// Webhook of the first chat channel.
#[derive(Debug, Clone)]
pub struct SlackConfig {
    pub webhook_url: String,
}

/// Webhook of the second chat channel.
#[derive(Debug, Clone)]
pub struct DiscordConfig {
    pub webhook_url: String,
}

/// Bot token and chat of the bot channel.
#[derive(Debug, Clone)]
pub struct TelegramConfig {
    pub bot_token: String,
    pub chat_id: String,
}

/// Which channels are configured; each is independent of the others.
#[derive(Debug, Clone)]
pub struct NotifyConfig {
    pub slack: Option<SlackConfig>,
    pub discord: Option<DiscordConfig>,
    pub telegram: Option<TelegramConfig>,
}

/// A notification channel.
#[derive(Debug, Clone, Copy, PartialEq, Eq, Structural)]
pub enum Channel {
    Slack,
    Discord,
    Telegram,
}

/// The name under which a channel is reported.
pub open spec fn channel_name(c: Channel) -> Seq<char> {
    match c {
        Channel::Slack => "Slack"@,
        Channel::Discord => "Discord"@,
        Channel::Telegram => "Telegram"@,
    }
}

/// The configured channels, in the fixed order of delivery.
pub open spec fn channels_of(c: NotifyConfig) -> Seq<Channel> {
    (if c.slack is Some { seq![Channel::Slack] } else { Seq::empty() }) + (if c.discord is Some {
        seq![Channel::Discord]
    } else {
        Seq::empty()
    }) + (if c.telegram is Some { seq![Channel::Telegram] } else { Seq::empty() })
}

impl Channel {
    /// The channel's name.
    pub fn name(&self) -> (r: &'static str)
        ensures
            r@ == channel_name(*self),
    {
        match self {
            Channel::Slack => "Slack",
            Channel::Discord => "Discord",
            Channel::Telegram => "Telegram",
        }
    }
}

impl Default for NotifyConfig {
    /// A configuration with no channel.
    fn default() -> (r: NotifyConfig)
        ensures
            r.slack is None && r.discord is None && r.telegram is None,
    {
        NotifyConfig { slack: None, discord: None, telegram: None }
    }
}

impl NotifyConfig {
    /// Builds the configuration from raw settings. A webhook counts when it
    /// is given and not empty; the bot channel needs both token and chat.
    /// Without any channel there is no configuration.
    pub fn from_values(
        slack_webhook: Option<String>,
        discord_webhook: Option<String>,
        telegram_bot_token: Option<String>,
        telegram_chat_id: Option<String>,
    ) -> (r: Option<NotifyConfig>)
        ensures
            r is Some <==> (given(slack_webhook) || given(discord_webhook) || (given(
                telegram_bot_token,
            ) && given(telegram_chat_id))),
            r is Some ==> {
                let c = r->0;
                &&& (c.slack is Some <==> given(slack_webhook))
                &&& (c.slack is Some ==> c.slack->0.webhook_url == slack_webhook->0)
                &&& (c.discord is Some <==> given(discord_webhook))
                &&& (c.discord is Some ==> c.discord->0.webhook_url == discord_webhook->0)
                &&& (c.telegram is Some <==> given(telegram_bot_token) && given(telegram_chat_id))
                &&& (c.telegram is Some ==> c.telegram->0.bot_token == telegram_bot_token->0
                    && c.telegram->0.chat_id == telegram_chat_id->0)
            },
    {
        let has_slack = is_given(&slack_webhook);
        let has_discord = is_given(&discord_webhook);
        let has_telegram = is_given(&telegram_bot_token) && is_given(&telegram_chat_id);
        let slack = match slack_webhook {
            Some(webhook_url) if has_slack => Some(SlackConfig { webhook_url }),
            _ => None,
        };
        let discord = match discord_webhook {
            Some(webhook_url) if has_discord => Some(DiscordConfig { webhook_url }),
            _ => None,
        };
        let telegram = match (telegram_bot_token, telegram_chat_id) {
            (Some(bot_token), Some(chat_id)) if has_telegram => Some(
                TelegramConfig { bot_token, chat_id },
            ),
            _ => None,
        };
        if has_slack || has_discord || has_telegram {
            Some(NotifyConfig { slack, discord, telegram })
        } else {
            None
        }
    }

    /// Whether any channel is configured.
    pub fn is_configured(&self) -> (r: bool)
        ensures
            r == (self.slack is Some || self.discord is Some || self.telegram is Some),
            r == (channels_of(*self).len() > 0),
    {
        self.slack.is_some() || self.discord.is_some() || self.telegram.is_some()
    }

    /// The configured channels, in delivery order.
    pub fn channels(&self) -> (r: Vec<Channel>)
        ensures
            r@ == channels_of(*self),
    {
        let mut v: Vec<Channel> = Vec::new();
        if self.slack.is_some() {
            v.push(Channel::Slack);
        }
        if self.discord.is_some() {
            v.push(Channel::Discord);
        }
        if self.telegram.is_some() {
            v.push(Channel::Telegram);
        }
        assert(v@ =~= channels_of(*self));
        v
    }

    /// The names of the configured channels, in delivery order.
    pub fn configured_channels(&self) -> (r: Vec<&'static str>)
        ensures
            r@.len() == channels_of(*self).len(),
            forall|i: int| 0 <= i < r@.len() ==> r@[i]@ == channel_name(#[trigger] channels_of(*self)[i]),
    {
        let chans = self.channels();
        let mut names: Vec<&'static str> = Vec::new();
        let mut i: usize = 0;
        while i < chans.len()
            invariant
                i <= chans@.len(),
                chans@ == channels_of(*self),
                names@.len() == i,
                forall|j: int| 0 <= j < i ==> names@[j]@ == channel_name(#[trigger] chans@[j]),
            decreases chans@.len() - i,
        {
            names.push(chans[i].name());
            i = i + 1;
        }
        names
    }

    /// Where a channel's notification is posted, if that channel is configured.
    pub fn endpoint(&self, channel: Channel) -> (r: Option<String>)
        ensures
            r is Some <==> channels_of(*self).contains(channel),
            r is Some ==> r->0@ == endpoint_spec(*self, channel),
    {
        proof {
            assert(channels_of(*self).contains(channel) <==> match channel {
                Channel::Slack => self.slack is Some,
                Channel::Discord => self.discord is Some,
                Channel::Telegram => self.telegram is Some,
            }) by {
                let c = channels_of(*self);
                if match channel {
                    Channel::Slack => self.slack is Some,
                    Channel::Discord => self.discord is Some,
                    Channel::Telegram => self.telegram is Some,
                } {
                    let k = (if self.slack is Some { 1int } else { 0int });
                    let d = (if self.discord is Some { 1int } else { 0int });
                    match channel {
                        Channel::Slack => assert(c[0] == channel),
                        Channel::Discord => assert(c[k] == channel),
                        Channel::Telegram => assert(c[k + d] == channel),
                    }
                }
            }
        }
        match channel {
            Channel::Slack => match &self.slack {
                Some(s) => Some(s.webhook_url.clone()),
                None => None,
            },
            Channel::Discord => match &self.discord {
                Some(d) => Some(d.webhook_url.clone()),
                None => None,
            },
            Channel::Telegram => match &self.telegram {
                Some(t) => Some(telegram_url(&t.bot_token)),
                None => None,
            },
        }
    }
}

/// The URL that a channel's notification is posted to.
pub open spec fn endpoint_spec(c: NotifyConfig, channel: Channel) -> Seq<char> {
    match channel {
        Channel::Slack => c.slack->0.webhook_url@,
        Channel::Discord => c.discord->0.webhook_url@,
        Channel::Telegram => telegram_url_spec(c.telegram->0.bot_token@),
    }
}

/// The bot API's send-message URL for a bot token.
pub open spec fn telegram_url_spec(token: Seq<char>) -> Seq<char> {
    "https://api.telegram.org/bot"@ + token + "/sendMessage"@
}

/// The bot API's send-message URL for `bot_token`.
pub fn telegram_url(bot_token: &String) -> (r: String)
    ensures
        r@ == telegram_url_spec(bot_token@),
{
    let mut s = String::from_str("https://api.telegram.org/bot");
    s.append(bot_token.as_str());
    s.append("/sendMessage");
    s
}


/// Color marker of the second chat channel's embed: green, for success.
pub const DISCORD_SUCCESS_COLOR: u32 = 5763719;

/// The first chat channel's field texts: name, GPU, region and IP.
pub open spec fn slack_fields_spec(m: InstanceReadyMessage) -> Seq<Seq<char>> {
    seq![
        "*Name:*\n"@ + display_name_spec(m),
        "*GPU:*\n"@ + m.gpu_type@,
        "*Region:*\n"@ + m.region@,
        "*IP:*\n"@ + m.ip@,
    ]
}

/// The first chat channel's SSH section text.
pub open spec fn slack_ssh_spec(m: InstanceReadyMessage) -> Seq<char> {
    "*SSH Command:*\n```"@ + ssh_command_spec(m.ip@) + "```"@
}

/// The second chat channel's embed fields as (name, value, inline).
pub open spec fn discord_fields_spec(m: InstanceReadyMessage) -> Seq<(Seq<char>, Seq<char>, bool)> {
    seq![
        ("Name"@, display_name_spec(m), true),
        ("GPU"@, m.gpu_type@, true),
        ("Region"@, m.region@, true),
        ("IP Address"@, m.ip@, true),
        ("SSH Command"@, "```"@ + ssh_command_spec(m.ip@) + "```"@, false),
    ]
}

/// The bot channel's message body; provider and user text is escaped, the IP
/// and the SSH command are not.
pub open spec fn telegram_text_spec(m: InstanceReadyMessage) -> Seq<char> {
    "*GPU Instance Ready\\!*\n\n*Name:* `"@ + escape_spec(display_name_spec(m)) + "`\n*GPU:* "@
        + escape_spec(m.gpu_type@) + "\n*Region:* "@ + escape_spec(m.region@) + "\n*IP:* `"@
        + m.ip@ + "`\n\n*SSH Command:*\n```\n"@ + ssh_command_spec(m.ip@) + "\n```"@
}

/// A field of the second chat channel's embed.
#[derive(Debug, Clone)]
pub struct EmbedField {
    pub name: String,
    pub value: String,
    pub inline: bool,
}

fn labelled(label: &str, value: &str) -> (r: String)
    ensures
        r@ == label@ + value@,
{
    let mut s = String::from_str(label);
    s.append(value);
    s
}

fn field(name: &str, value: String, inline: bool) -> (r: EmbedField)
    ensures
        r.name@ == name@,
        r.value == value,
        r.inline == inline,
{
    EmbedField { name: String::from_str(name), value, inline }
}

impl InstanceReadyMessage {
    /// The first chat channel's field texts.
    pub fn slack_fields(&self) -> (r: Vec<String>)
        ensures
            r@.len() == 4,
            forall|i: int| 0 <= i < 4 ==> (#[trigger] r@[i])@ == slack_fields_spec(*self)[i],
    {
        let mut v: Vec<String> = Vec::new();
        v.push(labelled("*Name:*\n", self.display_name()));
        v.push(labelled("*GPU:*\n", self.gpu_type.as_str()));
        v.push(labelled("*Region:*\n", self.region.as_str()));
        v.push(labelled("*IP:*\n", self.ip.as_str()));
        v
    }

    /// The first chat channel's SSH section text.
    pub fn slack_ssh_section(&self) -> (r: String)
        ensures
            r@ == slack_ssh_spec(*self),
    {
        let mut s = String::from_str("*SSH Command:*\n```");
        let cmd = self.ssh_command();
        s.append(cmd.as_str());
        s.append("```");
        s
    }

    /// The second chat channel's embed fields.
    pub fn discord_fields(&self) -> (r: Vec<EmbedField>)
        ensures
            r@.len() == 5,
            forall|i: int|
                0 <= i < 5 ==> ((#[trigger] r@[i]).name@, r@[i].value@, r@[i].inline)
                    == discord_fields_spec(*self)[i],
    {
        let mut v: Vec<EmbedField> = Vec::new();
        v.push(field("Name", String::from_str(self.display_name()), true));
        v.push(field("GPU", self.gpu_type.clone(), true));
        v.push(field("Region", self.region.clone(), true));
        v.push(field("IP Address", self.ip.clone(), true));
        let mut block = String::from_str("```");
        let cmd = self.ssh_command();
        block.append(cmd.as_str());
        block.append("```");
        v.push(field("SSH Command", block, false));
        v
    }

    /// The bot channel's message body.
    pub fn telegram_text(&self) -> (r: String)
        ensures
            r@ == telegram_text_spec(*self),
    {
        let mut s = String::from_str("*GPU Instance Ready\\!*\n\n*Name:* `");
        let name = escape_telegram_markdown(self.display_name());
        s.append(name.as_str());
        s.append("`\n*GPU:* ");
        let gpu = escape_telegram_markdown(self.gpu_type.as_str());
        s.append(gpu.as_str());
        s.append("\n*Region:* ");
        let region = escape_telegram_markdown(self.region.as_str());
        s.append(region.as_str());
        s.append("\n*IP:* `");
        s.append(self.ip.as_str());
        s.append("`\n\n*SSH Command:*\n```\n");
        let cmd = self.ssh_command();
        s.append(cmd.as_str());
        s.append("\n```");
        s
    }
}

/// What came of one delivery attempt.
#[derive(Debug, Clone)]
pub enum DeliveryOutcome {
    /// The channel accepted the notification.
    Delivered,
    /// The channel answered with a non-success status (its text) and a body.
    Rejected { status: String, body: String },
    /// The request could not be made; the transport's error text.
    Unreachable(String),
}

/// One channel's line in the delivery report.
#[derive(Debug)]
pub struct ChannelReport {
    pub channel: Channel,
    pub result: Result<(), String>,
}

/// How a channel names its own failure.
pub open spec fn failure_prefix(c: Channel) -> Seq<char> {
    match c {
        Channel::Slack => "Slack webhook failed ("@,
        Channel::Discord => "Discord webhook failed ("@,
        Channel::Telegram => "Telegram API failed ("@,
    }
}

/// The report line for `outcome` on `channel`.
pub open spec fn report_result_spec(c: Channel, o: DeliveryOutcome) -> Result<(), Seq<char>> {
    match o {
        DeliveryOutcome::Delivered => Ok(()),
        DeliveryOutcome::Rejected { status, body } => Err(
            failure_prefix(c) + status@ + "): "@ + body@,
        ),
        DeliveryOutcome::Unreachable(e) => Err(e@),
    }
}

/// The view of a report line's result.
pub open spec fn result_view(r: Result<(), String>) -> Result<(), Seq<char>> {
    match r {
        Ok(()) => Ok(()),
        Err(e) => Err(e@),
    }
}

/// The report of a whole fan-out: one line per channel, in order.
pub open spec fn reports_spec(chans: Seq<Channel>, outcomes: Seq<DeliveryOutcome>) -> Seq<
    (Channel, Result<(), Seq<char>>),
> {
    Seq::new(outcomes.len(), |i: int| (chans[i], report_result_spec(chans[i], outcomes[i])))
}

/// The view of a list of report lines.
pub open spec fn reports_view(r: Seq<ChannelReport>) -> Seq<(Channel, Result<(), Seq<char>>)> {
    r.map_values(|l: ChannelReport| (l.channel, result_view(l.result)))
}

/// Builds one channel's report line from what its delivery attempt gave.
pub fn report(channel: Channel, outcome: DeliveryOutcome) -> (r: ChannelReport)
    ensures
        r.channel == channel,
        result_view(r.result) == report_result_spec(channel, outcome),
{
    let result = match outcome {
        DeliveryOutcome::Delivered => Ok(()),
        DeliveryOutcome::Rejected { status, body } => {
            let mut s = match channel {
                Channel::Slack => String::from_str("Slack webhook failed ("),
                Channel::Discord => String::from_str("Discord webhook failed ("),
                Channel::Telegram => String::from_str("Telegram API failed ("),
            };
            s.append(status.as_str());
            s.append("): ");
            s.append(body.as_str());
            Err(s)
        },
        DeliveryOutcome::Unreachable(e) => Err(e),
    };
    ChannelReport { channel, result }
}

/// Fan-out of one notification: every configured channel is attempted in
/// turn, and a failure on one never stops the attempts on the others.
pub struct Fanout {
    channels: Vec<Channel>,
    reports: Vec<ChannelReport>,
}

impl Fanout {
    /// The channels still to be attempted come after those already reported.
    pub closed spec fn wf(&self) -> bool {
        self.reports@.len() <= self.channels@.len()
    }

    /// Every channel, in delivery order.
    pub closed spec fn planned(&self) -> Seq<Channel> {
        self.channels@
    }

    /// The report lines so far.
    pub closed spec fn done(&self) -> Seq<(Channel, Result<(), Seq<char>>)> {
        reports_view(self.reports@)
    }

    /// A fan-out over the channels configured in `config`, none attempted yet.
    pub fn new(config: &NotifyConfig) -> (r: Fanout)
        ensures
            r.wf(),
            r.planned() == channels_of(*config),
            r.done() == Seq::<(Channel, Result<(), Seq<char>>)>::empty(),
    {
        let r = Fanout { channels: config.channels(), reports: Vec::new() };
        assert(reports_view(r.reports@) =~= Seq::empty());
        r
    }

    /// The channel to attempt next, if any is left.
    pub fn next_channel(&self) -> (r: Option<Channel>)
        requires
            self.wf(),
        ensures
            r is Some <==> self.done().len() < self.planned().len(),
            r is Some ==> r->0 == self.planned()[self.done().len() as int],
    {
        if self.reports.len() < self.channels.len() {
            Some(self.channels[self.reports.len()])
        } else {
            None
        }
    }

    /// Records what the attempt on the next channel gave, whatever it was.
    pub fn record(&mut self, outcome: DeliveryOutcome)
        requires
            old(self).wf(),
            old(self).done().len() < old(self).planned().len(),
        ensures
            final(self).wf(),
            final(self).planned() == old(self).planned(),
            final(self).done() == old(self).done().push(
                (
                    old(self).planned()[old(self).done().len() as int],
                    report_result_spec(old(self).planned()[old(self).done().len() as int], outcome),
                ),
            ),
    {
        let channel = self.channels[self.reports.len()];
        let line = report(channel, outcome);
        self.reports.push(line);
        assert(reports_view(self.reports@) =~= reports_view(old(self).reports@).push(
            (channel, result_view(line.result)),
        ));
    }

    /// The finished report.
    pub fn into_reports(self) -> (r: Vec<ChannelReport>)
        ensures
            reports_view(r@) == self.done(),
    {
        self.reports
    }
}

/// Fans a notification out: attempting the channels of `config` in order
/// with one outcome each yields one report line per channel, each line saying
/// what its own outcome was, whatever the outcomes of the others.
pub proof fn lemma_fanout_reports_every_channel(
    config: NotifyConfig,
    outcomes: Seq<DeliveryOutcome>,
)
    requires
        outcomes.len() == channels_of(config).len(),
    ensures
        reports_spec(channels_of(config), outcomes).len() == channels_of(config).len(),
        forall|i: int|
            0 <= i < outcomes.len() ==> {
                let line = #[trigger] reports_spec(channels_of(config), outcomes)[i];
                &&& line.0 == channels_of(config)[i]
                &&& (line.1 is Ok <==> outcomes[i] is Delivered)
            },
{
}

/// Recording outcomes one after another builds exactly the report of the
/// whole fan-out: one more outcome adds one line for the next channel.
pub proof fn lemma_fanout_step(
    chans: Seq<Channel>,
    outcomes: Seq<DeliveryOutcome>,
    o: DeliveryOutcome,
)
    requires
        outcomes.len() < chans.len(),
    ensures
        reports_spec(chans, outcomes.push(o)) == reports_spec(chans, outcomes).push(
            (chans[outcomes.len() as int], report_result_spec(chans[outcomes.len() as int], o)),
        ),
{
    assert(reports_spec(chans, outcomes.push(o)) =~= reports_spec(chans, outcomes).push(
        (chans[outcomes.len() as int], report_result_spec(chans[outcomes.len() as int], o)),
    ));
}

} // verus!
