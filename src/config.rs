use vstd::prelude::*;

use crate::monitor::{alert_text, Alert};

verus! {

/// Display name of the bot when none is configured.
pub const DEFAULT_BOT_NAME: &'static str = "pingbot";

/// Icon of the bot when none is configured.
pub const DEFAULT_BOT_EMOJI: &'static str = "warning";

/// Seconds in a minute, for turning the interval into a sleep.
pub const SECS_PER_MINUTE: u64 = 60;

/// The settings of one run, fixed at startup.
#[derive(Debug, Clone)]
pub struct Config {
    /// The endpoint that is probed.
    pub url: String,
    /// Minutes between two probes.
    pub minutes: u64,
    /// Webhook of the chat channel; empty to print alerts to the console.
    pub slack_url: String,
    /// Display name of the bot in the channel.
    pub bot_name: String,
    /// Icon of the bot in the channel.
    pub bot_emoji: String,
}

/// Where an alert goes and with what content.
#[derive(Debug, Clone, PartialEq, Eq)]
pub enum Delivery {
    /// Printed on standard output.
    Console { text: String },
    /// Posted to the chat webhook at `url` with these three fields.
    Channel { url: String, text: String, username: String, icon_emoji: String },
}

/// Whether alerts go to the console rather than to a channel.
pub open spec fn to_console(c: Config) -> bool {
    c.slack_url@.len() == 0
}

/// The delivery that `c` prescribes for `a`: the console when no channel is
/// configured, else the channel with the alert text, bot name and bot icon.
pub open spec fn prescribed(c: Config, a: Alert, d: Delivery) -> bool {
    match d {
        Delivery::Console { text } => to_console(c) && text@ == alert_text(a),
        Delivery::Channel { url, text, username, icon_emoji } => {
            &&& !to_console(c)
            &&& url@ == c.slack_url@
            &&& text@ == alert_text(a)
            &&& username@ == c.bot_name@
            &&& icon_emoji@ == c.bot_emoji@
        },
    }
}

impl Config {
    /// The settings of a run.
    pub fn new(url: String, minutes: u64, slack_url: String, bot_name: String, bot_emoji: String) -> (c: Config)
        ensures
            c.url@ == url@,
            c.minutes == minutes,
            c.slack_url@ == slack_url@,
            c.bot_name@ == bot_name@,
            c.bot_emoji@ == bot_emoji@,
    {
        Config { url, minutes, slack_url, bot_name, bot_emoji }
    }

    /// The pause between two probes, in seconds; `None` where it does not fit
    /// in a `u64`.
    pub fn interval_secs(&self) -> (r: Option<u64>)
        ensures
            r is Some <==> self.minutes * SECS_PER_MINUTE <= u64::MAX,
            r is Some ==> r->0 == self.minutes * SECS_PER_MINUTE,
    {
        self.minutes.checked_mul(SECS_PER_MINUTE)
    }

    /// How to deliver `alert` under these settings.
    pub fn delivery(&self, alert: Alert) -> (d: Delivery)
        ensures
            prescribed(*self, alert, d),
    {
        let text = alert.message().to_owned();
        if self.slack_url.as_str().is_empty() {
            Delivery::Console { text }
        } else {
            Delivery::Channel {
                url: self.slack_url.clone(),
                text,
                username: self.bot_name.clone(),
                icon_emoji: self.bot_emoji.clone(),
            }
        }
    }
}

} // verus!
