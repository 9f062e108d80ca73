//! The settings of one Matrix account, as far as decisions rest on them.

use vstd::prelude::*;

use crate::text::opt_view;

verus! {

/// Who can send the bot direct messages.
#[derive(Debug, Clone, Copy, PartialEq, Eq, Structural)]
pub enum DmPolicy {
    Open,
    Allowlist,
    Disabled,
}

/// Which rooms can talk to the bot.
#[derive(Debug, Clone, Copy, PartialEq, Eq, Structural)]
pub enum GroupPolicy {
    Open,
    Allowlist,
    Disabled,
}

/// When the bot responds in rooms.
#[derive(Debug, Clone, Copy, PartialEq, Eq, Structural)]
pub enum MentionMode {
    /// Only when it is mentioned.
    Mention,
    /// To every message.
    Always,
    /// Never.
    Never,
}

/// Which invites the bot accepts on its own.
#[derive(Debug, Clone, Copy, PartialEq, Eq, Structural)]
pub enum AutoJoinPolicy {
    Always,
    Allowlist,
    Off,
}

/// The settings of one Matrix account. The credentials are the exposed secrets, so the type has
/// no debug output.
#[derive(Clone)]
pub struct MatrixAccountConfig {
    /// Base URL of the homeserver.
    pub homeserver: String,
    /// Access token of the bot account, empty where there is none.
    pub access_token: String,
    /// Password of the bot account.
    pub password: Option<String>,
    /// Bot user ID.
    pub user_id: Option<String>,
    /// Device ID for session restore and login.
    pub device_id: Option<String>,
    /// Device display name for password logins.
    pub device_display_name: Option<String>,
    pub dm_policy: DmPolicy,
    pub room_policy: GroupPolicy,
    pub mention_mode: MentionMode,
    /// Rooms allowed to interact with the bot.
    pub room_allowlist: Vec<String>,
    /// Users allowed to send the bot direct messages.
    pub user_allowlist: Vec<String>,
    pub auto_join: AutoJoinPolicy,
    /// Send replies that point at the message they answer.
    pub reply_to_message: bool,
    /// Emoji reaction added while a message is processed.
    pub ack_reaction: Option<String>,
    /// Let unknown senders of direct messages approve themselves with a one-time code.
    pub otp_self_approval: bool,
    /// Cooldown in seconds after too many failed codes.
    pub otp_cooldown_secs: u64,
}

impl Default for MatrixAccountConfig {
    fn default() -> (config: Self)
        ensures
            config.homeserver@ == Seq::<char>::empty(),
            config.access_token@ == Seq::<char>::empty(),
            config.password is None,
            config.user_id is None,
            config.device_id is None,
            config.device_display_name is None,
            config.dm_policy == DmPolicy::Allowlist,
            config.room_policy == GroupPolicy::Allowlist,
            config.mention_mode == MentionMode::Mention,
            config.room_allowlist@ == Seq::<String>::empty(),
            config.user_allowlist@ == Seq::<String>::empty(),
            config.auto_join == AutoJoinPolicy::Always,
            config.reply_to_message,
            opt_view(config.ack_reaction) == Some("\u{1f440}"@),
            config.otp_self_approval,
            config.otp_cooldown_secs == 300,
    {
        MatrixAccountConfig {
            homeserver: String::new(),
            access_token: String::new(),
            password: None,
            user_id: None,
            device_id: None,
            device_display_name: None,
            dm_policy: DmPolicy::Allowlist,
            room_policy: GroupPolicy::Allowlist,
            mention_mode: MentionMode::Mention,
            room_allowlist: Vec::new(),
            user_allowlist: Vec::new(),
            auto_join: AutoJoinPolicy::Always,
            reply_to_message: true,
            ack_reaction: Some("\u{1f440}".to_owned()),
            otp_self_approval: true,
            otp_cooldown_secs: 300,
        }
    }
}

} // verus!
