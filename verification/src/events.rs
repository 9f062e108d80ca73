//! Poll responses and invites.

use vstd::prelude::*;

use crate::access::{
    auto_join, auto_join_decision, matcher_decides, matcher_is_total, matcher_says,
    should_auto_join_invite,
};
use crate::config::MatrixAccountConfig;
use crate::message::{ChannelReplyTarget, ChannelType, ReplyTargetModel};

verus! {

/// The first answer of a poll response, if there is any.
pub fn first_selection(selections: &[String]) -> (res: Option<String>)
    ensures
        res == if selections@.len() > 0 {
            Some(selections@[0])
        } else {
            None
        },
{
    if selections.len() > 0 {
        Some(selections[0].clone())
    } else {
        None
    }
}

/// What is known of the account that received a poll response.
#[derive(Debug, Clone)]
pub struct PollAccount {
    pub bot_user_id: String,
    /// The account is connected to the gateway.
    pub has_event_sink: bool,
}

/// An interaction for the gateway.
#[derive(Debug)]
pub struct Interaction {
    pub callback_data: String,
    pub reply_to: ChannelReplyTarget,
}

/// A poll response is passed on when something was chosen, the account exists and is connected,
/// and the response is not the bot's own.
pub open spec fn is_passed_on(
    callback_data: Option<String>,
    account: Option<PollAccount>,
    sender_id: Seq<char>,
) -> bool {
    &&& callback_data is Some
    &&& account is Some
    &&& account->0.bot_user_id@ != sender_id
    &&& account->0.has_event_sink
}

/// What is passed on of a poll response: the choice, to be answered in the room without pointing
/// at a message.
pub fn poll_interaction(
    callback_data: Option<String>,
    account: Option<PollAccount>,
    account_id: &str,
    room_id: &str,
    sender_id: &str,
) -> (res: Option<Interaction>)
    ensures
        res is Some <==> is_passed_on(callback_data, account, sender_id@),
        res matches Some(interaction) ==> {
            &&& Some(interaction.callback_data) == callback_data
            &&& interaction.reply_to@ == ReplyTargetModel {
                channel_type: ChannelType::Matrix,
                account_id: account_id@,
                chat_id: room_id@,
                message_id: None,
            }
        },
{
    match (callback_data, account) {
        (Some(callback_data), Some(account)) => {
            if *account.bot_user_id.as_str() == *sender_id || !account.has_event_sink {
                return None;
            }
            let reply_to = ChannelReplyTarget {
                channel_type: ChannelType::Matrix,
                account_id: account_id.to_owned(),
                chat_id: room_id.to_owned(),
                message_id: None,
            };
            Some(Interaction { callback_data, reply_to })
        },
        _ => None,
    }
}

/// Decides whether an invite is accepted: it must be for the bot, reach an account that exists,
/// and be let through by that account's policies.
pub fn accepts_invite<F: Fn(&str, &[String]) -> bool>(
    invited_id: &str,
    bot_user_id: &str,
    config: Option<&MatrixAccountConfig>,
    inviter_id: &str,
    room_id: &str,
    is_allowed: F,
) -> (res: bool)
    requires
        matcher_is_total(is_allowed),
    ensures
        invited_id@ != bot_user_id@ ==> !res,
        config is None ==> !res,
        invited_id@ == bot_user_id@ && config is Some ==> exists|
            inviter_allowed: bool,
            room_allowed: bool,
        |
            {
                &&& #[trigger] matcher_says(
                    is_allowed,
                    inviter_id@,
                    config->0.user_allowlist@,
                    inviter_allowed,
                )
                &&& #[trigger] matcher_says(
                    is_allowed,
                    room_id@,
                    config->0.room_allowlist@,
                    room_allowed,
                )
                &&& res == auto_join(*config->0, inviter_allowed, room_allowed)
            },
{
    if !(*invited_id == *bot_user_id) {
        return false;
    }
    match config {
        Some(config) => should_auto_join_invite(config, inviter_id, room_id, is_allowed),
        None => false,
    }
}

// ---- laws ------------------------------------------------------------------

/// The choice of a poll response is its first answer, whatever follows it.
pub proof fn the_first_answer_is_the_choice(selections: &[String], res: Option<String>)
    requires
        call_ensures(first_selection, (selections,), res),
    ensures
        selections@.len() > 0 ==> (res matches Some(choice) && choice@ == selections@[0]@),
        selections@.len() == 0 ==> res is None,
{
}

/// A choice made by someone else than the bot reaches the gateway of the account, as it is, to be
/// answered in the room it was made in. Nothing else reaches it.
pub proof fn choices_reach_the_gateway(
    callback_data: Option<String>,
    account: Option<PollAccount>,
    account_id: &str,
    room_id: &str,
    sender_id: &str,
    res: Option<Interaction>,
)
    requires
        call_ensures(
            poll_interaction,
            (callback_data, account, account_id, room_id, sender_id),
            res,
        ),
    ensures
        match (callback_data, account) {
            (Some(choice), Some(known)) => if known.has_event_sink && known.bot_user_id@
                != sender_id@ {
                res matches Some(interaction) && {
                    &&& interaction.callback_data@ == choice@
                    &&& interaction.reply_to.channel_type == ChannelType::Matrix
                    &&& interaction.reply_to.account_id@ == account_id@
                    &&& interaction.reply_to.chat_id@ == room_id@
                    &&& interaction.reply_to.message_id is None
                }
            } else {
                res is None
            },
            _ => res is None,
        },
{
}

/// An invite for the bot to an account that exists is judged by that account's settings; an invite
/// for anyone else, or to an account that does not exist, is not accepted.
pub proof fn invites_for_the_bot_are_judged<F: Fn(&str, &[String]) -> bool>(
    invited_id: &str,
    bot_user_id: &str,
    config: Option<&MatrixAccountConfig>,
    inviter_id: &str,
    room_id: &str,
    is_allowed: F,
    decide: spec_fn(Seq<char>, Seq<String>) -> bool,
    judged: bool,
    res: bool,
)
    requires
        matcher_decides(is_allowed, decide),
        call_ensures(
            accepts_invite::<F>,
            (invited_id, bot_user_id, config, inviter_id, room_id, is_allowed),
            res,
        ),
        config matches Some(settings) ==> call_ensures(
            auto_join_decision,
            (
                settings,
                decide(inviter_id@, settings.user_allowlist@),
                decide(room_id@, settings.room_allowlist@),
            ),
            judged,
        ),
    ensures
        config is Some && invited_id@ == bot_user_id@ ==> res == judged,
        config is None || invited_id@ != bot_user_id@ ==> !res,
{
}

} // verus!
