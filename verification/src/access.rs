//! Access control: who may talk to the bot, and which invites it accepts.
//!
//! Whether an ID matches an allowlist is decided by a matcher of the channel layer. The functions
//! that ask it take it as an argument; beside each stands the decision for given answers.

use vstd::prelude::*;

use crate::config::{AutoJoinPolicy, DmPolicy, GroupPolicy, MatrixAccountConfig, MentionMode};

verus! {

/// Where a message was sent.
#[derive(Debug, Clone, Copy, PartialEq, Eq, Structural)]
pub enum ChatType {
    /// A direct conversation.
    Dm,
    /// A room.
    Group,
}

/// Why a message is not answered.
#[derive(Debug, Clone, Copy, PartialEq, Eq, Structural)]
pub enum AccessDenied {
    /// Direct messages are switched off.
    DmsDisabled,
    /// The sender is not on the allowlist for direct messages.
    NotOnAllowlist,
    /// Rooms are switched off.
    RoomsDisabled,
    /// The room is not on the allowlist for rooms.
    RoomNotOnAllowlist,
    /// The bot answers in rooms only when it is mentioned.
    NotMentioned,
    /// The bot does not answer in rooms.
    RoomRepliesOff,
}

/// The matcher `is_allowed` answers `answer` for `id` against `list`.
pub open spec fn matcher_says<F: Fn(&str, &[String]) -> bool>(
    is_allowed: F,
    id: Seq<char>,
    list: Seq<String>,
    answer: bool,
) -> bool {
    exists|text: &str, entries: &[String]|
        {
            &&& text@ == id
            &&& entries@ == list
            &&& #[trigger] call_ensures(is_allowed, (text, entries), answer)
        }
}

/// The matcher can be asked about every ID and every list.
pub open spec fn matcher_is_total<F: Fn(&str, &[String]) -> bool>(is_allowed: F) -> bool {
    forall|id: &str, entries: &[String]| #[trigger] call_requires(is_allowed, (id, entries))
}

/// An ID is listed when the matcher finds it in a list that holds anything at all.
pub open spec fn listed(list: Seq<String>, answer: bool) -> bool {
    list.len() > 0 && answer
}

/// Who may talk to the bot, given the matcher's answers for the sender and the room.
pub open spec fn access(
    config: MatrixAccountConfig,
    chat_type: ChatType,
    sender_allowed: bool,
    room_allowed: bool,
    bot_mentioned: bool,
) -> Result<(), AccessDenied> {
    match chat_type {
        ChatType::Dm => match config.dm_policy {
            DmPolicy::Disabled => Err(AccessDenied::DmsDisabled),
            DmPolicy::Open => Ok(()),
            DmPolicy::Allowlist => if listed(config.user_allowlist@, sender_allowed) {
                Ok(())
            } else {
                Err(AccessDenied::NotOnAllowlist)
            },
        },
        ChatType::Group => if config.room_policy == GroupPolicy::Disabled {
            Err(AccessDenied::RoomsDisabled)
        } else if config.room_policy == GroupPolicy::Allowlist && !listed(
            config.room_allowlist@,
            room_allowed,
        ) {
            Err(AccessDenied::RoomNotOnAllowlist)
        } else {
            match config.mention_mode {
                MentionMode::Always => Ok(()),
                MentionMode::Mention => if bot_mentioned {
                    Ok(())
                } else {
                    Err(AccessDenied::NotMentioned)
                },
                MentionMode::Never => Err(AccessDenied::RoomRepliesOff),
            }
        },
    }
}

/// Whether an invite is accepted, given the matcher's answers for the inviter and the room.
pub open spec fn auto_join(
    config: MatrixAccountConfig,
    inviter_allowed: bool,
    room_allowed: bool,
) -> bool {
    &&& match config.room_policy {
        GroupPolicy::Disabled => false,
        GroupPolicy::Open => true,
        GroupPolicy::Allowlist => listed(config.room_allowlist@, room_allowed),
    }
    &&& match config.auto_join {
        AutoJoinPolicy::Always => true,
        AutoJoinPolicy::Off => false,
        AutoJoinPolicy::Allowlist => listed(config.user_allowlist@, inviter_allowed) || listed(
            config.room_allowlist@,
            room_allowed,
        ),
    }
}

/// Asks the matcher about a user against the list of users, and about a room against the list of
/// rooms.
pub fn ask_matcher<F: Fn(&str, &[String]) -> bool>(
    config: &MatrixAccountConfig,
    user_id: &str,
    room_id: &str,
    is_allowed: F,
) -> (res: (bool, bool))
    requires
        matcher_is_total(is_allowed),
    ensures
        matcher_says(is_allowed, user_id@, config.user_allowlist@, res.0),
        matcher_says(is_allowed, room_id@, config.room_allowlist@, res.1),
{
    let user_allowed = is_allowed(user_id, config.user_allowlist.as_slice());
    let room_allowed = is_allowed(room_id, config.room_allowlist.as_slice());
    (user_allowed, room_allowed)
}

/// Decides whether a message may be answered.
pub fn access_decision(
    config: &MatrixAccountConfig,
    chat_type: ChatType,
    sender_allowed: bool,
    room_allowed: bool,
    bot_mentioned: bool,
) -> (res: Result<(), AccessDenied>)
    ensures
        res == access(*config, chat_type, sender_allowed, room_allowed, bot_mentioned),
{
    match chat_type {
        ChatType::Dm => match config.dm_policy {
            DmPolicy::Disabled => Err(AccessDenied::DmsDisabled),
            DmPolicy::Open => Ok(()),
            DmPolicy::Allowlist => if !config.user_allowlist.is_empty() && sender_allowed {
                Ok(())
            } else {
                Err(AccessDenied::NotOnAllowlist)
            },
        },
        ChatType::Group => {
            match config.room_policy {
                GroupPolicy::Disabled => {
                    return Err(AccessDenied::RoomsDisabled);
                },
                GroupPolicy::Open => {},
                GroupPolicy::Allowlist => {
                    if config.room_allowlist.is_empty() || !room_allowed {
                        return Err(AccessDenied::RoomNotOnAllowlist);
                    }
                },
            }
            match config.mention_mode {
                MentionMode::Always => Ok(()),
                MentionMode::Mention => if bot_mentioned {
                    Ok(())
                } else {
                    Err(AccessDenied::NotMentioned)
                },
                MentionMode::Never => Err(AccessDenied::RoomRepliesOff),
            }
        },
    }
}

/// Asks the matcher about the sender and the room, and decides whether the message may be answered.
pub fn check_access<F: Fn(&str, &[String]) -> bool>(
    config: &MatrixAccountConfig,
    chat_type: ChatType,
    sender_id: &str,
    room_id: &str,
    bot_mentioned: bool,
    is_allowed: F,
) -> (res: Result<(), AccessDenied>)
    requires
        matcher_is_total(is_allowed),
    ensures
        exists|sender_allowed: bool, room_allowed: bool|
            {
                &&& #[trigger] matcher_says(
                    is_allowed,
                    sender_id@,
                    config.user_allowlist@,
                    sender_allowed,
                )
                &&& #[trigger] matcher_says(is_allowed, room_id@, config.room_allowlist@, room_allowed)
                &&& res == access(*config, chat_type, sender_allowed, room_allowed, bot_mentioned)
            },
{
    let (sender_allowed, room_allowed) = ask_matcher(config, sender_id, room_id, is_allowed);
    access_decision(config, chat_type, sender_allowed, room_allowed, bot_mentioned)
}

/// Decides whether an invite is accepted.
pub fn auto_join_decision(
    config: &MatrixAccountConfig,
    inviter_allowed: bool,
    room_allowed: bool,
) -> (res: bool)
    ensures
        res == auto_join(*config, inviter_allowed, room_allowed),
{
    let inviter_listed = !config.user_allowlist.is_empty() && inviter_allowed;
    let room_listed = !config.room_allowlist.is_empty() && room_allowed;
    let room_may_talk = match config.room_policy {
        GroupPolicy::Disabled => false,
        GroupPolicy::Open => true,
        GroupPolicy::Allowlist => room_listed,
    };
    if !room_may_talk {
        return false;
    }
    match config.auto_join {
        AutoJoinPolicy::Always => true,
        AutoJoinPolicy::Off => false,
        AutoJoinPolicy::Allowlist => inviter_listed || room_listed,
    }
}

/// Asks the matcher about the inviter and the room, and decides whether the invite is accepted.
pub fn should_auto_join_invite<F: Fn(&str, &[String]) -> bool>(
    config: &MatrixAccountConfig,
    inviter_id: &str,
    room_id: &str,
    is_allowed: F,
) -> (res: bool)
    requires
        matcher_is_total(is_allowed),
    ensures
        exists|inviter_allowed: bool, room_allowed: bool|
            {
                &&& #[trigger] matcher_says(
                    is_allowed,
                    inviter_id@,
                    config.user_allowlist@,
                    inviter_allowed,
                )
                &&& #[trigger] matcher_says(is_allowed, room_id@, config.room_allowlist@, room_allowed)
                &&& res == auto_join(*config, inviter_allowed, room_allowed)
            },
{
    let (inviter_allowed, room_allowed) = ask_matcher(config, inviter_id, room_id, is_allowed);
    auto_join_decision(config, inviter_allowed, room_allowed)
}

// ---- laws ------------------------------------------------------------------

/// Direct messages are answered exactly when they are open to anyone, or limited to a list that
/// the sender is on. Rooms and mentions play no part.
pub proof fn direct_messages_follow_the_dm_policy(
    config: MatrixAccountConfig,
    sender_allowed: bool,
    room_allowed: bool,
    bot_mentioned: bool,
)
    ensures
        access(config, ChatType::Dm, sender_allowed, room_allowed, bot_mentioned) is Ok <==> {
            ||| config.dm_policy == DmPolicy::Open
            ||| config.dm_policy == DmPolicy::Allowlist && listed(
                config.user_allowlist@,
                sender_allowed,
            )
        },
{
}

/// Room messages are answered exactly when the room policy lets the room in and the mention mode
/// lets the message in. The sender's own standing plays no part.
pub proof fn rooms_follow_the_room_policy_and_the_mention_mode(
    config: MatrixAccountConfig,
    sender_allowed: bool,
    room_allowed: bool,
    bot_mentioned: bool,
)
    ensures
        access(config, ChatType::Group, sender_allowed, room_allowed, bot_mentioned) is Ok <==> {
            &&& {
                ||| config.room_policy == GroupPolicy::Open
                ||| config.room_policy == GroupPolicy::Allowlist && listed(
                    config.room_allowlist@,
                    room_allowed,
                )
            }
            &&& {
                ||| config.mention_mode == MentionMode::Always
                ||| config.mention_mode == MentionMode::Mention && bot_mentioned
            }
        },
{
}

/// Only a direct message that the allowlist turned away is denied with `NotOnAllowlist`.
pub proof fn not_on_allowlist_means_a_dm_from_an_unlisted_sender(
    config: MatrixAccountConfig,
    chat_type: ChatType,
    sender_allowed: bool,
    room_allowed: bool,
    bot_mentioned: bool,
)
    ensures
        access(config, chat_type, sender_allowed, room_allowed, bot_mentioned) == Err::<(), _>(
            AccessDenied::NotOnAllowlist,
        ) <==> {
            &&& chat_type == ChatType::Dm
            &&& config.dm_policy == DmPolicy::Allowlist
            &&& !listed(config.user_allowlist@, sender_allowed)
        },
{
}

/// An allowlist that holds no one lets no one in, whatever the matcher says of an empty list.
pub proof fn empty_allowlists_let_no_one_in(
    config: MatrixAccountConfig,
    chat_type: ChatType,
    sender_allowed: bool,
    room_allowed: bool,
    bot_mentioned: bool,
)
    requires
        config.dm_policy == DmPolicy::Allowlist,
        config.room_policy == GroupPolicy::Allowlist,
        config.user_allowlist@.len() == 0,
        config.room_allowlist@.len() == 0,
    ensures
        access(config, chat_type, sender_allowed, room_allowed, bot_mentioned) is Err,
        !auto_join(config, sender_allowed, room_allowed),
{
}

/// No invite is accepted to a room that the room policy shuts out, whoever sent it and whatever
/// the invite policy says.
pub proof fn auto_join_never_bypasses_the_room_policy(
    config: MatrixAccountConfig,
    inviter_allowed: bool,
    room_allowed: bool,
)
    requires
        config.room_policy == GroupPolicy::Disabled || config.room_policy == GroupPolicy::Allowlist
            && !listed(config.room_allowlist@, room_allowed),
    ensures
        !auto_join(config, inviter_allowed, room_allowed),
{
}

/// In a room that was joined on an invite the bot answers when it is mentioned, unless it never
/// answers in rooms.
pub proof fn joined_rooms_may_talk(
    config: MatrixAccountConfig,
    inviter_allowed: bool,
    sender_allowed: bool,
    room_allowed: bool,
)
    requires
        auto_join(config, inviter_allowed, room_allowed),
        config.mention_mode != MentionMode::Never,
    ensures
        access(config, ChatType::Group, sender_allowed, room_allowed, true) is Ok,
{
}

/// With invites off nothing is accepted; with invites always on, every room the room policy
/// admits; with the allowlist, only what one of the two lists holds.
pub proof fn auto_join_follows_the_invite_policy(
    config: MatrixAccountConfig,
    inviter_allowed: bool,
    room_allowed: bool,
)
    ensures
        config.auto_join == AutoJoinPolicy::Off ==> !auto_join(
            config,
            inviter_allowed,
            room_allowed,
        ),
        config.auto_join == AutoJoinPolicy::Always && config.room_policy == GroupPolicy::Open
            ==> auto_join(config, inviter_allowed, room_allowed),
        config.auto_join == AutoJoinPolicy::Allowlist && auto_join(
            config,
            inviter_allowed,
            room_allowed,
        ) ==> listed(config.user_allowlist@, inviter_allowed) || listed(
            config.room_allowlist@,
            room_allowed,
        ),
{
}

/// A message is answered, or turned away for a reason, exactly as the policies say: direct
/// messages by the DM policy and the list of users, room messages by the room policy, the list of
/// rooms and the mention mode. A list that holds no one lets no one in.
pub proof fn every_decision_has_its_reason(
    config: &MatrixAccountConfig,
    chat_type: ChatType,
    sender_allowed: bool,
    room_allowed: bool,
    bot_mentioned: bool,
    res: Result<(), AccessDenied>,
)
    requires
        call_ensures(
            access_decision,
            (config, chat_type, sender_allowed, room_allowed, bot_mentioned),
            res,
        ),
    ensures
        ({
            let direct = chat_type == ChatType::Dm;
            let user_listed = config.user_allowlist@.len() > 0 && sender_allowed;
            let room_listed = config.room_allowlist@.len() > 0 && room_allowed;
            let room_let_in = config.room_policy == GroupPolicy::Open || config.room_policy
                == GroupPolicy::Allowlist && room_listed;
            &&& res is Ok <==> if direct {
                config.dm_policy == DmPolicy::Open || config.dm_policy == DmPolicy::Allowlist
                    && user_listed
            } else {
                room_let_in && (config.mention_mode == MentionMode::Always || config.mention_mode
                    == MentionMode::Mention && bot_mentioned)
            }
            &&& res == Err::<(), _>(AccessDenied::DmsDisabled) <==> direct && config.dm_policy
                == DmPolicy::Disabled
            &&& res == Err::<(), _>(AccessDenied::NotOnAllowlist) <==> direct && config.dm_policy
                == DmPolicy::Allowlist && !user_listed
            &&& res == Err::<(), _>(AccessDenied::RoomsDisabled) <==> !direct && config.room_policy
                == GroupPolicy::Disabled
            &&& res == Err::<(), _>(AccessDenied::RoomNotOnAllowlist) <==> !direct
                && config.room_policy == GroupPolicy::Allowlist && !room_listed
            &&& res == Err::<(), _>(AccessDenied::NotMentioned) <==> !direct && room_let_in
                && config.mention_mode == MentionMode::Mention && !bot_mentioned
            &&& res == Err::<(), _>(AccessDenied::RoomRepliesOff) <==> !direct && room_let_in
                && config.mention_mode == MentionMode::Never
        }),
{
}

/// An invite is accepted exactly when the room policy lets the room in, and the invite policy is
/// to accept all, or is the allowlist and the inviter or the room is listed.
pub proof fn invites_are_accepted_exactly_by_the_policies(
    config: &MatrixAccountConfig,
    inviter_allowed: bool,
    room_allowed: bool,
    res: bool,
)
    requires
        call_ensures(auto_join_decision, (config, inviter_allowed, room_allowed), res),
    ensures
        ({
            let inviter_listed = config.user_allowlist@.len() > 0 && inviter_allowed;
            let room_listed = config.room_allowlist@.len() > 0 && room_allowed;
            let room_let_in = config.room_policy == GroupPolicy::Open || config.room_policy
                == GroupPolicy::Allowlist && room_listed;
            &&& !room_let_in ==> !res
            &&& config.auto_join == AutoJoinPolicy::Off ==> !res
            &&& config.auto_join == AutoJoinPolicy::Always && room_let_in ==> res
            &&& config.auto_join == AutoJoinPolicy::Allowlist && room_let_in && inviter_listed
                ==> res
            &&& config.auto_join == AutoJoinPolicy::Allowlist && room_let_in && room_listed ==> res
            &&& config.auto_join == AutoJoinPolicy::Allowlist && !inviter_listed && !room_listed
                ==> !res
        }),
{
}

/// Unless invites or rooms are off, a listed room is joined whoever sent the invite.
pub proof fn listed_rooms_are_joined_whoever_invites(
    config: &MatrixAccountConfig,
    inviter_allowed: bool,
    res: bool,
)
    requires
        call_ensures(auto_join_decision, (config, inviter_allowed, true), res),
        config.room_allowlist@.len() > 0,
        config.room_policy != GroupPolicy::Disabled,
        config.auto_join != AutoJoinPolicy::Off,
    ensures
        res,
{
}

/// Being listed never does harm: what is answered, or joined, with fewer names matched is answered
/// or joined with more of them matched.
pub proof fn being_listed_never_does_harm(
    config: &MatrixAccountConfig,
    chat_type: ChatType,
    users: (bool, bool),
    rooms: (bool, bool),
    bot_mentioned: bool,
    answered: (Result<(), AccessDenied>, Result<(), AccessDenied>),
    joined: (bool, bool),
)
    requires
        users.0 ==> users.1,
        rooms.0 ==> rooms.1,
        call_ensures(
            access_decision,
            (config, chat_type, users.0, rooms.0, bot_mentioned),
            answered.0,
        ),
        call_ensures(
            access_decision,
            (config, chat_type, users.1, rooms.1, bot_mentioned),
            answered.1,
        ),
        call_ensures(auto_join_decision, (config, users.0, rooms.0), joined.0),
        call_ensures(auto_join_decision, (config, users.1, rooms.1), joined.1),
    ensures
        answered.0 is Ok ==> answered.1 is Ok,
        joined.0 ==> joined.1,
{
}

/// The matcher answers by `decide`.
pub open spec fn matcher_decides<F: Fn(&str, &[String]) -> bool>(
    is_allowed: F,
    decide: spec_fn(Seq<char>, Seq<String>) -> bool,
) -> bool {
    forall|text: &str, entries: &[String], answer: bool| #[trigger]
        call_ensures(is_allowed, (text, entries), answer) ==> answer == decide(text@, entries@)
}

/// The user is looked for in the list of users, the room in the list of rooms.
pub proof fn each_list_is_asked_for_its_own<F: Fn(&str, &[String]) -> bool>(
    config: &MatrixAccountConfig,
    user_id: &str,
    room_id: &str,
    is_allowed: F,
    decide: spec_fn(Seq<char>, Seq<String>) -> bool,
    res: (bool, bool),
)
    requires
        matcher_decides(is_allowed, decide),
        call_ensures(ask_matcher::<F>, (config, user_id, room_id, is_allowed), res),
    ensures
        res.0 == decide(user_id@, config.user_allowlist@),
        res.1 == decide(room_id@, config.room_allowlist@),
{
}

/// Checking access, and judging an invite, is deciding by what the matcher says of the user in
/// the list of users and of the room in the list of rooms.
pub proof fn checks_decide_by_the_matcher<F: Fn(&str, &[String]) -> bool>(
    config: &MatrixAccountConfig,
    chat_type: ChatType,
    user_id: &str,
    room_id: &str,
    bot_mentioned: bool,
    is_allowed: F,
    decide: spec_fn(Seq<char>, Seq<String>) -> bool,
    answered: (Result<(), AccessDenied>, Result<(), AccessDenied>),
    joined: (bool, bool),
)
    requires
        matcher_decides(is_allowed, decide),
        call_ensures(
            check_access::<F>,
            (config, chat_type, user_id, room_id, bot_mentioned, is_allowed),
            answered.0,
        ),
        call_ensures(
            access_decision,
            (
                config,
                chat_type,
                decide(user_id@, config.user_allowlist@),
                decide(room_id@, config.room_allowlist@),
                bot_mentioned,
            ),
            answered.1,
        ),
        call_ensures(
            should_auto_join_invite::<F>,
            (config, user_id, room_id, is_allowed),
            joined.0,
        ),
        call_ensures(
            auto_join_decision,
            (
                config,
                decide(user_id@, config.user_allowlist@),
                decide(room_id@, config.room_allowlist@),
            ),
            joined.1,
        ),
    ensures
        answered.0 == answered.1,
        joined.0 == joined.1,
{
}

} // verus!
