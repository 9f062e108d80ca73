//! Handling a room message: what is asked of the outside, in which order, and what is done with
//! the answers.
//!
//! `start_room_message` looks at the message alone. Every later step takes the answer to what the
//! step before asked for and says what to do next.

use vstd::prelude::*;

use crate::access::{
    access, access_decision, ask_matcher, matcher_decides, matcher_is_total, matcher_says,
    AccessDenied, ChatType,
};
use crate::audio::ChannelMessageKind;
use crate::config::{DmPolicy, GroupPolicy, MatrixAccountConfig, MentionMode};
use crate::message::{
    inbound_message_body, inbound_message_kind, is_bot_mentioned, mentions_bot, message_body,
    message_kind, ChannelEvent, ChannelMessageMeta, ChannelReplyTarget, ChannelType, EventModel,
    LogEntryModel, MessageContent, MessageLogEntry, MetaModel, ReplyTargetModel, RoomMessage,
};
use crate::text::{copied, opt_view, same_text};

verus! {

/// What is known of the account that received a message.
pub struct AccountSnapshot {
    pub config: MatrixAccountConfig,
    /// The account keeps a message log.
    pub has_message_log: bool,
    /// The account is connected to the gateway.
    pub has_event_sink: bool,
}

/// How far a room message has been handled.
pub enum RoomState {
    /// The message is one to handle; its account is being looked up.
    Screened { kind: ChannelMessageKind, body: String },
    /// The account is known; whether the room is a direct conversation is being asked.
    Located { kind: ChannelMessageKind, body: String, account: AccountSnapshot },
    /// The conversation is known; the matcher is being asked.
    Judged {
        kind: ChannelMessageKind,
        body: String,
        account: AccountSnapshot,
        chat_type: ChatType,
    },
    /// Access is granted; the sender is being looked up.
    Admitted {
        kind: ChannelMessageKind,
        body: String,
        account: AccountSnapshot,
        chat_type: ChatType,
    },
    /// Nothing is left to do.
    Finished,
}

/// What came back from outside.
pub enum RoomEvent {
    /// The account, if it exists.
    Account(Option<AccountSnapshot>),
    /// Whether the room is a direct conversation, if that could be told.
    Direct(Option<bool>),
    /// What the matcher answers for the sender against the list of users, and for the room
    /// against the list of rooms.
    Matched { sender_allowed: bool, room_allowed: bool },
    /// The sender's display name, the model that room and sender ask for, and the time.
    Sender { name: Option<String>, model: Option<String>, now: i64 },
}

/// One thing that is done with a message that was let in.
pub enum DeliveryStep {
    /// Acknowledge it with a reaction.
    React(String),
    /// Write a line to the message log.
    Log(MessageLogEntry),
    /// Tell the gateway that it came in.
    Announce(ChannelEvent),
    /// Have it transcribed, then hand the outcome to the chat.
    Transcribe { reply_to: ChannelReplyTarget, meta: ChannelMessageMeta },
    /// Update the stored location with it.
    Locate { reply_to: ChannelReplyTarget, meta: ChannelMessageMeta },
    /// Hand it to the chat as it is.
    Dispatch { body: String, reply_to: ChannelReplyTarget, meta: ChannelMessageMeta },
}

/// What a `DeliveryStep` says.
pub enum StepModel {
    React(Seq<char>),
    Log(LogEntryModel),
    Announce(EventModel),
    Transcribe { reply_to: ReplyTargetModel, meta: MetaModel },
    Locate { reply_to: ReplyTargetModel, meta: MetaModel },
    Dispatch { body: Seq<char>, reply_to: ReplyTargetModel, meta: MetaModel },
}

impl View for DeliveryStep {
    type V = StepModel;

    open spec fn view(&self) -> StepModel {
        match *self {
            DeliveryStep::React(emoji) => StepModel::React(emoji@),
            DeliveryStep::Log(entry) => StepModel::Log(entry@),
            DeliveryStep::Announce(event) => StepModel::Announce(event@),
            DeliveryStep::Transcribe { reply_to, meta } => StepModel::Transcribe {
                reply_to: reply_to@,
                meta: meta@,
            },
            DeliveryStep::Locate { reply_to, meta } => StepModel::Locate {
                reply_to: reply_to@,
                meta: meta@,
            },
            DeliveryStep::Dispatch { body, reply_to, meta } => StepModel::Dispatch {
                body: body@,
                reply_to: reply_to@,
                meta: meta@,
            },
        }
    }
}

/// What the steps of a delivery say, in order.
pub open spec fn step_models(steps: Seq<DeliveryStep>) -> Seq<StepModel> {
    steps.map_values(|step: DeliveryStep| step@)
}

/// What is to be done next.
pub enum RoomAction {
    /// Count the message and look its account up.
    LookUpAccount,
    /// Ask whether the room is a direct conversation.
    AskDirect,
    /// Ask the matcher whether the sender and the room are listed.
    AskMatcher,
    /// Let the sender approve themselves with a one-time code.
    SelfApprove { body: String },
    /// Look the sender up.
    LookUpSender,
    /// Deliver the message, step by step in the order given.
    Deliver(Vec<DeliveryStep>),
    /// Do nothing more, for a reason.
    Deny(AccessDenied),
    /// Do nothing more.
    Stop,
}

// ---- what the steps do -----------------------------------------------------

/// The message is one to handle: it is not the bot's own, it is of a kind the bot reads, and if it
/// is text there is something in it.
pub open spec fn is_handled(message: RoomMessage, bot_user_id: Seq<char>) -> bool {
    &&& message.sender_id@ != bot_user_id
    &&& message_kind(message.content) is Some
    &&& !(message_kind(message.content) == Some(ChannelMessageKind::Text) && message_body(
        message.content,
    ).len() == 0)
}

/// How a room message starts out.
pub open spec fn room_message_starts(
    message: RoomMessage,
    bot_user_id: Seq<char>,
    state: RoomState,
    action: RoomAction,
) -> bool {
    if is_handled(message, bot_user_id) {
        &&& state matches RoomState::Screened { kind, body } && {
            &&& Some(kind) == message_kind(message.content)
            &&& body@ == message_body(message.content)
        }
        &&& action is LookUpAccount
    } else {
        state is Finished && action is Stop
    }
}

/// A room counts as a direct conversation only where it is known to be one.
pub open spec fn conversation(direct: Option<bool>) -> ChatType {
    if direct == Some(true) {
        ChatType::Dm
    } else {
        ChatType::Group
    }
}

/// Whether a message may be answered: what the account's policies say of the conversation, of the
/// sender and the room as the matcher finds them listed, and of the mention in the message.
pub open spec fn message_access(
    message: RoomMessage,
    bot_user_id: Seq<char>,
    body: Seq<char>,
    account: AccountSnapshot,
    chat_type: ChatType,
    sender_allowed: bool,
    room_allowed: bool,
) -> Result<(), AccessDenied> {
    access(
        account.config,
        chat_type,
        sender_allowed,
        room_allowed,
        mentions_bot(message.mentions, bot_user_id, body),
    )
}

/// A sender of direct messages who is not on the allowlist may approve themselves, where the
/// account allows it.
pub open spec fn may_self_approve(
    config: MatrixAccountConfig,
    chat_type: ChatType,
    reason: AccessDenied,
) -> bool {
    &&& chat_type == ChatType::Dm
    &&& reason == AccessDenied::NotOnAllowlist
    &&& config.otp_self_approval
    &&& config.dm_policy == DmPolicy::Allowlist
}

/// Where replies to a message go.
pub open spec fn reply_target(message: RoomMessage, config: MatrixAccountConfig) -> ReplyTargetModel {
    ReplyTargetModel {
        channel_type: ChannelType::Matrix,
        account_id: message.account_id@,
        chat_id: message.room_id@,
        message_id: if config.reply_to_message {
            Some(message.event_id@)
        } else {
            None
        },
    }
}

/// What the chat is told about a message.
pub open spec fn message_meta(
    message: RoomMessage,
    kind: ChannelMessageKind,
    sender_name: Option<Seq<char>>,
    model: Option<Seq<char>>,
) -> MetaModel {
    MetaModel {
        channel_type: ChannelType::Matrix,
        sender_name,
        username: Some(message.sender_id@),
        message_kind: Some(kind),
        model,
        audio_filename: None,
    }
}

/// How the log calls a conversation.
pub open spec fn conversation_label(chat_type: ChatType) -> Seq<char> {
    match chat_type {
        ChatType::Dm => "dm"@,
        ChatType::Group => "group"@,
    }
}

/// The line of a message in the log.
pub open spec fn log_line(
    message: RoomMessage,
    chat_type: ChatType,
    body: Seq<char>,
    sender_name: Option<Seq<char>>,
    now: i64,
) -> LogEntryModel {
    LogEntryModel {
        id: 0,
        account_id: message.account_id@,
        channel_type: "matrix"@,
        peer_id: message.sender_id@,
        username: Some(message.sender_id@),
        sender_name,
        chat_id: message.room_id@,
        chat_type: conversation_label(chat_type),
        body,
        access_granted: true,
        created_at: now,
    }
}

/// What the gateway is told of a message.
pub open spec fn announcement(message: RoomMessage, sender_name: Option<Seq<char>>) -> EventModel {
    EventModel::InboundMessage {
        channel_type: ChannelType::Matrix,
        account_id: message.account_id@,
        peer_id: message.sender_id@,
        username: Some(message.sender_id@),
        sender_name,
        message_count: Some(1),
        access_granted: true,
    }
}

/// The way a message takes: through transcription for audio, through the location store for a
/// location, else straight to the chat.
pub open spec fn route(
    message: RoomMessage,
    config: MatrixAccountConfig,
    body: Seq<char>,
    meta: MetaModel,
) -> StepModel {
    let reply_to = reply_target(message, config);
    match message.content {
        MessageContent::Audio(_) => StepModel::Transcribe { reply_to, meta },
        MessageContent::Location(_) => StepModel::Locate { reply_to, meta },
        _ => StepModel::Dispatch { body, reply_to, meta },
    }
}

/// All that is done with a message that was let in, in order: it is acknowledged where the account
/// has a reaction for that, logged where there is a log, and, where there is a gateway, announced
/// and then sent on its way.
pub open spec fn delivery_steps(
    message: RoomMessage,
    kind: ChannelMessageKind,
    body: Seq<char>,
    account: AccountSnapshot,
    chat_type: ChatType,
    sender_name: Option<Seq<char>>,
    model: Option<Seq<char>>,
    now: i64,
) -> Seq<StepModel> {
    let reaction = match opt_view(account.config.ack_reaction) {
        Some(emoji) => seq![StepModel::React(emoji)],
        None => Seq::empty(),
    };
    let log = if account.has_message_log {
        seq![StepModel::Log(log_line(message, chat_type, body, sender_name, now))]
    } else {
        Seq::empty()
    };
    let handover = if account.has_event_sink {
        seq![
            StepModel::Announce(announcement(message, sender_name)),
            route(
                message,
                account.config,
                body,
                message_meta(message, kind, sender_name, model),
            ),
        ]
    } else {
        Seq::empty()
    };
    reaction + log + handover
}

/// The state an event leads to.
pub open spec fn next_room_state(
    message: RoomMessage,
    bot_user_id: Seq<char>,
    before: RoomState,
    event: RoomEvent,
) -> RoomState {
    match (before, event) {
        (RoomState::Screened { kind, body }, RoomEvent::Account(Some(account))) => {
            RoomState::Located { kind, body, account }
        },
        (RoomState::Located { kind, body, account }, RoomEvent::Direct(direct)) => {
            RoomState::Judged { kind, body, account, chat_type: conversation(direct) }
        },
        (
            RoomState::Judged { kind, body, account, chat_type },
            RoomEvent::Matched { sender_allowed, room_allowed },
        ) => if message_access(
            message,
            bot_user_id,
            body@,
            account,
            chat_type,
            sender_allowed,
            room_allowed,
        ) is Ok {
            RoomState::Admitted { kind, body, account, chat_type }
        } else {
            RoomState::Finished
        },
        _ => RoomState::Finished,
    }
}

/// What an event leads to being done.
pub open spec fn room_action_follows(
    message: RoomMessage,
    bot_user_id: Seq<char>,
    before: RoomState,
    event: RoomEvent,
    action: RoomAction,
) -> bool {
    match (before, event) {
        (RoomState::Screened { .. }, RoomEvent::Account(Some(_))) => action is AskDirect,
        (RoomState::Located { .. }, RoomEvent::Direct(_)) => action is AskMatcher,
        (
            RoomState::Judged { body, account, chat_type, .. },
            RoomEvent::Matched { sender_allowed, room_allowed },
        ) => match message_access(
            message,
            bot_user_id,
            body@,
            account,
            chat_type,
            sender_allowed,
            room_allowed,
        ) {
            Ok(_) => action is LookUpSender,
            Err(reason) => if may_self_approve(account.config, chat_type, reason) {
                action matches RoomAction::SelfApprove { body: text } && text@ == body@
            } else {
                action == RoomAction::Deny(reason)
            },
        },
        (
            RoomState::Admitted { kind, body, account, chat_type },
            RoomEvent::Sender { name, model, now },
        ) => action matches RoomAction::Deliver(steps) && step_models(steps@) == delivery_steps(
            message,
            kind,
            body@,
            account,
            chat_type,
            opt_view(name),
            opt_view(model),
            now,
        ),
        _ => action is Stop,
    }
}

// ---- the steps -------------------------------------------------------------

/// Starts handling a room message.
pub fn start_room_message(message: &RoomMessage, bot_user_id: &str) -> (res: (
    RoomState,
    RoomAction,
))
    ensures
        room_message_starts(*message, bot_user_id@, res.0, res.1),
{
    if *message.sender_id.as_str() == *bot_user_id {
        return (RoomState::Finished, RoomAction::Stop);
    }
    match inbound_message_kind(&message.content) {
        None => (RoomState::Finished, RoomAction::Stop),
        Some(kind) => {
            let body = inbound_message_body(&message.content);
            if body.as_str().is_empty() && kind == ChannelMessageKind::Text {
                (RoomState::Finished, RoomAction::Stop)
            } else {
                (RoomState::Screened { kind, body }, RoomAction::LookUpAccount)
            }
        },
    }
}

fn delivery_of(
    message: &RoomMessage,
    kind: ChannelMessageKind,
    body: String,
    account: &AccountSnapshot,
    chat_type: ChatType,
    name: Option<String>,
    model: Option<String>,
    now: i64,
) -> (steps: Vec<DeliveryStep>)
    ensures
        step_models(steps@) == delivery_steps(
            *message,
            kind,
            body@,
            *account,
            chat_type,
            opt_view(name),
            opt_view(model),
            now,
        ),
{
    let mut steps: Vec<DeliveryStep> = Vec::new();
    if let Some(emoji) = &account.config.ack_reaction {
        steps.push(DeliveryStep::React(emoji.clone()));
    }
    if account.has_message_log {
        let label = match chat_type {
            ChatType::Dm => "dm",
            ChatType::Group => "group",
        };
        steps.push(
            DeliveryStep::Log(
                MessageLogEntry {
                    id: 0,
                    account_id: message.account_id.clone(),
                    channel_type: "matrix".to_owned(),
                    peer_id: message.sender_id.clone(),
                    username: Some(message.sender_id.clone()),
                    sender_name: copied(&name),
                    chat_id: message.room_id.clone(),
                    chat_type: label.to_owned(),
                    body: body.clone(),
                    access_granted: true,
                    created_at: now,
                },
            ),
        );
    }
    if account.has_event_sink {
        steps.push(
            DeliveryStep::Announce(
                ChannelEvent::InboundMessage {
                    channel_type: ChannelType::Matrix,
                    account_id: message.account_id.clone(),
                    peer_id: message.sender_id.clone(),
                    username: Some(message.sender_id.clone()),
                    sender_name: copied(&name),
                    message_count: Some(1),
                    access_granted: true,
                },
            ),
        );
        let reply_to = ChannelReplyTarget {
            channel_type: ChannelType::Matrix,
            account_id: message.account_id.clone(),
            chat_id: message.room_id.clone(),
            message_id: if account.config.reply_to_message {
                Some(message.event_id.clone())
            } else {
                None
            },
        };
        let meta = ChannelMessageMeta {
            channel_type: ChannelType::Matrix,
            sender_name: name,
            username: Some(message.sender_id.clone()),
            message_kind: Some(kind),
            model,
            audio_filename: None,
        };
        steps.push(
            match &message.content {
                MessageContent::Audio(_) => DeliveryStep::Transcribe { reply_to, meta },
                MessageContent::Location(_) => DeliveryStep::Locate { reply_to, meta },
                _ => DeliveryStep::Dispatch { body, reply_to, meta },
            },
        );
    }
    steps
}

/// Moves a room message on.
pub fn step_room_message(
    message: &RoomMessage,
    bot_user_id: &str,
    state: RoomState,
    event: RoomEvent,
) -> (res: (RoomState, RoomAction))
    ensures
        res.0 == next_room_state(*message, bot_user_id@, state, event),
        room_action_follows(*message, bot_user_id@, state, event, res.1),
{
    match (state, event) {
        (RoomState::Screened { kind, body }, RoomEvent::Account(Some(account))) => {
            (RoomState::Located { kind, body, account }, RoomAction::AskDirect)
        },
        (RoomState::Located { kind, body, account }, RoomEvent::Direct(direct)) => {
            let chat_type = match direct {
                Some(true) => ChatType::Dm,
                _ => ChatType::Group,
            };
            (RoomState::Judged { kind, body, account, chat_type }, RoomAction::AskMatcher)
        },
        (
            RoomState::Judged { kind, body, account, chat_type },
            RoomEvent::Matched { sender_allowed, room_allowed },
        ) => {
            let bot_mentioned = is_bot_mentioned(message, bot_user_id, body.as_str());
            match access_decision(
                &account.config,
                chat_type,
                sender_allowed,
                room_allowed,
                bot_mentioned,
            ) {
                Ok(_) => (
                    RoomState::Admitted { kind, body, account, chat_type },
                    RoomAction::LookUpSender,
                ),
                Err(reason) => {
                    if chat_type == ChatType::Dm && reason == AccessDenied::NotOnAllowlist
                        && account.config.otp_self_approval && account.config.dm_policy
                        == DmPolicy::Allowlist {
                        (RoomState::Finished, RoomAction::SelfApprove { body })
                    } else {
                        (RoomState::Finished, RoomAction::Deny(reason))
                    }
                },
            }
        },
        (
            RoomState::Admitted { kind, body, account, chat_type },
            RoomEvent::Sender { name, model, now },
        ) => {
            let steps = delivery_of(message, kind, body, &account, chat_type, name, model, now);
            (RoomState::Finished, RoomAction::Deliver(steps))
        },
        _ => (RoomState::Finished, RoomAction::Stop),
    }
}

/// Asks the matcher about the sender and the room against the account's own lists, and moves the
/// message on with what it answers. A message whose turn it is not ends here.
pub fn judge_room_message<F: Fn(&str, &[String]) -> bool>(
    message: &RoomMessage,
    bot_user_id: &str,
    state: RoomState,
    is_allowed: F,
) -> (res: (RoomState, RoomAction))
    requires
        matcher_is_total(is_allowed),
    ensures
        match state {
            RoomState::Judged { body, account, chat_type, .. } => exists|
                sender_allowed: bool,
                room_allowed: bool,
            |
                {
                    let event = RoomEvent::Matched { sender_allowed, room_allowed };
                    let decision = message_access(
                        *message,
                        bot_user_id@,
                        body@,
                        account,
                        chat_type,
                        sender_allowed,
                        room_allowed,
                    );
                    &&& #[trigger] matcher_says(
                        is_allowed,
                        message.sender_id@,
                        account.config.user_allowlist@,
                        sender_allowed,
                    )
                    &&& #[trigger] matcher_says(
                        is_allowed,
                        message.room_id@,
                        account.config.room_allowlist@,
                        room_allowed,
                    )
                    &&& res.0 == next_room_state(*message, bot_user_id@, state, event)
                    &&& room_action_follows(*message, bot_user_id@, state, event, res.1)
                    &&& res.0 is Admitted <==> decision is Ok
                },
            _ => res.0 is Finished && res.1 is Stop,
        },
{
    match state {
        RoomState::Judged { kind, body, account, chat_type } => {
            let (sender_allowed, room_allowed) = ask_matcher(
                &account.config,
                message.sender_id.as_str(),
                message.room_id.as_str(),
                is_allowed,
            );
            step_room_message(
                message,
                bot_user_id,
                RoomState::Judged { kind, body, account, chat_type },
                RoomEvent::Matched { sender_allowed, room_allowed },
            )
        },
        _ => (RoomState::Finished, RoomAction::Stop),
    }
}

// ---- laws ------------------------------------------------------------------

/// The state after a number of events.
pub open spec fn room_run(
    message: RoomMessage,
    bot_user_id: Seq<char>,
    start: RoomState,
    events: Seq<RoomEvent>,
) -> RoomState
    decreases events.len(),
{
    if events.len() == 0 {
        start
    } else {
        next_room_state(
            message,
            bot_user_id,
            room_run(message, bot_user_id, start, events.drop_last()),
            events.last(),
        )
    }
}

/// The bot never does anything about its own messages.
pub proof fn own_messages_are_ignored(
    message: RoomMessage,
    bot_user_id: Seq<char>,
    state: RoomState,
    action: RoomAction,
)
    requires
        room_message_starts(message, bot_user_id, state, action),
        message.sender_id@ == bot_user_id,
    ensures
        state is Finished,
        action is Stop,
{
}

/// Whatever comes in after a message is finished, it stays finished and nothing is done.
pub proof fn finished_messages_stay_finished(
    message: RoomMessage,
    bot_user_id: Seq<char>,
    events: Seq<RoomEvent>,
    event: RoomEvent,
    action: RoomAction,
)
    requires
        room_action_follows(
            message,
            bot_user_id,
            room_run(message, bot_user_id, RoomState::Finished, events),
            event,
            action,
        ),
    ensures
        room_run(message, bot_user_id, RoomState::Finished, events) is Finished,
        action is Stop,
{
    lemma_finished_run(message, bot_user_id, events);
}

proof fn lemma_finished_run(message: RoomMessage, bot_user_id: Seq<char>, events: Seq<RoomEvent>)
    ensures
        room_run(message, bot_user_id, RoomState::Finished, events) is Finished,
    decreases events.len(),
{
    if events.len() > 0 {
        lemma_finished_run(message, bot_user_id, events.drop_last());
    }
}

/// What a state still holds of the message it began with: the kind and the text.
pub open spec fn holds(state: RoomState, kind: ChannelMessageKind, body: String) -> bool {
    match state {
        RoomState::Screened { kind: k, body: b } => k == kind && b == body,
        RoomState::Located { kind: k, body: b, .. } => k == kind && b == body,
        RoomState::Judged { kind: k, body: b, .. } => k == kind && b == body,
        RoomState::Admitted { kind: k, body: b, .. } => k == kind && b == body,
        RoomState::Finished => true,
    }
}

/// In every run, the kind and the text that were read at the start are kept to the end.
pub proof fn runs_keep_the_message(
    message: RoomMessage,
    bot_user_id: Seq<char>,
    kind: ChannelMessageKind,
    body: String,
    events: Seq<RoomEvent>,
)
    ensures
        holds(
            room_run(message, bot_user_id, RoomState::Screened { kind, body }, events),
            kind,
            body,
        ),
    decreases events.len(),
{
    if events.len() > 0 {
        runs_keep_the_message(message, bot_user_id, kind, body, events.drop_last());
    }
}

/// The policies of the account that `state` holds let the message in, by the matcher's answers in
/// `event`.
pub open spec fn is_granted(
    message: RoomMessage,
    bot_user_id: Seq<char>,
    body: Seq<char>,
    state: RoomState,
    event: RoomEvent,
) -> bool {
    match (state, event) {
        (
            RoomState::Admitted { account, chat_type, .. },
            RoomEvent::Matched { sender_allowed, room_allowed },
        ) => message_access(
            message,
            bot_user_id,
            body,
            account,
            chat_type,
            sender_allowed,
            room_allowed,
        ) is Ok,
        _ => false,
    }
}

/// In every run, a message is let in only by the policies of its account: by what they say of the
/// conversation, of its mention, and of the matcher's answers in that run.
pub proof fn admission_needs_granted_access(
    message: RoomMessage,
    bot_user_id: Seq<char>,
    kind: ChannelMessageKind,
    body: String,
    events: Seq<RoomEvent>,
)
    requires
        room_run(message, bot_user_id, RoomState::Screened { kind, body }, events) is Admitted,
    ensures
        events.len() > 0,
        is_granted(
            message,
            bot_user_id,
            body@,
            room_run(message, bot_user_id, RoomState::Screened { kind, body }, events),
            events.last(),
        ),
{
    runs_keep_the_message(message, bot_user_id, kind, body, events);
    if events.len() > 0 {
        runs_keep_the_message(message, bot_user_id, kind, body, events.drop_last());
    }
}

/// No message is delivered unless the policies of its account let it in, whatever the outside
/// answers.
pub proof fn delivery_needs_granted_access(
    message: RoomMessage,
    bot_user_id: Seq<char>,
    kind: ChannelMessageKind,
    body: String,
    events: Seq<RoomEvent>,
    event: RoomEvent,
    action: RoomAction,
)
    requires
        room_action_follows(
            message,
            bot_user_id,
            room_run(message, bot_user_id, RoomState::Screened { kind, body }, events),
            event,
            action,
        ),
        action is Deliver,
    ensures
        events.len() > 0,
        is_granted(
            message,
            bot_user_id,
            body@,
            room_run(message, bot_user_id, RoomState::Screened { kind, body }, events),
            events.last(),
        ),
{
    admission_needs_granted_access(message, bot_user_id, kind, body, events);
}

/// A message to handle that reaches an account whose policies let it in is delivered, with the
/// kind and the text it was sent with, in the conversation it was sent in.
pub proof fn admitted_messages_are_delivered(
    message: RoomMessage,
    bot_user_id: Seq<char>,
    start: RoomState,
    first: RoomAction,
    account: AccountSnapshot,
    direct: Option<bool>,
    sender_allowed: bool,
    room_allowed: bool,
    name: Option<String>,
    model: Option<String>,
    now: i64,
    action: RoomAction,
)
    requires
        is_handled(message, bot_user_id),
        room_message_starts(message, bot_user_id, start, first),
        message_access(
            message,
            bot_user_id,
            message_body(message.content),
            account,
            conversation(direct),
            sender_allowed,
            room_allowed,
        ) is Ok,
        room_action_follows(
            message,
            bot_user_id,
            room_run(
                message,
                bot_user_id,
                start,
                seq![
                    RoomEvent::Account(Some(account)),
                    RoomEvent::Direct(direct),
                    (RoomEvent::Matched { sender_allowed, room_allowed }),
                ],
            ),
            (RoomEvent::Sender { name, model, now }),
            action,
        ),
    ensures
        action matches RoomAction::Deliver(steps) && step_models(steps@) == delivery_steps(
            message,
            message_kind(message.content)->0,
            message_body(message.content),
            account,
            conversation(direct),
            opt_view(name),
            opt_view(model),
            now,
        ),
{
    let found = RoomEvent::Account(Some(account));
    let told = RoomEvent::Direct(direct);
    let matched = RoomEvent::Matched { sender_allowed, room_allowed };
    assert(seq![found, told, matched].drop_last() =~= seq![found, told]);
    assert(seq![found, told].drop_last() =~= seq![found]);
    assert(seq![found].drop_last() =~= Seq::<RoomEvent>::empty());
    reveal_with_fuel(room_run, 4);
}

/// Where a step stands among the steps of a delivery.
pub open spec fn step_rank(step: StepModel) -> int {
    match step {
        StepModel::React(_) => 0,
        StepModel::Log(_) => 1,
        StepModel::Announce(_) => 2,
        _ => 3,
    }
}

/// A delivery keeps its order: the reaction, then the log, then the announcement, then the way to
/// the chat, none of them twice; and nothing goes on its way unannounced.
pub proof fn deliveries_keep_their_order(
    message: RoomMessage,
    kind: ChannelMessageKind,
    body: Seq<char>,
    account: AccountSnapshot,
    chat_type: ChatType,
    sender_name: Option<Seq<char>>,
    model: Option<Seq<char>>,
    now: i64,
)
    ensures
        ({
            let steps = delivery_steps(
                message,
                kind,
                body,
                account,
                chat_type,
                sender_name,
                model,
                now,
            );
            &&& forall|i: int, j: int|
                0 <= i < j < steps.len() ==> step_rank(#[trigger] steps[i]) < step_rank(
                    #[trigger] steps[j],
                )
            &&& forall|j: int|
                0 <= j < steps.len() && step_rank(#[trigger] steps[j]) == 3 ==> j > 0
                    && steps[j - 1] == StepModel::Announce(announcement(message, sender_name))
        }),
{
}

/// A message that the policies of its account turn away is dropped without a word or, for a direct
/// message that only the allowlist turned away, answered with self-approval where the account
/// allows it.
pub proof fn denied_messages_are_dropped_or_self_approved(
    message: RoomMessage,
    bot_user_id: Seq<char>,
    kind: ChannelMessageKind,
    body: String,
    account: AccountSnapshot,
    chat_type: ChatType,
    sender_allowed: bool,
    room_allowed: bool,
    reason: AccessDenied,
    action: RoomAction,
)
    requires
        message_access(
            message,
            bot_user_id,
            body@,
            account,
            chat_type,
            sender_allowed,
            room_allowed,
        ) == Err::<(), _>(reason),
        room_action_follows(
            message,
            bot_user_id,
            (RoomState::Judged { kind, body, account, chat_type }),
            (RoomEvent::Matched { sender_allowed, room_allowed }),
            action,
        ),
    ensures
        next_room_state(
            message,
            bot_user_id,
            (RoomState::Judged { kind, body, account, chat_type }),
            (RoomEvent::Matched { sender_allowed, room_allowed }),
        ) is Finished,
        action is SelfApprove <==> may_self_approve(account.config, chat_type, reason),
        action is SelfApprove || action == RoomAction::Deny(reason),
{
}

/// Of the messages that are denied, exactly the direct ones under the allowlist policy lead to
/// self-approval, and those only where the account allows it. Switched-off conversations, rooms
/// that are not let in and rooms without a mention are ignored.
pub proof fn unknown_dm_senders_can_self_approve(
    config: MatrixAccountConfig,
    chat_type: ChatType,
    sender_allowed: bool,
    room_allowed: bool,
    bot_mentioned: bool,
)
    ensures
        access(config, chat_type, sender_allowed, room_allowed, bot_mentioned) matches Err(reason)
            ==> (may_self_approve(config, chat_type, reason) <==> chat_type == ChatType::Dm
            && config.dm_policy == DmPolicy::Allowlist && config.otp_self_approval),
{
}

/// A delivered reply points at the message it answers exactly where the account asks for it.
pub proof fn replies_point_back_where_asked(message: RoomMessage, config: MatrixAccountConfig)
    ensures
        config.reply_to_message ==> reply_target(message, config).message_id == Some(
            message.event_id@,
        ),
        !config.reply_to_message ==> reply_target(message, config).message_id is None,
{
}

/// A message is taken up exactly when someone else than the bot sent it, it is of a kind the bot
/// reads, and it is not a text without a character in it. It is taken up with its kind and text.
pub proof fn messages_worth_reading_are_taken_up(
    message: &RoomMessage,
    bot_user_id: &str,
    kind: Option<ChannelMessageKind>,
    body: String,
    res: (RoomState, RoomAction),
)
    requires
        call_ensures(start_room_message, (message, bot_user_id), res),
        call_ensures(inbound_message_kind, (&message.content,), kind),
        call_ensures(inbound_message_body, (&message.content,), body),
    ensures
        message.sender_id@ != bot_user_id@ && kind is Some && (kind != Some(
            ChannelMessageKind::Text,
        ) || body@.len() > 0) ==> {
            &&& res.0 matches RoomState::Screened { kind: k, body: b } && Some(k) == kind && b@
                == body@
            &&& res.1 is LookUpAccount
        },
        message.sender_id@ == bot_user_id@ || kind is None || (kind == Some(
            ChannelMessageKind::Text,
        ) && body@.len() == 0) ==> res.0 is Finished && res.1 is Stop,
{
}

/// With the account known, the conversation is asked for, and with that known, the matcher. A room
/// counts as a direct conversation exactly where it was said to be one.
pub proof fn the_conversation_is_found_out(
    message: &RoomMessage,
    bot_user_id: &str,
    kind: ChannelMessageKind,
    body: String,
    account: AccountSnapshot,
    direct: Option<bool>,
    missing: (RoomState, RoomAction),
    found: (RoomState, RoomAction),
    told: (RoomState, RoomAction),
)
    requires
        call_ensures(
            step_room_message,
            (
                message,
                bot_user_id,
                (RoomState::Screened { kind, body }),
                RoomEvent::Account(None),
            ),
            missing,
        ),
        call_ensures(
            step_room_message,
            (
                message,
                bot_user_id,
                (RoomState::Screened { kind, body }),
                RoomEvent::Account(Some(account)),
            ),
            found,
        ),
        call_ensures(
            step_room_message,
            (message, bot_user_id, found.0, RoomEvent::Direct(direct)),
            told,
        ),
    ensures
        missing.0 is Finished && missing.1 is Stop,
        found.0 == (RoomState::Located { kind, body, account }),
        found.1 is AskDirect,
        told.1 is AskMatcher,
        direct == Some(true) ==> told.0 == (RoomState::Judged {
            kind,
            body,
            account,
            chat_type: ChatType::Dm,
        }),
        direct != Some(true) ==> told.0 == (RoomState::Judged {
            kind,
            body,
            account,
            chat_type: ChatType::Group,
        }),
{
}

/// A message is let in exactly where the account's settings let its conversation, its sender, its
/// room and its mention in. One that is not is dropped for the reason they give, or, where it is a
/// direct message that the list of users turned away and the account allows it, may be a code to
/// approve its sender with.
pub proof fn the_settings_decide_who_is_let_in(
    message: &RoomMessage,
    bot_user_id: &str,
    kind: ChannelMessageKind,
    body: String,
    text: &str,
    account: AccountSnapshot,
    chat_type: ChatType,
    sender_allowed: bool,
    room_allowed: bool,
    bot_mentioned: bool,
    decision: Result<(), AccessDenied>,
    res: (RoomState, RoomAction),
)
    requires
        text@ == body@,
        call_ensures(is_bot_mentioned, (message, bot_user_id, text), bot_mentioned),
        call_ensures(
            access_decision,
            (&account.config, chat_type, sender_allowed, room_allowed, bot_mentioned),
            decision,
        ),
        call_ensures(
            step_room_message,
            (
                message,
                bot_user_id,
                (RoomState::Judged { kind, body, account, chat_type }),
                (RoomEvent::Matched { sender_allowed, room_allowed }),
            ),
            res,
        ),
    ensures
        decision is Ok ==> res.0 == (RoomState::Admitted { kind, body, account, chat_type })
            && res.1 is LookUpSender,
        decision matches Err(reason) ==> res.0 is Finished && if reason
            == AccessDenied::NotOnAllowlist && account.config.otp_self_approval {
            res.1 matches RoomAction::SelfApprove { body: said } && said@ == body@
        } else {
            res.1 == RoomAction::Deny(reason)
        },
{
}

/// In a room that the room policy lets in, a message that mentions the bot, at whatever place
/// among those it mentions, is let in where mentions are asked for.
pub proof fn mentioning_the_bot_lets_a_message_in(
    message: &RoomMessage,
    bot_user_id: &str,
    kind: ChannelMessageKind,
    body: String,
    account: AccountSnapshot,
    sender_allowed: bool,
    room_allowed: bool,
    place: int,
    res: (RoomState, RoomAction),
)
    requires
        call_ensures(
            step_room_message,
            (
                message,
                bot_user_id,
                (RoomState::Judged { kind, body, account, chat_type: ChatType::Group }),
                (RoomEvent::Matched { sender_allowed, room_allowed }),
            ),
            res,
        ),
        message.mentions matches Some(mentions) && 0 <= place < mentions.user_ids@.len()
            && mentions.user_ids@[place]@ == bot_user_id@,
        account.config.mention_mode == MentionMode::Mention,
        account.config.room_policy == GroupPolicy::Open || account.config.room_policy
            == GroupPolicy::Allowlist && account.config.room_allowlist@.len() > 0 && room_allowed,
    ensures
        res.0 is Admitted,
        res.1 is LookUpSender,
{
}

/// Judging a message is deciding on it by what the matcher says of its sender in the list of users
/// and of its room in the list of rooms.
pub proof fn messages_are_judged_by_the_matcher<F: Fn(&str, &[String]) -> bool>(
    message: &RoomMessage,
    bot_user_id: &str,
    state: RoomState,
    is_allowed: F,
    decide: spec_fn(Seq<char>, Seq<String>) -> bool,
    stepped: (RoomState, RoomAction),
    res: (RoomState, RoomAction),
)
    requires
        matcher_decides(is_allowed, decide),
        call_ensures(
            judge_room_message::<F>,
            (message, bot_user_id, state, is_allowed),
            res,
        ),
        state matches RoomState::Judged { account, .. } ==> call_ensures(
            step_room_message,
            (
                message,
                bot_user_id,
                state,
                (RoomEvent::Matched {
                    sender_allowed: decide(
                        message.sender_id@,
                        account.config.user_allowlist@,
                    ),
                    room_allowed: decide(message.room_id@, account.config.room_allowlist@),
                }),
            ),
            stepped,
        ),
    ensures
        state is Judged ==> {
            &&& res.0 == stepped.0
            &&& res.1 is LookUpSender <==> stepped.1 is LookUpSender
            &&& res.1 matches RoomAction::Deny(reason) ==> stepped.1 == RoomAction::Deny(reason)
            &&& res.1 matches RoomAction::SelfApprove { body } ==> (
            stepped.1 matches RoomAction::SelfApprove { body: same } && same@ == body@)
        },
        state !is Judged ==> res.0 is Finished && res.1 is Stop,
{
}

/// Replies go to the room of the message, for the account of the message, whatever is configured;
/// they point at the message exactly where that is configured.
pub open spec fn replies_to(
    target: ChannelReplyTarget,
    message: RoomMessage,
    config: MatrixAccountConfig,
) -> bool {
    &&& target.channel_type == ChannelType::Matrix
    &&& target.account_id@ == message.account_id@
    &&& target.chat_id@ == message.room_id@
    &&& if config.reply_to_message {
        target.message_id matches Some(id) && id@ == message.event_id@
    } else {
        target.message_id is None
    }
}

/// The chat is told who sent a message, of which kind it is, and which model to answer it with.
pub open spec fn tells_of(
    meta: ChannelMessageMeta,
    message: RoomMessage,
    kind: ChannelMessageKind,
    name: Option<String>,
    model: Option<String>,
) -> bool {
    &&& meta.channel_type == ChannelType::Matrix
    &&& same_text(meta.sender_name, name)
    &&& meta.username matches Some(id) && id@ == message.sender_id@
    &&& meta.message_kind == Some(kind)
    &&& same_text(meta.model, model)
    &&& meta.audio_filename is None
}

proof fn lemma_step_models(steps: Seq<DeliveryStep>)
    ensures
        step_models(steps).len() == steps.len(),
        forall|i: int| 0 <= i < steps.len() ==> (#[trigger] steps[i])@ == step_models(steps)[i],
{
}

/// The steps of a delivery, one behind the other: the account's reaction where it has one, the
/// log where it keeps one, and, where it has a gateway, the announcement and then the way to the
/// chat. Their number says that nothing else is among them.
pub proof fn deliveries_are_complete_and_in_order(
    message: &RoomMessage,
    bot_user_id: &str,
    kind: ChannelMessageKind,
    body: String,
    account: AccountSnapshot,
    chat_type: ChatType,
    name: Option<String>,
    model: Option<String>,
    now: i64,
    res: (RoomState, RoomAction),
)
    requires
        call_ensures(
            step_room_message,
            (
                message,
                bot_user_id,
                (RoomState::Admitted { kind, body, account, chat_type }),
                (RoomEvent::Sender { name, model, now }),
            ),
            res,
        ),
    ensures
        res.0 is Finished,
        res.1 matches RoomAction::Deliver(steps) && {
            let reactions = if account.config.ack_reaction is Some {
                1int
            } else {
                0int
            };
            let lines = if account.has_message_log {
                1int
            } else {
                0int
            };
            let handed = if account.has_event_sink {
                2int
            } else {
                0int
            };
            &&& steps@.len() == reactions + lines + handed
            &&& account.config.ack_reaction is Some ==> (
            steps@[0] matches DeliveryStep::React(emoji) && emoji@
                == account.config.ack_reaction->0@)
            &&& account.has_message_log ==> steps@[reactions] is Log
            &&& account.has_event_sink ==> steps@[reactions + lines] is Announce
            &&& account.has_event_sink ==> match message.content {
                MessageContent::Audio(_) => steps@[reactions + lines + 1] is Transcribe,
                MessageContent::Location(_) => steps@[reactions + lines + 1] is Locate,
                _ => steps@[reactions + lines + 1] is Dispatch,
            }
        },
{
    if let RoomAction::Deliver(steps) = res.1 {
        lemma_step_models(steps@);
    }
}

/// Whatever the way a message takes to the chat, replies to it go to its room for its account, the
/// chat is told of the message itself, and the text it is handed is the text of the message.
pub proof fn deliveries_point_back_at_the_message(
    message: &RoomMessage,
    bot_user_id: &str,
    kind: ChannelMessageKind,
    body: String,
    account: AccountSnapshot,
    chat_type: ChatType,
    name: Option<String>,
    model: Option<String>,
    now: i64,
    steps: Vec<DeliveryStep>,
    i: int,
    state: RoomState,
)
    requires
        call_ensures(
            step_room_message,
            (
                message,
                bot_user_id,
                (RoomState::Admitted { kind, body, account, chat_type }),
                (RoomEvent::Sender { name, model, now }),
            ),
            (state, RoomAction::Deliver(steps)),
        ),
        0 <= i < steps@.len(),
    ensures
        match steps@[i] {
            DeliveryStep::Transcribe { reply_to, meta } => {
                &&& replies_to(reply_to, *message, account.config)
                &&& tells_of(meta, *message, kind, name, model)
            },
            DeliveryStep::Locate { reply_to, meta } => {
                &&& replies_to(reply_to, *message, account.config)
                &&& tells_of(meta, *message, kind, name, model)
            },
            DeliveryStep::Dispatch { body: said, reply_to, meta } => {
                &&& said@ == body@
                &&& replies_to(reply_to, *message, account.config)
                &&& tells_of(meta, *message, kind, name, model)
            },
            _ => true,
        },
{
    lemma_step_models(steps@);
    assert(steps@[i]@ == step_models(steps@)[i]);
}

/// The log and the gateway are told of the message itself: its account, sender, room and text, the
/// name of its sender, the conversation it belongs to, and the time.
pub proof fn messages_are_recorded_as_they_are(
    message: &RoomMessage,
    bot_user_id: &str,
    kind: ChannelMessageKind,
    body: String,
    account: AccountSnapshot,
    chat_type: ChatType,
    name: Option<String>,
    model: Option<String>,
    now: i64,
    steps: Vec<DeliveryStep>,
    i: int,
    state: RoomState,
)
    requires
        call_ensures(
            step_room_message,
            (
                message,
                bot_user_id,
                (RoomState::Admitted { kind, body, account, chat_type }),
                (RoomEvent::Sender { name, model, now }),
            ),
            (state, RoomAction::Deliver(steps)),
        ),
        0 <= i < steps@.len(),
    ensures
        steps@[i] matches DeliveryStep::Log(entry) ==> {
            &&& entry.id == 0
            &&& entry.account_id@ == message.account_id@
            &&& entry.channel_type@ == "matrix"@
            &&& entry.peer_id@ == message.sender_id@
            &&& entry.username matches Some(id) && id@ == message.sender_id@
            &&& same_text(entry.sender_name, name)
            &&& entry.chat_id@ == message.room_id@
            &&& chat_type == ChatType::Dm ==> entry.chat_type@ == "dm"@
            &&& chat_type == ChatType::Group ==> entry.chat_type@ == "group"@
            &&& entry.body@ == body@
            &&& entry.access_granted
            &&& entry.created_at == now
        },
        steps@[i] matches DeliveryStep::Announce(event) ==> (
        event matches ChannelEvent::InboundMessage {
            channel_type,
            account_id,
            peer_id,
            username,
            sender_name,
            message_count,
            access_granted,
        } && {
            &&& channel_type == ChannelType::Matrix
            &&& account_id@ == message.account_id@
            &&& peer_id@ == message.sender_id@
            &&& username matches Some(id) && id@ == message.sender_id@
            &&& same_text(sender_name, name)
            &&& message_count == Some(1i64)
            &&& access_granted
        }),
{
    lemma_step_models(steps@);
    assert(steps@[i]@ == step_models(steps@)[i]);
}

/// Two accounts that differ in whatever settings have replies to the same message sent to the same
/// room, for the same account.
pub proof fn settings_do_not_move_replies_to_another_room(
    message: &RoomMessage,
    bot_user_id: &str,
    kind: ChannelMessageKind,
    body: String,
    accounts: (AccountSnapshot, AccountSnapshot),
    chat_types: (ChatType, ChatType),
    name: Option<String>,
    model: Option<String>,
    now: i64,
    steps: (Vec<DeliveryStep>, Vec<DeliveryStep>),
    states: (RoomState, RoomState),
    targets: (ChannelReplyTarget, ChannelReplyTarget),
    places: (int, int),
)
    requires
        call_ensures(
            step_room_message,
            (
                message,
                bot_user_id,
                (RoomState::Admitted {
                    kind,
                    body,
                    account: accounts.0,
                    chat_type: chat_types.0,
                }),
                (RoomEvent::Sender { name, model, now }),
            ),
            (states.0, RoomAction::Deliver(steps.0)),
        ),
        call_ensures(
            step_room_message,
            (
                message,
                bot_user_id,
                (RoomState::Admitted {
                    kind,
                    body,
                    account: accounts.1,
                    chat_type: chat_types.1,
                }),
                (RoomEvent::Sender { name, model, now }),
            ),
            (states.1, RoomAction::Deliver(steps.1)),
        ),
        0 <= places.0 < steps.0@.len(),
        0 <= places.1 < steps.1@.len(),
        is_target_of(steps.0@[places.0], targets.0),
        is_target_of(steps.1@[places.1], targets.1),
    ensures
        targets.0.chat_id@ == targets.1.chat_id@,
        targets.0.account_id@ == targets.1.account_id@,
        accounts.0.config.reply_to_message == accounts.1.config.reply_to_message ==> same_text(
            targets.0.message_id,
            targets.1.message_id,
        ),
{
    deliveries_point_back_at_the_message(
        message,
        bot_user_id,
        kind,
        body,
        accounts.0,
        chat_types.0,
        name,
        model,
        now,
        steps.0,
        places.0,
        states.0,
    );
    deliveries_point_back_at_the_message(
        message,
        bot_user_id,
        kind,
        body,
        accounts.1,
        chat_types.1,
        name,
        model,
        now,
        steps.1,
        places.1,
        states.1,
    );
}

/// The step sends replies to `target`.
pub open spec fn is_target_of(step: DeliveryStep, target: ChannelReplyTarget) -> bool {
    match step {
        DeliveryStep::Transcribe { reply_to, .. } => reply_to == target,
        DeliveryStep::Locate { reply_to, .. } => reply_to == target,
        DeliveryStep::Dispatch { reply_to, .. } => reply_to == target,
        _ => false,
    }
}

/// An answer that was not waited for ends a message with nothing done.
pub proof fn unexpected_answers_end_a_message(
    message: &RoomMessage,
    bot_user_id: &str,
    state: RoomState,
    event: RoomEvent,
    res: (RoomState, RoomAction),
)
    requires
        call_ensures(step_room_message, (message, bot_user_id, state, event), res),
        match state {
            RoomState::Screened { .. } => event !is Account,
            RoomState::Located { .. } => event !is Direct,
            RoomState::Judged { .. } => event !is Matched,
            RoomState::Admitted { .. } => event !is Sender,
            RoomState::Finished => true,
        },
    ensures
        res.0 is Finished,
        res.1 is Stop,
{
}

} // verus!
