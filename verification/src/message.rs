//! Messages as they come from Matrix, and the records made of them for the gateway.

use vstd::prelude::*;

use crate::audio::{audio_caption, infer_audio_kind, AudioMessage, ChannelMessageKind};
use crate::location::LocationMessage;
use crate::text::{contains, occurring_is_standing_between, occurs, opt_view};

verus! {

// ---- inbound messages ------------------------------------------------------

/// What a message carries.
#[derive(Debug, Clone)]
pub enum MessageContent {
    Text(String),
    Notice(String),
    Image,
    Audio(AudioMessage),
    Video,
    File,
    Location(LocationMessage),
    /// Anything the bot does not read.
    Other,
}

/// Who a message mentions on purpose.
#[derive(Debug, Clone)]
pub struct Mentions {
    /// The whole room is mentioned.
    pub room: bool,
    /// The mentioned users.
    pub user_ids: Vec<String>,
}

/// A message that was received in a room.
#[derive(Debug, Clone)]
pub struct RoomMessage {
    pub account_id: String,
    pub room_id: String,
    pub event_id: String,
    pub sender_id: String,
    pub content: MessageContent,
    pub mentions: Option<Mentions>,
}

/// The kind of a message, for the messages the bot reads.
pub open spec fn message_kind(content: MessageContent) -> Option<ChannelMessageKind> {
    match content {
        MessageContent::Text(_) => Some(ChannelMessageKind::Text),
        MessageContent::Notice(_) => Some(ChannelMessageKind::Text),
        MessageContent::Image => Some(ChannelMessageKind::Photo),
        MessageContent::Audio(audio) => Some(audio.spec_kind()),
        MessageContent::Video => Some(ChannelMessageKind::Video),
        MessageContent::File => Some(ChannelMessageKind::Document),
        MessageContent::Location(_) => Some(ChannelMessageKind::Location),
        MessageContent::Other => None,
    }
}

/// The text of a message: empty for a message without words.
pub open spec fn message_body(content: MessageContent) -> Seq<char> {
    match content {
        MessageContent::Text(body) => body@,
        MessageContent::Notice(body) => body@,
        MessageContent::Audio(audio) => match audio.spec_caption() {
            Some(caption) => caption,
            None => Seq::empty(),
        },
        MessageContent::Location(location) => location.description@,
        _ => Seq::empty(),
    }
}

/// The message mentions the room or the bot on purpose, or its text holds the bot's ID.
pub open spec fn mentions_bot(
    mentions: Option<Mentions>,
    bot_user_id: Seq<char>,
    body: Seq<char>,
) -> bool {
    ||| mentions matches Some(mentions) && {
        ||| mentions.room
        ||| exists|i: int|
            0 <= i < mentions.user_ids@.len() && (#[trigger] mentions.user_ids@[i])@ == bot_user_id
    }
    ||| occurs(bot_user_id, body)
}

pub fn inbound_message_kind(content: &MessageContent) -> (res: Option<ChannelMessageKind>)
    ensures
        res == message_kind(*content),
{
    match content {
        MessageContent::Text(_) => Some(ChannelMessageKind::Text),
        MessageContent::Notice(_) => Some(ChannelMessageKind::Text),
        MessageContent::Image => Some(ChannelMessageKind::Photo),
        MessageContent::Audio(audio) => Some(infer_audio_kind(audio)),
        MessageContent::Video => Some(ChannelMessageKind::Video),
        MessageContent::File => Some(ChannelMessageKind::Document),
        MessageContent::Location(_) => Some(ChannelMessageKind::Location),
        MessageContent::Other => None,
    }
}

pub fn inbound_message_body(content: &MessageContent) -> (res: String)
    ensures
        res@ == message_body(*content),
{
    match content {
        MessageContent::Text(body) => body.clone(),
        MessageContent::Notice(body) => body.clone(),
        MessageContent::Audio(audio) => match audio_caption(audio) {
            Some(caption) => caption,
            None => String::new(),
        },
        MessageContent::Location(location) => location.description.clone(),
        _ => String::new(),
    }
}

/// Tells whether a message mentions the bot.
pub fn is_bot_mentioned(message: &RoomMessage, bot_user_id: &str, body: &str) -> (res: bool)
    ensures
        res == mentions_bot(message.mentions, bot_user_id@, body@),
{
    if let Some(mentions) = &message.mentions {
        if mentions.room {
            return true;
        }
        for i in 0..mentions.user_ids.len()
            invariant
                message.mentions == Some(*mentions),
                forall|j: int| 0 <= j < i ==> (#[trigger] mentions.user_ids@[j])@ != bot_user_id@,
        {
            if *mentions.user_ids[i].as_str() == *bot_user_id {
                return true;
            }
        }
    }
    contains(body, bot_user_id)
}

// ---- records for the gateway -----------------------------------------------

/// The channel a record belongs to.
#[derive(Debug, Clone, Copy, PartialEq, Eq, Structural)]
pub enum ChannelType {
    Matrix,
}

/// Where a reply goes.
#[derive(Debug)]
pub struct ChannelReplyTarget {
    pub channel_type: ChannelType,
    pub account_id: String,
    pub chat_id: String,
    /// The message that is answered, where replies point at it.
    pub message_id: Option<String>,
}

/// What the chat is told about a message.
#[derive(Debug)]
pub struct ChannelMessageMeta {
    pub channel_type: ChannelType,
    pub sender_name: Option<String>,
    pub username: Option<String>,
    pub message_kind: Option<ChannelMessageKind>,
    pub model: Option<String>,
    pub audio_filename: Option<String>,
}

/// A line of the message log.
#[derive(Debug)]
pub struct MessageLogEntry {
    pub id: i64,
    pub account_id: String,
    pub channel_type: String,
    pub peer_id: String,
    pub username: Option<String>,
    pub sender_name: Option<String>,
    pub chat_id: String,
    pub chat_type: String,
    pub body: String,
    pub access_granted: bool,
    pub created_at: i64,
}

/// What the gateway is told about the channel.
#[derive(Debug)]
pub enum ChannelEvent {
    InboundMessage {
        channel_type: ChannelType,
        account_id: String,
        peer_id: String,
        username: Option<String>,
        sender_name: Option<String>,
        message_count: Option<i64>,
        access_granted: bool,
    },
    OtpChallenge {
        channel_type: ChannelType,
        account_id: String,
        peer_id: String,
        username: Option<String>,
        sender_name: Option<String>,
        code: String,
        expires_at: i64,
    },
    OtpResolved {
        channel_type: ChannelType,
        account_id: String,
        peer_id: String,
        username: Option<String>,
        resolution: String,
    },
}

/// What a `ChannelReplyTarget` says.
pub struct ReplyTargetModel {
    pub channel_type: ChannelType,
    pub account_id: Seq<char>,
    pub chat_id: Seq<char>,
    pub message_id: Option<Seq<char>>,
}

/// What a `ChannelMessageMeta` says.
pub struct MetaModel {
    pub channel_type: ChannelType,
    pub sender_name: Option<Seq<char>>,
    pub username: Option<Seq<char>>,
    pub message_kind: Option<ChannelMessageKind>,
    pub model: Option<Seq<char>>,
    pub audio_filename: Option<Seq<char>>,
}

/// What a `MessageLogEntry` says.
pub struct LogEntryModel {
    pub id: i64,
    pub account_id: Seq<char>,
    pub channel_type: Seq<char>,
    pub peer_id: Seq<char>,
    pub username: Option<Seq<char>>,
    pub sender_name: Option<Seq<char>>,
    pub chat_id: Seq<char>,
    pub chat_type: Seq<char>,
    pub body: Seq<char>,
    pub access_granted: bool,
    pub created_at: i64,
}

/// What a `ChannelEvent` says.
pub enum EventModel {
    InboundMessage {
        channel_type: ChannelType,
        account_id: Seq<char>,
        peer_id: Seq<char>,
        username: Option<Seq<char>>,
        sender_name: Option<Seq<char>>,
        message_count: Option<i64>,
        access_granted: bool,
    },
    OtpChallenge {
        channel_type: ChannelType,
        account_id: Seq<char>,
        peer_id: Seq<char>,
        username: Option<Seq<char>>,
        sender_name: Option<Seq<char>>,
        code: Seq<char>,
        expires_at: i64,
    },
    OtpResolved {
        channel_type: ChannelType,
        account_id: Seq<char>,
        peer_id: Seq<char>,
        username: Option<Seq<char>>,
        resolution: Seq<char>,
    },
}

impl View for ChannelReplyTarget {
    type V = ReplyTargetModel;

    open spec fn view(&self) -> ReplyTargetModel {
        ReplyTargetModel {
            channel_type: self.channel_type,
            account_id: self.account_id@,
            chat_id: self.chat_id@,
            message_id: opt_view(self.message_id),
        }
    }
}

impl View for ChannelMessageMeta {
    type V = MetaModel;

    open spec fn view(&self) -> MetaModel {
        MetaModel {
            channel_type: self.channel_type,
            sender_name: opt_view(self.sender_name),
            username: opt_view(self.username),
            message_kind: self.message_kind,
            model: opt_view(self.model),
            audio_filename: opt_view(self.audio_filename),
        }
    }
}

impl View for MessageLogEntry {
    type V = LogEntryModel;

    open spec fn view(&self) -> LogEntryModel {
        LogEntryModel {
            id: self.id,
            account_id: self.account_id@,
            channel_type: self.channel_type@,
            peer_id: self.peer_id@,
            username: opt_view(self.username),
            sender_name: opt_view(self.sender_name),
            chat_id: self.chat_id@,
            chat_type: self.chat_type@,
            body: self.body@,
            access_granted: self.access_granted,
            created_at: self.created_at,
        }
    }
}

impl View for ChannelEvent {
    type V = EventModel;

    open spec fn view(&self) -> EventModel {
        match *self {
            ChannelEvent::InboundMessage {
                channel_type,
                account_id,
                peer_id,
                username,
                sender_name,
                message_count,
                access_granted,
            } => EventModel::InboundMessage {
                channel_type,
                account_id: account_id@,
                peer_id: peer_id@,
                username: opt_view(username),
                sender_name: opt_view(sender_name),
                message_count,
                access_granted,
            },
            ChannelEvent::OtpChallenge {
                channel_type,
                account_id,
                peer_id,
                username,
                sender_name,
                code,
                expires_at,
            } => EventModel::OtpChallenge {
                channel_type,
                account_id: account_id@,
                peer_id: peer_id@,
                username: opt_view(username),
                sender_name: opt_view(sender_name),
                code: code@,
                expires_at,
            },
            ChannelEvent::OtpResolved {
                channel_type,
                account_id,
                peer_id,
                username,
                resolution,
            } => EventModel::OtpResolved {
                channel_type,
                account_id: account_id@,
                peer_id: peer_id@,
                username: opt_view(username),
                resolution: resolution@,
            },
        }
    }
}

// ---- laws ------------------------------------------------------------------

/// A message that mentions the bot on purpose, at whatever place among the mentioned users, or
/// the whole room, or whose text holds the bot's ID anywhere, counts as mentioning the bot.
pub proof fn every_mention_counts(
    message: &RoomMessage,
    bot_user_id: &str,
    body: &str,
    place: int,
    before: Seq<char>,
    after: Seq<char>,
    res: bool,
)
    requires
        call_ensures(is_bot_mentioned, (message, bot_user_id, body), res),
    ensures
        message.mentions matches Some(mentions) && 0 <= place < mentions.user_ids@.len()
            && mentions.user_ids@[place]@ == bot_user_id@ ==> res,
        message.mentions matches Some(mentions) && mentions.room ==> res,
        body@ == before + bot_user_id@ + after ==> res,
{
    occurring_is_standing_between(bot_user_id@, body@);
}

/// Nothing else counts: a message that mentions neither the room nor the bot, and whose text does
/// not hold the bot's ID, does not mention the bot.
pub proof fn nothing_else_is_a_mention(
    message: &RoomMessage,
    bot_user_id: &str,
    body: &str,
    res: bool,
)
    requires
        call_ensures(is_bot_mentioned, (message, bot_user_id, body), res),
        message.mentions matches Some(mentions) ==> !mentions.room && forall|i: int|
            0 <= i < mentions.user_ids@.len() ==> (#[trigger] mentions.user_ids@[i])@
                != bot_user_id@,
        forall|before: Seq<char>, after: Seq<char>|
            body@ != #[trigger] (before + bot_user_id@ + after),
    ensures
        !res,
{
    occurring_is_standing_between(bot_user_id@, body@);
}

/// The order in which users are mentioned, and how often, makes no difference.
pub proof fn the_order_of_mentions_does_not_matter(
    message: &RoomMessage,
    other: &RoomMessage,
    bot_user_id: &str,
    body: &str,
    res: bool,
    other_res: bool,
)
    requires
        call_ensures(is_bot_mentioned, (message, bot_user_id, body), res),
        call_ensures(is_bot_mentioned, (other, bot_user_id, body), other_res),
        message.mentions is Some && other.mentions is Some,
        message.mentions->0.room == other.mentions->0.room,
        forall|i: int|
            0 <= i < message.mentions->0.user_ids@.len() ==> exists|j: int|
                0 <= j < other.mentions->0.user_ids@.len() && (
                #[trigger] other.mentions->0.user_ids@[j])@ == (
                #[trigger] message.mentions->0.user_ids@[i])@,
        forall|j: int|
            0 <= j < other.mentions->0.user_ids@.len() ==> exists|i: int|
                0 <= i < message.mentions->0.user_ids@.len() && (
                #[trigger] message.mentions->0.user_ids@[i])@ == (
                #[trigger] other.mentions->0.user_ids@[j])@,
    ensures
        res == other_res,
{
}

/// Texts and notices are text; images, videos, files and locations are what they are; recordings
/// are of the kind that their format gives; nothing else is read.
pub proof fn messages_have_their_kinds(
    content: &MessageContent,
    kind: ChannelMessageKind,
    res: Option<ChannelMessageKind>,
)
    requires
        call_ensures(inbound_message_kind, (content,), res),
    ensures
        match *content {
            MessageContent::Text(_) | MessageContent::Notice(_) => res == Some(
                ChannelMessageKind::Text,
            ),
            MessageContent::Image => res == Some(ChannelMessageKind::Photo),
            MessageContent::Video => res == Some(ChannelMessageKind::Video),
            MessageContent::File => res == Some(ChannelMessageKind::Document),
            MessageContent::Location(_) => res == Some(ChannelMessageKind::Location),
            MessageContent::Audio(audio) => call_ensures(infer_audio_kind, (&audio,), kind)
                ==> res == Some(kind),
            MessageContent::Other => res is None,
        },
{
}

/// The text of a message is what its sender wrote: the text or notice as it stands, the caption of
/// a recording, the description of a location, and nothing for the rest.
pub proof fn messages_have_their_texts(
    content: &MessageContent,
    caption: Option<String>,
    res: String,
)
    requires
        call_ensures(inbound_message_body, (content,), res),
    ensures
        match *content {
            MessageContent::Text(text) => res@ == text@,
            MessageContent::Notice(text) => res@ == text@,
            MessageContent::Location(location) => res@ == location.description@,
            MessageContent::Audio(audio) => call_ensures(audio_caption, (&audio,), caption)
                ==> match caption {
                Some(text) => res@ == text@,
                None => res@.len() == 0,
            },
            _ => res@.len() == 0,
        },
{
}

} // verus!
