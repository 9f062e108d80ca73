use moltis::access::{AccessDenied, ChatType};
use moltis::audio::{AudioMessage, ChannelMessageKind};
use moltis::config::{DmPolicy, GroupPolicy, MatrixAccountConfig, MentionMode};
use moltis::location::LocationMessage;
use moltis::message::{
    inbound_message_body, inbound_message_kind, is_bot_mentioned, ChannelEvent, MessageContent,
    Mentions, RoomMessage,
};
use moltis::room::{
    judge_room_message, start_room_message, step_room_message, AccountSnapshot, DeliveryStep,
    RoomAction, RoomEvent, RoomState,
};

const BOT: &str = "@bot:example.org";

fn message(content: MessageContent, mentions: Option<Mentions>) -> RoomMessage {
    RoomMessage {
        account_id: "my-bot".to_string(),
        room_id: "!room:example.org".to_string(),
        event_id: "$1".to_string(),
        sender_id: "@alice:example.org".to_string(),
        content,
        mentions,
    }
}

fn text(body: &str) -> MessageContent {
    MessageContent::Text(body.to_string())
}

fn account(config: MatrixAccountConfig) -> AccountSnapshot {
    AccountSnapshot { config, has_message_log: true, has_event_sink: true }
}

fn listed(id: &str, list: &[String]) -> bool {
    list.iter().any(|entry| entry == id)
}

/// Settings that let every conversation in.
fn open() -> MatrixAccountConfig {
    MatrixAccountConfig {
        dm_policy: DmPolicy::Open,
        room_policy: GroupPolicy::Open,
        mention_mode: MentionMode::Always,
        ..Default::default()
    }
}

/// Runs a message up to where the matcher is asked.
fn judged(message: &RoomMessage, account: AccountSnapshot, direct: Option<bool>) -> RoomState {
    let (state, action) = start_room_message(message, BOT);
    assert!(matches!(action, RoomAction::LookUpAccount));
    let (state, action) =
        step_room_message(message, BOT, state, RoomEvent::Account(Some(account)));
    assert!(matches!(action, RoomAction::AskDirect));
    let (state, action) = step_room_message(message, BOT, state, RoomEvent::Direct(direct));
    assert!(matches!(action, RoomAction::AskMatcher));
    state
}

/// Runs a message to the decision on its access.
fn decided(
    message: &RoomMessage,
    config: MatrixAccountConfig,
    direct: bool,
) -> (RoomState, RoomAction) {
    judge_room_message(message, BOT, judged(message, account(config), Some(direct)), listed)
}

/// Runs a message to its delivery.
fn delivered(
    message: &RoomMessage,
    account: AccountSnapshot,
    direct: Option<bool>,
) -> Vec<DeliveryStep> {
    let state = judged(message, account, direct);
    let (state, action) = judge_room_message(message, BOT, state, listed);
    assert!(matches!(action, RoomAction::LookUpSender));
    let sender = RoomEvent::Sender {
        name: Some("Alice".to_string()),
        model: Some("o3".to_string()),
        now: 77,
    };
    match step_room_message(message, BOT, state, sender) {
        (RoomState::Finished, RoomAction::Deliver(steps)) => steps,
        _ => panic!("expected a delivery"),
    }
}

#[test]
fn bot_mention_detected_from_intentional_mentions() {
    let event = message(
        text("hello"),
        Some(Mentions { room: false, user_ids: vec!["@bot:example.org".to_string()] }),
    );

    assert!(is_bot_mentioned(&event, BOT, "hello"));
}

#[test]
fn bot_mention_detected_from_literal_mxid_fallback() {
    let event = message(text("@bot:example.org hello"), None);

    assert!(is_bot_mentioned(&event, BOT, "@bot:example.org hello"));
}

#[test]
fn room_mention_counts_as_mention() {
    let event =
        message(text("@room hello"), Some(Mentions { room: true, user_ids: Vec::new() }));

    assert!(is_bot_mentioned(&event, BOT, "@room hello"));
}

#[test]
fn other_mentions_do_not_count() {
    let event = message(
        text("hello @bot:example.or"),
        Some(Mentions { room: false, user_ids: vec!["@carol:example.org".to_string()] }),
    );
    assert!(!is_bot_mentioned(&event, BOT, "hello @bot:example.or"));
    assert!(!is_bot_mentioned(&event, BOT, ""));
    assert!(is_bot_mentioned(&event, BOT, "hello @@bot:example.org!"));
}

#[test]
fn kinds_and_bodies_of_messages() {
    let audio = |filename: Option<&str>| {
        MessageContent::Audio(AudioMessage {
            body: " listen ".to_string(),
            filename: filename.map(str::to_string),
            mimetype: Some("audio/mpeg".to_string()),
        })
    };
    let place = MessageContent::Location(LocationMessage {
        description: " here ".to_string(),
        geo_uri: "geo:1,2".to_string(),
    });
    for (content, kind, body) in [
        (text("hi"), Some(ChannelMessageKind::Text), "hi"),
        (MessageContent::Notice("note".to_string()), Some(ChannelMessageKind::Text), "note"),
        (MessageContent::Image, Some(ChannelMessageKind::Photo), ""),
        (audio(Some("a.mp3")), Some(ChannelMessageKind::Audio), "listen"),
        (audio(None), Some(ChannelMessageKind::Audio), ""),
        (MessageContent::Video, Some(ChannelMessageKind::Video), ""),
        (MessageContent::File, Some(ChannelMessageKind::Document), ""),
        (place, Some(ChannelMessageKind::Location), " here "),
        (MessageContent::Other, None, ""),
    ] {
        assert_eq!(inbound_message_kind(&content), kind);
        assert_eq!(inbound_message_body(&content), body);
    }
}

#[test]
fn own_empty_and_unknown_messages_are_ignored() {
    let mut own = message(text("hello"), None);
    own.sender_id = BOT.to_string();
    for ignored in [own, message(text(""), None), message(MessageContent::Other, None)] {
        let (state, action) = start_room_message(&ignored, BOT);
        assert!(matches!(state, RoomState::Finished));
        assert!(matches!(action, RoomAction::Stop));
    }
    let (_, action) = start_room_message(&message(MessageContent::Image, None), BOT);
    assert!(matches!(action, RoomAction::LookUpAccount));
}

#[test]
fn messages_of_an_unknown_account_are_dropped() {
    let hello = message(text("hello"), None);
    let (state, _) = start_room_message(&hello, BOT);
    let (state, action) = step_room_message(&hello, BOT, state, RoomEvent::Account(None));
    assert!(matches!(state, RoomState::Finished));
    assert!(matches!(action, RoomAction::Stop));
}

#[test]
fn rooms_of_unknown_standing_count_as_groups() {
    let hello = message(text("hello"), None);
    let conversation = |direct| match judged(&hello, account(open()), direct) {
        RoomState::Judged { chat_type, .. } => chat_type,
        _ => panic!("expected the matcher to be asked"),
    };
    assert_eq!(conversation(Some(true)), ChatType::Dm);
    assert_eq!(conversation(Some(false)), ChatType::Group);
    assert_eq!(conversation(None), ChatType::Group);
}

#[test]
fn the_policies_of_the_account_let_messages_in() {
    let admitted = |message: &RoomMessage, config: MatrixAccountConfig, direct: bool| {
        match decided(message, config, direct) {
            (RoomState::Admitted { .. }, RoomAction::LookUpSender) => None,
            (RoomState::Finished, RoomAction::Deny(reason)) => Some(reason),
            _ => panic!("unexpected outcome"),
        }
    };
    let hello = message(text("hello"), None);
    let mention = message(text("hello @bot:example.org"), None);
    let base = MatrixAccountConfig::default;
    let alice = || vec!["@alice:example.org".to_string()];
    let room = || vec!["!room:example.org".to_string()];

    assert_eq!(
        admitted(&hello, MatrixAccountConfig { user_allowlist: alice(), ..base() }, true),
        None
    );
    let rooms = || MatrixAccountConfig { room_allowlist: room(), ..base() };
    assert_eq!(admitted(&mention, rooms(), false), None);
    assert_eq!(admitted(&hello, rooms(), false), Some(AccessDenied::NotMentioned));
    assert_eq!(admitted(&mention, base(), false), Some(AccessDenied::RoomNotOnAllowlist));
    // The list of users does not open rooms, nor the list of rooms direct messages.
    let swapped = MatrixAccountConfig {
        user_allowlist: room(),
        room_allowlist: alice(),
        otp_self_approval: false,
        ..base()
    };
    assert_eq!(admitted(&hello, swapped.clone(), true), Some(AccessDenied::NotOnAllowlist));
    assert_eq!(admitted(&mention, swapped, false), Some(AccessDenied::RoomNotOnAllowlist));
    let closed = MatrixAccountConfig { dm_policy: DmPolicy::Disabled, ..base() };
    assert_eq!(admitted(&hello, closed, true), Some(AccessDenied::DmsDisabled));
    let closed = MatrixAccountConfig { room_policy: GroupPolicy::Disabled, ..base() };
    assert_eq!(admitted(&mention, closed, false), Some(AccessDenied::RoomsDisabled));
    let quiet = MatrixAccountConfig { mention_mode: MentionMode::Never, ..rooms() };
    assert_eq!(admitted(&mention, quiet, false), Some(AccessDenied::RoomRepliesOff));
}

#[test]
fn turned_away_dm_senders_may_approve_themselves() {
    let code = message(text("123456"), None);
    let self_approves = |config: MatrixAccountConfig, direct: bool| {
        let (state, action) = decided(&code, config, direct);
        assert!(matches!(state, RoomState::Finished));
        match action {
            RoomAction::SelfApprove { body } => {
                assert_eq!(body, "123456");
                true
            },
            RoomAction::Deny(_) => false,
            _ => panic!("unexpected action"),
        }
    };
    let base = MatrixAccountConfig::default;
    assert!(self_approves(base(), true));
    assert!(!self_approves(base(), false));
    let off = MatrixAccountConfig { otp_self_approval: false, ..base() };
    assert!(!self_approves(off, true));
    let closed = MatrixAccountConfig { dm_policy: DmPolicy::Disabled, ..base() };
    assert!(!self_approves(closed, true));
}

#[test]
fn text_is_acknowledged_logged_announced_and_dispatched() {
    let hello = message(text("hello"), None);
    let mut steps = delivered(&hello, account(open()), Some(true)).into_iter();
    match steps.next() {
        Some(DeliveryStep::React(emoji)) => assert_eq!(emoji, "👀"),
        _ => panic!("expected the reaction"),
    }
    match steps.next() {
        Some(DeliveryStep::Log(entry)) => {
            assert_eq!((entry.id, entry.created_at, entry.access_granted), (0, 77, true));
            assert_eq!((entry.channel_type.as_str(), entry.chat_type.as_str()), ("matrix", "dm"));
            assert_eq!(entry.account_id, "my-bot");
            assert_eq!(entry.peer_id, "@alice:example.org");
            assert_eq!(entry.username.as_deref(), Some("@alice:example.org"));
            assert_eq!(entry.sender_name.as_deref(), Some("Alice"));
            assert_eq!(entry.chat_id, "!room:example.org");
            assert_eq!(entry.body, "hello");
        },
        _ => panic!("expected the log entry"),
    }
    match steps.next() {
        Some(DeliveryStep::Announce(ChannelEvent::InboundMessage {
            account_id,
            peer_id,
            username,
            sender_name,
            message_count,
            access_granted,
            ..
        })) => {
            assert_eq!(account_id, "my-bot");
            assert_eq!(peer_id, "@alice:example.org");
            assert_eq!(username.as_deref(), Some("@alice:example.org"));
            assert_eq!(sender_name.as_deref(), Some("Alice"));
            assert_eq!(message_count, Some(1));
            assert!(access_granted);
        },
        _ => panic!("expected the announcement"),
    }
    match steps.next() {
        Some(DeliveryStep::Dispatch { body, reply_to, meta }) => {
            assert_eq!(body, "hello");
            assert_eq!(reply_to.account_id, "my-bot");
            assert_eq!(reply_to.chat_id, "!room:example.org");
            assert_eq!(reply_to.message_id.as_deref(), Some("$1"));
            assert_eq!(meta.sender_name.as_deref(), Some("Alice"));
            assert_eq!(meta.username.as_deref(), Some("@alice:example.org"));
            assert_eq!(meta.message_kind, Some(ChannelMessageKind::Text));
            assert_eq!(meta.model.as_deref(), Some("o3"));
            assert_eq!(meta.audio_filename, None);
        },
        _ => panic!("expected the chat"),
    }
    assert!(steps.next().is_none());
}

#[test]
fn delivery_leaves_out_what_the_account_lacks() {
    let hello = message(text("hello"), None);
    let config = MatrixAccountConfig { ack_reaction: None, ..open() };
    let bare = AccountSnapshot { config, has_message_log: false, has_event_sink: false };
    assert!(delivered(&hello, bare, Some(false)).is_empty());

    let config = MatrixAccountConfig { reply_to_message: false, ack_reaction: None, ..open() };
    let steps = delivered(&hello, account(config), Some(false));
    assert_eq!(steps.len(), 3);
    match &steps[0] {
        DeliveryStep::Log(entry) => assert_eq!(entry.chat_type, "group"),
        _ => panic!("expected the log entry"),
    }
    assert!(matches!(steps[1], DeliveryStep::Announce(_)));
    match &steps[2] {
        DeliveryStep::Dispatch { reply_to, .. } => assert_eq!(reply_to.message_id, None),
        _ => panic!("expected the chat"),
    }
}

#[test]
fn audio_and_locations_take_their_own_routes() {
    let audio = AudioMessage { body: "a.ogg".to_string(), filename: None, mimetype: None };
    let audio = message(MessageContent::Audio(audio), None);
    match delivered(&audio, account(open()), Some(true)).last() {
        Some(DeliveryStep::Transcribe { meta, .. }) => {
            assert_eq!(meta.message_kind, Some(ChannelMessageKind::Voice));
        },
        _ => panic!("expected the transcription"),
    }
    let place = LocationMessage { description: String::new(), geo_uri: "geo:1,2".to_string() };
    let place = message(MessageContent::Location(place), None);
    let steps = delivered(&place, account(open()), Some(true));
    assert!(matches!(steps.last(), Some(DeliveryStep::Locate { .. })));
}

#[test]
fn finished_messages_do_nothing_more() {
    let hello = message(text("hello"), None);
    for event in [
        RoomEvent::Account(Some(account(open()))),
        RoomEvent::Direct(Some(true)),
        RoomEvent::Matched { sender_allowed: true, room_allowed: true },
        RoomEvent::Sender { name: None, model: None, now: 0 },
    ] {
        let (state, action) = step_room_message(&hello, BOT, RoomState::Finished, event);
        assert!(matches!(state, RoomState::Finished));
        assert!(matches!(action, RoomAction::Stop));
    }
    // Answers of the matcher that were not asked for admit nobody.
    let (state, _) = start_room_message(&hello, BOT);
    let matched = RoomEvent::Matched { sender_allowed: true, room_allowed: true };
    let (state, action) = step_room_message(&hello, BOT, state, matched);
    assert!(matches!(state, RoomState::Finished));
    assert!(matches!(action, RoomAction::Stop));
    let (state, _) = start_room_message(&hello, BOT);
    let (state, action) = judge_room_message(&hello, BOT, state, listed);
    assert!(matches!(state, RoomState::Finished));
    assert!(matches!(action, RoomAction::Stop));
}
