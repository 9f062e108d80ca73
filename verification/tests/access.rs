use moltis::access::{
    access_decision, auto_join_decision, check_access, should_auto_join_invite, AccessDenied,
    ChatType,
};
use moltis::config::{AutoJoinPolicy, DmPolicy, GroupPolicy, MatrixAccountConfig, MentionMode};

fn listed(id: &str, list: &[String]) -> bool {
    list.iter().any(|entry| entry == id)
}

fn open_to_all(_id: &str, _list: &[String]) -> bool {
    true
}

#[test]
fn auto_join_policy_always_joins_invites() {
    let cfg = MatrixAccountConfig {
        auto_join: AutoJoinPolicy::Always,
        room_policy: GroupPolicy::Open,
        ..Default::default()
    };

    assert!(should_auto_join_invite(&cfg, "@alice:example.org", "!ops:example.org", listed));
}

#[test]
fn auto_join_policy_off_ignores_invites() {
    let cfg = MatrixAccountConfig {
        auto_join: AutoJoinPolicy::Off,
        room_policy: GroupPolicy::Open,
        ..Default::default()
    };

    assert!(!should_auto_join_invite(&cfg, "@alice:example.org", "!ops:example.org", listed));
}

#[test]
fn auto_join_allowlist_uses_existing_user_and_room_allowlists() {
    let cfg = MatrixAccountConfig {
        auto_join: AutoJoinPolicy::Allowlist,
        room_policy: GroupPolicy::Open,
        user_allowlist: vec!["@alice:example.org".into()],
        room_allowlist: vec!["!ops:example.org".into()],
        ..Default::default()
    };

    assert!(should_auto_join_invite(&cfg, "@alice:example.org", "!other:example.org", listed));
    assert!(should_auto_join_invite(&cfg, "@bob:example.org", "!ops:example.org", listed));
    assert!(!should_auto_join_invite(&cfg, "@mallory:example.org", "!other:example.org", listed));
}

#[test]
fn auto_join_never_bypasses_room_allowlist() {
    let cfg = MatrixAccountConfig {
        auto_join: AutoJoinPolicy::Always,
        room_policy: GroupPolicy::Allowlist,
        room_allowlist: vec!["!ops:example.org".into()],
        user_allowlist: vec!["@alice:example.org".into()],
        ..Default::default()
    };

    assert!(should_auto_join_invite(&cfg, "@mallory:example.org", "!ops:example.org", listed));
    assert!(!should_auto_join_invite(&cfg, "@alice:example.org", "!private:example.org", listed));
}

#[test]
fn auto_join_respects_disabled_room_policy() {
    let cfg = MatrixAccountConfig {
        auto_join: AutoJoinPolicy::Always,
        room_policy: GroupPolicy::Disabled,
        ..Default::default()
    };

    assert!(!should_auto_join_invite(&cfg, "@alice:example.org", "!ops:example.org", listed));
}

#[test]
fn empty_lists_admit_no_one_even_through_a_lenient_matcher() {
    let cfg = MatrixAccountConfig { auto_join: AutoJoinPolicy::Allowlist, ..Default::default() };
    assert!(!should_auto_join_invite(&cfg, "@alice:example.org", "!ops:example.org", open_to_all));
    let open_rooms = MatrixAccountConfig { room_policy: GroupPolicy::Open, ..cfg.clone() };
    assert!(!should_auto_join_invite(
        &open_rooms,
        "@alice:example.org",
        "!ops:example.org",
        open_to_all
    ));
    assert_eq!(
        check_access(&cfg, ChatType::Dm, "@alice:example.org", "!ops:example.org", true, open_to_all),
        Err(AccessDenied::NotOnAllowlist)
    );
    assert_eq!(
        check_access(
            &cfg,
            ChatType::Group,
            "@alice:example.org",
            "!ops:example.org",
            true,
            open_to_all
        ),
        Err(AccessDenied::RoomNotOnAllowlist)
    );
}

#[test]
fn dm_policy_decides_on_direct_messages() {
    let mut cfg = MatrixAccountConfig {
        user_allowlist: vec!["@alice:example.org".into()],
        ..Default::default()
    };
    let check = |cfg: &MatrixAccountConfig, sender: &str| {
        check_access(cfg, ChatType::Dm, sender, "!dm:example.org", false, listed)
    };
    assert_eq!(check(&cfg, "@alice:example.org"), Ok(()));
    assert_eq!(check(&cfg, "@bob:example.org"), Err(AccessDenied::NotOnAllowlist));
    cfg.dm_policy = DmPolicy::Open;
    assert_eq!(check(&cfg, "@bob:example.org"), Ok(()));
    cfg.dm_policy = DmPolicy::Disabled;
    assert_eq!(check(&cfg, "@alice:example.org"), Err(AccessDenied::DmsDisabled));
}

#[test]
fn room_policy_and_mention_mode_decide_on_rooms() {
    let mut cfg = MatrixAccountConfig {
        room_allowlist: vec!["!ops:example.org".into()],
        ..Default::default()
    };
    let check = |cfg: &MatrixAccountConfig, room: &str, mentioned: bool| {
        check_access(cfg, ChatType::Group, "@alice:example.org", room, mentioned, listed)
    };
    assert_eq!(check(&cfg, "!ops:example.org", true), Ok(()));
    assert_eq!(check(&cfg, "!ops:example.org", false), Err(AccessDenied::NotMentioned));
    assert_eq!(check(&cfg, "!other:example.org", true), Err(AccessDenied::RoomNotOnAllowlist));
    cfg.mention_mode = MentionMode::Always;
    assert_eq!(check(&cfg, "!ops:example.org", false), Ok(()));
    cfg.mention_mode = MentionMode::Never;
    assert_eq!(check(&cfg, "!ops:example.org", true), Err(AccessDenied::RoomRepliesOff));
    cfg.room_policy = GroupPolicy::Disabled;
    assert_eq!(check(&cfg, "!ops:example.org", true), Err(AccessDenied::RoomsDisabled));
    cfg.room_policy = GroupPolicy::Open;
    cfg.mention_mode = MentionMode::Mention;
    assert_eq!(check(&cfg, "!other:example.org", true), Ok(()));
}

#[test]
fn decisions_follow_the_given_answers() {
    let cfg = MatrixAccountConfig {
        auto_join: AutoJoinPolicy::Allowlist,
        room_policy: GroupPolicy::Open,
        user_allowlist: vec!["@alice:example.org".into()],
        room_allowlist: vec!["!ops:example.org".into()],
        ..Default::default()
    };
    assert!(auto_join_decision(&cfg, true, false));
    assert!(auto_join_decision(&cfg, false, true));
    assert!(!auto_join_decision(&cfg, false, false));
    assert_eq!(access_decision(&cfg, ChatType::Dm, true, false, false), Ok(()));
    assert_eq!(
        access_decision(&cfg, ChatType::Dm, false, true, true),
        Err(AccessDenied::NotOnAllowlist)
    );
}

#[test]
fn joined_rooms_are_answered_when_the_bot_is_mentioned() {
    let cfg = MatrixAccountConfig {
        auto_join: AutoJoinPolicy::Always,
        room_allowlist: vec!["!ops:example.org".into()],
        ..Default::default()
    };
    assert!(auto_join_decision(&cfg, false, true));
    assert_eq!(access_decision(&cfg, ChatType::Group, false, true, true), Ok(()));
}

#[test]
fn documented_defaults() {
    let cfg = MatrixAccountConfig::default();
    assert_eq!(cfg.dm_policy, DmPolicy::Allowlist);
    assert_eq!(cfg.room_policy, GroupPolicy::Allowlist);
    assert_eq!(cfg.mention_mode, MentionMode::Mention);
    assert_eq!(cfg.auto_join, AutoJoinPolicy::Always);
    assert!(cfg.room_allowlist.is_empty() && cfg.user_allowlist.is_empty());
    assert!(cfg.reply_to_message && cfg.otp_self_approval);
    assert_eq!(cfg.ack_reaction.as_deref(), Some("👀"));
    assert_eq!(cfg.otp_cooldown_secs, 300);
}
