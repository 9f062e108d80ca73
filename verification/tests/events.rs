use moltis::config::{GroupPolicy, MatrixAccountConfig};
use moltis::events::{accepts_invite, first_selection, poll_interaction, PollAccount};

fn listed(id: &str, list: &[String]) -> bool {
    list.iter().any(|entry| entry == id)
}

fn poll_account(has_event_sink: bool) -> Option<PollAccount> {
    Some(PollAccount { bot_user_id: "@bot:example.org".to_string(), has_event_sink })
}

#[test]
fn first_selection_returns_the_first_callback_choice() {
    let selections = vec!["agent_switch:2".to_string(), "agent_switch:3".to_string()];

    assert_eq!(first_selection(&selections), Some("agent_switch:2".to_string()));
    assert_eq!(first_selection(&[]), None);
}

#[test]
fn a_chosen_answer_is_passed_on() {
    let chosen = first_selection(&["agent_switch:2".to_string()]);
    let interaction = poll_interaction(
        chosen,
        poll_account(true),
        "my-bot",
        "!room:example.org",
        "@alice:example.org",
    )
    .unwrap_or_else(|| panic!("nothing passed on"));
    assert_eq!(interaction.callback_data, "agent_switch:2");
    assert_eq!(interaction.reply_to.account_id, "my-bot");
    assert_eq!(interaction.reply_to.chat_id, "!room:example.org");
    assert_eq!(interaction.reply_to.message_id, None);
}

#[test]
fn poll_responses_are_dropped_without_choice_account_or_gateway() {
    let chosen = || Some("agent_switch:2".to_string());
    let pass = |chosen, account, sender| {
        poll_interaction(chosen, account, "my-bot", "!room:example.org", sender).is_some()
    };
    assert!(pass(chosen(), poll_account(true), "@alice:example.org"));
    assert!(!pass(None, poll_account(true), "@alice:example.org"));
    assert!(!pass(chosen(), None, "@alice:example.org"));
    assert!(!pass(chosen(), poll_account(false), "@alice:example.org"));
    assert!(!pass(chosen(), poll_account(true), "@bot:example.org"));
}

#[test]
fn invites_are_accepted_for_the_bot_alone() {
    let config = MatrixAccountConfig { room_policy: GroupPolicy::Open, ..Default::default() };
    let accepted = |invited, config| {
        accepts_invite(
            invited,
            "@bot:example.org",
            config,
            "@alice:example.org",
            "!ops:example.org",
            listed,
        )
    };
    assert!(accepted("@bot:example.org", Some(&config)));
    assert!(!accepted("@carol:example.org", Some(&config)));
    assert!(!accepted("@bot:example.org", None));
    let closed = MatrixAccountConfig::default();
    assert!(!accepted("@bot:example.org", Some(&closed)));
}
