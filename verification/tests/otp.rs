use moltis::message::{ChannelEvent, ChannelType};
use moltis::otp::{
    start_otp, step_otp, Applicant, OtpAction, OtpEvent, OtpInitResult, OtpState, OtpStep,
    OtpVerifyResult,
};

fn applicant(has_event_sink: bool) -> Applicant {
    Applicant {
        account_id: "my-bot".to_string(),
        sender_id: "@eve:example.org".to_string(),
        has_event_sink,
    }
}

fn checked(result: OtpVerifyResult) -> (OtpState, OtpAction) {
    step_otp(&applicant(true), OtpState::Verifying, OtpEvent::Verified(result))
}

/// The text that is said first, and the report that follows it, if there is one.
fn reply(action: OtpAction) -> (String, Option<ChannelEvent>) {
    let mut steps = match action {
        OtpAction::Answer(steps) => steps.into_iter(),
        other => panic!("expected an answer, got {other:?}"),
    };
    let text = match steps.next() {
        Some(OtpStep::Say(text)) => text,
        other => panic!("expected a text, got {other:?}"),
    };
    let report = match steps.next() {
        Some(OtpStep::Report(event)) => Some(event),
        None => None,
        other => panic!("expected a report, got {other:?}"),
    };
    assert!(steps.next().is_none());
    (text, report)
}

#[test]
fn six_digits_are_checked_and_all_else_asks_for_a_code() {
    match start_otp(" 012345\n") {
        (OtpState::Verifying, OtpAction::Verify { code }) => assert_eq!(code, "012345"),
        other => panic!("{other:?}"),
    }
    for body in ["", "hello", "12345", "1234567", "12345a", "１２３４５６", "123 456"] {
        match start_otp(body) {
            (OtpState::Initiating, OtpAction::Initiate) => {},
            other => panic!("{body}: {other:?}"),
        }
    }
}

#[test]
fn a_right_code_is_confirmed_and_reported() {
    let (state, action) = checked(OtpVerifyResult::Approved);
    assert_eq!(state, OtpState::Finished);
    let (text, report) = reply(action);
    assert_eq!(text, "Access granted.");
    match report {
        Some(ChannelEvent::OtpResolved {
            channel_type,
            account_id,
            peer_id,
            username,
            resolution,
        }) => {
            assert_eq!(channel_type, ChannelType::Matrix);
            assert_eq!(account_id, "my-bot");
            assert_eq!(peer_id, "@eve:example.org");
            assert_eq!(username.as_deref(), Some("@eve:example.org"));
            assert_eq!(resolution, "approved");
        },
        other => panic!("{other:?}"),
    }
    let (_, action) = step_otp(
        &applicant(false),
        OtpState::Verifying,
        OtpEvent::Verified(OtpVerifyResult::Approved),
    );
    let (text, report) = reply(action);
    assert_eq!(text, "Access granted.");
    assert!(report.is_none());
}

#[test]
fn failed_checks_are_answered_without_a_report() {
    for (result, expected) in [
        (OtpVerifyResult::WrongCode { attempts_left: 2 }, "Invalid code. 2 attempts remaining."),
        (OtpVerifyResult::WrongCode { attempts_left: 0 }, "Invalid code. 0 attempts remaining."),
        (
            OtpVerifyResult::WrongCode { attempts_left: u32::MAX },
            "Invalid code. 4294967295 attempts remaining.",
        ),
        (OtpVerifyResult::Expired, "Code expired. Send any message for a new one."),
        (OtpVerifyResult::LockedOut, "Too many attempts. Please wait."),
    ] {
        let (state, action) = checked(result);
        assert_eq!(state, OtpState::Finished);
        let (text, report) = reply(action);
        assert_eq!(text, expected);
        assert!(report.is_none());
    }
}

#[test]
fn without_a_pending_code_a_new_one_is_asked_for() {
    match checked(OtpVerifyResult::NoPending) {
        (OtpState::Initiating, OtpAction::Initiate) => {},
        other => panic!("{other:?}"),
    }
}

#[test]
fn new_codes_are_told_to_the_gateway_alone() {
    let event = |result| OtpEvent::Initiated { result, cooldown_secs: 300, now: 1000 };
    let created = || OtpInitResult::Created("654321".to_string());
    let (state, action) = step_otp(&applicant(true), OtpState::Initiating, event(created()));
    assert_eq!(state, OtpState::Finished);
    let (text, report) = reply(action);
    assert_eq!(
        text,
        "You're not on the allowlist. A verification code has been generated.\n\
         Ask the admin for the code and enter it here."
    );
    assert!(!text.contains("654321"));
    match report {
        Some(ChannelEvent::OtpChallenge {
            account_id,
            peer_id,
            username,
            sender_name,
            code,
            expires_at,
            ..
        }) => {
            assert_eq!(account_id, "my-bot");
            assert_eq!(peer_id, "@eve:example.org");
            assert_eq!(username.as_deref(), Some("@eve:example.org"));
            assert_eq!(sender_name.as_deref(), Some("@eve:example.org"));
            assert_eq!(code, "654321");
            assert_eq!(expires_at, 1300);
        },
        other => panic!("{other:?}"),
    }
    let other = OtpInitResult::Created("000111".to_string());
    let (_, action) = step_otp(&applicant(false), OtpState::Initiating, event(other));
    let (same_text, report) = reply(action);
    assert_eq!(same_text, text);
    assert!(report.is_none());

    let (_, action) =
        step_otp(&applicant(true), OtpState::Initiating, event(OtpInitResult::AlreadyPending));
    assert_eq!(reply(action).0, "A verification code is already pending.");
    let (_, action) =
        step_otp(&applicant(true), OtpState::Initiating, event(OtpInitResult::LockedOut));
    assert_eq!(reply(action).0, "Too many failed attempts. Please wait.");
}

#[test]
fn applications_end_when_the_account_is_gone() {
    for state in [OtpState::Verifying, OtpState::Initiating, OtpState::Finished] {
        match step_otp(&applicant(true), state, OtpEvent::AccountGone) {
            (OtpState::Finished, OtpAction::Stop) => {},
            other => panic!("{other:?}"),
        }
    }
}
