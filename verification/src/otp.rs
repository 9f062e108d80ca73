//! Self-approval with a one-time code: what an unknown sender of a direct message is answered.
//!
//! The codes themselves are kept outside. This module decides when a code is checked, when a new
//! one is asked for, and what is said and reported about the outcome.

use vstd::prelude::*;

use crate::clock::{expires_at, later};
use crate::message::{ChannelEvent, ChannelType, EventModel};
use crate::text::{
    ascii_digit, chars_of, decimal, is_digit, is_white, occurs, to_decimal, trim, trimmed,
    trimming_strips_white_space_only, trimming_takes_the_white_space_off,
};

verus! {

/// What checking a code came to.
#[derive(Debug, Clone, Copy, PartialEq, Eq, Structural)]
pub enum OtpVerifyResult {
    Approved,
    WrongCode { attempts_left: u32 },
    Expired,
    LockedOut,
    /// There was no code to check against.
    NoPending,
}

/// What asking for a code came to.
#[derive(Debug)]
pub enum OtpInitResult {
    Created(String),
    AlreadyPending,
    LockedOut,
}

/// Who wants to be approved, and by which account.
#[derive(Debug, Clone)]
pub struct Applicant {
    pub account_id: String,
    pub sender_id: String,
    /// The account is connected to the gateway.
    pub has_event_sink: bool,
}

/// How far an application has been handled.
#[derive(Debug, Clone, Copy, PartialEq, Eq, Structural)]
pub enum OtpState {
    /// A code is being checked.
    Verifying,
    /// A new code is being asked for.
    Initiating,
    /// Nothing is left to do.
    Finished,
}

/// What came back from outside.
#[derive(Debug)]
pub enum OtpEvent {
    /// The account does not exist any more.
    AccountGone,
    /// A code was checked.
    Verified(OtpVerifyResult),
    /// A code was asked for; with the account's cooldown and the time.
    Initiated { result: OtpInitResult, cooldown_secs: u64, now: i64 },
}

/// What is to be done next.
#[derive(Debug)]
pub enum OtpAction {
    /// Check a code for the sender.
    Verify { code: String },
    /// Ask for a new code for the sender.
    Initiate,
    /// Answer, step by step in the order given.
    Answer(Vec<OtpStep>),
    /// Do nothing more.
    Stop,
}

/// One thing that is done to answer an applicant.
#[derive(Debug)]
pub enum OtpStep {
    /// Send a text to the room.
    Say(String),
    /// Report an event to the gateway.
    Report(ChannelEvent),
}

/// What an `OtpStep` says.
pub enum OtpStepModel {
    Say(Seq<char>),
    Report(EventModel),
}

impl View for OtpStep {
    type V = OtpStepModel;

    open spec fn view(&self) -> OtpStepModel {
        match *self {
            OtpStep::Say(text) => OtpStepModel::Say(text@),
            OtpStep::Report(event) => OtpStepModel::Report(event@),
        }
    }
}

/// What the steps of an answer say, in order.
pub open spec fn otp_step_models(steps: Seq<OtpStep>) -> Seq<OtpStepModel> {
    steps.map_values(|step: OtpStep| step@)
}

/// An answer: a text to the room, and after it the report to the gateway, if there is one.
pub open spec fn answer(text: Seq<char>, report: Option<EventModel>) -> Seq<OtpStepModel> {
    match report {
        Some(event) => seq![OtpStepModel::Say(text), OtpStepModel::Report(event)],
        None => seq![OtpStepModel::Say(text)],
    }
}

/// A text that can be a code: six digits.
pub open spec fn is_code(text: Seq<char>) -> bool {
    text.len() == 6 && forall|i: int| 0 <= i < text.len() ==> is_digit(#[trigger] text[i])
}

/// How an application starts out: with a code to check if the message is one, else with asking
/// for a new code.
pub open spec fn otp_starts(body: Seq<char>, state: OtpState, action: OtpAction) -> bool {
    if is_code(trimmed(body)) {
        &&& state == OtpState::Verifying
        &&& action matches OtpAction::Verify { code } && code@ == trimmed(body)
    } else {
        &&& state == OtpState::Initiating
        &&& action is Initiate
    }
}

/// What a sender is told about a code that was checked.
pub open spec fn verify_text(result: OtpVerifyResult) -> Seq<char> {
    match result {
        OtpVerifyResult::Approved => "Access granted."@,
        OtpVerifyResult::WrongCode { attempts_left } => "Invalid code. "@ + decimal(
            attempts_left as nat,
        ) + " attempts remaining."@,
        OtpVerifyResult::Expired => "Code expired. Send any message for a new one."@,
        OtpVerifyResult::LockedOut => "Too many attempts. Please wait."@,
        OtpVerifyResult::NoPending => Seq::empty(),
    }
}

/// What a sender is told about a code that was asked for. The code itself is not part of it: the
/// owner of the bot sees it in the report and hands it over by other means.
pub open spec fn initiate_text(result: OtpInitResult) -> Seq<char> {
    match result {
        OtpInitResult::Created(_) => {
            "You're not on the allowlist. A verification code has been generated.\nAsk the admin for the code and enter it here."@
        },
        OtpInitResult::AlreadyPending => "A verification code is already pending."@,
        OtpInitResult::LockedOut => "Too many failed attempts. Please wait."@,
    }
}

/// What the gateway is told of a sender who was approved.
pub open spec fn approval_report(applicant: Applicant) -> EventModel {
    EventModel::OtpResolved {
        channel_type: ChannelType::Matrix,
        account_id: applicant.account_id@,
        peer_id: applicant.sender_id@,
        username: Some(applicant.sender_id@),
        resolution: "approved"@,
    }
}

/// What the gateway is told of a new code.
pub open spec fn challenge_report(applicant: Applicant, code: Seq<char>, expiry: int) -> EventModel {
    EventModel::OtpChallenge {
        channel_type: ChannelType::Matrix,
        account_id: applicant.account_id@,
        peer_id: applicant.sender_id@,
        username: Some(applicant.sender_id@),
        sender_name: Some(applicant.sender_id@),
        code,
        expires_at: expiry as i64,
    }
}

/// What the gateway is told of a code that was checked.
pub open spec fn verify_report(applicant: Applicant, result: OtpVerifyResult) -> Option<EventModel> {
    if result == OtpVerifyResult::Approved && applicant.has_event_sink {
        Some(approval_report(applicant))
    } else {
        None
    }
}

/// What the gateway is told of a code that was asked for.
pub open spec fn initiate_report(
    applicant: Applicant,
    result: OtpInitResult,
    cooldown_secs: u64,
    now: i64,
) -> Option<EventModel> {
    match result {
        OtpInitResult::Created(code) => if applicant.has_event_sink {
            Some(challenge_report(applicant, code@, later(now, cooldown_secs)))
        } else {
            None
        },
        _ => None,
    }
}

/// The state an event leads to.
pub open spec fn next_otp_state(before: OtpState, event: OtpEvent) -> OtpState {
    if before == OtpState::Verifying && event == OtpEvent::Verified(OtpVerifyResult::NoPending) {
        OtpState::Initiating
    } else {
        OtpState::Finished
    }
}

/// What an event leads to being done.
pub open spec fn otp_action_follows(
    applicant: Applicant,
    before: OtpState,
    event: OtpEvent,
    action: OtpAction,
) -> bool {
    match (before, event) {
        (OtpState::Verifying, OtpEvent::Verified(result)) => if result
            == OtpVerifyResult::NoPending {
            action is Initiate
        } else {
            action matches OtpAction::Answer(steps) && otp_step_models(steps@) == answer(
                verify_text(result),
                verify_report(applicant, result),
            )
        },
        (OtpState::Initiating, OtpEvent::Initiated { result, cooldown_secs, now }) => {
            action matches OtpAction::Answer(steps) && otp_step_models(steps@) == answer(
                initiate_text(result),
                initiate_report(applicant, result, cooldown_secs, now),
            )
        },
        _ => action is Stop,
    }
}

fn looks_like_code(text: &str) -> (res: bool)
    ensures
        res == is_code(text@),
{
    let chars = chars_of(text);
    if chars.len() != 6 {
        return false;
    }
    for i in 0..chars.len()
        invariant
            chars@ == text@,
            forall|j: int| 0 <= j < i ==> is_digit(#[trigger] text@[j]),
    {
        if !ascii_digit(chars[i]) {
            return false;
        }
    }
    true
}

/// Starts handling a message from a sender who is not approved.
pub fn start_otp(body: &str) -> (res: (OtpState, OtpAction))
    ensures
        otp_starts(body@, res.0, res.1),
{
    let text = trim(body);
    if looks_like_code(text) {
        (OtpState::Verifying, OtpAction::Verify { code: text.to_owned() })
    } else {
        (OtpState::Initiating, OtpAction::Initiate)
    }
}

fn said(text: String) -> (steps: Vec<OtpStep>)
    ensures
        otp_step_models(steps@) == answer(text@, None),
        steps@.len() == 1,
        steps@[0]@ == OtpStepModel::Say(text@),
{
    let mut steps: Vec<OtpStep> = Vec::new();
    steps.push(OtpStep::Say(text));
    steps
}

fn after_verifying(applicant: &Applicant, result: OtpVerifyResult) -> (action: OtpAction)
    ensures
        otp_action_follows(*applicant, OtpState::Verifying, OtpEvent::Verified(result), action),
{
    match result {
        OtpVerifyResult::Approved => {
            let mut steps = said("Access granted.".to_owned());
            if applicant.has_event_sink {
                steps.push(
                    OtpStep::Report(
                        ChannelEvent::OtpResolved {
                            channel_type: ChannelType::Matrix,
                            account_id: applicant.account_id.clone(),
                            peer_id: applicant.sender_id.clone(),
                            username: Some(applicant.sender_id.clone()),
                            resolution: "approved".to_owned(),
                        },
                    ),
                );
                assert(otp_step_models(steps@) =~= answer(
                    "Access granted."@,
                    Some(approval_report(*applicant)),
                ));
            }
            OtpAction::Answer(steps)
        },
        OtpVerifyResult::WrongCode { attempts_left } => {
            let count = to_decimal(attempts_left);
            let text = "Invalid code. ".to_owned().concat(count.as_str()).concat(
                " attempts remaining.",
            );
            OtpAction::Answer(said(text))
        },
        OtpVerifyResult::Expired => OtpAction::Answer(
            said("Code expired. Send any message for a new one.".to_owned()),
        ),
        OtpVerifyResult::LockedOut => OtpAction::Answer(
            said("Too many attempts. Please wait.".to_owned()),
        ),
        OtpVerifyResult::NoPending => OtpAction::Initiate,
    }
}

fn after_initiating(
    applicant: &Applicant,
    result: OtpInitResult,
    cooldown_secs: u64,
    now: i64,
) -> (action: OtpAction)
    ensures
        otp_action_follows(
            *applicant,
            OtpState::Initiating,
            (OtpEvent::Initiated { result, cooldown_secs, now }),
            action,
        ),
{
    match result {
        OtpInitResult::Created(code) => {
            let text =
                "You're not on the allowlist. A verification code has been generated.\nAsk the admin for the code and enter it here.".to_owned();
            let ghost told = text@;
            let ghost made = code@;
            let mut steps = said(text);
            if applicant.has_event_sink {
                steps.push(
                    OtpStep::Report(
                        ChannelEvent::OtpChallenge {
                            channel_type: ChannelType::Matrix,
                            account_id: applicant.account_id.clone(),
                            peer_id: applicant.sender_id.clone(),
                            username: Some(applicant.sender_id.clone()),
                            sender_name: Some(applicant.sender_id.clone()),
                            code,
                            expires_at: expires_at(now, cooldown_secs),
                        },
                    ),
                );
                assert(otp_step_models(steps@) =~= answer(
                    told,
                    Some(challenge_report(*applicant, made, later(now, cooldown_secs))),
                ));
            }
            OtpAction::Answer(steps)
        },
        OtpInitResult::AlreadyPending => OtpAction::Answer(
            said("A verification code is already pending.".to_owned()),
        ),
        OtpInitResult::LockedOut => OtpAction::Answer(
            said("Too many failed attempts. Please wait.".to_owned()),
        ),
    }
}

/// Moves an application on.
pub fn step_otp(applicant: &Applicant, state: OtpState, event: OtpEvent) -> (res: (
    OtpState,
    OtpAction,
))
    ensures
        res.0 == next_otp_state(state, event),
        otp_action_follows(*applicant, state, event, res.1),
{
    match (state, event) {
        (OtpState::Verifying, OtpEvent::Verified(result)) => {
            let action = after_verifying(applicant, result);
            match result {
                OtpVerifyResult::NoPending => (OtpState::Initiating, action),
                _ => (OtpState::Finished, action),
            }
        },
        (OtpState::Initiating, OtpEvent::Initiated { result, cooldown_secs, now }) => {
            (OtpState::Finished, after_initiating(applicant, result, cooldown_secs, now))
        },
        _ => (OtpState::Finished, OtpAction::Stop),
    }
}

// ---- laws ------------------------------------------------------------------

/// A code is checked exactly when the message is one, surrounding white space aside; every other
/// message asks for a new code.
pub proof fn only_six_digits_are_checked(body: Seq<char>, state: OtpState, action: OtpAction)
    requires
        otp_starts(body, state, action),
    ensures
        action is Verify <==> is_code(trimmed(body)),
        action is Initiate <==> !is_code(trimmed(body)),
{
}

/// A sender is reported as approved only when a code was checked and found right.
pub proof fn approval_needs_the_right_code(
    applicant: Applicant,
    before: OtpState,
    event: OtpEvent,
    action: OtpAction,
    told: EventModel,
)
    requires
        otp_action_follows(applicant, before, event, action),
        action matches OtpAction::Answer(steps) && otp_step_models(steps@).contains(
            OtpStepModel::Report(told),
        ),
        told is OtpResolved,
    ensures
        before == OtpState::Verifying,
        event == OtpEvent::Verified(OtpVerifyResult::Approved),
{
}

/// Every answer says one text to the sender first; what is reported to the gateway comes after it.
pub proof fn senders_are_answered_before_the_gateway(
    applicant: Applicant,
    before: OtpState,
    event: OtpEvent,
    action: OtpAction,
)
    requires
        otp_action_follows(applicant, before, event, action),
    ensures
        action matches OtpAction::Answer(steps) ==> {
            let told = otp_step_models(steps@);
            &&& 1 <= told.len() <= 2
            &&& forall|i: int| 0 <= i < told.len() ==> (#[trigger] told[i] is Say <==> i == 0)
        },
{
}

/// A sender is not told the code that was made for them: it stands nowhere in the reply.
pub proof fn codes_are_not_told_to_the_sender(
    applicant: Applicant,
    code: String,
    cooldown_secs: u64,
    now: i64,
    action: OtpAction,
)
    requires
        is_code(code@),
        otp_action_follows(
            applicant,
            OtpState::Initiating,
            (OtpEvent::Initiated { result: OtpInitResult::Created(code), cooldown_secs, now }),
            action,
        ),
    ensures
        action matches OtpAction::Answer(steps) && forall|i: int|
            0 <= i < steps@.len() ==> (#[trigger] otp_step_models(steps@)[i] matches
                OtpStepModel::Say(text) ==> !occurs(code@, text)),
{
    reveal_strlit(
        "You're not on the allowlist. A verification code has been generated.\nAsk the admin for the code and enter it here.",
    );
    let told = initiate_text(OtpInitResult::Created(code));
    assert forall|k: int| 0 <= k < told.len() implies !is_digit(#[trigger] told[k]) by {}
    assert forall|i: int| 0 <= i <= told.len() - code@.len() implies #[trigger] told.subrange(
        i,
        i + code@.len(),
    ) != code@ by {
        assert(told.subrange(i, i + code@.len())[0] == told[i]);
        assert(is_digit(code@[0]));
    }
    if let OtpAction::Answer(steps) = action {
        let models = otp_step_models(steps@);
        assert(models.len() == steps@.len());
        assert(models[0] == OtpStepModel::Say(told));
        assert(forall|i: int| 0 < i < models.len() ==> #[trigger] models[i] is Report);
    }
}

/// Whatever code was made, the reply is the same; the code leaves in the report alone.
pub proof fn replies_do_not_depend_on_the_code(
    applicant: Applicant,
    code: String,
    other: String,
    cooldown_secs: u64,
    now: i64,
    action: OtpAction,
    other_action: OtpAction,
)
    requires
        otp_action_follows(
            applicant,
            OtpState::Initiating,
            (OtpEvent::Initiated { result: OtpInitResult::Created(code), cooldown_secs, now }),
            action,
        ),
        otp_action_follows(
            applicant,
            OtpState::Initiating,
            (OtpEvent::Initiated { result: OtpInitResult::Created(other), cooldown_secs, now }),
            other_action,
        ),
    ensures
        action matches OtpAction::Answer(steps) && {
            &&& other_action matches OtpAction::Answer(other_steps) && otp_step_models(
                other_steps@,
            )[0] == otp_step_models(steps@)[0]
            &&& otp_step_models(steps@)[0] is Say
            &&& otp_step_models(steps@).skip(1) == if applicant.has_event_sink {
                seq![
                    OtpStepModel::Report(
                        challenge_report(applicant, code@, later(now, cooldown_secs)),
                    ),
                ]
            } else {
                Seq::empty()
            }
        },
{
}

/// Where no code was pending a new one is asked for; every other outcome of a check ends the
/// application with an answer.
pub proof fn a_check_ends_in_an_answer_or_a_new_code(
    applicant: Applicant,
    result: OtpVerifyResult,
    action: OtpAction,
)
    requires
        otp_action_follows(applicant, OtpState::Verifying, OtpEvent::Verified(result), action),
    ensures
        result == OtpVerifyResult::NoPending <==> action is Initiate,
        result != OtpVerifyResult::NoPending <==> action is Answer,
        next_otp_state(OtpState::Verifying, OtpEvent::Verified(result)) == (if result
            == OtpVerifyResult::NoPending {
            OtpState::Initiating
        } else {
            OtpState::Finished
        }),
{
}

/// The state after a number of events.
pub open spec fn otp_run(start: OtpState, events: Seq<OtpEvent>) -> OtpState
    decreases events.len(),
{
    if events.len() == 0 {
        start
    } else {
        next_otp_state(otp_run(start, events.drop_last()), events.last())
    }
}

/// Every application is finished after at most two answers, whatever they are.
pub proof fn applications_finish_after_two_answers(start: OtpState, events: Seq<OtpEvent>)
    requires
        events.len() >= 2,
    ensures
        otp_run(start, events) == OtpState::Finished,
    decreases events.len(),
{
    if events.len() > 2 {
        applications_finish_after_two_answers(start, events.drop_last());
    } else {
        let first = events.drop_last();
        assert(otp_run(start, first) == next_otp_state(
            otp_run(start, first.drop_last()),
            first.last(),
        ));
    }
}

/// A message of six digits, with or without white space around them, is checked as the code it
/// is, whatever the digits are.
pub proof fn six_digits_are_checked_as_they_stand(
    body: &str,
    before: Seq<char>,
    code: Seq<char>,
    after: Seq<char>,
    res: (OtpState, OtpAction),
)
    requires
        call_ensures(start_otp, (body,), res),
        body@ == before + code + after,
        forall|i: int| 0 <= i < before.len() ==> is_white(#[trigger] before[i]),
        forall|i: int| 0 <= i < after.len() ==> is_white(#[trigger] after[i]),
        code.len() == 6,
        forall|i: int| 0 <= i < 6 ==> '0' <= #[trigger] code[i] <= '9',
    ensures
        res.0 == OtpState::Verifying,
        res.1 matches OtpAction::Verify { code: checked } && checked@ == code,
{
    trimming_takes_the_white_space_off(before, code, after);
}

/// Nothing but six digits, with white space around them at most, is checked; any other message
/// asks for a new code.
pub proof fn nothing_but_six_digits_is_checked(body: &str, res: (OtpState, OtpAction))
    requires
        call_ensures(start_otp, (body,), res),
    ensures
        res.1 matches OtpAction::Verify { code } ==> {
            &&& res.0 == OtpState::Verifying
            &&& code@.len() == 6
            &&& forall|i: int| 0 <= i < 6 ==> '0' <= #[trigger] code@[i] <= '9'
            &&& exists|i: int, j: int|
                {
                    &&& 0 <= i <= j <= body@.len()
                    &&& #[trigger] body@.subrange(i, j) == code@
                    &&& forall|k: int|
                        0 <= k < i || j <= k < body@.len() ==> is_white(#[trigger] body@[k])
                }
        },
        res.1 !is Verify ==> res.0 == OtpState::Initiating && res.1 is Initiate,
{
    trimming_strips_white_space_only(body@);
}

/// What an answer says first, and the report behind it, if there is one.
pub open spec fn answers_with(action: OtpAction, text: Seq<char>, has_report: bool) -> bool {
    action matches OtpAction::Answer(steps) && {
        &&& steps@.len() == if has_report {
            2int
        } else {
            1int
        }
        &&& steps@[0] matches OtpStep::Say(said) && said@ == text
        &&& has_report ==> steps@[1] is Report
    }
}

/// A sender is told what became of the code they sent. Where it was right, and there is a gateway,
/// the gateway is told that this sender is approved for this account.
pub proof fn checked_codes_are_answered(
    applicant: &Applicant,
    result: OtpVerifyResult,
    res: (OtpState, OtpAction),
)
    requires
        call_ensures(
            step_otp,
            (applicant, OtpState::Verifying, OtpEvent::Verified(result)),
            res,
        ),
    ensures
        match result {
            OtpVerifyResult::Approved => {
                &&& res.0 == OtpState::Finished
                &&& answers_with(res.1, "Access granted."@, applicant.has_event_sink)
            },
            OtpVerifyResult::WrongCode { attempts_left } => {
                &&& res.0 == OtpState::Finished
                &&& answers_with(
                    res.1,
                    "Invalid code. "@ + decimal(attempts_left as nat) + " attempts remaining."@,
                    false,
                )
            },
            OtpVerifyResult::Expired => {
                &&& res.0 == OtpState::Finished
                &&& answers_with(
                    res.1,
                    "Code expired. Send any message for a new one."@,
                    false,
                )
            },
            OtpVerifyResult::LockedOut => {
                &&& res.0 == OtpState::Finished
                &&& answers_with(res.1, "Too many attempts. Please wait."@, false)
            },
            OtpVerifyResult::NoPending => {
                &&& res.0 == OtpState::Initiating
                &&& res.1 is Initiate
            },
        },
        result == OtpVerifyResult::Approved && applicant.has_event_sink ==> (
        res.1 matches OtpAction::Answer(steps) && (steps@[1] matches OtpStep::Report(event) && (
        event matches ChannelEvent::OtpResolved {
            channel_type,
            account_id,
            peer_id,
            username,
            resolution,
        } && {
            &&& channel_type == ChannelType::Matrix
            &&& account_id@ == applicant.account_id@
            &&& peer_id@ == applicant.sender_id@
            &&& username matches Some(name) && name@ == applicant.sender_id@
            &&& resolution@ == "approved"@
        }))),
{
    if let OtpAction::Answer(steps) = res.1 {
        lemma_step_models(steps@);
    }
}

proof fn lemma_step_models(steps: Seq<OtpStep>)
    ensures
        otp_step_models(steps).len() == steps.len(),
        forall|i: int|
            0 <= i < steps.len() ==> (#[trigger] steps[i])@ == otp_step_models(steps)[i],
{
}

/// A sender is told whether a code was made. Where one was, and there is a gateway, the gateway is
/// told the code, for whom it is, and that it expires when the cooldown is over.
pub proof fn new_codes_are_answered(
    applicant: &Applicant,
    result: OtpInitResult,
    cooldown_secs: u64,
    now: i64,
    expiry: i64,
    res: (OtpState, OtpAction),
)
    requires
        call_ensures(expires_at, (now, cooldown_secs), expiry),
        call_ensures(
            step_otp,
            (
                applicant,
                OtpState::Initiating,
                (OtpEvent::Initiated { result, cooldown_secs, now }),
            ),
            res,
        ),
    ensures
        res.0 == OtpState::Finished,
        match result {
            OtpInitResult::Created(_) => answers_with(
                res.1,
                "You're not on the allowlist. A verification code has been generated.\nAsk the admin for the code and enter it here."@,
                applicant.has_event_sink,
            ),
            OtpInitResult::AlreadyPending => answers_with(
                res.1,
                "A verification code is already pending."@,
                false,
            ),
            OtpInitResult::LockedOut => answers_with(
                res.1,
                "Too many failed attempts. Please wait."@,
                false,
            ),
        },
        result matches OtpInitResult::Created(made) ==> applicant.has_event_sink ==> (
        res.1 matches OtpAction::Answer(steps) && (steps@[1] matches OtpStep::Report(event) && (
        event matches ChannelEvent::OtpChallenge {
            channel_type,
            account_id,
            peer_id,
            username,
            sender_name,
            code,
            expires_at,
        } && {
            &&& channel_type == ChannelType::Matrix
            &&& account_id@ == applicant.account_id@
            &&& peer_id@ == applicant.sender_id@
            &&& username matches Some(name) && name@ == applicant.sender_id@
            &&& sender_name matches Some(name) && name@ == applicant.sender_id@
            &&& code@ == made@
            &&& expires_at == expiry
            &&& cooldown_secs <= i64::MAX && now + cooldown_secs <= i64::MAX ==> expires_at == now
                + cooldown_secs
            &&& now >= 0 && now + cooldown_secs > i64::MAX ==> expires_at == i64::MAX
        }))),
{
    if let OtpAction::Answer(steps) = res.1 {
        lemma_step_models(steps@);
    }
}

/// An answer that was not waited for, and an account that is gone, end the application with
/// nothing done.
pub proof fn unexpected_answers_end_an_application(
    applicant: &Applicant,
    state: OtpState,
    event: OtpEvent,
    res: (OtpState, OtpAction),
)
    requires
        call_ensures(step_otp, (applicant, state, event), res),
        state == OtpState::Verifying ==> event !is Verified,
        state == OtpState::Initiating ==> event !is Initiated,
    ensures
        res.0 == OtpState::Finished,
        res.1 is Stop,
{
}

} // verus!
