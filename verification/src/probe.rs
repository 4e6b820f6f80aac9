//! What a single probe can come back with, and the status text it earns.

use vstd::prelude::*;
use crate::status::{code_digits, is_success_code, status_line, HttpStatus};

verus! {

/// Seconds a probe may take, connection and response headers together,
/// before it is abandoned and counted as timed out.
pub const PROBE_TIMEOUT_SECS: u64 = 5;

/// How one bounded HTTP GET ended.
#[derive(Debug, PartialEq, Eq)]
pub enum ProbeOutcome {
    /// A response arrived in time, with this status code.
    Responded(HttpStatus),
    /// The request failed before the deadline; the text describes the failure.
    Failed(String),
    /// Neither a response nor a failure arrived before the deadline.
    TimedOut,
}

/// The mathematical content of a [`ProbeOutcome`].
pub enum OutcomeModel {
    Responded(int),
    Failed(Seq<char>),
    TimedOut,
}

impl View for ProbeOutcome {
    type V = OutcomeModel;

    open spec fn view(&self) -> OutcomeModel {
        match *self {
            ProbeOutcome::Responded(status) => OutcomeModel::Responded(status@),
            ProbeOutcome::Failed(description) => OutcomeModel::Failed(description@),
            ProbeOutcome::TimedOut => OutcomeModel::TimedOut,
        }
    }
}

impl DeepView for ProbeOutcome {
    type V = OutcomeModel;

    open spec fn deep_view(&self) -> OutcomeModel {
        self@
    }
}

impl OutcomeModel {
    /// Whether the outcome is a response with a success code.
    pub open spec fn is_success(self) -> bool {
        self matches OutcomeModel::Responded(code) && is_success_code(code)
    }
}

/// The status of a check whose service answered with a success code.
pub open spec fn healthy_text() -> Seq<char> {
    "healthy"@
}

/// The status of a check that ran into the deadline.
pub open spec fn timeout_text() -> Seq<char> {
    "timeout"@
}

/// The status of a check whose service answered outside the success range
/// with the status line `line`.
pub open spec fn unhealthy_text(line: Seq<char>) -> Seq<char> {
    "unhealthy: "@ + line
}

/// The status of a check whose request failed, as `description` tells.
pub open spec fn error_text(description: Seq<char>) -> Seq<char> {
    "error: "@ + description
}

/// The forms that the status of a check can take.
pub open spec fn is_check_status(status: Seq<char>) -> bool {
    ||| status == healthy_text()
    ||| status == timeout_text()
    ||| exists|line: Seq<char>| status == #[trigger] unhealthy_text(line)
    ||| exists|description: Seq<char>| status == #[trigger] error_text(description)
}

/// The status that an outcome earns; the first rule that matches decides.
pub open spec fn status_of(outcome: OutcomeModel) -> Seq<char> {
    match outcome {
        OutcomeModel::Responded(code) => if is_success_code(code) {
            healthy_text()
        } else {
            unhealthy_text(status_line(code))
        },
        OutcomeModel::Failed(description) => error_text(description),
        OutcomeModel::TimedOut => timeout_text(),
    }
}

/// The status for a response outside the success range, given the status
/// line of the response.
pub fn unhealthy_status(line: &str) -> (status: String)
    ensures
        status@ == unhealthy_text(line@),
{
    let mut status = String::from_str("unhealthy: ");
    status.append(line);
    status
}

/// The status for a request that failed with the given description.
pub fn error_status(description: &str) -> (status: String)
    ensures
        status@ == error_text(description@),
{
    let mut status = String::from_str("error: ");
    status.append(description);
    status
}

/// Turns the outcome of a probe into the status of the check.
pub fn classify(outcome: &ProbeOutcome) -> (status: String)
    ensures
        status@ == status_of(outcome@),
        is_check_status(status@),
        status@ == healthy_text() <==> outcome@.is_success(),
{
    proof {
        status_is_well_formed(outcome@);
        healthy_only_on_success(outcome@);
    }
    match outcome {
        ProbeOutcome::Responded(code) => {
            if code.is_success() {
                String::from_str("healthy")
            } else {
                unhealthy_status(code.describe().as_str())
            }
        },
        ProbeOutcome::Failed(description) => error_status(description.as_str()),
        ProbeOutcome::TimedOut => String::from_str("timeout"),
    }
}

/// Every outcome earns a status of one of the four forms.
pub proof fn status_is_well_formed(outcome: OutcomeModel)
    ensures
        is_check_status(status_of(outcome)),
{
}

/// A check is healthy exactly when a response with a success code arrived
/// in time: no other response, no failure and no timeout reads `healthy`.
pub proof fn healthy_only_on_success(outcome: OutcomeModel)
    ensures
        status_of(outcome) == healthy_text() <==> outcome.is_success(),
{
    reveal_strlit("healthy");
    reveal_strlit("timeout");
    reveal_strlit("unhealthy: ");
    reveal_strlit("error: ");
    let status = status_of(outcome);
    if !outcome.is_success() {
        assert(status[0] != 'h');
        assert(healthy_text()[0] == 'h');
    }
}

/// The status for a response outside the success range begins with
/// `unhealthy: ` and the three digits of the status code.
pub proof fn unhealthy_status_shows_code(code: int)
    requires
        !is_success_code(code),
    ensures
        ("unhealthy: "@ + code_digits(code)).is_prefix_of(
            status_of(OutcomeModel::Responded(code)),
        ),
{
    let status = status_of(OutcomeModel::Responded(code));
    let head = "unhealthy: "@ + code_digits(code);
    assert(status.subrange(0, head.len() as int) =~= head);
}

/// The status for a failed request begins with `error: `, whatever the
/// description.
pub proof fn failed_status_starts_with_error(description: Seq<char>)
    ensures
        "error: "@.is_prefix_of(status_of(OutcomeModel::Failed(description))),
{
    let status = status_of(OutcomeModel::Failed(description));
    assert(status.subrange(0, "error: "@.len() as int) =~= "error: "@);
}

} // verus!
