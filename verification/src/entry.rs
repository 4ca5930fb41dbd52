//! The decisions of one entry-point invocation.
//!
//! An invocation runs in two phases. First, the decoded call parameters fix
//! a [`Step`]: either reject at once with a status code, or perform one
//! transfer with the decoded amount and destination. Second, the transfer
//! service's return code fixes the final status: a negative code is handed
//! back unchanged, anything else means success.
//!
//! Both phases are verified here against the spec functions
//! [`step_of_required`], [`transfer_status`] and [`invocation_status`]. The
//! unverified glue that exports an entry point only fetches the parameters,
//! performs the transfer a [`Step`] names, and returns the status computed
//! here. Trace lines are written along the way through wrappers that promise
//! nothing, so every contract below holds whatever tracing did.

use vstd::prelude::*;

use crate::host::trace_message;
use crate::host::trace_number;
use crate::types::AccountId;
use crate::types::HostError;

verus! {

/// The status code of a successful invocation.
pub const SUCCESS: i32 = 0;

/// The sentinel status code returned when a required call parameter is
/// missing or malformed.
pub const BAD_PARAM: i32 = -1;

/// What an invocation does after its parameters are decoded: finish at once
/// with a status, or perform exactly one transfer.
pub enum Step<A> {
    /// Return this status to the host; no transfer is attempted.
    Reject { status: i32 },
    /// Transfer `amount` to `destination`, then settle on the service's
    /// return code.
    Transfer { amount: A, destination: AccountId },
}

/// How many transfers a step prescribes.
pub open spec fn transfer_count<A>(s: Step<A>) -> int {
    match s {
        Step::Reject { .. } => 0,
        Step::Transfer { .. } => 1,
    }
}

/// The step an invocation takes when it needs `amount` and got `param` for
/// it: reject with [`BAD_PARAM`] if the parameter failed to decode, else
/// transfer the decoded amount to `destination`.
pub open spec fn step_of_required<A>(param: Result<A, HostError>, destination: AccountId) -> Step<A> {
    match param {
        Ok(amount) => Step::Transfer { amount, destination },
        Err(_) => Step::Reject { status: BAD_PARAM },
    }
}

/// The final status once a transfer was attempted: a negative service code
/// is handed back unchanged, any other code means success.
pub open spec fn transfer_status(tx_code: i32) -> i32 {
    if tx_code < 0 {
        tx_code
    } else {
        SUCCESS
    }
}

/// The status of a whole invocation that needs one amount parameter, given
/// the decode outcome and the code the transfer service would return.
pub open spec fn invocation_status<A>(param: Result<A, HostError>, tx_code: i32) -> i32 {
    match param {
        Ok(_) => transfer_status(tx_code),
        Err(_) => BAD_PARAM,
    }
}

/// Decides the step of an invocation that requires an amount parameter,
/// tracing the host's error code under `label` when the parameter failed to
/// decode.
pub fn require_amount<A>(param: Result<A, HostError>, destination: AccountId, label: &str) -> (s: Step<A>)
    ensures
        s == step_of_required(param, destination),
{
    match param {
        Ok(amount) => Step::Transfer { amount, destination },
        Err(err) => {
            trace_number(label, err.code);
            Step::Reject { status: BAD_PARAM }
        },
    }
}

/// Settles an invocation on the transfer service's return code, tracing a
/// negative code under `label` before handing it back unchanged.
pub fn settle_transfer(label: &str, tx_code: i32) -> (r: i32)
    ensures
        r == transfer_status(tx_code),
{
    if tx_code < 0 {
        trace_number(label, tx_code as i64);
        return tx_code;
    }
    SUCCESS
}

/// Traces `message` and `error_code`, and returns `error_code` unchanged.
pub fn exit(message: &str, error_code: i32) -> (r: i32)
    ensures
        r == error_code,
{
    trace_message(message);
    trace_number("Error Code:", error_code as i64);
    error_code
}

/// Settles an invocation whose entry point reports both outcomes through
/// [`exit`]: a negative service code is traced and handed back unchanged,
/// any other code means success.
pub fn settle_transfer_reported(tx_code: i32) -> (r: i32)
    ensures
        r == transfer_status(tx_code),
{
    if tx_code < 0 {
        trace_number("AMOUNT Transfer Error Code:", tx_code as i64);
        return exit("Transfer failed", tx_code);
    }
    exit("Redirect successful", SUCCESS)
}

/// When the required parameter decodes and the transfer service succeeds
/// (returns a non-negative code), the invocation returns [`SUCCESS`].
pub proof fn lemma_success_returns_zero<A>(param: Result<A, HostError>, tx_code: i32)
    requires
        param is Ok,
        tx_code >= 0,
    ensures
        invocation_status(param, tx_code) == SUCCESS,
{
}

/// When the required parameter fails to decode, the invocation returns
/// [`BAD_PARAM`] and its step prescribes no transfer, whatever the transfer
/// service would have returned.
pub proof fn lemma_bad_param_rejects<A>(param: Result<A, HostError>, destination: AccountId, tx_code: i32)
    requires
        param is Err,
    ensures
        invocation_status(param, tx_code) == BAD_PARAM,
        transfer_count(step_of_required(param, destination)) == 0,
{
}

/// When the transfer service returns a negative code, the invocation
/// returns that exact code unchanged.
pub proof fn lemma_failure_code_forwarded<A>(param: Result<A, HostError>, tx_code: i32)
    requires
        param is Ok,
        tx_code < 0,
    ensures
        invocation_status(param, tx_code) == tx_code,
{
}

/// Every step prescribes at most one transfer: an invocation whose glue
/// performs exactly what its step names never transfers twice.
pub proof fn lemma_at_most_one_transfer<A>(s: Step<A>)
    ensures
        0 <= transfer_count(s) <= 1,
{
}

/// Running the two phases in order yields the invocation's status: a
/// rejecting step already carries it, and a transferring step leaves it to
/// the settlement of the service's code.
pub proof fn lemma_phases_compose<A>(param: Result<A, HostError>, destination: AccountId, tx_code: i32)
    ensures
        match step_of_required(param, destination) {
            Step::Reject { status } => status == invocation_status(param, tx_code),
            Step::Transfer { .. } => transfer_status(tx_code) == invocation_status(param, tx_code),
        },
{
}

} // verus!
