//! Trusted wrappers around the host's trace log.
//!
//! Tracing is best effort: the host may refuse a trace line, and the entry
//! points ignore that outcome. The wrappers therefore discard the host's
//! result and promise nothing, so everything proved of their callers holds
//! whatever the trace calls did.

use vstd::prelude::*;

verus! {

/// Relies on xrpl_wasm_stdlib::host::trace::trace: writes a message to the
/// host's trace log, best effort; the result is discarded.
#[verifier::external_body]
pub(crate) fn trace_message(msg: &str) {
    let _ = xrpl_wasm_stdlib::host::trace::trace(msg);
}

/// Relies on xrpl_wasm_stdlib::host::trace::trace: writes a message and a
/// number to the host's trace log, best effort; the result is discarded.
#[verifier::external_body]
pub(crate) fn trace_number(msg: &str, number: i64) {
    let _ = xrpl_wasm_stdlib::host::trace::trace(&format!("{} {}", msg, number));
}

} // verus!
