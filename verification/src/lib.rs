//! Verified entry-point logic for XRPL-style transfer contracts.
//!
//! A host runtime invokes a contract entry point, which reads typed call
//! parameters, performs at most one value transfer, and returns a signed
//! status code: `0` for success, a fixed sentinel for a malformed required
//! parameter, and the ledger's own negative code for a failed transfer.
//!
//! The decisions of an invocation live here and are verified: which step to
//! take after decoding the parameters, and which status code to return for
//! each transfer outcome. The host calls themselves (parameter fetch,
//! transfer, tracing) are outside work; the tracing calls are made here
//! through trusted wrappers, the rest is driven by the unverified glue that
//! exports the entry points.

pub mod entry;
pub mod host;
pub mod types;
