//! The failure taxonomy of the pipeline. Every variant is transient and
//! retryable: the orchestrator logs it, backs off, and waits for the next
//! trigger. A fatal failure of the watch subsystem itself is not represented
//! here — it terminates the surrounding process and never reaches the
//! orchestrator.

use vstd::prelude::*;

verus! {

/// A transient failure of one of the two external services.
#[derive(Clone, Copy, PartialEq, Eq, Structural, Debug)]
pub enum Fault {
    /// The content store could not be reached at all.
    StoreUnavailable,
    /// The content store ran but failed, or its output held no identifier.
    StoreError,
    /// The naming service could not be reached at all.
    PublishUnavailable,
    /// The naming service ran but reported failure.
    PublishError,
}

} // verus!
