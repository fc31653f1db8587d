//! How one item's pipeline ended.

use vstd::prelude::*;

verus! {

/// Why an item failed.
#[derive(Clone, Copy, Debug, PartialEq, Eq, Structural)]
pub enum FailureReason {
    /// The resolver could not turn the item into a target; the download never started.
    Resolution,
    /// Fetching the resource or reading its body failed on every attempt.
    Network,
    /// Writing or renaming the file failed on every attempt.
    Io,
    /// The pipeline itself did not run to its end.
    Crash,
}

impl FailureReason {
    /// Failures of the network and of the file system are retried with backoff
    /// before they become final; the others are final at once.
    pub open spec fn retryable(self) -> bool {
        self is Network || self is Io
    }

    /// Whether failures of this kind are retried before they become final.
    pub fn is_retryable(self) -> (yes: bool)
        ensures
            yes == self.retryable(),
    {
        match self {
            FailureReason::Network => true,
            FailureReason::Io => true,
            FailureReason::Resolution => false,
            FailureReason::Crash => false,
        }
    }
}

/// The terminal result of one item.
#[derive(Clone, Copy, Debug, PartialEq, Eq, Structural)]
pub enum Outcome {
    Success,
    Failure { reason: FailureReason, retryable: bool },
}

impl Outcome {
    /// The failure with the given reason, as a spec value.
    pub open spec fn failed(reason: FailureReason) -> Outcome {
        Outcome::Failure { reason, retryable: reason.retryable() }
    }

    /// A failure carries the retry class of its reason.
    pub open spec fn wf(self) -> bool {
        self matches Outcome::Failure { reason, retryable } ==> retryable == reason.retryable()
    }

    /// The failure with the given reason.
    pub fn failure(reason: FailureReason) -> (outcome: Outcome)
        ensures
            outcome == Outcome::failed(reason),
            outcome.wf(),
    {
        Outcome::Failure { reason, retryable: reason.is_retryable() }
    }

    /// Whether the item was downloaded.
    pub fn is_success(&self) -> (yes: bool)
        ensures
            yes == (*self is Success),
    {
        match self {
            Outcome::Success => true,
            Outcome::Failure { .. } => false,
        }
    }

    /// Whether the item failed.
    pub fn is_failure(&self) -> (yes: bool)
        ensures
            yes == (*self is Failure),
    {
        !self.is_success()
    }
}

} // verus!
