//! The download of one item, as a machine that is told what happened and says
//! what to do next.
//!
//! The caller performs each [`Action`] (a request, a write, a rename, a sleep)
//! and reports its result as an [`Event`]. The machine owns the decisions: how
//! many attempts are made, how long to wait between them, when the temporary
//! file is registered and when it is released, and how the download ends.

use crate::backoff::{backoff_delay, backoff_seconds, lemma_backoff_delay_fits};
use crate::naming::{lemma_names_are_classified, ResolvedTarget};
use crate::outcome::{FailureReason, Outcome};
use crate::registry::TempFileRegistry;
use crate::resolver::ResolutionError;
use vstd::prelude::*;

verus! {

/// Retries that follow the first attempt unless the caller asks for another number.
pub const DEFAULT_RETRY_LIMIT: usize = 3;

/// The largest retry limit for which every backoff delay fits in a `u64` of seconds.
pub const MAX_RETRY_LIMIT: usize = 64;

/// Where a download stands.
#[derive(Clone, Copy, Debug, PartialEq, Eq, Structural)]
pub enum Phase {
    /// Nothing has been asked for yet.
    Ready,
    /// The request for the resource is out.
    Fetching,
    /// The response has come; its body is being read into memory.
    ReadingBody,
    /// The temporary file is registered and is being written.
    Writing,
    /// The temporary file is complete and is being renamed to the final name.
    Renaming,
    /// Writing or renaming failed; what is left of the temporary file is being removed.
    Discarding,
    /// An attempt has failed and the next one waits for its backoff to pass.
    Waiting,
    /// The download is over.
    Finished(Outcome),
}

/// What the caller reports back.
#[derive(Clone, Copy, Debug, PartialEq, Eq, Structural)]
pub enum Event {
    Started,
    FetchSucceeded,
    FetchFailed,
    BodyRead,
    BodyFailed,
    Written,
    WriteFailed,
    Renamed,
    RenameFailed,
    Discarded,
    BackoffElapsed,
}

/// What the caller is to do next.
#[derive(Clone, Copy, Debug, PartialEq, Eq, Structural)]
pub enum Action {
    /// Request the resource at the download's locator: the start of an attempt.
    Fetch,
    /// Read the whole body of the response.
    ReadBody,
    /// Create or truncate the temporary file and copy the body into it.
    Write,
    /// Rename the temporary file to the final name, in one step.
    Rename,
    /// Remove the temporary file if it is there, and report `Discarded` whatever came of it.
    Discard,
    /// Wait this long, then report `BackoffElapsed`.
    Sleep { seconds: u64 },
    /// Nothing more: the download has ended with this outcome.
    Finish(Outcome),
}

/// The part of a download that the decisions depend on.
pub struct Progress {
    /// How many retries may follow the first attempt.
    pub limit: nat,
    /// Index of the current attempt, from zero.
    pub attempt: nat,
    pub phase: Phase,
}

impl Progress {
    /// A download that has not started.
    pub open spec fn initial(limit: nat) -> Progress {
        Progress { limit, attempt: 0, phase: Phase::Ready }
    }

    /// The attempts stay within the budget, a wait is followed by another attempt,
    /// and a failure is final only when the budget is used up.
    pub open spec fn wf(self) -> bool {
        &&& self.limit <= MAX_RETRY_LIMIT
        &&& self.attempt <= self.limit
        &&& self.phase is Ready ==> self.attempt == 0
        &&& self.phase is Waiting ==> self.attempt < self.limit
        &&& self.phase matches Phase::Finished(outcome) ==> {
            &&& outcome.wf()
            &&& outcome matches Outcome::Failure { reason, .. } ==> {
                &&& self.attempt == self.limit
                &&& reason is Network || reason is Io
            }
        }
    }

    /// Where the download stands once the current attempt has failed for `reason`:
    /// waiting for another attempt if one is left, finished otherwise.
    pub open spec fn after_failure(self, reason: FailureReason) -> (Progress, Action) {
        if self.attempt < self.limit {
            (
                Progress { phase: Phase::Waiting, ..self },
                Action::Sleep { seconds: backoff_delay(self.attempt) as u64 },
            )
        } else {
            (
                Progress { phase: Phase::Finished(Outcome::failed(reason)), ..self },
                Action::Finish(Outcome::failed(reason)),
            )
        }
    }

    /// The transition relation: what `event` leads to from here, or `None` where
    /// `event` is not an answer to what the download is waiting for.
    pub open spec fn next(self, event: Event) -> Option<(Progress, Action)> {
        match (self.phase, event) {
            (Phase::Ready, Event::Started) => Some(
                (Progress { phase: Phase::Fetching, ..self }, Action::Fetch),
            ),
            (Phase::Fetching, Event::FetchSucceeded) => Some(
                (Progress { phase: Phase::ReadingBody, ..self }, Action::ReadBody),
            ),
            (Phase::Fetching, Event::FetchFailed) => Some(
                self.after_failure(FailureReason::Network),
            ),
            (Phase::ReadingBody, Event::BodyRead) => Some(
                (Progress { phase: Phase::Writing, ..self }, Action::Write),
            ),
            (Phase::ReadingBody, Event::BodyFailed) => Some(
                self.after_failure(FailureReason::Network),
            ),
            (Phase::Writing, Event::Written) => Some(
                (Progress { phase: Phase::Renaming, ..self }, Action::Rename),
            ),
            (Phase::Writing, Event::WriteFailed) => Some(
                (Progress { phase: Phase::Discarding, ..self }, Action::Discard),
            ),
            (Phase::Renaming, Event::Renamed) => Some(
                (
                    Progress { phase: Phase::Finished(Outcome::Success), ..self },
                    Action::Finish(Outcome::Success),
                ),
            ),
            (Phase::Renaming, Event::RenameFailed) => Some(
                (Progress { phase: Phase::Discarding, ..self }, Action::Discard),
            ),
            (Phase::Discarding, Event::Discarded) => Some(self.after_failure(FailureReason::Io)),
            (Phase::Waiting, Event::BackoffElapsed) => Some(
                (
                    Progress { attempt: self.attempt + 1, phase: Phase::Fetching, ..self },
                    Action::Fetch,
                ),
            ),
            _ => None,
        }
    }
}

/// What a step does to the registry: the temporary path goes in when the body has
/// been read, before anything is written, and comes out when the file has been
/// renamed. Nothing else touches it, so after a final failure the path is still
/// there for the sweep at the end of the batch.
pub open spec fn registry_after(
    registry: Set<Seq<char>>,
    temp_path: Seq<char>,
    phase: Phase,
    event: Event,
) -> Set<Seq<char>> {
    if phase is ReadingBody && event is BodyRead {
        registry.insert(temp_path)
    } else if phase is Renaming && event is Renamed {
        registry.remove(temp_path)
    } else {
        registry
    }
}

/// A download as contracts see it.
pub struct DownloadView {
    pub locator: Seq<char>,
    pub final_path: Seq<char>,
    pub temp_path: Seq<char>,
    pub progress: Progress,
}

/// The download of one resolved target.
pub struct Download {
    target: ResolvedTarget,
    final_path: String,
    temp_path: String,
    retry_limit: usize,
    attempt: usize,
    phase: Phase,
}

impl View for Download {
    type V = DownloadView;

    closed spec fn view(&self) -> DownloadView {
        DownloadView {
            locator: self.target.source_locator@,
            final_path: self.final_path@,
            temp_path: self.temp_path@,
            progress: Progress {
                limit: self.retry_limit as nat,
                attempt: self.attempt as nat,
                phase: self.phase,
            },
        }
    }
}

impl Download {
    /// The paths are those of the target and the progress is well-formed.
    pub closed spec fn wf(&self) -> bool {
        &&& self.final_path@ == self.target.final_name()
        &&& self.temp_path@ == self.target.temp_name()
        &&& self@.progress.wf()
    }

    /// A download of `target` that has not started, with `retry_limit` retries
    /// after the first attempt.
    pub fn new(target: ResolvedTarget, retry_limit: usize) -> (download: Download)
        requires
            retry_limit <= MAX_RETRY_LIMIT,
        ensures
            download.wf(),
            download@.locator == target.source_locator@,
            download@.final_path == target.final_name(),
            download@.temp_path == target.temp_name(),
            download@.progress == Progress::initial(retry_limit as nat),
    {
        let final_path = target.final_file_name();
        let temp_path = target.temp_file_name();
        Download { target, final_path, temp_path, retry_limit, attempt: 0, phase: Phase::Ready }
    }

    /// What follows the resolving of an item. An item that was resolved gets a
    /// download that has not started; one that was not is over at once, as a
    /// failure of the resolution that is not retried, and no download is made.
    pub fn begin(resolved: Result<ResolvedTarget, ResolutionError>, retry_limit: usize) -> (begun:
        Result<Download, Outcome>)
        requires
            retry_limit <= MAX_RETRY_LIMIT,
        ensures
            match resolved {
                Ok(target) => {
                    &&& begun matches Ok(download)
                    &&& download.wf()
                    &&& download@.locator == target.source_locator@
                    &&& download@.final_path == target.final_name()
                    &&& download@.temp_path == target.temp_name()
                    &&& download@.progress == Progress::initial(retry_limit as nat)
                },
                Err(_) => begun matches Err(outcome) && outcome == Outcome::failed(
                    FailureReason::Resolution,
                ),
            },
    {
        match resolved {
            Ok(target) => Ok(Download::new(target, retry_limit)),
            Err(_) => Err(Outcome::failure(FailureReason::Resolution)),
        }
    }

    /// Where to fetch the resource from.
    pub fn locator(&self) -> (locator: &str)
        ensures
            locator@ == self@.locator,
    {
        self.target.source_locator.as_str()
    }

    /// The name that the finished download is stored under.
    pub fn final_path(&self) -> (path: &str)
        ensures
            path@ == self@.final_path,
    {
        self.final_path.as_str()
    }

    /// The name that the download is written under.
    pub fn temp_path(&self) -> (path: &str)
        ensures
            path@ == self@.temp_path,
    {
        self.temp_path.as_str()
    }

    /// Index of the current attempt, from zero.
    pub fn attempt(&self) -> (attempt: usize)
        ensures
            attempt == self@.progress.attempt,
    {
        self.attempt
    }

    /// How many retries may follow the first attempt.
    pub fn retry_limit(&self) -> (limit: usize)
        ensures
            limit == self@.progress.limit,
    {
        self.retry_limit
    }

    /// Where the download stands.
    pub fn phase(&self) -> (phase: Phase)
        ensures
            phase == self@.progress.phase,
    {
        self.phase
    }

    /// How the download ended, once it has.
    pub fn outcome(&self) -> (outcome: Option<Outcome>)
        ensures
            match self@.progress.phase {
                Phase::Finished(o) => outcome == Some(o),
                _ => outcome is None,
            },
    {
        match self.phase {
            Phase::Finished(o) => Some(o),
            _ => None,
        }
    }

    /// Ends the current attempt as failed for `reason`.
    fn fail(&mut self, reason: FailureReason) -> (action: Action)
        requires
            old(self).wf(),
            reason is Network || reason is Io,
        ensures
            final(self).wf(),
            (final(self)@.progress, action) == old(self)@.progress.after_failure(reason),
            final(self)@.locator == old(self)@.locator,
            final(self)@.final_path == old(self)@.final_path,
            final(self)@.temp_path == old(self)@.temp_path,
    {
        if self.attempt < self.retry_limit {
            proof {
                lemma_backoff_delay_fits(self.attempt as nat);
            }
            let seconds = backoff_seconds(self.attempt);
            self.phase = Phase::Waiting;
            Action::Sleep { seconds }
        } else {
            let outcome = Outcome::failure(reason);
            self.phase = Phase::Finished(outcome);
            Action::Finish(outcome)
        }
    }

    /// Takes in what happened and says what to do next.
    ///
    /// An event that does not answer what the download is waiting for is refused:
    /// the result is `None` and nothing changes. Otherwise the download moves as
    /// [`Progress::next`] says, and the registry gains the temporary path when
    /// the body has been read and loses it when the file has been renamed.
    pub fn step(&mut self, event: Event, registry: &mut TempFileRegistry) -> (action: Option<Action>)
        requires
            old(self).wf(),
            old(registry).wf(),
        ensures
            final(self).wf(),
            final(registry).wf(),
            final(self)@.locator == old(self)@.locator,
            final(self)@.final_path == old(self)@.final_path,
            final(self)@.temp_path == old(self)@.temp_path,
            match old(self)@.progress.next(event) {
                Some((progress, act)) => action == Some(act) && final(self)@.progress == progress,
                None => action is None && final(self)@.progress == old(self)@.progress,
            },
            final(registry)@ == registry_after(
                old(registry)@,
                old(self)@.temp_path,
                old(self)@.progress.phase,
                event,
            ),
    {
        match (self.phase, event) {
            (Phase::Ready, Event::Started) => {
                self.phase = Phase::Fetching;
                Some(Action::Fetch)
            },
            (Phase::Fetching, Event::FetchSucceeded) => {
                self.phase = Phase::ReadingBody;
                Some(Action::ReadBody)
            },
            (Phase::Fetching, Event::FetchFailed) => Some(self.fail(FailureReason::Network)),
            (Phase::ReadingBody, Event::BodyRead) => {
                proof {
                    lemma_names_are_classified(self.target.display_name@, self.target.owner@);
                }
                let accepted = registry.register(self.temp_path.as_str());
                assert(accepted);
                self.phase = Phase::Writing;
                Some(Action::Write)
            },
            (Phase::ReadingBody, Event::BodyFailed) => Some(self.fail(FailureReason::Network)),
            (Phase::Writing, Event::Written) => {
                self.phase = Phase::Renaming;
                Some(Action::Rename)
            },
            (Phase::Writing, Event::WriteFailed) => {
                self.phase = Phase::Discarding;
                Some(Action::Discard)
            },
            (Phase::Renaming, Event::Renamed) => {
                registry.unregister(self.temp_path.as_str());
                self.phase = Phase::Finished(Outcome::Success);
                Some(Action::Finish(Outcome::Success))
            },
            (Phase::Renaming, Event::RenameFailed) => {
                self.phase = Phase::Discarding;
                Some(Action::Discard)
            },
            (Phase::Discarding, Event::Discarded) => Some(self.fail(FailureReason::Io)),
            (Phase::Waiting, Event::BackoffElapsed) => {
                self.attempt = self.attempt + 1;
                self.phase = Phase::Fetching;
                Some(Action::Fetch)
            },
            _ => None,
        }
    }
}

} // verus!
