//! Whole runs of a download: what a sequence of events leads to, and what holds
//! of every run.

use crate::backoff::{backoff_delay, lemma_backoff_delay_fits};
use crate::download::{registry_after, Action, Event, Phase, Progress, MAX_RETRY_LIMIT};
use crate::outcome::{FailureReason, Outcome};
use vstd::prelude::*;

verus! {

/// Feeds `events` to a download that stands at `start`, one after the other, and
/// gives where it stands in the end and the actions it asked for on the way.
/// Events that are refused change nothing and ask for nothing.
pub open spec fn run(start: Progress, events: Seq<Event>) -> (Progress, Seq<Action>)
    decreases events.len(),
{
    if events.len() == 0 {
        (start, Seq::empty())
    } else {
        let (before, actions) = run(start, events.drop_last());
        match before.next(events.last()) {
            Some((after, action)) => (after, actions.push(action)),
            None => (before, actions),
        }
    }
}

/// How many of `actions` start an attempt.
pub open spec fn fetches(actions: Seq<Action>) -> nat
    decreases actions.len(),
{
    if actions.len() == 0 {
        0
    } else if actions.last() is Fetch {
        fetches(actions.drop_last()) + 1
    } else {
        fetches(actions.drop_last())
    }
}

/// The waits among `actions`, in seconds and in order.
pub open spec fn sleeps(actions: Seq<Action>) -> Seq<u64>
    decreases actions.len(),
{
    if actions.len() == 0 {
        Seq::empty()
    } else {
        match actions.last() {
            Action::Sleep { seconds } => sleeps(actions.drop_last()).push(seconds),
            _ => sleeps(actions.drop_last()),
        }
    }
}

/// The first `n` backoff delays: 1, 2, 4, ... seconds.
pub open spec fn delays(n: nat) -> Seq<u64> {
    Seq::new(n, |k: int| backoff_delay(k as nat) as u64)
}

/// What the registry holds after the steps of `run(start, events)`, if it held
/// `registry` before and nothing else touched it.
pub open spec fn registry_run(
    start: Progress,
    temp_path: Seq<char>,
    registry: Set<Seq<char>>,
    events: Seq<Event>,
) -> Set<Seq<char>>
    decreases events.len(),
{
    if events.len() == 0 {
        registry
    } else {
        registry_after(
            registry_run(start, temp_path, registry, events.drop_last()),
            temp_path,
            run(start, events.drop_last()).0.phase,
            events.last(),
        )
    }
}

/// Where in an attempt a failure strikes.
pub enum FailurePoint {
    /// The request fails.
    Fetch,
    /// The response comes, but its body cannot be read.
    Body,
    /// The body is read, but the temporary file cannot be written.
    Write,
    /// The temporary file is written, but cannot be renamed.
    Rename,
}

impl FailurePoint {
    /// The reason that a failure at this point is reported with.
    pub open spec fn reason(self) -> FailureReason {
        match self {
            FailurePoint::Fetch => FailureReason::Network,
            FailurePoint::Body => FailureReason::Network,
            FailurePoint::Write => FailureReason::Io,
            FailurePoint::Rename => FailureReason::Io,
        }
    }
}

/// `events`, followed by what is reported of an attempt that fails at `point`.
pub open spec fn then_failed_attempt(events: Seq<Event>, point: FailurePoint) -> Seq<Event> {
    match point {
        FailurePoint::Fetch => events.push(Event::FetchFailed),
        FailurePoint::Body => events.push(Event::FetchSucceeded).push(Event::BodyFailed),
        FailurePoint::Write => events.push(Event::FetchSucceeded).push(Event::BodyRead).push(
            Event::WriteFailed,
        ).push(Event::Discarded),
        FailurePoint::Rename => events.push(Event::FetchSucceeded).push(Event::BodyRead).push(
            Event::Written,
        ).push(Event::RenameFailed).push(Event::Discarded),
    }
}

/// `events`, followed by what is reported of an attempt on which everything works.
pub open spec fn then_good_attempt(events: Seq<Event>) -> Seq<Event> {
    events.push(Event::FetchSucceeded).push(Event::BodyRead).push(Event::Written).push(
        Event::Renamed,
    )
}

/// What is reported of a download whose attempts fail one after the other, the
/// `k`-th of them at `points[k]`, each but the first after its backoff has passed.
pub open spec fn failing_script(points: Seq<FailurePoint>) -> Seq<Event>
    decreases points.len(),
{
    if points.len() == 0 {
        seq![Event::Started]
    } else if points.len() == 1 {
        then_failed_attempt(seq![Event::Started], points.last())
    } else {
        then_failed_attempt(
            failing_script(points.drop_last()).push(Event::BackoffElapsed),
            points.last(),
        )
    }
}

/// What is reported of a download that fails as `failing_script(points)` says and
/// then succeeds on the next attempt.
pub open spec fn recovering_script(points: Seq<FailurePoint>) -> Seq<Event> {
    if points.len() == 0 {
        then_good_attempt(seq![Event::Started])
    } else {
        then_good_attempt(failing_script(points).push(Event::BackoffElapsed))
    }
}

/// One more event is one more step.
pub proof fn lemma_run_push(start: Progress, events: Seq<Event>, event: Event)
    ensures
        run(start, events.push(event)) == match run(start, events).0.next(event) {
            Some((after, action)) => (after, run(start, events).1.push(action)),
            None => run(start, events),
        },
{
    assert(events.push(event).drop_last() == events);
}

/// One more action counts if it is a fetch.
pub proof fn lemma_fetches_push(actions: Seq<Action>, action: Action)
    ensures
        fetches(actions.push(action)) == fetches(actions) + if action is Fetch { 1nat } else { 0 },
{
    assert(actions.push(action).drop_last() == actions);
}

/// One more action adds its wait if it is a sleep.
pub proof fn lemma_sleeps_push(actions: Seq<Action>, action: Action)
    ensures
        sleeps(actions.push(action)) == match action {
            Action::Sleep { seconds } => sleeps(actions).push(seconds),
            _ => sleeps(actions),
        },
{
    assert(actions.push(action).drop_last() == actions);
}

/// A step keeps the progress well-formed and the retry limit as it was.
pub proof fn lemma_next_preserves_wf(progress: Progress, event: Event)
    requires
        progress.wf(),
    ensures
        progress.next(event) matches Some((after, _)) ==> after.wf() && after.limit
            == progress.limit,
{
}

/// The last step of a download that succeeded was the rename of a temporary
/// file that had been written in full; and a rename is asked for only then.
pub proof fn lemma_success_follows_rename(progress: Progress, event: Event)
    ensures
        progress.next(event) matches Some((after, action)) ==> {
            &&& (after.phase == Phase::Finished(Outcome::Success) <==> progress.phase is Renaming
                && event is Renamed)
            &&& (action is Rename <==> progress.phase is Writing && event is Written)
            &&& (after.phase is Renaming <==> action is Rename)
            &&& (action is Write <==> progress.phase is ReadingBody && event is BodyRead)
        },
{
}

/// A finished download takes no further step.
pub proof fn lemma_finished_is_final(progress: Progress, event: Event)
    requires
        progress.phase is Finished,
    ensures
        progress.next(event) is None,
{
}

/// What holds of every run from the start, whatever is reported: the download
/// stays well-formed; it has started one attempt more than the index of the
/// current one says, so never more than the retry limit plus one; and its waits
/// have been the backoff delays 1, 2, 4, ... in this order, one for each attempt
/// that has failed and is followed by another.
pub proof fn lemma_run_invariant(limit: nat, events: Seq<Event>)
    requires
        limit <= MAX_RETRY_LIMIT,
    ensures
        ({
            let (end, actions) = run(Progress::initial(limit), events);
            &&& end.wf()
            &&& end.limit == limit
            &&& fetches(actions) == if end.phase is Ready { 0 } else { end.attempt + 1 }
            &&& fetches(actions) <= limit + 1
            &&& sleeps(actions) == delays(if end.phase is Waiting { end.attempt + 1 } else { end.attempt })
        }),
    decreases events.len(),
{
    let start = Progress::initial(limit);
    if events.len() == 0 {
        assert(sleeps(Seq::<Action>::empty()) == delays(0));
    } else {
        let earlier = events.drop_last();
        let event = events.last();
        lemma_run_invariant(limit, earlier);
        assert(earlier.push(event) == events);
        lemma_run_push(start, earlier, event);
        let (before, actions) = run(start, earlier);
        match before.next(event) {
            Some((after, action)) => {
                lemma_fetches_push(actions, action);
                lemma_sleeps_push(actions, action);
                match action {
                    Action::Sleep { seconds } => {
                        lemma_backoff_delay_fits(before.attempt);
                        assert(delays(before.attempt).push(seconds) == delays(before.attempt + 1));
                    },
                    _ => {},
                }
            },
            None => {},
        }
    }
}

/// A download fails for good only when its budget is used up: a run that ends
/// in failure has made every one of its `limit + 1` attempts, and the failure
/// is one of the network or of the file system.
pub proof fn lemma_failure_means_budget_used(limit: nat, events: Seq<Event>)
    requires
        limit <= MAX_RETRY_LIMIT,
        run(Progress::initial(limit), events).0.phase matches Phase::Finished(
            Outcome::Failure { .. },
        ),
    ensures
        ({
            let (end, actions) = run(Progress::initial(limit), events);
            &&& end.attempt == limit
            &&& fetches(actions) == limit + 1
            &&& sleeps(actions) == delays(limit)
            &&& end.phase == Phase::Finished(Outcome::failed(FailureReason::Network)) || end.phase
                == Phase::Finished(Outcome::failed(FailureReason::Io))
        }),
{
    lemma_run_invariant(limit, events);
}

/// A write is asked for only in answer to a body that has been read.
pub open spec fn asks_no_write(actions: Seq<Action>) -> bool {
    forall|k: int| 0 <= k < actions.len() ==> !(#[trigger] actions[k] is Write)
}

/// None of `events` reports a body as read.
pub open spec fn reads_no_body(events: Seq<Event>) -> bool {
    forall|k: int| 0 <= k < events.len() ==> !(#[trigger] events[k] is BodyRead)
}

/// The registry follows the temporary file, whatever else it holds. A
/// download touches no path but its own temporary one. While its file is
/// being written, renamed or removed, that path is registered; once the
/// download has succeeded, it is not; after a failure of the file system it
/// still is, for the sweep at the end. And a run on which no body was read
/// asks for no write and leaves the registry as it was.
pub proof fn lemma_registry_follows_file(
    limit: nat,
    temp_path: Seq<char>,
    registry: Set<Seq<char>>,
    events: Seq<Event>,
)
    requires
        limit <= MAX_RETRY_LIMIT,
    ensures
        ({
            let (end, actions) = run(Progress::initial(limit), events);
            let after = registry_run(Progress::initial(limit), temp_path, registry, events);
            &&& forall|path: Seq<char>|
                path != temp_path ==> (after.contains(path) <==> registry.contains(path))
            &&& end.phase is Writing || end.phase is Renaming || end.phase is Discarding
                ==> after == registry.insert(temp_path)
            &&& end.phase == Phase::Finished(Outcome::failed(FailureReason::Io)) ==> after
                == registry.insert(temp_path)
            &&& end.phase == Phase::Finished(Outcome::Success) ==> after == registry.remove(
                temp_path,
            )
            &&& end.phase is Ready ==> after == registry
            &&& reads_no_body(events) ==> asks_no_write(actions) && after == registry
        }),
    decreases events.len(),
{
    let start = Progress::initial(limit);
    if events.len() > 0 {
        let earlier = events.drop_last();
        let event = events.last();
        lemma_registry_follows_file(limit, temp_path, registry, earlier);
        lemma_run_invariant(limit, earlier);
        assert(earlier.push(event) == events);
        lemma_run_push(start, earlier, event);
        let asked = run(start, earlier).1;
        let actions = run(start, events).1;
        assert(registry.insert(temp_path).insert(temp_path) == registry.insert(temp_path));
        assert(registry.insert(temp_path).remove(temp_path) == registry.remove(temp_path));
        assert(registry.remove(temp_path).insert(temp_path) == registry.insert(temp_path));
        if reads_no_body(events) {
            assert forall|k: int| 0 <= k < earlier.len() implies !(#[trigger] earlier[k] is BodyRead) by {
                assert(earlier[k] == events[k]);
            }
            lemma_no_body_no_file(limit, earlier);
            assert(!(events[events.len() - 1] is BodyRead));
            assert forall|k: int| 0 <= k < actions.len() implies !(#[trigger] actions[k] is Write) by {
                if k < asked.len() {
                    assert(actions[k] == asked[k]);
                }
            }
        }
    }
}

/// As long as no body has been read, the download has not come to the file:
/// it is fetching, reading, waiting, or has failed for the network.
proof fn lemma_no_body_no_file(limit: nat, events: Seq<Event>)
    requires
        limit <= MAX_RETRY_LIMIT,
        reads_no_body(events),
    ensures
        ({
            let end = run(Progress::initial(limit), events).0;
            ||| end.phase is Ready
            ||| end.phase is Fetching
            ||| end.phase is ReadingBody
            ||| end.phase is Waiting
            ||| end.phase == Phase::Finished(Outcome::failed(FailureReason::Network))
        }),
    decreases events.len(),
{
    if events.len() > 0 {
        let earlier = events.drop_last();
        assert forall|k: int| 0 <= k < earlier.len() implies !(#[trigger] earlier[k] is BodyRead) by {
            assert(earlier[k] == events[k]);
        }
        lemma_no_body_no_file(limit, earlier);
        assert(earlier.push(events.last()) == events);
        lemma_run_push(Progress::initial(limit), earlier, events.last());
        assert(!(events[events.len() - 1] is BodyRead));
    }
}

/// An attempt that fails at `point` leads from the fetch to where
/// `after_failure` says.
proof fn lemma_failed_attempt(start: Progress, events: Seq<Event>, point: FailurePoint)
    requires
        run(start, events).0.phase is Fetching,
    ensures
        run(start, then_failed_attempt(events, point)).0 == run(start, events).0.after_failure(
            point.reason(),
        ).0,
{
    let e1 = events.push(Event::FetchSucceeded);
    let e2 = e1.push(Event::BodyRead);
    let e3 = e2.push(Event::Written);
    match point {
        FailurePoint::Fetch => {
            lemma_run_push(start, events, Event::FetchFailed);
        },
        FailurePoint::Body => {
            lemma_run_push(start, events, Event::FetchSucceeded);
            lemma_run_push(start, e1, Event::BodyFailed);
        },
        FailurePoint::Write => {
            lemma_run_push(start, events, Event::FetchSucceeded);
            lemma_run_push(start, e1, Event::BodyRead);
            lemma_run_push(start, e2, Event::WriteFailed);
            lemma_run_push(start, e2.push(Event::WriteFailed), Event::Discarded);
        },
        FailurePoint::Rename => {
            lemma_run_push(start, events, Event::FetchSucceeded);
            lemma_run_push(start, e1, Event::BodyRead);
            lemma_run_push(start, e2, Event::Written);
            lemma_run_push(start, e3, Event::RenameFailed);
            lemma_run_push(start, e3.push(Event::RenameFailed), Event::Discarded);
        },
    }
}

/// Where a download stands after as many failed attempts as `points` has
/// entries: waiting for the next attempt, or finished once the budget is used up.
proof fn lemma_failing_script_progress(limit: nat, points: Seq<FailurePoint>)
    requires
        limit <= MAX_RETRY_LIMIT,
        1 <= points.len() <= limit + 1,
    ensures
        run(Progress::initial(limit), failing_script(points)).0 == (Progress {
            limit,
            attempt: (points.len() - 1) as nat,
            phase: if points.len() <= limit {
                Phase::Waiting
            } else {
                Phase::Finished(Outcome::failed(points.last().reason()))
            },
        }),
    decreases points.len(),
{
    let start = Progress::initial(limit);
    if points.len() == 1 {
        let begun = seq![Event::Started];
        assert(begun == Seq::<Event>::empty().push(Event::Started));
        lemma_run_push(start, Seq::empty(), Event::Started);
        lemma_failed_attempt(start, begun, points.last());
    } else {
        let earlier = failing_script(points.drop_last());
        lemma_failing_script_progress(limit, points.drop_last());
        lemma_run_push(start, earlier, Event::BackoffElapsed);
        lemma_failed_attempt(start, earlier.push(Event::BackoffElapsed), points.last());
    }
}

/// A download whose every attempt fails, at whatever point each, makes exactly
/// `limit + 1` attempts, waits 1, 2, 4, ... seconds between them, `limit` times
/// in all, and ends as a failure with the reason of its last attempt: the
/// attempts of one item share one budget, whatever it was that failed.
pub proof fn lemma_failing_download_exhausts_budget(limit: nat, points: Seq<FailurePoint>)
    requires
        limit <= MAX_RETRY_LIMIT,
        points.len() == limit + 1,
    ensures
        ({
            let (end, actions) = run(Progress::initial(limit), failing_script(points));
            &&& end.phase == Phase::Finished(Outcome::failed(points.last().reason()))
            &&& end.attempt == limit
            &&& fetches(actions) == limit + 1
            &&& sleeps(actions) == delays(limit)
        }),
{
    lemma_failing_script_progress(limit, points);
    lemma_run_invariant(limit, failing_script(points));
}

/// A download that fails on fewer attempts than it has, and then meets no
/// further failure, succeeds: it has made one attempt more than failed, and has
/// waited 1, 2, 4, ... seconds, once after each failure.
pub proof fn lemma_download_recovers_within_budget(limit: nat, points: Seq<FailurePoint>)
    requires
        limit <= MAX_RETRY_LIMIT,
        points.len() <= limit,
    ensures
        ({
            let (end, actions) = run(Progress::initial(limit), recovering_script(points));
            &&& end.phase == Phase::Finished(Outcome::Success)
            &&& end.attempt == points.len()
            &&& fetches(actions) == points.len() + 1
            &&& sleeps(actions) == delays(points.len())
        }),
{
    let start = Progress::initial(limit);
    let resumed = if points.len() == 0 {
        seq![Event::Started]
    } else {
        failing_script(points).push(Event::BackoffElapsed)
    };
    if points.len() == 0 {
        assert(resumed == Seq::<Event>::empty().push(Event::Started));
        lemma_run_push(start, Seq::empty(), Event::Started);
    } else {
        lemma_failing_script_progress(limit, points);
        lemma_run_push(start, failing_script(points), Event::BackoffElapsed);
    }
    let e1 = resumed.push(Event::FetchSucceeded);
    let e2 = e1.push(Event::BodyRead);
    let e3 = e2.push(Event::Written);
    lemma_run_push(start, resumed, Event::FetchSucceeded);
    lemma_run_push(start, e1, Event::BodyRead);
    lemma_run_push(start, e2, Event::Written);
    lemma_run_push(start, e3, Event::Renamed);
    lemma_run_invariant(limit, recovering_script(points));
}

} // verus!
