//! The batch: one pipeline per item, let in as permits are free, each ending in
//! an outcome of its own.
//!
//! The caller runs the pipelines. It asks the batch which item may start next,
//! tells it how each one ended, and reads the list of failures at the end. The
//! batch never lets more pipelines run than there are permits, and one
//! item's failure changes nothing for the others.

use crate::gate::AdmissionGate;
use crate::outcome::Outcome;
use crate::resolver::ResolutionError;
use crate::text::{join, joined, views};
use vstd::prelude::*;
use vstd::string::StringExecFns;

verus! {

/// Where one item of a batch stands.
#[derive(Clone, Copy, Debug, PartialEq, Eq, Structural)]
pub enum ItemState {
    /// Waiting for a permit.
    Pending,
    /// Holding a permit; its pipeline is in flight.
    Running,
    /// Over; the permit is back.
    Finished(Outcome),
}

impl ItemState {
    /// The item is over and was not downloaded.
    pub open spec fn failed(self) -> bool {
        self matches ItemState::Finished(Outcome::Failure { .. })
    }

    /// The item is over and was downloaded.
    pub open spec fn succeeded(self) -> bool {
        self == ItemState::Finished(Outcome::Success)
    }
}

/// Why a batch as a whole did not succeed.
#[derive(Debug, PartialEq, Eq)]
pub enum BatchError {
    /// There is nothing to download: the collection is empty or private, or no
    /// item was named.
    DataFetch,
    /// Both a collection and single items were named.
    InvalidInput,
    /// The items of the collection could not be looked up.
    Resolution(ResolutionError),
    /// These items failed, in the order in which they were submitted.
    TaskProcessing { failed: Vec<String> },
}

/// How many of `states` are running.
pub open spec fn running(states: Seq<ItemState>) -> nat
    decreases states.len(),
{
    if states.len() == 0 {
        0
    } else if states.last() is Running {
        running(states.drop_last()) + 1
    } else {
        running(states.drop_last())
    }
}

/// The indices of the failed items among `states`, in rising order.
pub open spec fn failed_indices(states: Seq<ItemState>) -> Seq<int>
    decreases states.len(),
{
    if states.len() == 0 {
        Seq::empty()
    } else if states.last().failed() {
        failed_indices(states.drop_last()).push(states.len() - 1)
    } else {
        failed_indices(states.drop_last())
    }
}

/// A batch as contracts see it.
pub struct BatchView {
    /// The identifiers, in the order of submission.
    pub items: Seq<Seq<char>>,
    /// Where each item stands.
    pub states: Seq<ItemState>,
    /// How many pipelines may be in flight at once.
    pub capacity: nat,
}

impl BatchView {
    /// A batch of `items`, none of them started.
    pub open spec fn initial(items: Seq<Seq<char>>, capacity: nat) -> BatchView {
        BatchView { items, states: Seq::new(items.len(), |i: int| ItemState::Pending), capacity }
    }

    /// Each item has a state, and no more items run than there are permits.
    pub open spec fn wf(self) -> bool {
        &&& self.items.len() == self.states.len()
        &&& running(self.states) <= self.capacity
    }

    /// The item at `index` is waiting and none before it is.
    pub open spec fn is_first_pending(self, index: int) -> bool {
        &&& 0 <= index < self.states.len()
        &&& self.states[index] is Pending
        &&& forall|j: int| 0 <= j < index ==> !(#[trigger] self.states[j] is Pending)
    }

    /// An item is waiting and a permit is free.
    pub open spec fn can_start(self) -> bool {
        &&& running(self.states) < self.capacity
        &&& exists|i: int| self.is_first_pending(i)
    }

    /// The waiting item that was submitted first.
    pub open spec fn first_pending(self) -> int {
        choose|i: int| self.is_first_pending(i)
    }

    /// The batch after `start_next`: the first waiting item runs, if a permit is free.
    pub open spec fn started(self) -> BatchView {
        if self.can_start() {
            BatchView { states: self.states.update(self.first_pending(), ItemState::Running), ..self }
        } else {
            self
        }
    }

    /// Whether the item at `index` is running, so that it can be completed.
    pub open spec fn can_complete(self, index: int) -> bool {
        0 <= index < self.states.len() && self.states[index] is Running
    }

    /// The batch after `complete`: the item at `index` is over, if it was running.
    pub open spec fn completed(self, index: int, outcome: Outcome) -> BatchView {
        if self.can_complete(index) {
            BatchView { states: self.states.update(index, ItemState::Finished(outcome)), ..self }
        } else {
            self
        }
    }

    /// Every item is over.
    pub open spec fn finished(self) -> bool {
        forall|i: int| 0 <= i < self.states.len() ==> #[trigger] self.states[i] is Finished
    }

    /// The identifiers of the failed items, in the order of submission.
    pub open spec fn failed_ids(self) -> Seq<Seq<char>> {
        failed_indices(self.states).map_values(|i: int| self.items[i])
    }

    /// The batch after each of `operations` in turn.
    pub open spec fn after(self, operations: Seq<Operation>) -> BatchView
        decreases operations.len(),
    {
        if operations.len() == 0 {
            self
        } else {
            let before = self.after(operations.drop_last());
            match operations.last() {
                Operation::StartNext => before.started(),
                Operation::Complete { index, outcome } => before.completed(index, outcome),
            }
        }
    }
}

/// What a caller can do to a batch.
pub enum Operation {
    /// Ask for the next item to start.
    StartNext,
    /// Report how the item at `index` ended.
    Complete { index: int, outcome: Outcome },
}

/// Changing one state changes the count of running items by that item alone.
pub proof fn lemma_running_update(states: Seq<ItemState>, i: int, state: ItemState)
    requires
        0 <= i < states.len(),
    ensures
        running(states.update(i, state)) + (if states[i] is Running { 1nat } else { 0 })
            == running(states) + (if state is Running { 1nat } else { 0 }),
        running(states) <= states.len(),
    decreases states.len(),
{
    let updated = states.update(i, state);
    if i == states.len() - 1 {
        assert(updated.drop_last() == states.drop_last());
        lemma_running_bounded(states.drop_last());
    } else {
        assert(updated.drop_last() == states.drop_last().update(i, state));
        lemma_running_update(states.drop_last(), i, state);
    }
}

/// No more items run than there are.
pub proof fn lemma_running_bounded(states: Seq<ItemState>)
    ensures
        running(states) <= states.len(),
        (forall|i: int| 0 <= i < states.len() ==> !(#[trigger] states[i] is Running)) ==> running(
            states,
        ) == 0,
    decreases states.len(),
{
    if states.len() > 0 {
        lemma_running_bounded(states.drop_last());
        if forall|i: int| 0 <= i < states.len() ==> !(#[trigger] states[i] is Running) {
            assert forall|i: int| 0 <= i < states.drop_last().len() implies !(
            #[trigger] states.drop_last()[i] is Running) by {
                assert(states.drop_last()[i] == states[i]);
            }
        }
    }
}

/// The failed indices are exactly the indices of the failed items, each once
/// and in rising order.
pub proof fn lemma_failed_indices(states: Seq<ItemState>)
    ensures
        forall|k: int|
            0 <= k < failed_indices(states).len() ==> {
                &&& 0 <= #[trigger] failed_indices(states)[k] < states.len()
                &&& states[failed_indices(states)[k]].failed()
            },
        forall|j: int, k: int|
            0 <= j < k < failed_indices(states).len() ==> failed_indices(states)[j]
                < failed_indices(states)[k],
        forall|i: int|
            0 <= i < states.len() && (#[trigger] states[i]).failed() ==> failed_indices(
                states,
            ).contains(i),
    decreases states.len(),
{
    if states.len() > 0 {
        let earlier = states.drop_last();
        let found = failed_indices(states);
        lemma_failed_indices(earlier);
        assert forall|i: int| 0 <= i < states.len() && (#[trigger] states[i]).failed() implies found.contains(
            i,
        ) by {
            if i < earlier.len() {
                assert(earlier[i].failed());
                let k = choose|k: int|
                    0 <= k < failed_indices(earlier).len() && failed_indices(earlier)[k] == i;
                assert(found[k] == i);
            } else {
                assert(found[found.len() - 1] == i);
            }
        }
    }
}

/// The batch of one run.
pub struct Batch {
    items: Vec<String>,
    states: Vec<ItemState>,
    gate: AdmissionGate,
    next_pending: usize,
}

impl View for Batch {
    type V = BatchView;

    closed spec fn view(&self) -> BatchView {
        BatchView {
            items: views(self.items@),
            states: self.states@,
            capacity: self.gate@.capacity,
        }
    }
}

impl Batch {
    /// The permits that are out are those of the running items, and items are
    /// started in the order of submission.
    pub closed spec fn wf(&self) -> bool {
        &&& self.items@.len() == self.states@.len()
        &&& self.gate.wf()
        &&& self.gate@.in_use == running(self.states@)
        &&& self.next_pending <= self.states@.len()
        &&& forall|i: int| 0 <= i < self.next_pending ==> !(#[trigger] self.states@[i] is Pending)
        &&& forall|i: int|
            self.next_pending <= i < self.states@.len() ==> #[trigger] self.states@[i] is Pending
    }

    /// A batch of `items`, none of them started, with `capacity` permits.
    /// A batch of no items is refused before anything starts.
    pub fn new(items: Vec<String>, capacity: usize) -> (made: Result<Batch, BatchError>)
        ensures
            match made {
                Ok(batch) => {
                    &&& items@.len() > 0
                    &&& batch.wf()
                    &&& batch@ == BatchView::initial(views(items@), capacity as nat)
                },
                Err(error) => items@.len() == 0 && error == BatchError::DataFetch,
            },
    {
        if items.len() == 0 {
            return Err(BatchError::DataFetch);
        }
        let mut states: Vec<ItemState> = Vec::new();
        let mut i: usize = 0;
        while i < items.len()
            invariant
                i <= items@.len(),
                states@ == Seq::new(i as nat, |j: int| ItemState::Pending),
            decreases items@.len() - i,
        {
            states.push(ItemState::Pending);
            i = i + 1;
            assert(states@ == Seq::new(i as nat, |j: int| ItemState::Pending));
        }
        proof {
            lemma_running_bounded(states@);
        }
        Ok(Batch { items, states, gate: AdmissionGate::new(capacity), next_pending: 0 })
    }

    /// What a well-formed batch shows is well-formed.
    pub proof fn lemma_view_wf(&self)
        requires
            self.wf(),
        ensures
            self@.wf(),
    {
        assert(views(self.items@).len() == self.items@.len());
    }

    /// How many items the batch has.
    pub fn len(&self) -> (n: usize)
        ensures
            n == self@.items.len(),
    {
        self.items.len()
    }

    /// How many pipelines may be in flight at once.
    pub fn capacity(&self) -> (n: usize)
        ensures
            n == self@.capacity,
    {
        self.gate.capacity()
    }

    /// How many pipelines are in flight.
    pub fn in_flight(&self) -> (n: usize)
        requires
            self.wf(),
        ensures
            n == running(self@.states),
            n <= self@.capacity,
    {
        self.gate.in_use()
    }

    /// The identifier of the item at `index`.
    pub fn item(&self, index: usize) -> (id: &str)
        requires
            index < self@.items.len(),
        ensures
            id@ == self@.items[index as int],
    {
        self.items[index].as_str()
    }

    /// Where the item at `index` stands.
    pub fn state(&self, index: usize) -> (state: ItemState)
        requires
            self.wf(),
            index < self@.states.len(),
        ensures
            state == self@.states[index as int],
    {
        self.states[index]
    }

    /// Starts the next waiting item if a permit is free: the item that was
    /// submitted first among those waiting. It is running from now on.
    pub fn start_next(&mut self) -> (started: Option<usize>)
        requires
            old(self).wf(),
        ensures
            final(self).wf(),
            final(self)@ == old(self)@.started(),
            match started {
                Some(index) => old(self)@.can_start() && index == old(self)@.first_pending(),
                None => !old(self)@.can_start(),
            },
            running(final(self)@.states) == running(old(self)@.states) + if started is Some {
                1nat
            } else {
                0
            },
    {
        if self.next_pending >= self.items.len() {
            proof {
                if exists|i: int| self@.is_first_pending(i) {
                    let i = choose|i: int| self@.is_first_pending(i);
                    assert(self.states@[i] is Pending);
                }
            }
            return None;
        }
        let index = self.next_pending;
        proof {
            assert(self.states@[index as int] is Pending);
            assert(self@.is_first_pending(index as int));
            let first = self@.first_pending();
            assert(self@.is_first_pending(first));
            if first < index {
                assert(!(self.states@[first] is Pending));
            }
            if index < first {
                assert(!(self@.states[index as int] is Pending));
            }
        }
        if !self.gate.try_acquire() {
            return None;
        }
        proof {
            lemma_running_update(self.states@, index as int, ItemState::Running);
        }
        self.states.set(index, ItemState::Running);
        self.next_pending = index + 1;
        Some(index)
    }

    /// Records how the pipeline of the item at `index` ended and takes its
    /// permit back. Refused, with nothing changed, unless that item is running:
    /// no permit comes back twice.
    pub fn complete(&mut self, index: usize, outcome: Outcome) -> (accepted: bool)
        requires
            old(self).wf(),
        ensures
            final(self).wf(),
            final(self)@ == old(self)@.completed(index as int, outcome),
            accepted == old(self)@.can_complete(index as int),
            running(final(self)@.states) + (if accepted { 1nat } else { 0 }) == running(
                old(self)@.states,
            ),
    {
        if index >= self.states.len() {
            return false;
        }
        match self.states[index] {
            ItemState::Running => {},
            _ => {
                return false;
            },
        }
        proof {
            lemma_running_update(self.states@, index as int, ItemState::Finished(outcome));
        }
        self.states.set(index, ItemState::Finished(outcome));
        let released = self.gate.release();
        assert(released);
        true
    }

    /// Whether every item is over.
    pub fn is_finished(&self) -> (yes: bool)
        requires
            self.wf(),
        ensures
            yes == self@.finished(),
    {
        let mut i: usize = 0;
        while i < self.states.len()
            invariant
                i <= self.states@.len(),
                forall|j: int| 0 <= j < i ==> #[trigger] self.states@[j] is Finished,
            decreases self.states@.len() - i,
        {
            match self.states[i] {
                ItemState::Finished(_) => {},
                _ => {
                    return false;
                },
            }
            i = i + 1;
        }
        true
    }

    /// The identifiers of the items that failed, in the order of submission.
    pub fn failed_items(&self) -> (failed: Vec<String>)
        requires
            self.wf(),
        ensures
            views(failed@) == self@.failed_ids(),
    {
        let mut failed: Vec<String> = Vec::new();
        let mut i: usize = 0;
        while i < self.states.len()
            invariant
                i <= self.states@.len(),
                self.items@.len() == self.states@.len(),
                views(failed@) == failed_indices(self.states@.take(i as int)).map_values(
                    |k: int| self.items@[k]@,
                ),
            decreases self.states@.len() - i,
        {
            proof {
                assert(self.states@.take(i + 1).drop_last() == self.states@.take(i as int));
            }
            match self.states[i] {
                ItemState::Finished(Outcome::Failure { .. }) => {
                    let ghost listed = failed@;
                    let ghost found = failed_indices(self.states@.take(i as int));
                    failed.push(self.items[i].clone());
                    proof {
                        assert(self.states@.take(i + 1).last().failed());
                        assert(views(failed@) == views(listed).push(self.items@[i as int]@));
                        assert(found.push(i as int).map_values(|k: int| self.items@[k]@)
                            == found.map_values(|k: int| self.items@[k]@).push(
                            self.items@[i as int]@,
                        ));
                    }
                },
                _ => {
                    assert(!self.states@.take(i + 1).last().failed());
                },
            }
            i = i + 1;
        }
        proof {
            assert(self.states@.take(self.states@.len() as int) == self.states@);
            lemma_failed_indices(self.states@);
            assert(views(failed@) == self@.failed_ids());
        }
        failed
    }

    /// The result of a finished batch: success if no item failed, else the
    /// failed items.
    pub fn result(&self) -> (result: Result<(), BatchError>)
        requires
            self.wf(),
            self@.finished(),
        ensures
            match result {
                Ok(()) => self@.failed_ids().len() == 0,
                Err(BatchError::TaskProcessing { failed }) => self@.failed_ids().len() > 0 && views(
                    failed@,
                ) == self@.failed_ids(),
                Err(_) => false,
            },
    {
        let failed = self.failed_items();
        if failed.len() == 0 {
            Ok(())
        } else {
            Err(BatchError::TaskProcessing { failed })
        }
    }
}


/// What the user is told of the failed items: their identifiers on one line,
/// one space between each two, as the next run takes them.
pub open spec fn failure_report_text(failed: Seq<Seq<char>>) -> Seq<char> {
    "\nFailed to download audio for BVIDs: "@ + joined(failed, ' ')
        + "\nuse the \"bicat -b\" command to try again\n"@
}

/// The report of the failed items, for the user.
pub fn failure_report(failed: &Vec<String>) -> (report: String)
    ensures
        report@ == failure_report_text(views(failed@)),
{
    let mut report = "\nFailed to download audio for BVIDs: ".to_owned();
    let line = join(failed, ' ');
    report.append(line.as_str());
    report.append("\nuse the \"bicat -b\" command to try again\n");
    report
}

/// Starting an item keeps the batch well-formed, keeps the items, and runs one
/// item more only where a permit was free.
pub proof fn lemma_started(batch: BatchView)
    requires
        batch.wf(),
    ensures
        batch.started().wf(),
        batch.started().items == batch.items,
        batch.started().capacity == batch.capacity,
        running(batch.started().states) == running(batch.states) + if batch.can_start() {
            1nat
        } else {
            0
        },
{
    if batch.can_start() {
        let first = batch.first_pending();
        assert(batch.is_first_pending(first));
        lemma_running_update(batch.states, first, ItemState::Running);
    }
}

/// Among the waiting items of `states[..upto]`, one was submitted first.
proof fn lemma_first_pending_exists(batch: BatchView, upto: int)
    requires
        0 <= upto <= batch.states.len(),
        exists|i: int| 0 <= i < upto && #[trigger] batch.states[i] is Pending,
    ensures
        exists|i: int| 0 <= i < upto && batch.is_first_pending(i),
    decreases upto,
{
    if exists|i: int| 0 <= i < upto - 1 && #[trigger] batch.states[i] is Pending {
        lemma_first_pending_exists(batch, upto - 1);
        let first = choose|i: int| 0 <= i < upto - 1 && batch.is_first_pending(i);
        assert(batch.is_first_pending(first));
    } else {
        let last = choose|i: int| 0 <= i < upto && #[trigger] batch.states[i] is Pending;
        assert(last == upto - 1);
        assert(batch.is_first_pending(upto - 1));
    }
}

/// No item waits while a permit is free: where an item is waiting and fewer
/// pipelines are in flight than there are permits, the next one can start.
pub proof fn lemma_waiting_item_can_start(batch: BatchView, i: int)
    requires
        batch.wf(),
        0 <= i < batch.states.len(),
        batch.states[i] is Pending,
        running(batch.states) < batch.capacity,
    ensures
        batch.can_start(),
        batch.first_pending() <= i,
        running(batch.started().states) == running(batch.states) + 1,
{
    lemma_first_pending_exists(batch, batch.states.len() as int);
    let first = batch.first_pending();
    assert(batch.is_first_pending(first));
    lemma_started(batch);
}

/// Completing an item keeps the batch well-formed, keeps the items, and gives
/// one permit back where the item was running.
pub proof fn lemma_completed(batch: BatchView, index: int, outcome: Outcome)
    requires
        batch.wf(),
    ensures
        batch.completed(index, outcome).wf(),
        batch.completed(index, outcome).items == batch.items,
        batch.completed(index, outcome).capacity == batch.capacity,
        running(batch.completed(index, outcome).states) + (if batch.can_complete(index) {
            1nat
        } else {
            0
        }) == running(batch.states),
{
    if batch.can_complete(index) {
        lemma_running_update(batch.states, index, ItemState::Finished(outcome));
    }
}

/// Whatever the caller does, and in whatever order, a batch of any number of
/// items never has more pipelines in flight than there are permits.
pub proof fn lemma_in_flight_never_exceeds_capacity(
    items: Seq<Seq<char>>,
    capacity: nat,
    operations: Seq<Operation>,
)
    ensures
        BatchView::initial(items, capacity).after(operations).wf(),
        running(BatchView::initial(items, capacity).after(operations).states) <= capacity,
        BatchView::initial(items, capacity).after(operations).items == items,
        BatchView::initial(items, capacity).after(operations).capacity == capacity,
    decreases operations.len(),
{
    let start = BatchView::initial(items, capacity);
    if operations.len() == 0 {
        lemma_running_bounded(start.states);
    } else {
        lemma_in_flight_never_exceeds_capacity(items, capacity, operations.drop_last());
        let before = start.after(operations.drop_last());
        match operations.last() {
            Operation::StartNext => {
                lemma_started(before);
            },
            Operation::Complete { index, outcome } => {
                lemma_completed(before, index, outcome);
            },
        }
    }
}

/// What happens to one item leaves the others as they were: completing the item
/// at `index`, with whatever outcome, changes the state of no other item, and
/// starting the next item changes that of no item that had been started.
pub proof fn lemma_items_are_isolated(batch: BatchView, index: int, outcome: Outcome, other: int)
    requires
        batch.wf(),
        0 <= other < batch.states.len(),
    ensures
        other != index ==> batch.completed(index, outcome).states[other] == batch.states[other],
        !(batch.states[other] is Pending) ==> batch.started().states[other] == batch.states[other],
{
    if batch.can_start() {
        assert(batch.is_first_pending(batch.first_pending()));
    }
}

/// An item that is over stays as it ended: nothing that happens to another item
/// changes its outcome.
pub proof fn lemma_outcomes_are_final(batch: BatchView, i: int, operations: Seq<Operation>)
    requires
        batch.wf(),
        0 <= i < batch.states.len(),
        batch.states[i] is Finished,
    ensures
        batch.after(operations).wf(),
        batch.after(operations).states.len() == batch.states.len(),
        batch.after(operations).states[i] == batch.states[i],
    decreases operations.len(),
{
    if operations.len() > 0 {
        lemma_outcomes_are_final(batch, i, operations.drop_last());
        let before = batch.after(operations.drop_last());
        match operations.last() {
            Operation::StartNext => {
                lemma_started(before);
                if before.can_start() {
                    assert(before.is_first_pending(before.first_pending()));
                }
            },
            Operation::Complete { index, outcome } => {
                lemma_completed(before, index, outcome);
            },
        }
    }
}

/// Of a finished batch, each item either succeeded or stands among the failed
/// ones, never both and never neither; the list of failed identifiers names
/// every failed item, and, where no identifier was submitted twice, no other.
pub proof fn lemma_item_succeeded_or_is_listed(batch: BatchView, i: int)
    requires
        batch.items.len() == batch.states.len(),
        batch.finished(),
        0 <= i < batch.items.len(),
    ensures
        batch.states[i].succeeded() != batch.states[i].failed(),
        batch.states[i].failed() <==> failed_indices(batch.states).contains(i),
        batch.states[i].failed() ==> batch.failed_ids().contains(batch.items[i]),
        batch.items.no_duplicates() ==> (batch.failed_ids().contains(batch.items[i])
            <==> batch.states[i].failed()),
{
    let found = failed_indices(batch.states);
    let listed = batch.failed_ids();
    lemma_failed_indices(batch.states);
    assert(batch.states[i] is Finished);
    if found.contains(i) {
        let k = choose|k: int| 0 <= k < found.len() && found[k] == i;
        assert(batch.states[found[k]].failed());
    }
    if batch.states[i].failed() {
        let k = choose|k: int| 0 <= k < found.len() && found[k] == i;
        assert(listed[k] == batch.items[i]);
    }
    if batch.items.no_duplicates() && listed.contains(batch.items[i]) {
        let k = choose|k: int| 0 <= k < listed.len() && listed[k] == batch.items[i];
        assert(listed[k] == batch.items[found[k]]);
        assert(0 <= found[k] < batch.states.len());
        assert(found[k] == i);
        assert(batch.states[found[k]].failed());
    }
}

/// The failed identifiers stand in the order in which their items were submitted.
pub proof fn lemma_failed_ids_keep_submission_order(batch: BatchView, j: int, k: int)
    requires
        batch.items.len() == batch.states.len(),
        0 <= j < k < batch.failed_ids().len(),
    ensures
        0 <= failed_indices(batch.states)[j] < failed_indices(batch.states)[k] < batch.items.len(),
        batch.failed_ids()[j] == batch.items[failed_indices(batch.states)[j]],
        batch.failed_ids()[k] == batch.items[failed_indices(batch.states)[k]],
{
    lemma_failed_indices(batch.states);
}

} // verus!
