use bicat::batch::{Batch, BatchError, ItemState};
use bicat::download::{Action, Download, Event};
use bicat::gate::{AdmissionGate, DEFAULT_CAPACITY};
use bicat::input::collection_selection;
use bicat::naming::ResolvedTarget;
use bicat::outcome::{FailureReason, Outcome};
use bicat::registry::TempFileRegistry;
use bicat::resolver::collection_items;

fn ids(names: &[&str]) -> Vec<String> {
    names.iter().map(|name| name.to_string()).collect()
}

#[test]
fn gate_hands_out_as_many_permits_as_it_has() {
    let mut gate = AdmissionGate::new(2);
    assert_eq!(gate.capacity(), 2);
    assert_eq!(gate.in_use(), 0);
    assert_eq!(gate.available(), 2);
    assert!(gate.try_acquire());
    assert!(gate.try_acquire());
    assert!(!gate.try_acquire());
    assert_eq!(gate.in_use(), 2);
    assert_eq!(gate.available(), 0);
    assert!(gate.release());
    assert_eq!(gate.available(), 1);
    assert!(gate.try_acquire());
    assert!(gate.release());
    assert!(gate.release());
    assert!(!gate.release());
    assert_eq!(gate.in_use(), 0);
}

#[test]
fn gate_without_permits_lets_nothing_through() {
    let mut gate = AdmissionGate::new(0);
    assert!(!gate.try_acquire());
    assert!(!gate.release());
    assert_eq!(DEFAULT_CAPACITY, 50);
}

#[test]
fn empty_batch_is_refused() {
    assert_eq!(Batch::new(Vec::new(), 10).err(), Some(BatchError::DataFetch));
}

#[test]
fn empty_collection_fails_before_anything_starts() {
    let looked_up = collection_items(br#"{"code":0,"data":[]}"#);
    assert_eq!(looked_up, Ok(Vec::new()));
    assert_eq!(collection_selection(looked_up), Err(BatchError::DataFetch));
    let again = collection_items(br#"{"code":0,"data":[]}"#).unwrap();
    assert_eq!(Batch::new(again, 50).err(), Some(BatchError::DataFetch));
}

#[test]
fn new_batch_has_everything_pending() {
    let batch = Batch::new(ids(&["a", "b", "c"]), 2).unwrap();
    assert_eq!(batch.len(), 3);
    assert_eq!(batch.capacity(), 2);
    assert_eq!(batch.in_flight(), 0);
    assert!(!batch.is_finished());
    for index in 0..3 {
        assert_eq!(batch.state(index), ItemState::Pending);
    }
    assert_eq!(batch.item(0), "a");
    assert_eq!(batch.item(2), "c");
    assert!(batch.failed_items().is_empty());
}

#[test]
fn items_start_in_submission_order_up_to_capacity() {
    let mut batch = Batch::new(ids(&["a", "b", "c", "d", "e"]), 2).unwrap();
    assert_eq!(batch.start_next(), Some(0));
    assert_eq!(batch.start_next(), Some(1));
    assert_eq!(batch.start_next(), None);
    assert_eq!(batch.in_flight(), 2);
    assert_eq!(batch.state(0), ItemState::Running);
    assert_eq!(batch.state(2), ItemState::Pending);
    assert!(batch.complete(1, Outcome::Success));
    assert_eq!(batch.in_flight(), 1);
    assert_eq!(batch.start_next(), Some(2));
    assert_eq!(batch.start_next(), None);
    assert!(batch.complete(0, Outcome::Success));
    assert!(batch.complete(2, Outcome::Success));
    assert_eq!(batch.start_next(), Some(3));
    assert_eq!(batch.start_next(), Some(4));
    assert_eq!(batch.start_next(), None);
    assert!(batch.complete(3, Outcome::Success));
    assert!(batch.complete(4, Outcome::Success));
    assert_eq!(batch.start_next(), None);
    assert!(batch.is_finished());
    assert_eq!(batch.result(), Ok(()));
}

#[test]
fn never_more_in_flight_than_permits() {
    let capacity = 3;
    let mut batch = Batch::new((0..20).map(|n| format!("item{}", n)).collect(), capacity).unwrap();
    let mut running: Vec<usize> = Vec::new();
    let mut round = 0;
    while !batch.is_finished() {
        while let Some(index) = batch.start_next() {
            running.push(index);
            assert!(batch.in_flight() <= capacity);
        }
        assert_eq!(batch.in_flight(), running.len());
        assert!(running.len() <= capacity);
        assert!(!running.is_empty());
        // finish one of the running items, not always the oldest
        let pick = round % running.len();
        let index = running.remove(pick);
        assert!(batch.complete(index, Outcome::Success));
        round += 1;
    }
    assert_eq!(batch.in_flight(), 0);
    assert_eq!(batch.result(), Ok(()));
}

#[test]
fn batch_without_permits_starts_nothing() {
    let mut batch = Batch::new(ids(&["a"]), 0).unwrap();
    assert_eq!(batch.start_next(), None);
    assert_eq!(batch.in_flight(), 0);
    assert!(!batch.is_finished());
}

#[test]
fn only_a_running_item_can_be_completed() {
    let mut batch = Batch::new(ids(&["a", "b"]), 2).unwrap();
    assert!(!batch.complete(0, Outcome::Success));
    assert!(!batch.complete(7, Outcome::Success));
    assert_eq!(batch.start_next(), Some(0));
    assert!(batch.complete(0, Outcome::failure(FailureReason::Network)));
    // no permit comes back twice, and the outcome stays
    assert!(!batch.complete(0, Outcome::Success));
    assert_eq!(batch.state(0), ItemState::Finished(Outcome::failure(FailureReason::Network)));
    assert_eq!(batch.in_flight(), 0);
    assert_eq!(batch.state(1), ItemState::Pending);
}

#[test]
fn failed_items_keep_submission_order() {
    let mut batch = Batch::new(ids(&["a", "b", "c", "d"]), 4).unwrap();
    for _ in 0..4 {
        batch.start_next();
    }
    assert!(batch.complete(3, Outcome::failure(FailureReason::Io)));
    assert!(batch.complete(1, Outcome::failure(FailureReason::Resolution)));
    assert!(batch.complete(2, Outcome::Success));
    assert_eq!(batch.failed_items(), ids(&["b", "d"]));
    assert!(batch.complete(0, Outcome::failure(FailureReason::Crash)));
    assert!(batch.is_finished());
    assert_eq!(batch.failed_items(), ids(&["a", "b", "d"]));
    assert_eq!(batch.result(), Err(BatchError::TaskProcessing { failed: ids(&["a", "b", "d"]) }));
}

fn run_download(title: &str, fetch_works: bool, registry: &mut TempFileRegistry) -> (Outcome, usize, Vec<u64>) {
    let target = ResolvedTarget {
        display_name: title.to_string(),
        owner: "owner".to_string(),
        source_locator: format!("https://cdn.example/{}", title),
    };
    let mut download = Download::new(target, 3);
    let mut fetches = 0;
    let mut sleeps = Vec::new();
    let mut action = download.step(Event::Started, registry);
    loop {
        let event = match action {
            Some(Action::Fetch) => {
                fetches += 1;
                if fetch_works { Event::FetchSucceeded } else { Event::FetchFailed }
            }
            Some(Action::ReadBody) => Event::BodyRead,
            Some(Action::Write) => Event::Written,
            Some(Action::Rename) => Event::Renamed,
            Some(Action::Discard) => Event::Discarded,
            Some(Action::Sleep { seconds }) => {
                sleeps.push(seconds);
                Event::BackoffElapsed
            }
            Some(Action::Finish(outcome)) => return (outcome, fetches, sleeps),
            None => panic!("the download refused an event"),
        };
        action = download.step(event, registry);
    }
}

#[test]
fn one_failing_item_of_five() {
    let names = ["item1", "item2", "item3", "item4", "item5"];
    let mut batch = Batch::new(ids(&names), 50).unwrap();
    let mut registry = TempFileRegistry::new();
    let mut files_created = 0;
    while let Some(index) = batch.start_next() {
        let name = batch.item(index).to_string();
        let (outcome, fetches, sleeps) = run_download(&name, name != "item3", &mut registry);
        if name == "item3" {
            assert_eq!(fetches, 4);
            assert_eq!(sleeps, vec![1, 2, 4]);
            assert_eq!(outcome, Outcome::failure(FailureReason::Network));
        } else {
            assert_eq!(fetches, 1);
            assert!(sleeps.is_empty());
            assert_eq!(outcome, Outcome::Success);
            files_created += 1;
        }
        assert!(batch.complete(index, outcome));
    }
    assert!(batch.is_finished());
    assert_eq!(files_created, 4);
    assert_eq!(batch.failed_items(), ids(&["item3"]));
    assert_eq!(batch.result(), Err(BatchError::TaskProcessing { failed: ids(&["item3"]) }));
    assert!(registry.drain().is_empty());
}

#[test]
fn every_item_succeeds_or_is_listed() {
    let names = ["a", "b", "c", "d", "e", "f"];
    let mut batch = Batch::new(ids(&names), 2).unwrap();
    let mut running = Vec::new();
    while !batch.is_finished() {
        while let Some(index) = batch.start_next() {
            running.push(index);
        }
        let index = running.remove(0);
        let outcome = if index % 3 == 0 { Outcome::failure(FailureReason::Io) } else { Outcome::Success };
        assert!(batch.complete(index, outcome));
    }
    let failed = batch.failed_items();
    for (index, name) in names.iter().enumerate() {
        let succeeded = batch.state(index) == ItemState::Finished(Outcome::Success);
        let listed = failed.contains(&name.to_string());
        assert!(succeeded != listed);
    }
    assert_eq!(failed, ids(&["a", "d"]));
}

#[test]
fn failure_report_lists_the_identifiers() {
    assert_eq!(
        bicat::batch::failure_report(&ids(&["BV1", "BV2"])),
        "\nFailed to download audio for BVIDs: BV1 BV2\nuse the \"bicat -b\" command to try again\n"
    );
    assert_eq!(
        bicat::batch::failure_report(&ids(&["item3"])),
        "\nFailed to download audio for BVIDs: item3\nuse the \"bicat -b\" command to try again\n"
    );
    assert_eq!(bicat::resolver::REQUEST_TIMEOUT_SECONDS, 30);
}
