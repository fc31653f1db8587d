use bicat::batch::BatchError;
use bicat::input::{
    confirms, select_input, setup_step, Selection, SetupAction, SetupEvent, SetupPhase, SetupResult,
};

#[test]
fn items_or_a_collection() {
    assert_eq!(
        select_input(None, Some(vec!["BV1".to_string(), "BV2".to_string()])),
        Ok(Selection::Items(vec!["BV1".to_string(), "BV2".to_string()]))
    );
    assert_eq!(
        select_input(Some("42".to_string()), None),
        Ok(Selection::Collection("42".to_string()))
    );
}

#[test]
fn neither_or_both_is_an_error() {
    assert_eq!(select_input(None, None), Err(BatchError::DataFetch));
    assert_eq!(
        select_input(Some("42".to_string()), Some(vec!["BV1".to_string()])),
        Err(BatchError::InvalidInput)
    );
}

#[test]
fn the_letter_y_confirms() {
    assert!(confirms("y"));
    assert!(confirms("Y"));
    assert!(confirms("y\n"));
    assert!(confirms("  y \r\n"));
    assert!(confirms("\tY\t"));
    assert!(confirms("\u{3000}y\u{a0}"));
}

#[test]
fn anything_else_does_not_confirm() {
    assert!(!confirms(""));
    assert!(!confirms("\n"));
    assert!(!confirms("n"));
    assert!(!confirms("yes"));
    assert!(!confirms("yy"));
    assert!(!confirms("y y"));
    assert!(!confirms("y.\n"));
    assert!(!confirms("ny"));
    assert!(!confirms("-y"));
    assert!(!confirms("\u{ff59}"));
}

fn walk(events: &[SetupEvent]) -> (SetupPhase, Vec<SetupAction>) {
    let mut phase = SetupPhase::Probing;
    let mut actions = Vec::new();
    for event in events {
        let (next, action) = setup_step(phase, *event).unwrap();
        phase = next;
        actions.push(action);
    }
    (phase, actions)
}

#[test]
fn a_new_directory_is_created_and_entered() {
    let (phase, actions) = walk(&[SetupEvent::Absent, SetupEvent::Done, SetupEvent::Done]);
    assert_eq!(phase, SetupPhase::Finished(SetupResult::Entered));
    assert_eq!(
        actions,
        vec![SetupAction::Create, SetupAction::Enter, SetupAction::Finish(SetupResult::Entered)]
    );
}

#[test]
fn an_existing_directory_is_replaced_when_confirmed() {
    let (phase, actions) = walk(&[
        SetupEvent::Exists,
        SetupEvent::Answered { confirmed: true },
        SetupEvent::Done,
        SetupEvent::Done,
        SetupEvent::Done,
    ]);
    assert_eq!(phase, SetupPhase::Finished(SetupResult::Entered));
    assert_eq!(
        actions,
        vec![
            SetupAction::Ask,
            SetupAction::Remove,
            SetupAction::Create,
            SetupAction::Enter,
            SetupAction::Finish(SetupResult::Entered)
        ]
    );
}

#[test]
fn an_existing_directory_is_kept_when_not_confirmed() {
    let (phase, actions) = walk(&[SetupEvent::Exists, SetupEvent::Answered { confirmed: false }]);
    assert_eq!(phase, SetupPhase::Finished(SetupResult::AlreadyExists));
    assert_eq!(actions, vec![SetupAction::Ask, SetupAction::Finish(SetupResult::AlreadyExists)]);
}

#[test]
fn a_failure_ends_the_setup() {
    let failed = SetupPhase::Finished(SetupResult::IoFailure);
    assert_eq!(walk(&[SetupEvent::Exists, SetupEvent::Failed]).0, failed);
    assert_eq!(
        walk(&[SetupEvent::Exists, SetupEvent::Answered { confirmed: true }, SetupEvent::Failed]).0,
        failed
    );
    assert_eq!(walk(&[SetupEvent::Absent, SetupEvent::Failed]).0, failed);
    assert_eq!(walk(&[SetupEvent::Absent, SetupEvent::Done, SetupEvent::Failed]).0, failed);
}

#[test]
fn setup_refuses_events_out_of_turn() {
    assert_eq!(setup_step(SetupPhase::Probing, SetupEvent::Done), None);
    assert_eq!(setup_step(SetupPhase::Probing, SetupEvent::Failed), None);
    assert_eq!(setup_step(SetupPhase::Probing, SetupEvent::Answered { confirmed: true }), None);
    assert_eq!(setup_step(SetupPhase::Asking, SetupEvent::Done), None);
    assert_eq!(setup_step(SetupPhase::Creating, SetupEvent::Exists), None);
    assert_eq!(setup_step(SetupPhase::Removing, SetupEvent::Absent), None);
    for result in [SetupResult::Entered, SetupResult::AlreadyExists, SetupResult::IoFailure] {
        for event in [SetupEvent::Exists, SetupEvent::Absent, SetupEvent::Done, SetupEvent::Failed] {
            assert_eq!(setup_step(SetupPhase::Finished(result), event), None);
        }
    }
}

fn listed_as_white_space(c: char) -> bool {
    matches!(
        c,
        '\u{9}'..='\u{d}'
            | ' '
            | '\u{85}'
            | '\u{a0}'
            | '\u{1680}'
            | '\u{2000}'..='\u{200a}'
            | '\u{2028}'
            | '\u{2029}'
            | '\u{202f}'
            | '\u{205f}'
            | '\u{3000}'
    )
}

#[test]
fn white_space_is_the_listed_set() {
    let mut count = 0;
    for c in '\0'..=char::MAX {
        assert_eq!(c.is_whitespace(), listed_as_white_space(c), "{:?}", c);
        if c.is_whitespace() {
            count += 1;
        }
    }
    assert_eq!(count, 25);
}

#[test]
fn only_white_space_may_stand_around_the_letter() {
    let mut line = String::new();
    for c in '\0'..=char::MAX {
        line.clear();
        line.push(c);
        line.push('y');
        line.push(c);
        assert_eq!(confirms(&line), listed_as_white_space(c), "{:?}", c);
    }
}
