//! What the caller asked for, and the working directory of a collection.

use crate::batch::BatchError;
use crate::resolver::ResolutionError;
use vstd::prelude::*;

verus! {

/// What is to be downloaded.
#[derive(Debug, PartialEq, Eq)]
pub enum Selection {
    /// These items.
    Items(Vec<String>),
    /// The items of this collection, into a directory of its name.
    Collection(String),
}

/// Reads the request: single items or one collection, not both. A request
/// that names neither has nothing to fetch.
pub fn select_input(collection: Option<String>, items: Option<Vec<String>>) -> (selected: Result<
    Selection,
    BatchError,
>)
    ensures
        match (collection, items) {
            (None, Some(ids)) => selected matches Ok(Selection::Items(chosen)) && chosen == ids,
            (Some(id), None) => selected matches Ok(Selection::Collection(chosen)) && chosen == id,
            (Some(_), Some(_)) => selected matches Err(BatchError::InvalidInput),
            (None, None) => selected matches Err(BatchError::DataFetch),
        },
{
    match (collection, items) {
        (None, Some(ids)) => Ok(Selection::Items(ids)),
        (Some(id), None) => Ok(Selection::Collection(id)),
        (Some(_), Some(_)) => Err(BatchError::InvalidInput),
        (None, None) => Err(BatchError::DataFetch),
    }
}

/// The items of a collection as the batch takes them: a collection that could
/// not be found, or that lists nothing, has nothing to fetch; any other failure
/// of the lookup is passed on.
pub fn collection_selection(looked_up: Result<Vec<String>, ResolutionError>) -> (items: Result<
    Vec<String>,
    BatchError,
>)
    ensures
        match looked_up {
            Ok(ids) => if ids@.len() == 0 {
                items matches Err(BatchError::DataFetch)
            } else {
                items matches Ok(chosen) && chosen == ids
            },
            Err(ResolutionError::NotFound) => items matches Err(BatchError::DataFetch),
            Err(error) => items matches Err(BatchError::Resolution(e)) && e == error,
        },
{
    match looked_up {
        Ok(ids) => {
            if ids.len() == 0 {
                Err(BatchError::DataFetch)
            } else {
                Ok(ids)
            }
        },
        Err(ResolutionError::NotFound) => Err(BatchError::DataFetch),
        Err(error) => Err(BatchError::Resolution(error)),
    }
}

/// Whether a character is white space: the characters with the Unicode
/// property `White_Space`. These are the controls from the tab to the carriage
/// return, the space, the next-line control, the no-break space, the ogham
/// space mark, the spaces from the en quad to the hair space, the line and the
/// paragraph separator, the narrow no-break space, the medium mathematical
/// space and the ideographic space.
pub open spec fn is_space(c: char) -> bool {
    ||| '\u{9}' <= c <= '\u{d}'
    ||| c == ' '
    ||| c == '\u{85}'
    ||| c == '\u{a0}'
    ||| c == '\u{1680}'
    ||| '\u{2000}' <= c <= '\u{200a}'
    ||| c == '\u{2028}'
    ||| c == '\u{2029}'
    ||| c == '\u{202f}'
    ||| c == '\u{205f}'
    ||| c == '\u{3000}'
}

/// `char::is_whitespace`: whether the character has the Unicode property
/// `White_Space`.
pub assume_specification[ char::is_whitespace ](c: char) -> (yes: bool)
    ensures
        yes == is_space(c),
;

/// The letter that confirms, in either case.
pub open spec fn is_yes_char(c: char) -> bool {
    c == 'y' || c == 'Y'
}

/// The answer is the confirming letter, white space before and after it aside.
pub open spec fn says_yes(answer: Seq<char>) -> bool {
    exists|i: int|
        0 <= i < answer.len() && is_yes_char(#[trigger] answer[i]) && forall|j: int|
            0 <= j < answer.len() && j != i ==> is_space(#[trigger] answer[j])
}

/// Whether `answer`, a line as the user typed it, confirms.
pub fn confirms(answer: &str) -> (yes: bool)
    ensures
        yes == says_yes(answer@),
{
    broadcast use vstd::string::axiom_spec_iter;

    let mut found: bool = false;
    let mut spoiled: bool = false;
    let ghost mut at: int = 0;
    let ghost mut first: int = 0;
    let ghost mut second: int = 0;
    for c in it: answer.chars()
        invariant
            it.seq() == answer@,
            !spoiled && found ==> 0 <= at < it.index() && is_yes_char(answer@[at]),
            !spoiled ==> forall|j: int|
                0 <= j < it.index() && !(found && j == at) ==> is_space(#[trigger] answer@[j]),
            spoiled ==> 0 <= first <= second < it.index() && !is_space(answer@[first]) && !is_space(
                answer@[second],
            ) && (first == second ==> !is_yes_char(answer@[first])),
    {
        let ghost here = it.index();
        if c == 'y' || c == 'Y' {
            if found && !spoiled {
                proof {
                    first = at;
                    second = here;
                }
                spoiled = true;
            } else if !spoiled {
                proof {
                    at = here;
                }
                found = true;
            }
        } else if !c.is_whitespace() {
            if !spoiled {
                proof {
                    first = here;
                    second = here;
                }
                spoiled = true;
            }
        }
    }
    proof {
        if spoiled {
            assert forall|i: int| 0 <= i < answer@.len() && is_yes_char(#[trigger] answer@[i]) implies !(
            forall|j: int| 0 <= j < answer@.len() && j != i ==> is_space(#[trigger] answer@[j])) by {
                if first != i {
                    assert(!is_space(answer@[first]));
                } else {
                    assert(!is_space(answer@[second]));
                }
            }
        } else if found {
            assert(is_yes_char(answer@[at]));
        } else {
            assert forall|i: int| 0 <= i < answer@.len() implies !is_yes_char(#[trigger] answer@[i]) by {
                assert(is_space(answer@[i]));
            }
        }
    }
    found && !spoiled
}

/// Where the preparation of a collection's working directory stands.
#[derive(Clone, Copy, Debug, PartialEq, Eq, Structural)]
pub enum SetupPhase {
    /// Looking whether the directory is there already.
    Probing,
    /// It is there; the user is being asked whether to replace it.
    Asking,
    /// The user has confirmed; the old directory is being removed.
    Removing,
    /// The directory is being created.
    Creating,
    /// The directory is being made the working directory.
    Entering,
    /// The preparation is over.
    Finished(SetupResult),
}

/// How the preparation ended.
#[derive(Clone, Copy, Debug, PartialEq, Eq, Structural)]
pub enum SetupResult {
    /// The directory is new, empty, and the working directory.
    Entered,
    /// The directory exists and the user did not agree to replace it.
    AlreadyExists,
    /// The file system, or the terminal, refused.
    IoFailure,
}

/// What the caller reports back.
#[derive(Clone, Copy, Debug, PartialEq, Eq, Structural)]
pub enum SetupEvent {
    /// The directory is there.
    Exists,
    /// The directory is not there.
    Absent,
    /// The user has answered, confirming or not.
    Answered { confirmed: bool },
    /// What was asked for has been done.
    Done,
    /// What was asked for could not be done.
    Failed,
}

/// What the caller is to do next.
#[derive(Clone, Copy, Debug, PartialEq, Eq, Structural)]
pub enum SetupAction {
    /// Ask the user whether to replace the directory, and read one line.
    Ask,
    /// Remove the directory with all that is in it.
    Remove,
    /// Create the directory.
    Create,
    /// Make the directory the working directory.
    Enter,
    /// Nothing more.
    Finish(SetupResult),
}

/// The transition relation of the preparation, or `None` where `event` is no
/// answer to what it is waiting for.
pub open spec fn setup_next(phase: SetupPhase, event: SetupEvent) -> Option<
    (SetupPhase, SetupAction),
> {
    match (phase, event) {
        (SetupPhase::Probing, SetupEvent::Absent) => Some(
            (SetupPhase::Creating, SetupAction::Create),
        ),
        (SetupPhase::Probing, SetupEvent::Exists) => Some((SetupPhase::Asking, SetupAction::Ask)),
        (SetupPhase::Asking, SetupEvent::Answered { confirmed }) => if confirmed {
            Some((SetupPhase::Removing, SetupAction::Remove))
        } else {
            Some(setup_end(SetupResult::AlreadyExists))
        },
        (SetupPhase::Asking, SetupEvent::Failed) => Some(setup_end(SetupResult::IoFailure)),
        (SetupPhase::Removing, SetupEvent::Done) => Some(
            (SetupPhase::Creating, SetupAction::Create),
        ),
        (SetupPhase::Removing, SetupEvent::Failed) => Some(setup_end(SetupResult::IoFailure)),
        (SetupPhase::Creating, SetupEvent::Done) => Some(
            (SetupPhase::Entering, SetupAction::Enter),
        ),
        (SetupPhase::Creating, SetupEvent::Failed) => Some(setup_end(SetupResult::IoFailure)),
        (SetupPhase::Entering, SetupEvent::Done) => Some(setup_end(SetupResult::Entered)),
        (SetupPhase::Entering, SetupEvent::Failed) => Some(setup_end(SetupResult::IoFailure)),
        _ => None,
    }
}

/// The end of the preparation with `result`.
pub open spec fn setup_end(result: SetupResult) -> (SetupPhase, SetupAction) {
    (SetupPhase::Finished(result), SetupAction::Finish(result))
}

/// Takes in what happened while the working directory is prepared and says
/// what to do next. The preparation starts in `SetupPhase::Probing`, with the
/// caller looking whether the directory exists.
pub fn setup_step(phase: SetupPhase, event: SetupEvent) -> (step: Option<(SetupPhase, SetupAction)>)
    ensures
        step == setup_next(phase, event),
{
    let failed = Some(
        (SetupPhase::Finished(SetupResult::IoFailure), SetupAction::Finish(SetupResult::IoFailure)),
    );
    match (phase, event) {
        (SetupPhase::Probing, SetupEvent::Absent) => Some(
            (SetupPhase::Creating, SetupAction::Create),
        ),
        (SetupPhase::Probing, SetupEvent::Exists) => Some((SetupPhase::Asking, SetupAction::Ask)),
        (SetupPhase::Asking, SetupEvent::Answered { confirmed: true }) => Some(
            (SetupPhase::Removing, SetupAction::Remove),
        ),
        (SetupPhase::Asking, SetupEvent::Answered { confirmed: false }) => Some(
            (
                SetupPhase::Finished(SetupResult::AlreadyExists),
                SetupAction::Finish(SetupResult::AlreadyExists),
            ),
        ),
        (SetupPhase::Asking, SetupEvent::Failed) => failed,
        (SetupPhase::Removing, SetupEvent::Done) => Some(
            (SetupPhase::Creating, SetupAction::Create),
        ),
        (SetupPhase::Removing, SetupEvent::Failed) => failed,
        (SetupPhase::Creating, SetupEvent::Done) => Some(
            (SetupPhase::Entering, SetupAction::Enter),
        ),
        (SetupPhase::Creating, SetupEvent::Failed) => failed,
        (SetupPhase::Entering, SetupEvent::Done) => Some(
            (SetupPhase::Finished(SetupResult::Entered), SetupAction::Finish(SetupResult::Entered)),
        ),
        (SetupPhase::Entering, SetupEvent::Failed) => failed,
        _ => None,
    }
}

/// What is there is removed only once the user has confirmed, and a directory
/// is entered only after it has been created anew.
pub proof fn lemma_setup_is_careful(phase: SetupPhase, event: SetupEvent)
    ensures
        setup_next(phase, event) matches Some((after, action)) ==> {
            &&& (action is Remove <==> phase is Asking && event == SetupEvent::Answered {
                confirmed: true,
            })
            &&& (action is Enter <==> phase is Creating && event is Done)
            &&& (after == SetupPhase::Finished(SetupResult::Entered) <==> phase is Entering
                && event is Done)
            &&& (action is Create ==> phase is Probing && event is Absent || phase is Removing
                && event is Done)
        },
{
}

} // verus!
