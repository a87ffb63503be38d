//! Showing another stream of a result.

use super::page_data::{build_page_data, page_data_of};
use super::{EvalPageState, ShowEvalOutputResponse};
use crate::repository::playground_record::{PlaygroundRecordPageState, PlaygroundRecordRevision};
use crate::repository::RepositoryResult;
use vstd::prelude::*;

verus! {

/// The page state of a record that shows what the user asked for.
pub open spec fn requested_page_state(page_state: EvalPageState) -> PlaygroundRecordPageState {
    match page_state {
        EvalPageState::Output => PlaygroundRecordPageState::Output,
        EvalPageState::Build => PlaygroundRecordPageState::Stderr,
    }
}

/// The page state of a record that shows what the user asked for.
pub fn page_state_for(page_state: EvalPageState) -> (res: PlaygroundRecordPageState)
    ensures
        res == requested_page_state(page_state),
{
    match page_state {
        EvalPageState::Output => PlaygroundRecordPageState::Output,
        EvalPageState::Build => PlaygroundRecordPageState::Stderr,
    }
}

/// The message that a user gets when the revision could not be looked up.
pub open spec fn lookup_failed_text() -> Seq<char> {
    "Error lookup eval record"@
}

/// The answer to a request for another page state, from what the store
/// said: the page if it handed back the revision, a refusal if it handed
/// back nothing, and a message without detail if it failed.
pub fn show_eval_output_response(
    found: RepositoryResult<Option<PlaygroundRecordRevision>>,
    page_state: PlaygroundRecordPageState,
) -> (res: ShowEvalOutputResponse)
    ensures
        match found {
            Ok(Some(revision)) => res matches ShowEvalOutputResponse::Shown(data) && data@
                == page_data_of(revision@, page_state),
            Ok(None) => res is SenderMismatch,
            Err(_) => res matches ShowEvalOutputResponse::Failed(text) && text@
                == lookup_failed_text(),
        },
{
    match found {
        Ok(Some(revision)) => ShowEvalOutputResponse::Shown(
            build_page_data(revision, page_state),
        ),
        Ok(None) => ShowEvalOutputResponse::SenderMismatch,
        Err(_) => ShowEvalOutputResponse::Failed(String::from_str("Error lookup eval record")),
    }
}

} // verus!
