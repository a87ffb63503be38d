//! The permalink of a revision: read if there is one, made if there is none.

use super::page_data::{build_page_data, page_data_of};
use super::GetEvalLinkResponse;
use crate::repository::playground_record::{
    PlaygroundRecordPageState, PlaygroundRecordRevision, RevisionContent, RevisionView,
};
use crate::repository::RepositoryResult;
use crate::service::playground::PlaygroundResult;
use vstd::prelude::*;

verus! {

/// A revision that has no permalink yet, with the page state of its record.
#[derive(Debug, Clone, PartialEq, Eq)]
pub struct PendingLink {
    pub revision: PlaygroundRecordRevision,
    pub page_state: PlaygroundRecordPageState,
}

/// How far a request for a permalink has come.
#[derive(Debug, Clone, PartialEq, Eq)]
pub enum EvalLinkStep {
    /// The request is answered.
    Done(GetEvalLinkResponse),
    /// The revision has no permalink: the caller has one made for its
    /// source and hands it to the next step.
    Generate(PendingLink),
}

/// The message that a user gets when the revision could not be read.
pub open spec fn get_failed_text() -> Seq<char> {
    "Error getting revision"@
}

/// The message that a user gets when no permalink could be made.
pub open spec fn generate_failed_text() -> Seq<char> {
    "Error generating link"@
}

/// A revision with a permalink in place of whatever it had.
pub open spec fn with_perma_link(revision: RevisionView, perma_link: Seq<char>) -> RevisionView {
    RevisionView {
        content: RevisionContent { perma_link: Some(perma_link), ..revision.content },
        ..revision
    }
}

/// Whether `step` is what follows on what the store said of a revision:
/// nothing found ends the request, a permalink is shown at once, none asks
/// for one to be made, and a failure of the store gives a message without
/// detail.
pub open spec fn follows_lookup(
    found: RepositoryResult<Option<(PlaygroundRecordRevision, PlaygroundRecordPageState)>>,
    step: EvalLinkStep,
) -> bool {
    match found {
        Err(_) => step matches EvalLinkStep::Done(GetEvalLinkResponse::Failed(text)) && text@
            == get_failed_text(),
        Ok(None) => step == EvalLinkStep::Done(GetEvalLinkResponse::NotFound),
        Ok(Some((revision, page_state))) => if revision@.content.perma_link is Some {
            step matches EvalLinkStep::Done(GetEvalLinkResponse::Shown(data)) && data@
                == page_data_of(revision@, page_state)
        } else {
            step matches EvalLinkStep::Generate(pending) && pending.revision@ == revision@
                && pending.page_state == page_state
        },
    }
}

/// The next step of a request for a permalink, from what the store said.
pub fn eval_link_step(
    found: RepositoryResult<Option<(PlaygroundRecordRevision, PlaygroundRecordPageState)>>,
) -> (step: EvalLinkStep)
    ensures
        follows_lookup(found, step),
{
    match found {
        Err(_) => EvalLinkStep::Done(
            GetEvalLinkResponse::Failed(String::from_str("Error getting revision")),
        ),
        Ok(None) => EvalLinkStep::Done(GetEvalLinkResponse::NotFound),
        Ok(Some((revision, page_state))) => {
            if revision.perma_link.is_some() {
                EvalLinkStep::Done(
                    GetEvalLinkResponse::Shown(build_page_data(revision, page_state)),
                )
            } else {
                EvalLinkStep::Generate(PendingLink { revision, page_state })
            }
        },
    }
}

/// The answer to a request for a permalink once the caller has tried to
/// have one made: the page with the permalink, or a message without detail.
pub fn eval_link_response(pending: PendingLink, generated: PlaygroundResult<String>) -> (res:
    GetEvalLinkResponse)
    ensures
        match generated {
            Ok(link) => res matches GetEvalLinkResponse::Shown(data) && data@ == page_data_of(
                with_perma_link(pending.revision@, link@),
                pending.page_state,
            ),
            Err(_) => res matches GetEvalLinkResponse::Failed(text) && text@
                == generate_failed_text(),
        },
{
    match generated {
        Ok(link) => {
            let mut revision = pending.revision;
            revision.perma_link = Some(link);
            GetEvalLinkResponse::Shown(build_page_data(revision, pending.page_state))
        },
        Err(_) => GetEvalLinkResponse::Failed(String::from_str("Error generating link")),
    }
}

} // verus!
