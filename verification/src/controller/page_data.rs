//! From a revision to the page that shows it.

use super::{EvalPageData, PageDataView};
use crate::repository::playground_record::{
    PlaygroundRecordPageState, PlaygroundRecordRevision, RevisionView,
};
use vstd::prelude::*;

verus! {

/// The sum of the two counts, or the largest count where the sum is larger.
pub open spec fn diagnostic_count_of(error_count: u32, warning_count: u32) -> u32 {
    if error_count + warning_count > u32::MAX {
        u32::MAX
    } else {
        (error_count + warning_count) as u32
    }
}

/// The title of the page of a revision: `Error` if the execution service
/// failed, else the name of the stream that the page state asks for. The
/// reserved page state has no stream and is titled `Error` as well.
pub open spec fn page_title(revision: RevisionView, page_state: PlaygroundRecordPageState) -> Seq<
    char,
> {
    if revision.content.playground_error.len() > 0 {
        "Error"@
    } else {
        match page_state {
            PlaygroundRecordPageState::Output => "Output"@,
            PlaygroundRecordPageState::Stderr => "Stderr"@,
            PlaygroundRecordPageState::Miri => "Error"@,
        }
    }
}

/// The content of the page of a revision: the error of the execution
/// service if it failed, else the stream that the page state asks for.
pub open spec fn page_content(
    revision: RevisionView,
    page_state: PlaygroundRecordPageState,
) -> Seq<char> {
    if revision.content.playground_error.len() > 0 {
        revision.content.playground_error
    } else {
        match page_state {
            PlaygroundRecordPageState::Output => revision.content.result_stdout,
            PlaygroundRecordPageState::Stderr => revision.content.result_stderr,
            PlaygroundRecordPageState::Miri => revision.content.playground_error,
        }
    }
}

/// The page that shows a revision in a page state.
pub open spec fn page_data_of(
    revision: RevisionView,
    page_state: PlaygroundRecordPageState,
) -> PageDataView {
    PageDataView {
        perma_link: revision.content.perma_link,
        has_warning: revision.content.warning_count > 0,
        has_error: !revision.content.result_success,
        has_fatal_error: revision.content.playground_error.len() > 0,
        diagnostic_count: diagnostic_count_of(
            revision.content.error_count,
            revision.content.warning_count,
        ),
        revision: revision.record_revision_count,
        revision_id: revision.revision_id,
        title: page_title(revision, page_state),
        content: page_content(revision, page_state),
    }
}

/// Builds the page that shows a revision in a page state.
pub fn build_page_data(
    revision: PlaygroundRecordRevision,
    page_state: PlaygroundRecordPageState,
) -> (data: EvalPageData)
    ensures
        data@ == page_data_of(revision@, page_state),
{
    let fatal = !revision.playground_error.as_str().is_empty();
    let mut data = EvalPageData {
        perma_link: revision.perma_link,
        has_warning: revision.warning_count > 0,
        has_error: !revision.result_success,
        has_fatal_error: fatal,
        diagnostic_count: revision.error_count.saturating_add(revision.warning_count),
        revision: revision.record_revision_count,
        revision_id: revision.revision_id.get(),
        title: "",
        content: String::new(),
    };
    if fatal {
        data.title = "Error";
        data.content = revision.playground_error;
    } else {
        match page_state {
            PlaygroundRecordPageState::Output => {
                data.title = "Output";
                data.content = revision.result_stdout;
            },
            PlaygroundRecordPageState::Stderr => {
                data.title = "Stderr";
                data.content = revision.result_stderr;
            },
            PlaygroundRecordPageState::Miri => {
                data.title = "Error";
                data.content = revision.playground_error;
            },
        }
    }
    data
}

} // verus!
