//! The end of a wait: from the outcome of a run to what is stored and shown.

use super::page_data::{build_page_data, page_data_of};
use super::{Controller, EvalOutcome, EvalResultResponse, PendingEval, WaitForEvalResult};
use crate::repository::laws::{law_superseded_result_is_outdated, Submission};
use crate::repository::model::StoreModel;
use crate::repository::playground_record::{
    CreateRevisionUpsertRecordResult, PlaygroundRecordPageState, PlaygroundRecordRevision,
    PlaygroundRecordRevisionId, RevisionContent, RevisionView,
};
use crate::repository::RepositoryResult;
use crate::service::playground::{
    playground_error_text, ExecuteResultView, PlaygroundExecuteResult, PlaygroundResult,
};
use crate::text::{chars_of, has_prefix_at, starts_with_at};
use crate::repository::playground_record::IPlaygroundRecordRepository;
use vstd::prelude::*;

verus! {

/// Whether a line of `text` begins at the position `at`: at the very
/// beginning or after a line feed, and before the end.
pub open spec fn starts_line(text: Seq<char>, at: int) -> bool {
    0 <= at < text.len() && (at == 0 || text[at - 1] == '\n')
}

/// How many lines of `text` that begin before the position `upto` begin
/// with `prefix`.
pub open spec fn count_lines_starting(text: Seq<char>, prefix: Seq<char>, upto: int) -> nat
    decreases upto,
{
    if upto <= 0 {
        0
    } else {
        count_lines_starting(text, prefix, upto - 1) + if starts_line(text, upto - 1)
            && has_prefix_at(text, upto - 1, prefix) {
            1nat
        } else {
            0nat
        }
    }
}

/// How many lines of `text` begin with `prefix`.
pub open spec fn lines_starting_with(text: Seq<char>, prefix: Seq<char>) -> nat {
    count_lines_starting(text, prefix, text.len() as int)
}

/// A count as it is stored: itself, or the largest number that fits.
pub open spec fn stored_count(count: nat) -> u32 {
    if count > u32::MAX {
        u32::MAX
    } else {
        count as u32
    }
}

/// The number of errors that a diagnostic stream reports: the lines that
/// begin with `error:`, less one if there are several, since the last of
/// them then sums the others up.
pub open spec fn error_count_of(stderr: Seq<char>) -> u32 {
    let lines = lines_starting_with(stderr, "error:"@);
    stored_count(
        if lines > 1 {
            (lines - 1) as nat
        } else {
            lines
        },
    )
}

/// The number of warnings that a diagnostic stream reports: the lines that
/// begin with `warning:`.
pub open spec fn warning_count_of(stderr: Seq<char>) -> u32 {
    stored_count(lines_starting_with(stderr, "warning:"@))
}

/// How many lines of `text` begin with `prefix`.
fn count_lines(text: &Vec<char>, prefix: &Vec<char>) -> (count: usize)
    ensures
        count == lines_starting_with(text@, prefix@),
{
    let mut count: usize = 0;
    let mut at: usize = 0;
    while at < text.len()
        invariant
            at <= text.len(),
            count == count_lines_starting(text@, prefix@, at as int),
            count <= at,
        decreases text.len() - at,
    {
        let begins = at == 0 || text[at - 1] == '\n';
        if begins && starts_with_at(text, at, prefix) {
            count += 1;
        }
        at += 1;
    }
    count
}

fn store_count(count: usize) -> (stored: u32)
    ensures
        stored == stored_count(count as nat),
{
    if count > 0xffff_ffff {
        0xffff_ffff
    } else {
        count as u32
    }
}

/// Counts the errors and the warnings that a diagnostic stream reports;
/// the errors come first.
pub fn count_diagnostics(stderr: &str) -> (counts: (u32, u32))
    ensures
        counts.0 == error_count_of(stderr@),
        counts.1 == warning_count_of(stderr@),
{
    let text = chars_of(stderr);
    let errors = count_lines(&text, &chars_of("error:"));
    let warnings = count_lines(&text, &chars_of("warning:"));
    let errors = if errors > 1 {
        errors - 1
    } else {
        errors
    };
    (store_count(errors), store_count(warnings))
}

/// The content of a revision whose run the execution service could not
/// make: the source and the error.
pub open spec fn failed_content(rendered_code: Seq<char>, error: Seq<char>) -> RevisionContent {
    RevisionContent { playground_error: error, ..RevisionContent::pending(rendered_code) }
}

/// The content of a revision whose run has finished: the source, the result
/// and the counts of its diagnostics.
pub open spec fn finished_content(
    rendered_code: Seq<char>,
    result: ExecuteResultView,
) -> RevisionContent {
    RevisionContent {
        perma_link: None,
        rendered_code,
        warning_count: warning_count_of(result.result_stderr),
        error_count: error_count_of(result.result_stderr),
        result_success: result.result_success,
        result_code: result.result_code,
        result_exit_detail: result.result_exit_detail,
        result_stdout: result.result_stdout,
        result_stderr: result.result_stderr,
        playground_error: Seq::empty(),
    }
}

/// The content of a revision after the call of the execution service has
/// returned.
pub open spec fn completed_content(
    rendered_code: Seq<char>,
    run: PlaygroundResult<PlaygroundExecuteResult>,
) -> RevisionContent {
    match run {
        Ok(result) => finished_content(rendered_code, result@),
        Err(error) => failed_content(rendered_code, playground_error_text(error)),
    }
}

/// The page state in which a result is first shown: the diagnostics if the
/// program printed nothing, else the page state of the record.
pub open spec fn first_page_state(
    content: RevisionContent,
    carried: PlaygroundRecordPageState,
) -> PlaygroundRecordPageState {
    if content.result_stdout.len() == 0 {
        PlaygroundRecordPageState::Stderr
    } else {
        carried
    }
}

/// The revision that a finished wait writes into the store.
pub open spec fn completed_revision_of(
    pending: PendingEval,
    run: PlaygroundResult<PlaygroundExecuteResult>,
) -> RevisionView {
    RevisionView {
        revision_id: pending.revision_id,
        record_revision_count: 0,
        content: completed_content(pending.rendered_code, run),
    }
}

/// The store after a wait has ended: as it was if the wait was cancelled,
/// else with the result written into the revision.
pub open spec fn store_after_wait(
    before: StoreModel,
    pending: PendingEval,
    outcome: EvalOutcome,
) -> StoreModel {
    match outcome {
        EvalOutcome::Cancelled => before,
        EvalOutcome::Finished(run) => before.commit(completed_revision_of(pending, run)),
    }
}

/// Whether `res` is the answer to a wait that has ended: `Cancelled` for a
/// cancelled wait; for a finished one the page of the result if the revision
/// was still the current one of its record, and `RequestOutdated` if not.
pub open spec fn answers_wait(
    before: StoreModel,
    pending: PendingEval,
    outcome: EvalOutcome,
    res: EvalResultResponse,
) -> bool {
    match outcome {
        EvalOutcome::Cancelled => res is Cancelled,
        EvalOutcome::Finished(run) => {
            let revision = completed_revision_of(pending, run);
            if before.is_latest(pending.revision_id) {
                res matches EvalResultResponse::Shown(data) && data@ == page_data_of(
                    RevisionView {
                        record_revision_count: before.revision_count(
                            before.owner(pending.revision_id),
                        ),
                        ..revision
                    },
                    first_page_state(revision.content, pending.page_state),
                )
            } else {
                res is RequestOutdated
            }
        },
    }
}

/// The revision to store once the call of the execution service has
/// returned.
pub fn completed_revision(
    revision_id: PlaygroundRecordRevisionId,
    rendered_code: String,
    run: PlaygroundResult<PlaygroundExecuteResult>,
) -> (revision: PlaygroundRecordRevision)
    ensures
        revision@ == (RevisionView {
            revision_id: revision_id@,
            record_revision_count: 0,
            content: completed_content(rendered_code@, run),
        }),
{
    match run {
        Err(error) => {
            let mut revision = PlaygroundRecordRevision::pending(revision_id, rendered_code);
            revision.playground_error = error.to_string();
            revision
        },
        Ok(result) => {
            let (error_count, warning_count) = count_diagnostics(result.result_stderr.as_str());
            let mut revision = PlaygroundRecordRevision::pending(revision_id, rendered_code);
            revision.warning_count = warning_count;
            revision.error_count = error_count;
            revision.result_success = result.result_success;
            revision.result_code = result.result_code;
            revision.result_exit_detail = result.result_exit_detail;
            revision.result_stdout = result.result_stdout;
            revision.result_stderr = result.result_stderr;
            revision
        },
    }
}

/// The page state in which the result is first shown.
pub fn choose_page_state(
    revision: &PlaygroundRecordRevision,
    carried: PlaygroundRecordPageState,
) -> (page_state: PlaygroundRecordPageState)
    ensures
        page_state == first_page_state(revision@.content, carried),
{
    if revision.result_stdout.as_str().is_empty() {
        PlaygroundRecordPageState::Stderr
    } else {
        carried
    }
}

/// The message that a user gets when the result could not be stored.
pub open spec fn update_failed_text() -> Seq<char> {
    "Failed to update revision"@
}

/// The answer to a finished wait, from what the store said of the result:
/// the page if the revision was current, `RequestOutdated` if it was not,
/// and a message without detail if the store failed.
pub fn eval_result_response(
    committed: RepositoryResult<bool>,
    revision: PlaygroundRecordRevision,
    page_state: PlaygroundRecordPageState,
) -> (res: EvalResultResponse)
    ensures
        match committed {
            Ok(true) => res matches EvalResultResponse::Shown(data) && data@ == page_data_of(
                revision@,
                page_state,
            ),
            Ok(false) => res is RequestOutdated,
            Err(_) => res matches EvalResultResponse::Failed(text) && text@
                == update_failed_text(),
        },
{
    match committed {
        Err(_) => EvalResultResponse::Failed(String::from_str("Failed to update revision")),
        Ok(false) => EvalResultResponse::RequestOutdated,
        Ok(true) => EvalResultResponse::Shown(build_page_data(revision, page_state)),
    }
}

/// The handle of a stored submission: the source to run and what the store
/// said when it stored it.
#[derive(Debug, Clone)]
pub struct EvalProcessingResponseImpl {
    pub rendered_code: String,
    pub upsert_result: CreateRevisionUpsertRecordResult,
}

impl WaitForEvalResult for EvalProcessingResponseImpl {
    open spec fn pending(&self) -> PendingEval {
        PendingEval {
            revision_id: self.upsert_result.revision_id@,
            rendered_code: self.rendered_code@,
            page_state: self.upsert_result.page_state,
        }
    }

    fn wait_for_eval_result(self, controller: &mut Controller, outcome: EvalOutcome) -> (res:
        EvalResultResponse) {
        match outcome {
            EvalOutcome::Cancelled => {
                proof {
                    use_type_invariant(&controller.repo);
                }
                EvalResultResponse::Cancelled
            },
            EvalOutcome::Finished(run) => {
                let mut revision = completed_revision(
                    self.upsert_result.revision_id,
                    self.rendered_code,
                    run,
                );
                let page_state = choose_page_state(&revision, self.upsert_result.page_state);
                let committed = controller.repo.update_revision_for_revision_count_and_is_latest(
                    &mut revision,
                );
                eval_result_response(committed, revision, page_state)
            },
        }
    }
}

/// A wait that was cancelled is answered with `Cancelled` and leaves the
/// store as it was: no revision gets a result.
pub proof fn law_cancelled_wait_changes_nothing(
    store: StoreModel,
    pending: PendingEval,
    res: EvalResultResponse,
)
    requires
        answers_wait(store, pending, EvalOutcome::Cancelled, res),
    ensures
        res is Cancelled,
        store_after_wait(store, pending, EvalOutcome::Cancelled) == store,
{
}

/// A run that ends after a newer submission for the same user message is
/// answered with `RequestOutdated`, whatever its result, and changes no
/// record; the run of the newer submission, ending after it, is shown.
pub proof fn law_superseded_wait_is_outdated(
    store: StoreModel,
    chat_id: i64,
    user_msg_id: i64,
    first: Submission,
    second: Submission,
    first_run: PlaygroundResult<PlaygroundExecuteResult>,
    first_res: EvalResultResponse,
    second_run: PlaygroundResult<PlaygroundExecuteResult>,
    second_res: EvalResultResponse,
)
    requires
        store.wf(),
        store.revisions.len() + 2 <= store.limit,
        ({
            let one = store.create(
                chat_id,
                user_msg_id,
                first.created_by_user_id,
                first.rendered_code,
                first.page_state,
            );
            let two = one.create(
                chat_id,
                user_msg_id,
                second.created_by_user_id,
                second.rendered_code,
                second.page_state,
            );
            let older = PendingEval {
                revision_id: store.next_revision_id(),
                rendered_code: first.rendered_code,
                page_state: first.page_state,
            };
            let newer = PendingEval {
                revision_id: one.next_revision_id(),
                rendered_code: second.rendered_code,
                page_state: second.page_state,
            };
            let late = store_after_wait(two, older, EvalOutcome::Finished(first_run));
            &&& answers_wait(two, older, EvalOutcome::Finished(first_run), first_res)
            &&& answers_wait(late, newer, EvalOutcome::Finished(second_run), second_res)
        }),
    ensures
        first_res is RequestOutdated,
        second_res is Shown,
        ({
            let one = store.create(
                chat_id,
                user_msg_id,
                first.created_by_user_id,
                first.rendered_code,
                first.page_state,
            );
            let two = one.create(
                chat_id,
                user_msg_id,
                second.created_by_user_id,
                second.rendered_code,
                second.page_state,
            );
            let older = PendingEval {
                revision_id: store.next_revision_id(),
                rendered_code: first.rendered_code,
                page_state: first.page_state,
            };
            store_after_wait(two, older, EvalOutcome::Finished(first_run)).records == two.records
        }),
{
    law_superseded_result_is_outdated(
        store,
        chat_id,
        user_msg_id,
        first,
        second,
        completed_revision_of(
            PendingEval {
                revision_id: store.next_revision_id(),
                rendered_code: first.rendered_code,
                page_state: first.page_state,
            },
            first_run,
        ),
    );
}

} // verus!
