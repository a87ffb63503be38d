use ebrz::controller::delete_eval::delete_eval_response;
use ebrz::controller::eval_state::{page_state_for, show_eval_output_response};
use ebrz::controller::get_eval_link::{
    eval_link_response, eval_link_step, EvalLinkStep, PendingLink,
};
use ebrz::controller::new_eval::{new_eval_response, wrap_program};
use ebrz::controller::page_data::build_page_data;
use ebrz::controller::wait_eval::{
    choose_page_state, completed_revision, count_diagnostics, eval_result_response,
    EvalProcessingResponseImpl,
};
use ebrz::controller::{
    Controller, EvalOutcome, EvalPageData, EvalPageState, EvalProcessingResponse, EvalResponse,
    EvalResultResponse, GetEvalLinkResponse, IController, RequestDeleteEvalResponse,
    RevertDeleteEval, ShowEvalOutputResponse, UpdateEvalMsgId, WaitForEvalResult,
};
use ebrz::repository::playground_record::{
    IPlaygroundRecordRepository, PlaygroundRecordPageState, PlaygroundRecordRevision,
    PlaygroundRecordRevisionId,
};
use ebrz::repository::{Repository, RepositoryError};
use ebrz::service::playground::{PlaygroundError, PlaygroundExecuteResult};

type Processing = EvalProcessingResponse<EvalProcessingResponseImpl>;

fn rev(id: i64) -> PlaygroundRecordRevisionId {
    PlaygroundRecordRevisionId::try_from(id).unwrap()
}

fn controller() -> Controller {
    Controller::new(Repository::new())
}

fn begin(controller: &mut Controller, chat: i64, msg: i64, user: i64, code: &str) -> Processing {
    match controller.new_eval(chat, msg, user, code.to_string()) {
        EvalResponse::Processing(processing) => processing,
        EvalResponse::Failed(text) => panic!("{text}"),
    }
}

fn ran(stdout: &str, stderr: &str, success: bool) -> EvalOutcome {
    EvalOutcome::Finished(Ok(PlaygroundExecuteResult {
        result_success: success,
        result_code: String::new(),
        result_exit_detail: "detail".to_string(),
        result_stdout: stdout.to_string(),
        result_stderr: stderr.to_string(),
    }))
}

fn shown(res: EvalResultResponse) -> EvalPageData {
    match res {
        EvalResultResponse::Shown(data) => data,
        other => panic!("{other:?}"),
    }
}

#[test]
fn code_is_wrapped_into_a_program() {
    assert_eq!(
        wrap_program("1 + 1"),
        "fn main() { let res = {\n            1 + 1 \n            }; println!(\"{res:?}\"); }"
    );
    assert_eq!(
        wrap_program(""),
        "fn main() { let res = {\n             \n            }; println!(\"{res:?}\"); }"
    );
}

#[test]
fn a_submission_is_stored_and_handed_a_handle() {
    let mut controller = controller();
    let processing = begin(&mut controller, 1, 2, 3, "40 + 2");
    assert_eq!(processing.eval_msg_id, None);
    assert_eq!(processing.imp.upsert_result.revision_id.get(), 1);
    assert_eq!(processing.imp.upsert_result.page_state, PlaygroundRecordPageState::Output);
    assert_eq!(processing.imp.rendered_code, wrap_program("40 + 2"));
    let (stored, page_state) = controller.repository().get_revision_by_id(rev(1)).unwrap().unwrap();
    assert_eq!(stored.rendered_code, wrap_program("40 + 2"));
    assert_eq!(page_state, PlaygroundRecordPageState::Output);
}

#[test]
fn a_resubmission_carries_the_message_that_showed_the_record() {
    let mut controller = controller();
    let first = begin(&mut controller, 1, 2, 3, "a");
    first.update_eval_msg_id(&mut controller, 500);
    let second = begin(&mut controller, 1, 2, 3, "b");
    assert_eq!(second.eval_msg_id, Some(500));
    assert_eq!(second.imp.upsert_result.revision_id.get(), 2);
}

#[test]
fn a_submission_to_a_full_store_fails_with_a_message() {
    let mut controller = Controller::new(Repository::with_limit(1));
    begin(&mut controller, 1, 2, 3, "a");
    let res = controller.new_eval(1, 2, 3, "b".to_string());
    assert!(matches!(res, EvalResponse::Failed(text) if text == "Failed to create record"));
    assert_eq!(controller.repository().stored_revisions(), 1);
}

#[test]
fn a_store_failure_becomes_a_message_without_detail() {
    let failed =
        new_eval_response(Err(RepositoryError::Db("disk I/O error".to_string())), String::new());
    assert!(matches!(failed, EvalResponse::Failed(text) if text == "Failed to create record"));
    let gone = new_eval_response(Err(RepositoryError::WorkerGone), String::new());
    assert!(matches!(gone, EvalResponse::Failed(text) if text == "Failed to create record"));
    assert_eq!(
        eval_result_response(
            Err(RepositoryError::WorkerGone),
            PlaygroundRecordRevision::default(),
            PlaygroundRecordPageState::Output
        ),
        EvalResultResponse::Failed("Failed to update revision".to_string())
    );
    assert_eq!(
        show_eval_output_response(
            Err(RepositoryError::WorkerGone),
            PlaygroundRecordPageState::Output
        ),
        ShowEvalOutputResponse::Failed("Error lookup eval record".to_string())
    );
    assert_eq!(
        delete_eval_response(Err(RepositoryError::WorkerGone), 1, rev(1)),
        RequestDeleteEvalResponse::Failed("Error deleting eval record".to_string())
    );
    assert_eq!(
        eval_link_step(Err(RepositoryError::Db("constraint failed".to_string()))),
        EvalLinkStep::Done(GetEvalLinkResponse::Failed("Error getting revision".to_string()))
    );
}

#[test]
fn error_and_warning_lines_are_counted() {
    assert_eq!(count_diagnostics("error: a\nerror: b\nwarning: c\n"), (1, 1));
    assert_eq!(count_diagnostics(""), (0, 0));
    assert_eq!(count_diagnostics("error: only one"), (1, 0));
    assert_eq!(count_diagnostics("error: a\nerror: b\nerror: could not compile\n"), (2, 0));
    assert_eq!(count_diagnostics("warning: a\nwarning: b\n"), (0, 2));
}

#[test]
fn only_the_beginning_of_a_line_counts() {
    assert_eq!(count_diagnostics(" error: indented\n\terror: tabbed"), (0, 0));
    assert_eq!(count_diagnostics("note: error: inside"), (0, 0));
    assert_eq!(count_diagnostics("error[E0277]: with a code\nerror"), (0, 0));
    assert_eq!(count_diagnostics("Error: capital\nWARNING: capital"), (0, 0));
    assert_eq!(count_diagnostics("\nerror: after an empty line"), (1, 0));
    assert_eq!(count_diagnostics("x\r\nerror: after a carriage return\r\nwarning: w\r\n"), (1, 1));
    assert_eq!(count_diagnostics("x\rerror: no line feed"), (0, 0));
    assert_eq!(count_diagnostics("error:"), (1, 0));
    assert_eq!(count_diagnostics("error"), (0, 0));
    assert_eq!(count_diagnostics("warning:\nwarning:\nerror:\nerror:\nerror:"), (2, 2));
}

#[test]
fn counting_agrees_with_a_count_over_the_lines() {
    let texts = [
        "   Compiling playground v0.0.1 (/playground)\nwarning: unused variable: `a`\n --> src/main.rs:1:17\n\nwarning: `playground` (bin \"playground\") generated 1 warning\n    Finished `dev` profile\n",
        "error[E0277]: cannot add\nerror: could not compile `playground` (bin \"playground\") due to 1 previous error\n",
        "error: é\nwarning: ü\nerror: 😀\n",
        "\n\n\n",
    ];
    for text in texts {
        let errors = text.lines().filter(|line| line.starts_with("error:")).count() as u32;
        let warnings = text.lines().filter(|line| line.starts_with("warning:")).count() as u32;
        let errors = if errors > 1 { errors - 1 } else { errors };
        assert_eq!(count_diagnostics(text), (errors, warnings));
    }
}

#[test]
fn a_finished_run_is_committed_and_shown() {
    let mut controller = controller();
    let processing = begin(&mut controller, 1, 2, 3, "1");
    let res = processing.wait_for_eval_result(&mut controller, ran("1\n", "warning: w\n", true));
    let data = shown(res);
    assert_eq!(data.title, "Output");
    assert_eq!(data.content, "1\n");
    assert!(data.has_warning);
    assert!(!data.has_error);
    assert!(!data.has_fatal_error);
    assert_eq!(data.diagnostic_count, 1);
    assert_eq!(data.revision, 1);
    assert_eq!(data.revision_id, 1);
    assert_eq!(data.perma_link, None);
    let (stored, _) = controller.repository().get_revision_by_id(rev(1)).unwrap().unwrap();
    assert_eq!(stored.result_stdout, "1\n");
    assert_eq!(stored.result_stderr, "warning: w\n");
    assert_eq!(stored.result_exit_detail, "detail");
    assert_eq!(stored.warning_count, 1);
    assert_eq!(stored.error_count, 0);
    assert!(stored.result_success);
}

#[test]
fn a_run_without_output_shows_the_diagnostics() {
    let mut controller = controller();
    let processing = begin(&mut controller, 1, 2, 3, "x");
    let res =
        processing.wait_for_eval_result(&mut controller, ran("", "error: a\nerror: b\n", false));
    let data = shown(res);
    assert_eq!(data.title, "Stderr");
    assert_eq!(data.content, "error: a\nerror: b\n");
    assert!(data.has_error);
    assert_eq!(data.diagnostic_count, 1);
}

#[test]
fn a_failure_of_the_service_is_stored_and_shown_as_an_error() {
    let mut controller = controller();
    let processing = begin(&mut controller, 1, 2, 3, "x");
    let timeout = EvalOutcome::Finished(Err(PlaygroundError::Timeout));
    let res = processing.wait_for_eval_result(&mut controller, timeout);
    let data = shown(res);
    assert_eq!(data.title, "Error");
    assert_eq!(data.content, "timeout");
    assert!(data.has_fatal_error);
    assert!(data.has_error);
    let (stored, _) = controller.repository().get_revision_by_id(rev(1)).unwrap().unwrap();
    assert_eq!(stored.playground_error, "timeout");

    let processing = begin(&mut controller, 1, 9, 3, "y");
    let failed = EvalOutcome::Finished(Err(PlaygroundError::Request));
    let res = processing.wait_for_eval_result(&mut controller, failed);
    assert_eq!(shown(res).content, "request error");
}

#[test]
fn a_cancelled_wait_leaves_the_revision_pending() {
    let mut controller = controller();
    let processing = begin(&mut controller, 1, 2, 3, "x");
    let before = controller.repository().get_revision_by_id(rev(1));
    let record = controller.repository().get_record_by_revision_id(rev(1));
    let res = processing.wait_for_eval_result(&mut controller, EvalOutcome::Cancelled);
    assert_eq!(res, EvalResultResponse::Cancelled);
    assert_eq!(controller.repository().get_revision_by_id(rev(1)), before);
    assert_eq!(controller.repository().get_record_by_revision_id(rev(1)), record);
}

#[test]
fn the_result_of_a_superseded_run_is_dropped() {
    let mut controller = controller();
    let old = begin(&mut controller, 1, 2, 3, "old");
    let new = begin(&mut controller, 1, 2, 3, "new");
    let res = old.wait_for_eval_result(&mut controller, ran("old\n", "", true));
    assert_eq!(res, EvalResultResponse::RequestOutdated);
    let res = new.wait_for_eval_result(&mut controller, ran("new\n", "", true));
    let data = shown(res);
    assert_eq!(data.content, "new\n");
    assert_eq!(data.revision, 2);
    assert_eq!(data.revision_id, 2);
}

#[test]
fn the_wrapping_handle_does_what_the_handle_does() {
    let mut controller = controller();
    let processing = begin(&mut controller, 1, 2, 3, "x");
    let inner = processing.imp.clone();
    inner.update_eval_msg_id(&mut controller, 77);
    assert_eq!(
        controller.repository().get_record_by_revision_id(rev(1)).unwrap().eval_msg_id,
        Some(77)
    );
    let res = inner.wait_for_eval_result(&mut controller, ran("out", "", true));
    assert_eq!(shown(res).content, "out");
}

#[test]
fn pieces_of_a_finished_wait() {
    let revision = completed_revision(rev(4), "code".to_string(), Err(PlaygroundError::Timeout));
    assert_eq!(revision.revision_id.get(), 4);
    assert_eq!(revision.rendered_code, "code");
    assert_eq!(revision.playground_error, "timeout");
    assert_eq!(
        choose_page_state(&revision, PlaygroundRecordPageState::Output),
        PlaygroundRecordPageState::Stderr
    );
    let mut printed = revision.clone();
    printed.result_stdout = "x".to_string();
    assert_eq!(
        choose_page_state(&printed, PlaygroundRecordPageState::Output),
        PlaygroundRecordPageState::Output
    );
    assert_eq!(
        choose_page_state(&printed, PlaygroundRecordPageState::Miri),
        PlaygroundRecordPageState::Miri
    );
    assert_eq!(
        eval_result_response(Ok(false), printed.clone(), PlaygroundRecordPageState::Output),
        EvalResultResponse::RequestOutdated
    );
}

fn finished(controller: &mut Controller, msg: i64, user: i64, shown_by: i64) -> i64 {
    let processing = begin(controller, 1, msg, user, "code");
    processing.update_eval_msg_id(controller, shown_by);
    let id = processing.imp.upsert_result.revision_id.get();
    processing.wait_for_eval_result(controller, ran("out", "warning: w\nerr", true));
    id
}

#[test]
fn the_page_state_is_switched_for_the_one_who_may() {
    let mut controller = controller();
    let id = finished(&mut controller, 2, 3, 60);
    assert_eq!(
        controller.switch_eval_state(61, 3, id, EvalPageState::Build),
        ShowEvalOutputResponse::SenderMismatch
    );
    assert_eq!(
        controller.switch_eval_state(60, 4, id, EvalPageState::Build),
        ShowEvalOutputResponse::SenderMismatch
    );
    assert_eq!(
        controller.switch_eval_state(60, 3, id + 1, EvalPageState::Build),
        ShowEvalOutputResponse::SenderMismatch
    );
    assert_eq!(
        controller.switch_eval_state(60, 3, 0, EvalPageState::Build),
        ShowEvalOutputResponse::SenderMismatch
    );
    assert_eq!(
        controller.switch_eval_state(60, 3, -id, EvalPageState::Build),
        ShowEvalOutputResponse::SenderMismatch
    );
    match controller.switch_eval_state(60, 3, id, EvalPageState::Build) {
        ShowEvalOutputResponse::Shown(data) => {
            assert_eq!(data.title, "Stderr");
            assert_eq!(data.content, "warning: w\nerr");
            assert_eq!(data.revision_id, id);
        }
        other => panic!("{other:?}"),
    }
    match controller.switch_eval_state(60, 3, id, EvalPageState::Output) {
        ShowEvalOutputResponse::Shown(data) => {
            assert_eq!(data.title, "Output");
            assert_eq!(data.content, "out");
        }
        other => panic!("{other:?}"),
    }
    assert_eq!(page_state_for(EvalPageState::Output), PlaygroundRecordPageState::Output);
    assert_eq!(page_state_for(EvalPageState::Build), PlaygroundRecordPageState::Stderr);
}

#[test]
fn a_stale_revision_may_not_switch_or_delete() {
    let mut controller = controller();
    let old = finished(&mut controller, 2, 3, 60);
    let new = begin(&mut controller, 1, 2, 3, "newer");
    assert_eq!(new.eval_msg_id, Some(60));
    assert_eq!(
        controller.switch_eval_state(60, 3, old, EvalPageState::Build),
        ShowEvalOutputResponse::SenderMismatch
    );
    assert!(matches!(
        controller.request_delete_eval(60, 3, old),
        RequestDeleteEvalResponse::SenderMismatch
    ));
}

#[test]
fn a_deletion_is_approved_for_the_one_who_may_and_can_be_taken_back() {
    let mut controller = controller();
    let id = finished(&mut controller, 2, 3, 60);
    assert!(matches!(
        controller.request_delete_eval(61, 3, id),
        RequestDeleteEvalResponse::SenderMismatch
    ));
    assert!(matches!(
        controller.request_delete_eval(60, 4, id),
        RequestDeleteEvalResponse::SenderMismatch
    ));
    assert!(matches!(
        controller.request_delete_eval(60, 3, 0),
        RequestDeleteEvalResponse::SenderMismatch
    ));
    assert!(matches!(
        controller.request_delete_eval(60, 3, 99),
        RequestDeleteEvalResponse::SenderMismatch
    ));
    let before = controller.repository().get_record_by_revision_id(rev(id));
    let revert = match controller.request_delete_eval(60, 3, id) {
        RequestDeleteEvalResponse::Approved(revert) => revert,
        other => panic!("{other:?}"),
    };
    assert_eq!(revert.revision_id().get(), id);
    assert_eq!(revert.eval_msg_id(), 60);
    assert_eq!(
        controller.repository().get_record_by_revision_id(rev(id)).unwrap().eval_msg_id,
        None
    );
    assert!(matches!(
        controller.request_delete_eval(60, 3, id),
        RequestDeleteEvalResponse::SenderMismatch
    ));
    revert.revert_delete_eval(&mut controller);
    assert_eq!(controller.repository().get_record_by_revision_id(rev(id)), before);
    assert!(matches!(
        controller.request_delete_eval(60, 3, id),
        RequestDeleteEvalResponse::Approved(_)
    ));
}

#[test]
fn a_permalink_is_made_once_and_then_read() {
    let mut controller = controller();
    let id = finished(&mut controller, 2, 3, 60);
    assert_eq!(controller.get_eval_link(0), EvalLinkStep::Done(GetEvalLinkResponse::NotFound));
    assert_eq!(controller.get_eval_link(id + 1), EvalLinkStep::Done(GetEvalLinkResponse::NotFound));
    let pending = match controller.get_eval_link(id) {
        EvalLinkStep::Generate(pending) => pending,
        other => panic!("{other:?}"),
    };
    assert_eq!(pending.revision.rendered_code, wrap_program("code"));
    assert_eq!(pending.page_state, PlaygroundRecordPageState::Output);

    let failed = controller.finish_eval_link(pending.clone(), Err(PlaygroundError::Request));
    assert_eq!(failed, GetEvalLinkResponse::Failed("Error generating link".to_string()));
    assert!(matches!(controller.get_eval_link(id), EvalLinkStep::Generate(_)));

    match controller.finish_eval_link(pending, Ok("https://play/?gist=1".to_string())) {
        GetEvalLinkResponse::Shown(data) => {
            assert_eq!(data.perma_link, Some("https://play/?gist=1".to_string()));
            assert_eq!(data.title, "Output");
            assert_eq!(data.content, "out");
        }
        other => panic!("{other:?}"),
    }
    match controller.get_eval_link(id) {
        EvalLinkStep::Done(GetEvalLinkResponse::Shown(data)) => {
            assert_eq!(data.perma_link, Some("https://play/?gist=1".to_string()));
        }
        other => panic!("{other:?}"),
    }
}

#[test]
fn a_link_step_follows_what_the_store_said() {
    assert_eq!(eval_link_step(Ok(None)), EvalLinkStep::Done(GetEvalLinkResponse::NotFound));
    let revision = PlaygroundRecordRevision::pending(rev(3), "c".to_string());
    let step = eval_link_step(Ok(Some((revision.clone(), PlaygroundRecordPageState::Stderr))));
    assert!(matches!(step, EvalLinkStep::Generate(pending) if pending.revision == revision));
    let pending = PendingLink { revision, page_state: PlaygroundRecordPageState::Stderr };
    match eval_link_response(pending, Ok("l".to_string())) {
        GetEvalLinkResponse::Shown(data) => {
            assert_eq!(data.perma_link, Some("l".to_string()));
            assert_eq!(data.title, "Stderr");
        }
        other => panic!("{other:?}"),
    }
}

#[test]
fn a_page_is_built_from_a_revision() {
    let mut revision = PlaygroundRecordRevision::pending(rev(12), "code".to_string());
    revision.record_revision_count = 3;
    revision.warning_count = 2;
    revision.error_count = 5;
    revision.result_success = false;
    revision.result_stdout = "out".to_string();
    revision.result_stderr = "err".to_string();
    revision.perma_link = Some("link".to_string());
    let output = build_page_data(revision.clone(), PlaygroundRecordPageState::Output);
    assert_eq!(
        output,
        EvalPageData {
            perma_link: Some("link".to_string()),
            has_warning: true,
            has_error: true,
            has_fatal_error: false,
            diagnostic_count: 7,
            revision: 3,
            revision_id: 12,
            title: "Output",
            content: "out".to_string(),
        }
    );
    let stderr = build_page_data(revision.clone(), PlaygroundRecordPageState::Stderr);
    assert_eq!((stderr.title, stderr.content.as_str()), ("Stderr", "err"));
    let reserved = build_page_data(revision.clone(), PlaygroundRecordPageState::Miri);
    assert_eq!((reserved.title, reserved.content.as_str()), ("Error", ""));
    revision.playground_error = "timeout".to_string();
    let fatal = build_page_data(revision.clone(), PlaygroundRecordPageState::Output);
    assert_eq!((fatal.title, fatal.content.as_str()), ("Error", "timeout"));
    assert!(fatal.has_fatal_error);
    revision.warning_count = u32::MAX;
    assert_eq!(
        build_page_data(revision, PlaygroundRecordPageState::Output).diagnostic_count,
        u32::MAX
    );
}
