//! The life of an evaluation: submitted, run, then committed and shown, or
//! dropped because a newer submission took its place or the run was
//! cancelled.
//!
//! The controller decides; it does not wait. Where a step needs something
//! from outside (the result of a run, a permalink), the caller gets it and
//! hands it to the next step.

use crate::repository::model::StoreModel;
use crate::repository::playground_record::{
    IPlaygroundRecordRepository, PlaygroundRecordPageState, PlaygroundRecordRevisionId,
};
use crate::repository::Repository;
use crate::service::playground::{PlaygroundExecuteResult, PlaygroundResult};
use delete_eval::{delete_eval_response, RevertDeleteEvalImpl};
use eval_state::{page_state_for, requested_page_state, show_eval_output_response};
use get_eval_link::{
    eval_link_response, eval_link_step, generate_failed_text, with_perma_link, EvalLinkStep,
    PendingLink,
};
use new_eval::{create_failed_text, new_eval_response, wrap_program, wrapped_program};
use page_data::page_data_of;
use vstd::prelude::*;
use wait_eval::EvalProcessingResponseImpl;

pub mod delete_eval;
pub mod eval_state;
pub mod get_eval_link;
pub mod new_eval;
pub mod page_data;
pub mod update_msg_id;
pub mod wait_eval;

verus! {

/// What a submission was answered with.
#[derive(Debug, Clone)]
pub enum EvalResponse<R> {
    /// The submission is stored; the handle finishes it.
    Processing(R),
    /// The store refused; the text is for the user.
    Failed(String),
}

/// The handle of a stored submission, with the chat message that showed the
/// record before, if there was one.
#[derive(Debug, Clone)]
pub struct EvalProcessingResponse<I> {
    pub imp: I,
    pub eval_msg_id: Option<i64>,
}

/// A page as a mathematical value.
pub struct PageDataView {
    pub perma_link: Option<Seq<char>>,
    pub has_warning: bool,
    pub has_error: bool,
    pub has_fatal_error: bool,
    pub diagnostic_count: u32,
    pub revision: nat,
    pub revision_id: int,
    pub title: Seq<char>,
    pub content: Seq<char>,
}

/// What is shown of a revision: one of its streams under a title, and the
/// facts that the controls around it need.
#[derive(Debug, Clone, PartialEq, Eq)]
pub struct EvalPageData {
    pub perma_link: Option<String>,
    pub has_warning: bool,
    pub has_error: bool,
    pub has_fatal_error: bool,
    pub diagnostic_count: u32,
    pub revision: u32,
    pub revision_id: i64,
    pub title: &'static str,
    pub content: String,
}

impl View for EvalPageData {
    type V = PageDataView;

    open spec fn view(&self) -> PageDataView {
        PageDataView {
            perma_link: match self.perma_link {
                Some(link) => Some(link@),
                None => None,
            },
            has_warning: self.has_warning,
            has_error: self.has_error,
            has_fatal_error: self.has_fatal_error,
            diagnostic_count: self.diagnostic_count,
            revision: self.revision as nat,
            revision_id: self.revision_id as int,
            title: self.title@,
            content: self.content@,
        }
    }
}

/// How the wait for a run ended.
#[derive(Debug, PartialEq, Eq)]
pub enum EvalOutcome {
    /// The cancellation signal came before the run had finished.
    Cancelled,
    /// The call of the execution service returned.
    Finished(PlaygroundResult<PlaygroundExecuteResult>),
}

/// What a finished wait was answered with.
#[derive(Debug, Clone, PartialEq, Eq)]
pub enum EvalResultResponse {
    Shown(EvalPageData),
    /// A newer submission owns the chat message; nothing is to be shown.
    RequestOutdated,
    Cancelled,
    Failed(String),
}

/// What a request for another page state was answered with.
#[derive(Debug, Clone, PartialEq, Eq)]
pub enum ShowEvalOutputResponse {
    Shown(EvalPageData),
    SenderMismatch,
    Failed(String),
}

/// The page states that a user can ask for.
#[derive(Debug, Clone, Copy, PartialEq, Eq, Structural)]
pub enum EvalPageState {
    Output,
    Build,
}

/// What a request for deletion was answered with.
#[derive(Debug, Clone, PartialEq, Eq)]
pub enum RequestDeleteEvalResponse<R> {
    /// The record has let go of its chat message; the handle takes that
    /// back.
    Approved(R),
    SenderMismatch,
    Failed(String),
}

/// What a request for a permalink was answered with.
#[derive(Debug, Clone, PartialEq, Eq)]
pub enum GetEvalLinkResponse {
    Shown(EvalPageData),
    NotFound,
    Failed(String),
}

/// What a stored submission waits with: its revision, the source to run,
/// and the page state that the record was given.
pub struct PendingEval {
    pub revision_id: int,
    pub rendered_code: Seq<char>,
    pub page_state: PlaygroundRecordPageState,
}

/// A handle that finishes a submission.
pub trait WaitForEvalResult: Sized {
    /// What the handle waits with.
    spec fn pending(&self) -> PendingEval;

    /// Ends the wait. A cancelled wait leaves the store as it is. A finished
    /// one writes the result into the revision; the result is shown if the
    /// revision is still the current one of its record.
    fn wait_for_eval_result(self, controller: &mut Controller, outcome: EvalOutcome) -> (res:
        EvalResultResponse)
        ensures
            final(controller)@.wf(),
            final(controller)@ == wait_eval::store_after_wait(
                old(controller)@,
                self.pending(),
                outcome,
            ),
            wait_eval::answers_wait(old(controller)@, self.pending(), outcome, res),
    ;
}

/// A handle that can tell the store which chat message shows its revision.
pub trait UpdateEvalMsgId {
    /// The revision that the handle speaks for.
    spec fn shown_revision(&self) -> int;

    fn update_eval_msg_id(&self, controller: &mut Controller, eval_msg_id: i64)
        ensures
            final(controller)@.wf(),
            final(controller)@ == old(controller)@.set_eval_msg_id(
                self.shown_revision(),
                eval_msg_id,
            ),
    ;
}

/// A handle that takes a deletion back.
pub trait RevertDeleteEval {
    /// The revision whose record had let go of its chat message.
    spec fn deleted_revision(&self) -> int;

    /// The chat message that the record had let go of.
    spec fn deleted_message(&self) -> i64;

    fn revert_delete_eval(&self, controller: &mut Controller)
        ensures
            final(controller)@.wf(),
            final(controller)@ == old(controller)@.set_eval_msg_id(
                self.deleted_revision(),
                self.deleted_message(),
            ),
    ;
}

impl<I: WaitForEvalResult> WaitForEvalResult for EvalProcessingResponse<I> {
    open spec fn pending(&self) -> PendingEval {
        self.imp.pending()
    }

    fn wait_for_eval_result(self, controller: &mut Controller, outcome: EvalOutcome) -> (res:
        EvalResultResponse) {
        self.imp.wait_for_eval_result(controller, outcome)
    }
}

impl<I: UpdateEvalMsgId> UpdateEvalMsgId for EvalProcessingResponse<I> {
    open spec fn shown_revision(&self) -> int {
        self.imp.shown_revision()
    }

    fn update_eval_msg_id(&self, controller: &mut Controller, eval_msg_id: i64) {
        self.imp.update_eval_msg_id(controller, eval_msg_id)
    }
}

/// The store together with the rules of the life of an evaluation.
pub struct Controller {
    repo: Repository,
}

impl View for Controller {
    type V = StoreModel;

    closed spec fn view(&self) -> StoreModel {
        self.repo@
    }
}

impl Controller {
    /// A controller over a store.
    pub fn new(repo: Repository) -> (controller: Self)
        ensures
            controller@ == repo@,
    {
        Self { repo }
    }

    /// The store, for reading.
    pub fn repository(&self) -> (repo: &Repository)
        ensures
            repo@ == self@,
    {
        &self.repo
    }
}

/// The steps of the life of an evaluation.
pub trait IController {
    /// The handle of a stored submission.
    type EvalProcessingImpl: WaitForEvalResult + UpdateEvalMsgId;

    /// What takes a deletion back.
    type RevertDeleteEvalImpl: RevertDeleteEval;

    /// The store as a mathematical value.
    spec fn store(&self) -> StoreModel;

    /// Takes a submission: makes a program of the code, stores it as a new
    /// revision, and points the record of the user message at it, in the
    /// page state `Output`. The handle that comes back carries the chat
    /// message that showed the record before, if there was one. A full
    /// store answers with a message and stays as it is.
    fn new_eval(
        &mut self,
        chat_id: i64,
        user_msg_id: i64,
        created_by_user_id: i64,
        code: String,
    ) -> (res: EvalResponse<EvalProcessingResponse<Self::EvalProcessingImpl>>)
        ensures
            final(self).store().wf(),
            old(self).store().has_room() ==> {
                &&& final(self).store() == old(self).store().create(
                    chat_id,
                    user_msg_id,
                    created_by_user_id,
                    wrapped_program(code@),
                    PlaygroundRecordPageState::Output,
                )
                &&& res matches EvalResponse::Processing(processing)
                &&& processing.eval_msg_id == old(self).store().shown_message(chat_id, user_msg_id)
                &&& processing.shown_revision() == old(self).store().next_revision_id()
                &&& processing.pending() == (PendingEval {
                    revision_id: old(self).store().next_revision_id(),
                    rendered_code: wrapped_program(code@),
                    page_state: PlaygroundRecordPageState::Output,
                })
            },
            !old(self).store().has_room() ==> {
                &&& final(self).store() == old(self).store()
                &&& res matches EvalResponse::Failed(text)
                &&& text@ == create_failed_text()
            },
    ;

    /// Shows another stream of a result, if the request is authorized: it
    /// names the current revision of the record, the chat message that
    /// shows the record, and the user who created it. The record then has
    /// the page state asked for, and the answer is the page in that state.
    /// Any other request is refused and changes nothing; zero, the key of
    /// no revision, is refused like any other key of no revision.
    fn switch_eval_state(
        &mut self,
        eval_msg_id: i64,
        request_user_id: i64,
        revision_id: i64,
        request_page_state: EvalPageState,
    ) -> (res: ShowEvalOutputResponse)
        ensures
            final(self).store().wf(),
            old(self).store().authorizes(eval_msg_id, request_user_id, revision_id as int) ==> {
                &&& final(self).store() == old(self).store().set_page_state(
                    revision_id as int,
                    requested_page_state(request_page_state),
                )
                &&& res matches ShowEvalOutputResponse::Shown(data)
                &&& data@ == page_data_of(
                    old(self).store().read(revision_id as int),
                    requested_page_state(request_page_state),
                )
            },
            !old(self).store().authorizes(eval_msg_id, request_user_id, revision_id as int) ==> {
                &&& final(self).store() == old(self).store()
                &&& res is SenderMismatch
            },
    ;

    /// Deletes the message of a result from the store, if the request is
    /// authorized: it names the current revision of the record, the chat
    /// message that shows the record, and the user who created it. The
    /// record then has no chat message, and the answer can take that back.
    /// Any other request is refused and changes nothing; zero, the key of
    /// no revision, is refused like any other key of no revision.
    fn request_delete_eval(
        &mut self,
        eval_msg_id: i64,
        request_user_id: i64,
        revision_id: i64,
    ) -> (res: RequestDeleteEvalResponse<Self::RevertDeleteEvalImpl>)
        ensures
            final(self).store().wf(),
            old(self).store().authorizes(eval_msg_id, request_user_id, revision_id as int) ==> {
                &&& final(self).store() == old(self).store().clear_eval_msg_id(revision_id as int)
                &&& res matches RequestDeleteEvalResponse::Approved(revert)
                &&& revert.deleted_revision() == revision_id
                &&& revert.deleted_message() == eval_msg_id
            },
            !old(self).store().authorizes(eval_msg_id, request_user_id, revision_id as int) ==> {
                &&& final(self).store() == old(self).store()
                &&& res is SenderMismatch
            },
    ;

    /// Begins a request for the permalink of a revision. A key of no
    /// revision, zero among them, is answered with `NotFound`; a revision
    /// that has a permalink is shown at once, in the page state of its
    /// record; for one that has none the caller is asked to have one made.
    fn get_eval_link(&self, revision_id: i64) -> (step: EvalLinkStep)
        ensures
            self.store().wf(),
            !self.store().has_revision(revision_id as int) ==> step == EvalLinkStep::Done(
                GetEvalLinkResponse::NotFound,
            ),
            self.store().has_revision(revision_id as int) ==> {
                let revision = self.store().read(revision_id as int);
                let page_state = self.store().owning_record(revision_id as int).page_state;
                if revision.content.perma_link is Some {
                    step matches EvalLinkStep::Done(GetEvalLinkResponse::Shown(data)) && data@
                        == page_data_of(revision, page_state)
                } else {
                    step matches EvalLinkStep::Generate(pending) && pending.revision@
                        == revision && pending.page_state == page_state
                }
            },
    ;

    /// Ends a request for a permalink. A permalink that was made is given
    /// to the revision and shown; if none could be made, the store stays
    /// as it is.
    fn finish_eval_link(
        &mut self,
        pending: PendingLink,
        generated: PlaygroundResult<String>,
    ) -> (res: GetEvalLinkResponse)
        ensures
            final(self).store().wf(),
            match generated {
                Ok(link) => {
                    &&& final(self).store() == old(self).store().set_perma_link(
                        pending.revision@.revision_id,
                        link@,
                    )
                    &&& res matches GetEvalLinkResponse::Shown(data)
                    &&& data@ == page_data_of(
                        with_perma_link(pending.revision@, link@),
                        pending.page_state,
                    )
                },
                Err(_) => {
                    &&& final(self).store() == old(self).store()
                    &&& res matches GetEvalLinkResponse::Failed(text)
                    &&& text@ == generate_failed_text()
                },
            },
    ;
}

impl IController for Controller {
    type EvalProcessingImpl = EvalProcessingResponseImpl;

    type RevertDeleteEvalImpl = RevertDeleteEvalImpl;

    open spec fn store(&self) -> StoreModel {
        self@
    }

    fn new_eval(
        &mut self,
        chat_id: i64,
        user_msg_id: i64,
        created_by_user_id: i64,
        code: String,
    ) -> (res: EvalResponse<EvalProcessingResponse<Self::EvalProcessingImpl>>) {
        let full_code = wrap_program(code.as_str());
        let created = self.repo.create_revision_upsert_record(
            chat_id,
            user_msg_id,
            created_by_user_id,
            full_code.clone(),
            PlaygroundRecordPageState::Output,
        );
        new_eval_response(created, full_code)
    }

    fn switch_eval_state(
        &mut self,
        eval_msg_id: i64,
        request_user_id: i64,
        revision_id: i64,
        request_page_state: EvalPageState,
    ) -> (res: ShowEvalOutputResponse) {
        let revision_id = match PlaygroundRecordRevisionId::try_from(revision_id) {
            Ok(revision_id) => revision_id,
            Err(_) => {
                proof {
                    use_type_invariant(&self.repo);
                }
                return ShowEvalOutputResponse::SenderMismatch;
            },
        };
        let page_state = page_state_for(request_page_state);
        let found = self.repo.get_revision_update_page_state_if_match(
            eval_msg_id,
            request_user_id,
            revision_id,
            page_state,
        );
        show_eval_output_response(found, page_state)
    }

    fn request_delete_eval(
        &mut self,
        eval_msg_id: i64,
        request_user_id: i64,
        revision_id: i64,
    ) -> (res: RequestDeleteEvalResponse<Self::RevertDeleteEvalImpl>) {
        let revision_id = match PlaygroundRecordRevisionId::try_from(revision_id) {
            Ok(revision_id) => revision_id,
            Err(_) => {
                proof {
                    use_type_invariant(&self.repo);
                }
                return RequestDeleteEvalResponse::SenderMismatch;
            },
        };
        let deleted = self.repo.delete_record_by_revision_id_if_match(
            eval_msg_id,
            request_user_id,
            revision_id,
        );
        delete_eval_response(deleted, eval_msg_id, revision_id)
    }

    fn get_eval_link(&self, revision_id: i64) -> (step: EvalLinkStep) {
        let revision_id = match PlaygroundRecordRevisionId::try_from(revision_id) {
            Ok(revision_id) => revision_id,
            Err(_) => {
                proof {
                    use_type_invariant(&self.repo);
                }
                return EvalLinkStep::Done(GetEvalLinkResponse::NotFound);
            },
        };
        eval_link_step(self.repo.get_revision_by_id(revision_id))
    }

    fn finish_eval_link(
        &mut self,
        pending: PendingLink,
        generated: PlaygroundResult<String>,
    ) -> (res: GetEvalLinkResponse) {
        match &generated {
            Ok(link) => {
                let _ = self.repo.update_perma_link_for_revision_id(
                    pending.revision.revision_id,
                    link.clone(),
                );
            },
            Err(_) => {
                proof {
                    use_type_invariant(&self.repo);
                }
            },
        }
        eval_link_response(pending, generated)
    }
}

} // verus!
