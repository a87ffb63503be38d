//! Deleting the message of a result, and taking the deletion back.

use super::{Controller, RequestDeleteEvalResponse, RevertDeleteEval};
use crate::repository::playground_record::PlaygroundRecordRevisionId;
use crate::repository::RepositoryResult;
use crate::repository::playground_record::IPlaygroundRecordRepository;
use vstd::prelude::*;

verus! {

/// What takes a deletion back: the revision, and the chat message that its
/// record had let go of.
#[derive(Debug, Clone, Copy, PartialEq, Eq)]
pub struct RevertDeleteEvalImpl {
    eval_msg_id: i64,
    revision_id: PlaygroundRecordRevisionId,
}

impl RevertDeleteEvalImpl {
    /// The revision whose record had let go of its chat message.
    pub fn revision_id(&self) -> (revision_id: PlaygroundRecordRevisionId)
        ensures
            revision_id@ == self.deleted_revision(),
    {
        self.revision_id
    }

    /// The chat message that the record had let go of.
    pub fn eval_msg_id(&self) -> (eval_msg_id: i64)
        ensures
            eval_msg_id == self.deleted_message(),
    {
        self.eval_msg_id
    }
}

impl RevertDeleteEval for RevertDeleteEvalImpl {
    closed spec fn deleted_revision(&self) -> int {
        self.revision_id@
    }

    closed spec fn deleted_message(&self) -> i64 {
        self.eval_msg_id
    }

    /// Gives the record its chat message back. The caller does so when the
    /// message itself could not be deleted.
    fn revert_delete_eval(&self, controller: &mut Controller) {
        let _ = controller.repo.update_eval_msg_id_for_revision_id(
            self.revision_id,
            self.eval_msg_id,
        );
    }
}

/// The message that a user gets when the deletion could not be stored.
pub open spec fn delete_failed_text() -> Seq<char> {
    "Error deleting eval record"@
}

/// The answer to a request for deletion, from what the store said: an
/// approval that can be taken back if the request matched, a refusal if
/// it did not, and a message without detail if the store failed.
pub fn delete_eval_response(
    deleted: RepositoryResult<bool>,
    eval_msg_id: i64,
    revision_id: PlaygroundRecordRevisionId,
) -> (res: RequestDeleteEvalResponse<RevertDeleteEvalImpl>)
    ensures
        match deleted {
            Ok(true) => {
                &&& res matches RequestDeleteEvalResponse::Approved(revert)
                &&& revert.deleted_revision() == revision_id@
                &&& revert.deleted_message() == eval_msg_id
            },
            Ok(false) => res is SenderMismatch,
            Err(_) => res matches RequestDeleteEvalResponse::Failed(text) && text@
                == delete_failed_text(),
        },
{
    match deleted {
        Ok(true) => RequestDeleteEvalResponse::Approved(
            RevertDeleteEvalImpl { eval_msg_id, revision_id },
        ),
        Ok(false) => RequestDeleteEvalResponse::SenderMismatch,
        Err(_) => RequestDeleteEvalResponse::Failed(
            String::from_str("Error deleting eval record"),
        ),
    }
}

} // verus!
