//! Telling the store which chat message shows a revision.

use super::wait_eval::EvalProcessingResponseImpl;
use super::{Controller, UpdateEvalMsgId};
use crate::repository::playground_record::IPlaygroundRecordRepository;
use vstd::prelude::*;

verus! {

impl UpdateEvalMsgId for EvalProcessingResponseImpl {
    open spec fn shown_revision(&self) -> int {
        self.upsert_result.revision_id@
    }

    fn update_eval_msg_id(&self, controller: &mut Controller, eval_msg_id: i64) {
        let _ = controller.repo.update_eval_msg_id_for_revision_id(
            self.upsert_result.revision_id,
            eval_msg_id,
        );
    }
}

} // verus!
