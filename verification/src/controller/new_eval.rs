//! A submission: the code is made a program, stored, and given a handle.

use super::wait_eval::EvalProcessingResponseImpl;
use super::{
    EvalProcessingResponse, EvalResponse, PendingEval, UpdateEvalMsgId, WaitForEvalResult,
};
use crate::repository::playground_record::CreateRevisionUpsertRecordResult;
use crate::repository::RepositoryResult;
use vstd::prelude::*;

verus! {

/// The program that evaluates `code` and prints what it yields.
pub open spec fn wrapped_program(code: Seq<char>) -> Seq<char> {
    "fn main() { let res = {\n            "@ + code
        + " \n            }; println!(\"{res:?}\"); }"@
}

/// Makes a program of the code of a submission.
pub fn wrap_program(code: &str) -> (program: String)
    ensures
        program@ == wrapped_program(code@),
{
    let mut program = String::from_str("fn main() { let res = {\n            ");
    program.append(code);
    program.append(" \n            }; println!(\"{res:?}\"); }");
    program
}

/// The message that a user gets when a submission could not be stored.
pub open spec fn create_failed_text() -> Seq<char> {
    "Failed to create record"@
}

/// The answer to a submission, from what the store said: a handle that
/// waits with the new revision, or a message without detail if the store
/// failed.
pub fn new_eval_response(
    created: RepositoryResult<CreateRevisionUpsertRecordResult>,
    rendered_code: String,
) -> (res: EvalResponse<EvalProcessingResponse<EvalProcessingResponseImpl>>)
    ensures
        match created {
            Ok(created) => {
                &&& res matches EvalResponse::Processing(processing)
                &&& processing.eval_msg_id == created.eval_msg_id
                &&& processing.shown_revision() == created.revision_id@
                &&& processing.pending() == (PendingEval {
                    revision_id: created.revision_id@,
                    rendered_code: rendered_code@,
                    page_state: created.page_state,
                })
            },
            Err(_) => res matches EvalResponse::Failed(text) && text@ == create_failed_text(),
        },
{
    match created {
        Ok(created) => EvalResponse::Processing(
            EvalProcessingResponse {
                eval_msg_id: created.eval_msg_id,
                imp: EvalProcessingResponseImpl { rendered_code, upsert_result: created },
            },
        ),
        Err(_) => EvalResponse::Failed(String::from_str("Failed to create record")),
    }
}

} // verus!
