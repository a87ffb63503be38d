//! What holds of the store whatever the order in which its operations are
//! called.

use super::model::{
    count_owned, holds_key, lemma_count_owned_push, RevisionRow, StoreModel,
};
use super::playground_record::{
    PlaygroundRecordPageState, RecordView, RevisionContent, RevisionView,
};
use vstd::prelude::*;

verus! {

/// What one submission brings: who sent it, the source, and the page state
/// asked for.
pub struct Submission {
    pub created_by_user_id: i64,
    pub rendered_code: Seq<char>,
    pub page_state: PlaygroundRecordPageState,
}

/// The store after the submissions have been made, one after the other, for
/// the same user message.
pub open spec fn submit_all(
    store: StoreModel,
    chat_id: i64,
    user_msg_id: i64,
    submissions: Seq<Submission>,
) -> StoreModel
    decreases submissions.len(),
{
    if submissions.len() == 0 {
        store
    } else {
        submit_all(store, chat_id, user_msg_id, submissions.drop_last()).create(
            chat_id,
            user_msg_id,
            submissions.last().created_by_user_id,
            submissions.last().rendered_code,
            submissions.last().page_state,
        )
    }
}

/// A record that owns none of the revisions counts none.
proof fn lemma_count_owned_none(revisions: Seq<RevisionRow>, record_id: int)
    requires
        forall|i: int|
            0 <= i < revisions.len() ==> (#[trigger] revisions[i]).record_id != record_id,
    ensures
        count_owned(revisions, record_id) == 0,
    decreases revisions.len(),
{
    if revisions.len() > 0 {
        assert forall|i: int| 0 <= i < revisions.drop_last().len() implies (
        #[trigger] revisions.drop_last()[i]).record_id != record_id by {
            assert(revisions.drop_last()[i] == revisions[i]);
        }
        lemma_count_owned_none(revisions.drop_last(), record_id);
    }
}

/// The key of the record that a submission for the user message points at
/// its new revision: the record that the user message has, or the next key.
pub open spec fn submitted_record_id(store: StoreModel, chat_id: i64, user_msg_id: i64) -> int {
    if store.has_key(chat_id, user_msg_id) {
        store.record_id_of_key(chat_id, user_msg_id)
    } else {
        store.records.len() as int + 1
    }
}

/// What a submission does, said piece by piece: one revision more, owned by
/// the record of the user message, which now points at it and counts one
/// revision more; the revisions that were there are as they were.
pub proof fn lemma_create_effects(
    store: StoreModel,
    chat_id: i64,
    user_msg_id: i64,
    created_by_user_id: i64,
    rendered_code: Seq<char>,
    page_state: PlaygroundRecordPageState,
)
    requires
        store.wf(),
        store.has_room(),
    ensures
        ({
            let after = store.create(
                chat_id,
                user_msg_id,
                created_by_user_id,
                rendered_code,
                page_state,
            );
            let record_id = submitted_record_id(store, chat_id, user_msg_id);
            let revision_id = store.next_revision_id();
            &&& after.wf()
            &&& after.limit == store.limit
            &&& after.revisions == store.revisions.push(
                RevisionRow { record_id, content: RevisionContent::pending(rendered_code) },
            )
            &&& after.has_key(chat_id, user_msg_id)
            &&& after.record_id_of_key(chat_id, user_msg_id) == record_id
            &&& after.has_record(record_id)
            &&& after.record(record_id).revision_id == revision_id
            &&& after.record(record_id).page_state == page_state
            &&& after.record(record_id).eval_msg_id == store.shown_message(chat_id, user_msg_id)
            &&& after.owner(revision_id) == record_id
            &&& after.revision_count(record_id) == store.revision_count(record_id) + 1
            &&& !store.has_key(chat_id, user_msg_id) ==> store.revision_count(record_id) == 0
        }),
{
    let after = store.create(chat_id, user_msg_id, created_by_user_id, rendered_code, page_state);
    let record_id = submitted_record_id(store, chat_id, user_msg_id);
    store.lemma_create_wf(chat_id, user_msg_id, created_by_user_id, rendered_code, page_state);
    if store.has_key(chat_id, user_msg_id) {
        store.lemma_key_record(chat_id, user_msg_id);
    } else {
        assert forall|i: int| 0 <= i < store.revisions.len() implies (
        #[trigger] store.revisions[i]).record_id != record_id by {
            assert(store.has_record(store.revisions[i].record_id));
        }
        lemma_count_owned_none(store.revisions, record_id);
    }
    assert(holds_key(after.records[record_id - 1], chat_id, user_msg_id));
    after.lemma_record_of_key(chat_id, user_msg_id, record_id - 1);
    lemma_count_owned_push(
        store.revisions,
        RevisionRow { record_id, content: RevisionContent::pending(rendered_code) },
        record_id,
    );
}

/// A result that arrives after a newer submission for the same user message
/// is outdated: the store says so, no record changes, and the newer revision
/// is untouched. The result of the newer revision is still accepted
/// afterwards.
pub proof fn law_superseded_result_is_outdated(
    store: StoreModel,
    chat_id: i64,
    user_msg_id: i64,
    first: Submission,
    second: Submission,
    first_result: RevisionView,
)
    requires
        store.wf(),
        store.revisions.len() + 2 <= store.limit,
        first_result.revision_id == store.next_revision_id(),
    ensures
        ({
            let one = store.create(
                chat_id,
                user_msg_id,
                first.created_by_user_id,
                first.rendered_code,
                first.page_state,
            );
            let two = one.create(
                chat_id,
                user_msg_id,
                second.created_by_user_id,
                second.rendered_code,
                second.page_state,
            );
            let newer = one.next_revision_id();
            let late = two.commit(first_result);
            &&& one.is_latest(first_result.revision_id)
            &&& !two.is_latest(first_result.revision_id)
            &&& two.is_latest(newer)
            &&& late.records == two.records
            &&& late.revision(newer) == two.revision(newer)
            &&& late.is_latest(newer)
        }),
{
    lemma_create_effects(
        store,
        chat_id,
        user_msg_id,
        first.created_by_user_id,
        first.rendered_code,
        first.page_state,
    );
    let one = store.create(
        chat_id,
        user_msg_id,
        first.created_by_user_id,
        first.rendered_code,
        first.page_state,
    );
    lemma_create_effects(
        one,
        chat_id,
        user_msg_id,
        second.created_by_user_id,
        second.rendered_code,
        second.page_state,
    );
}

/// Giving a revision the same permalink twice leaves the store as giving it
/// once does.
pub proof fn law_perma_link_update_is_idempotent(
    store: StoreModel,
    revision_id: int,
    perma_link: Seq<char>,
)
    ensures
        store.set_perma_link(revision_id, perma_link).set_perma_link(revision_id, perma_link)
            == store.set_perma_link(revision_id, perma_link),
{
    let once = store.set_perma_link(revision_id, perma_link);
    let twice = once.set_perma_link(revision_id, perma_link);
    assert(twice.revisions =~= once.revisions);
}

/// A request is authorized if and only if it names the current revision of
/// the record, the chat message that shows the record, and the user who
/// created it. A request that differs from the record in any one of the
/// three is not.
pub proof fn law_authorization_is_exact_match(
    store: StoreModel,
    eval_msg_id: i64,
    created_by_user_id: i64,
    revision_id: int,
)
    requires
        store.wf(),
    ensures
        store.authorizes(eval_msg_id, created_by_user_id, revision_id) <==> {
            &&& store.has_revision(revision_id)
            &&& store.owning_record(revision_id).revision_id == revision_id
            &&& store.owning_record(revision_id).eval_msg_id == Some(eval_msg_id)
            &&& store.owning_record(revision_id).created_by_user_id == created_by_user_id
        },
        store.authorizes(eval_msg_id, created_by_user_id, revision_id) ==> forall|
            other_msg: i64,
            other_user: i64,
        |
            (other_msg != eval_msg_id || other_user != created_by_user_id) ==> !store.authorizes(
                other_msg,
                other_user,
                revision_id,
            ),
        store.authorizes(eval_msg_id, created_by_user_id, revision_id) ==> forall|other: int|
            other != revision_id && store.has_revision(other) && store.owner(other) == store.owner(
                revision_id,
            ) ==> !store.authorizes(eval_msg_id, created_by_user_id, other),
{
}

/// How many revisions the record of a user message has had; none if the
/// user message has no record.
pub open spec fn history_length(store: StoreModel, chat_id: i64, user_msg_id: i64) -> nat {
    if store.has_key(chat_id, user_msg_id) {
        store.revision_count(store.record_id_of_key(chat_id, user_msg_id))
    } else {
        0
    }
}

/// After a run of submissions for a user message, every one of the
/// revisions that they made reads the same count: the length of the whole
/// history of the record, which is what it was before and the number of the
/// submissions. It is not the position of the revision in the history.
pub proof fn law_revision_count_is_history_length(
    store: StoreModel,
    chat_id: i64,
    user_msg_id: i64,
    submissions: Seq<Submission>,
    j: int,
)
    requires
        store.wf(),
        store.revisions.len() + submissions.len() <= store.limit,
        0 <= j < submissions.len(),
    ensures
        ({
            let after = submit_all(store, chat_id, user_msg_id, submissions);
            let revision_id = store.revisions.len() + 1 + j;
            &&& after.has_revision(revision_id)
            &&& after.read(revision_id).record_revision_count == history_length(
                store,
                chat_id,
                user_msg_id,
            ) + submissions.len()
            &&& after.read(revision_id).record_revision_count == history_length(
                after,
                chat_id,
                user_msg_id,
            )
            &&& after.read(revision_id).content.rendered_code == submissions[j].rendered_code
        }),
{
    lemma_submit_all(store, chat_id, user_msg_id, submissions);
    let after = submit_all(store, chat_id, user_msg_id, submissions);
    let record_id = submitted_record_id(store, chat_id, user_msg_id);
    assert(after.revisions[store.revisions.len() + j].record_id == record_id);
    assert(after.revision(store.revisions.len() + 1 + j) == after.revisions[store.revisions.len()
        + j]);
}

/// What a run of submissions for one user message does to the store.
pub proof fn lemma_submit_all(
    store: StoreModel,
    chat_id: i64,
    user_msg_id: i64,
    submissions: Seq<Submission>,
)
    requires
        store.wf(),
        store.revisions.len() + submissions.len() <= store.limit,
        submissions.len() > 0,
    ensures
        ({
            let after = submit_all(store, chat_id, user_msg_id, submissions);
            let record_id = submitted_record_id(store, chat_id, user_msg_id);
            &&& after.wf()
            &&& after.limit == store.limit
            &&& after.revisions.len() == store.revisions.len() + submissions.len()
            &&& after.has_key(chat_id, user_msg_id)
            &&& after.record_id_of_key(chat_id, user_msg_id) == record_id
            &&& after.revision_count(record_id) == store.revision_count(record_id)
                + submissions.len()
            &&& !store.has_key(chat_id, user_msg_id) ==> store.revision_count(record_id) == 0
            &&& forall|j: int|
                0 <= j < submissions.len() ==> {
                    &&& (#[trigger] after.revisions[store.revisions.len() + j]).record_id
                        == record_id
                    &&& after.revisions[store.revisions.len() + j].content
                        == RevisionContent::pending(submissions[j].rendered_code)
                }
        }),
    decreases submissions.len(),
{
    let last = submissions.last();
    let earlier = submissions.drop_last();
    let before = submit_all(store, chat_id, user_msg_id, earlier);
    let after = submit_all(store, chat_id, user_msg_id, submissions);
    let record_id = submitted_record_id(store, chat_id, user_msg_id);
    if earlier.len() == 0 {
        assert(before == store);
        lemma_create_effects(
            store,
            chat_id,
            user_msg_id,
            last.created_by_user_id,
            last.rendered_code,
            last.page_state,
        );
    } else {
        lemma_submit_all(store, chat_id, user_msg_id, earlier);
        lemma_create_effects(
            before,
            chat_id,
            user_msg_id,
            last.created_by_user_id,
            last.rendered_code,
            last.page_state,
        );
        assert forall|j: int| 0 <= j < submissions.len() implies {
            &&& (#[trigger] after.revisions[store.revisions.len() + j]).record_id == record_id
            &&& after.revisions[store.revisions.len() + j].content == RevisionContent::pending(
                submissions[j].rendered_code,
            )
        } by {
            if j < earlier.len() {
                assert(after.revisions[store.revisions.len() + j]
                    == before.revisions[store.revisions.len() + j]);
                assert(earlier[j] == submissions[j]);
            }
        }
    }
}

/// A second submission for the same user message removes nothing: every
/// revision that was there is there as it was. The record stays the same
/// record, keeps its creator and the chat message that shows it, and points
/// at the new revision.
pub proof fn law_resubmission_keeps_history(
    store: StoreModel,
    chat_id: i64,
    user_msg_id: i64,
    first: Submission,
    second: Submission,
)
    requires
        store.wf(),
        store.revisions.len() + 2 <= store.limit,
    ensures
        ({
            let one = store.create(
                chat_id,
                user_msg_id,
                first.created_by_user_id,
                first.rendered_code,
                first.page_state,
            );
            let two = one.create(
                chat_id,
                user_msg_id,
                second.created_by_user_id,
                second.rendered_code,
                second.page_state,
            );
            let record_id = one.record_id_of_key(chat_id, user_msg_id);
            &&& two.revisions.len() == one.revisions.len() + 1
            &&& forall|revision_id: int|
                one.has_revision(revision_id) ==> two.has_revision(revision_id)
                    && #[trigger] two.revision(revision_id) == one.revision(revision_id)
            &&& two.records.len() == one.records.len()
            &&& two.record_id_of_key(chat_id, user_msg_id) == record_id
            &&& two.record(record_id).revision_id == one.next_revision_id()
            &&& two.record(record_id).page_state == second.page_state
            &&& two.record(record_id).eval_msg_id == one.record(record_id).eval_msg_id
            &&& two.record(record_id).created_by_user_id == one.record(
                record_id,
            ).created_by_user_id
            &&& two.read(store.next_revision_id()).content == one.read(
                store.next_revision_id(),
            ).content
        }),
{
    lemma_create_effects(
        store,
        chat_id,
        user_msg_id,
        first.created_by_user_id,
        first.rendered_code,
        first.page_state,
    );
    let one = store.create(
        chat_id,
        user_msg_id,
        first.created_by_user_id,
        first.rendered_code,
        first.page_state,
    );
    lemma_create_effects(
        one,
        chat_id,
        user_msg_id,
        second.created_by_user_id,
        second.rendered_code,
        second.page_state,
    );
}

/// Taking a deletion back restores the store: a record that has let go of
/// its chat message on an authorized request is, once it has been given
/// that message again, the record that it was.
pub proof fn law_revert_restores_deletion(
    store: StoreModel,
    eval_msg_id: i64,
    created_by_user_id: i64,
    revision_id: int,
)
    requires
        store.wf(),
        store.authorizes(eval_msg_id, created_by_user_id, revision_id),
    ensures
        !store.clear_eval_msg_id(revision_id).authorizes(
            eval_msg_id,
            created_by_user_id,
            revision_id,
        ),
        store.clear_eval_msg_id(revision_id).set_eval_msg_id(revision_id, eval_msg_id) == store,
{
    store.lemma_owner(revision_id);
    let deleted = store.clear_eval_msg_id(revision_id);
    let reverted = deleted.set_eval_msg_id(revision_id, eval_msg_id);
    assert(reverted.records =~= store.records);
}

/// A request that is not authorized changes nothing, and a request that
/// is changes one record and no revision: a deletion takes the chat
/// message from the record, and a switch gives it the page state.
pub proof fn law_authorized_requests_touch_one_record(
    store: StoreModel,
    revision_id: int,
    page_state: PlaygroundRecordPageState,
)
    requires
        store.wf(),
        store.has_revision(revision_id),
    ensures
        store.clear_eval_msg_id(revision_id).revisions == store.revisions,
        store.set_page_state(revision_id, page_state).revisions == store.revisions,
        forall|record_id: int|
            store.has_record(record_id) && record_id != store.owner(revision_id) ==> {
                &&& #[trigger] store.clear_eval_msg_id(revision_id).record(record_id)
                    == store.record(record_id)
                &&& #[trigger] store.set_page_state(revision_id, page_state).record(record_id)
                    == store.record(record_id)
            },
        store.clear_eval_msg_id(revision_id).owning_record(revision_id) == (RecordView {
            eval_msg_id: None,
            ..store.owning_record(revision_id)
        }),
        store.set_page_state(revision_id, page_state).owning_record(revision_id) == (RecordView {
            page_state,
            ..store.owning_record(revision_id)
        }),
{
    store.lemma_owner(revision_id);
}

/// The current revision of a record is the newest of its revisions: no
/// revision of a record is newer than the one that the record points at,
/// and a revision is current exactly when its record has no newer one.
pub proof fn law_current_revision_is_newest(store: StoreModel, revision_id: int)
    requires
        store.wf(),
        store.has_revision(revision_id),
    ensures
        revision_id <= store.owning_record(revision_id).revision_id,
        store.is_latest(revision_id) <==> forall|other: int|
            store.has_revision(other) && #[trigger] store.owner(other) == store.owner(
                revision_id,
            ) ==> other <= revision_id,
{
    let current = store.owning_record(revision_id).revision_id;
    assert(revision_id <= store.record(store.revisions[revision_id - 1].record_id).revision_id);
    store.lemma_owner(revision_id);
    assert(store.has_revision(store.records[store.owner(revision_id) - 1].revision_id));
    if store.is_latest(revision_id) {
        assert forall|other: int|
            store.has_revision(other) && #[trigger] store.owner(other) == store.owner(
                revision_id,
            ) implies other <= revision_id by {
            assert(other <= store.record(store.revisions[other - 1].record_id).revision_id);
        }
    }
    if forall|other: int|
        store.has_revision(other) && #[trigger] store.owner(other) == store.owner(revision_id)
            ==> other <= revision_id {
        assert(store.owner(current) == store.owner(revision_id));
    }
}

/// One operation on the store, with what it is given.
pub enum Step {
    Create {
        chat_id: i64,
        user_msg_id: i64,
        created_by_user_id: i64,
        rendered_code: Seq<char>,
        page_state: PlaygroundRecordPageState,
    },
    UpdateEvalMsgId { revision_id: int, eval_msg_id: i64 },
    UpdateRevision { revision: RevisionView },
    Delete { eval_msg_id: i64, created_by_user_id: i64, revision_id: int },
    SwitchPageState {
        eval_msg_id: i64,
        created_by_user_id: i64,
        revision_id: int,
        page_state: PlaygroundRecordPageState,
    },
    UpdatePermaLink { revision_id: int, perma_link: Seq<char> },
}

/// The store after an operation: a submission to a full store and a request
/// that is not authorized leave it as it is.
pub open spec fn after_step(store: StoreModel, step: Step) -> StoreModel {
    match step {
        Step::Create { chat_id, user_msg_id, created_by_user_id, rendered_code, page_state } => {
            if store.has_room() {
                store.create(chat_id, user_msg_id, created_by_user_id, rendered_code, page_state)
            } else {
                store
            }
        },
        Step::UpdateEvalMsgId { revision_id, eval_msg_id } => store.set_eval_msg_id(
            revision_id,
            eval_msg_id,
        ),
        Step::UpdateRevision { revision } => store.commit(revision),
        Step::Delete { eval_msg_id, created_by_user_id, revision_id } => {
            if store.authorizes(eval_msg_id, created_by_user_id, revision_id) {
                store.clear_eval_msg_id(revision_id)
            } else {
                store
            }
        },
        Step::SwitchPageState { eval_msg_id, created_by_user_id, revision_id, page_state } => {
            if store.authorizes(eval_msg_id, created_by_user_id, revision_id) {
                store.set_page_state(revision_id, page_state)
            } else {
                store
            }
        },
        Step::UpdatePermaLink { revision_id, perma_link } => store.set_perma_link(
            revision_id,
            perma_link,
        ),
    }
}

/// Whatever the operation, the store stays well-formed and loses nothing:
/// every revision is still there, under its key, with its owner and its
/// source; every record is still there, under its key, for the same user
/// message and with the same creator; and the history of no record gets
/// shorter.
pub proof fn law_steps_keep_the_history(store: StoreModel, step: Step)
    requires
        store.wf(),
    ensures
        after_step(store, step).wf(),
        after_step(store, step).limit == store.limit,
        forall|revision_id: int| #[trigger]
            store.has_revision(revision_id) ==> {
                &&& after_step(store, step).has_revision(revision_id)
                &&& after_step(store, step).owner(revision_id) == store.owner(revision_id)
                &&& after_step(store, step).revision(revision_id).content.rendered_code
                    == store.revision(revision_id).content.rendered_code
            },
        forall|record_id: int| #[trigger]
            store.has_record(record_id) ==> {
                &&& after_step(store, step).has_record(record_id)
                &&& after_step(store, step).record(record_id).id == record_id
                &&& after_step(store, step).record(record_id).chat_id == store.record(
                    record_id,
                ).chat_id
                &&& after_step(store, step).record(record_id).user_msg_id == store.record(
                    record_id,
                ).user_msg_id
                &&& after_step(store, step).record(record_id).created_by_user_id == store.record(
                    record_id,
                ).created_by_user_id
                &&& after_step(store, step).record(record_id).revision_id >= store.record(
                    record_id,
                ).revision_id
            },
{
    let after = after_step(store, step);
    assert forall|record_id: int| #[trigger] store.has_record(record_id) implies store.record(
        record_id,
    ).id == record_id && store.has_revision(store.record(record_id).revision_id) by {
        assert(store.records[record_id - 1].id == record_id);
    }
    match step {
        Step::Create { chat_id, user_msg_id, created_by_user_id, rendered_code, page_state } => {
            if store.has_room() {
                lemma_create_effects(
                    store,
                    chat_id,
                    user_msg_id,
                    created_by_user_id,
                    rendered_code,
                    page_state,
                );
                if store.has_key(chat_id, user_msg_id) {
                    store.lemma_key_record(chat_id, user_msg_id);
                }
            }
        },
        Step::UpdateEvalMsgId { revision_id, eval_msg_id } => {
            if store.has_revision(revision_id) {
                store.lemma_owner(revision_id);
                store.lemma_with_record_wf(
                    store.owner(revision_id),
                    RecordView {
                        eval_msg_id: Some(eval_msg_id),
                        ..store.owning_record(revision_id)
                    },
                );
            }
        },
        Step::UpdateRevision { revision } => {
            if store.has_revision(revision.revision_id) {
                store.lemma_with_content_wf(
                    revision.revision_id,
                    after.revision(revision.revision_id).content,
                );
            }
        },
        Step::Delete { eval_msg_id, created_by_user_id, revision_id } => {
            if store.authorizes(eval_msg_id, created_by_user_id, revision_id) {
                store.lemma_owner(revision_id);
                store.lemma_with_record_wf(
                    store.owner(revision_id),
                    RecordView { eval_msg_id: None, ..store.owning_record(revision_id) },
                );
            }
        },
        Step::SwitchPageState { eval_msg_id, created_by_user_id, revision_id, page_state } => {
            if store.authorizes(eval_msg_id, created_by_user_id, revision_id) {
                store.lemma_owner(revision_id);
                store.lemma_with_record_wf(
                    store.owner(revision_id),
                    RecordView { page_state, ..store.owning_record(revision_id) },
                );
            }
        },
        Step::UpdatePermaLink { revision_id, perma_link } => {
            if store.has_revision(revision_id) {
                store.lemma_with_content_wf(revision_id, after.revision(revision_id).content);
            }
        },
    }
}

} // verus!
