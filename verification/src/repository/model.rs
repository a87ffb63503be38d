//! The store as a mathematical value, and what each operation does to it.
//!
//! Revisions and records are kept in the order in which they were created,
//! and the key of a row is its position counted from one. A revision row is
//! never removed, so the keys of old revisions stay valid for ever.

use super::playground_record::{
    PlaygroundRecordPageState, RecordView, RevisionContent, RevisionView,
};
use vstd::prelude::*;

verus! {

/// The number of revisions that no store holds more of.
pub const MAX_REVISIONS: usize = 0xffff_ffff;

/// A stored revision: the record that owns it, and its content.
pub struct RevisionRow {
    pub record_id: int,
    pub content: RevisionContent,
}

/// Whether `record` is the slot of the user message `user_msg_id` of the
/// chat `chat_id`.
pub open spec fn holds_key(record: RecordView, chat_id: i64, user_msg_id: i64) -> bool {
    record.chat_id == chat_id && record.user_msg_id == user_msg_id
}

/// How many of `revisions` the record `record_id` owns.
pub open spec fn count_owned(revisions: Seq<RevisionRow>, record_id: int) -> nat
    decreases revisions.len(),
{
    if revisions.len() == 0 {
        0
    } else {
        count_owned(revisions.drop_last(), record_id) + if revisions.last().record_id
            == record_id {
            1nat
        } else {
            0nat
        }
    }
}

/// The two tables of the store, and the number of revisions that it holds
/// at most.
pub struct StoreModel {
    pub revisions: Seq<RevisionRow>,
    pub records: Seq<RecordView>,
    pub limit: nat,
}

impl StoreModel {
    /// The store without any row, for `limit` revisions at most.
    pub open spec fn empty(limit: nat) -> StoreModel {
        StoreModel { revisions: Seq::empty(), records: Seq::empty(), limit }
    }

    /// Whether `revision_id` is the key of a revision.
    pub open spec fn has_revision(self, revision_id: int) -> bool {
        1 <= revision_id <= self.revisions.len()
    }

    /// The revision with the key `revision_id`.
    pub open spec fn revision(self, revision_id: int) -> RevisionRow {
        self.revisions[revision_id - 1]
    }

    /// Whether `record_id` is the key of a record.
    pub open spec fn has_record(self, record_id: int) -> bool {
        1 <= record_id <= self.records.len()
    }

    /// The record with the key `record_id`.
    pub open spec fn record(self, record_id: int) -> RecordView {
        self.records[record_id - 1]
    }

    /// What holds of every store that the operations can reach: every
    /// revision belongs to a record, the current revision of a record is one
    /// of its own and the newest of them, and no two records are the slot of
    /// the same user message.
    pub open spec fn wf(self) -> bool {
        &&& self.records.len() <= self.revisions.len() <= self.limit <= MAX_REVISIONS
        &&& forall|i: int|
            0 <= i < self.revisions.len() ==> {
                &&& self.has_record((#[trigger] self.revisions[i]).record_id)
                &&& i + 1 <= self.record(self.revisions[i].record_id).revision_id
            }
        &&& forall|k: int|
            0 <= k < self.records.len() ==> {
                &&& (#[trigger] self.records[k]).id == k + 1
                &&& self.has_revision(self.records[k].revision_id)
                &&& self.revision(self.records[k].revision_id).record_id == k + 1
            }
        &&& forall|j: int, k: int|
            0 <= j < k < self.records.len() ==> !holds_key(
                #[trigger] self.records[j],
                (#[trigger] self.records[k]).chat_id,
                self.records[k].user_msg_id,
            )
    }

    /// Whether the user message has a record.
    pub open spec fn has_key(self, chat_id: i64, user_msg_id: i64) -> bool {
        exists|k: int|
            0 <= k < self.records.len() && holds_key(
                #[trigger] self.records[k],
                chat_id,
                user_msg_id,
            )
    }

    /// The key of the record of the user message, where it has one.
    pub open spec fn record_id_of_key(self, chat_id: i64, user_msg_id: i64) -> int {
        1 + choose|k: int|
            0 <= k < self.records.len() && holds_key(
                #[trigger] self.records[k],
                chat_id,
                user_msg_id,
            )
    }

    /// Whether another revision can be created.
    pub open spec fn has_room(self) -> bool {
        self.revisions.len() < self.limit
    }

    /// The key that the next revision gets.
    pub open spec fn next_revision_id(self) -> int {
        self.revisions.len() as int + 1
    }

    /// The chat message that shows the record of the user message, if the
    /// user message has a record and the record has such a message.
    pub open spec fn shown_message(self, chat_id: i64, user_msg_id: i64) -> Option<i64> {
        if self.has_key(chat_id, user_msg_id) {
            self.record(self.record_id_of_key(chat_id, user_msg_id)).eval_msg_id
        } else {
            None
        }
    }

    /// The store after a submission: a new revision that holds the source,
    /// and the record of the user message pointed at it. An existing record
    /// keeps its key, its creator and the chat message that shows it; a new
    /// record has no such message yet.
    pub open spec fn create(
        self,
        chat_id: i64,
        user_msg_id: i64,
        created_by_user_id: i64,
        rendered_code: Seq<char>,
        page_state: PlaygroundRecordPageState,
    ) -> StoreModel {
        let revision_id = self.next_revision_id();
        if self.has_key(chat_id, user_msg_id) {
            let record_id = self.record_id_of_key(chat_id, user_msg_id);
            StoreModel {
                revisions: self.revisions.push(
                    RevisionRow { record_id, content: RevisionContent::pending(rendered_code) },
                ),
                records: self.records.update(
                    record_id - 1,
                    RecordView { revision_id, page_state, ..self.record(record_id) },
                ),
                ..self
            }
        } else {
            let record_id = self.records.len() as int + 1;
            StoreModel {
                revisions: self.revisions.push(
                    RevisionRow { record_id, content: RevisionContent::pending(rendered_code) },
                ),
                records: self.records.push(
                    RecordView {
                        id: record_id,
                        chat_id,
                        user_msg_id,
                        eval_msg_id: None,
                        created_by_user_id,
                        revision_id,
                        page_state,
                    },
                ),
                ..self
            }
        }
    }

    /// The key of the record that owns the revision.
    pub open spec fn owner(self, revision_id: int) -> int {
        self.revision(revision_id).record_id
    }

    /// The record that owns the revision.
    pub open spec fn owning_record(self, revision_id: int) -> RecordView {
        self.record(self.owner(revision_id))
    }

    /// The store with the record `record_id` replaced.
    pub open spec fn with_record(self, record_id: int, record: RecordView) -> StoreModel {
        StoreModel { records: self.records.update(record_id - 1, record), ..self }
    }

    /// The store after the record that owns the revision has been told which
    /// chat message shows it. A key of no revision changes nothing.
    pub open spec fn set_eval_msg_id(self, revision_id: int, eval_msg_id: i64) -> StoreModel {
        if self.has_revision(revision_id) {
            self.with_record(
                self.owner(revision_id),
                RecordView {
                    eval_msg_id: Some(eval_msg_id),
                    ..self.owning_record(revision_id)
                },
            )
        } else {
            self
        }
    }

    /// The store after the result of a run has been written into its
    /// revision. The source and the owner of the revision stay; no record
    /// changes. A key of no revision changes nothing.
    pub open spec fn commit(self, revision: RevisionView) -> StoreModel {
        if self.has_revision(revision.revision_id) {
            let row = self.revision(revision.revision_id);
            StoreModel {
                revisions: self.revisions.update(
                    revision.revision_id - 1,
                    RevisionRow {
                        record_id: row.record_id,
                        content: RevisionContent {
                            rendered_code: row.content.rendered_code,
                            ..revision.content
                        },
                    },
                ),
                ..self
            }
        } else {
            self
        }
    }

    /// Whether the revision is the current one of its record.
    pub open spec fn is_latest(self, revision_id: int) -> bool {
        self.has_revision(revision_id) && self.owning_record(revision_id).revision_id
            == revision_id
    }

    /// How many revisions the record has had.
    pub open spec fn revision_count(self, record_id: int) -> nat {
        count_owned(self.revisions, record_id)
    }

    /// Whether a request may change the record behind the revision: the
    /// revision is the current one of its record, the record is shown by the
    /// chat message `eval_msg_id`, and `created_by_user_id` created it.
    pub open spec fn authorizes(
        self,
        eval_msg_id: i64,
        created_by_user_id: i64,
        revision_id: int,
    ) -> bool {
        &&& self.is_latest(revision_id)
        &&& self.owning_record(revision_id).eval_msg_id == Some(eval_msg_id)
        &&& self.owning_record(revision_id).created_by_user_id == created_by_user_id
    }

    /// The store after the record that owns the revision has lost the chat
    /// message that showed it.
    pub open spec fn clear_eval_msg_id(self, revision_id: int) -> StoreModel {
        if self.has_revision(revision_id) {
            self.with_record(
                self.owner(revision_id),
                RecordView { eval_msg_id: None, ..self.owning_record(revision_id) },
            )
        } else {
            self
        }
    }

    /// The store after the record that owns the revision has been given
    /// another page state.
    pub open spec fn set_page_state(
        self,
        revision_id: int,
        page_state: PlaygroundRecordPageState,
    ) -> StoreModel {
        if self.has_revision(revision_id) {
            self.with_record(
                self.owner(revision_id),
                RecordView { page_state, ..self.owning_record(revision_id) },
            )
        } else {
            self
        }
    }

    /// The revision as a reader gets it: its content, and how many revisions
    /// its record has had.
    pub open spec fn read(self, revision_id: int) -> RevisionView {
        RevisionView {
            revision_id,
            record_revision_count: self.revision_count(self.owner(revision_id)),
            content: self.revision(revision_id).content,
        }
    }

    /// The store after the revision has been given a permalink.
    pub open spec fn set_perma_link(self, revision_id: int, perma_link: Seq<char>) -> StoreModel {
        if self.has_revision(revision_id) {
            let row = self.revision(revision_id);
            StoreModel {
                revisions: self.revisions.update(
                    revision_id - 1,
                    RevisionRow {
                        record_id: row.record_id,
                        content: RevisionContent { perma_link: Some(perma_link), ..row.content },
                    },
                ),
                ..self
            }
        } else {
            self
        }
    }
}

/// A record counts one more revision once it has been given one, and every
/// other record counts what it counted before.
pub proof fn lemma_count_owned_push(revisions: Seq<RevisionRow>, row: RevisionRow, record_id: int)
    ensures
        count_owned(revisions.push(row), record_id) == count_owned(revisions, record_id)
            + if row.record_id == record_id {
            1nat
        } else {
            0nat
        },
{
    assert(revisions.push(row).drop_last() =~= revisions);
}

/// No record counts more revisions than there are.
pub proof fn lemma_count_owned_bound(revisions: Seq<RevisionRow>, record_id: int)
    ensures
        count_owned(revisions, record_id) <= revisions.len(),
    decreases revisions.len(),
{
    if revisions.len() > 0 {
        lemma_count_owned_bound(revisions.drop_last(), record_id);
    }
}

/// A record that owns a revision counts at least one.
pub proof fn lemma_count_owned_positive(revisions: Seq<RevisionRow>, i: int)
    requires
        0 <= i < revisions.len(),
    ensures
        count_owned(revisions, revisions[i].record_id) >= 1,
    decreases revisions.len(),
{
    if i < revisions.len() - 1 {
        lemma_count_owned_positive(revisions.drop_last(), i);
    }
}

/// Replacing a revision by one of the same owner changes no count.
pub proof fn lemma_count_owned_update(
    revisions: Seq<RevisionRow>,
    i: int,
    row: RevisionRow,
    record_id: int,
)
    requires
        0 <= i < revisions.len(),
        row.record_id == revisions[i].record_id,
    ensures
        count_owned(revisions.update(i, row), record_id) == count_owned(revisions, record_id),
    decreases revisions.len(),
{
    let updated = revisions.update(i, row);
    if i == revisions.len() - 1 {
        assert(updated.drop_last() =~= revisions.drop_last());
    } else {
        assert(updated.drop_last() =~= revisions.drop_last().update(i, row));
        lemma_count_owned_update(revisions.drop_last(), i, row, record_id);
    }
}

impl StoreModel {
    /// In a well-formed store the record of a user message is the only
    /// record that holds its key.
    pub proof fn lemma_record_of_key(self, chat_id: i64, user_msg_id: i64, k: int)
        requires
            self.wf(),
            0 <= k < self.records.len(),
            holds_key(self.records[k], chat_id, user_msg_id),
        ensures
            self.has_key(chat_id, user_msg_id),
            self.record_id_of_key(chat_id, user_msg_id) == k + 1,
    {
        let c = self.record_id_of_key(chat_id, user_msg_id) - 1;
        assert(0 <= c < self.records.len() && holds_key(self.records[c], chat_id, user_msg_id));
        if c < k {
            assert(!holds_key(
                self.records[c],
                self.records[k].chat_id,
                self.records[k].user_msg_id,
            ));
        } else if k < c {
            assert(!holds_key(
                self.records[k],
                self.records[c].chat_id,
                self.records[c].user_msg_id,
            ));
        }
    }

    /// The record of a user message, where it has one, is a record of the
    /// store and holds the key.
    pub proof fn lemma_key_record(self, chat_id: i64, user_msg_id: i64)
        requires
            self.has_key(chat_id, user_msg_id),
        ensures
            self.has_record(self.record_id_of_key(chat_id, user_msg_id)),
            holds_key(
                self.record(self.record_id_of_key(chat_id, user_msg_id)),
                chat_id,
                user_msg_id,
            ),
    {
    }

    /// A submission leaves the store well-formed.
    pub proof fn lemma_create_wf(
        self,
        chat_id: i64,
        user_msg_id: i64,
        created_by_user_id: i64,
        rendered_code: Seq<char>,
        page_state: PlaygroundRecordPageState,
    )
        requires
            self.wf(),
            self.has_room(),
        ensures
            self.create(chat_id, user_msg_id, created_by_user_id, rendered_code, page_state).wf(),
    {
        let next = self.create(chat_id, user_msg_id, created_by_user_id, rendered_code, page_state);
        if self.has_key(chat_id, user_msg_id) {
            self.lemma_key_record(chat_id, user_msg_id);
            let record_id = self.record_id_of_key(chat_id, user_msg_id);
            assert forall|i: int| 0 <= i < next.revisions.len() implies {
                &&& next.has_record((#[trigger] next.revisions[i]).record_id)
                &&& i + 1 <= next.record(next.revisions[i].record_id).revision_id
            } by {
                if i < self.revisions.len() {
                    assert(next.revisions[i] == self.revisions[i]);
                    assert(self.has_revision(
                        self.records[self.revisions[i].record_id - 1].revision_id,
                    ));
                }
            }
            assert forall|k: int| 0 <= k < next.records.len() implies {
                &&& (#[trigger] next.records[k]).id == k + 1
                &&& next.has_revision(next.records[k].revision_id)
                &&& next.revision(next.records[k].revision_id).record_id == k + 1
            } by {
                assert(self.records[k].id == k + 1);
                if k != record_id - 1 {
                    assert(next.records[k] == self.records[k]);
                }
            }
            assert forall|j: int, k: int| 0 <= j < k < next.records.len() implies !holds_key(
                #[trigger] next.records[j],
                (#[trigger] next.records[k]).chat_id,
                next.records[k].user_msg_id,
            ) by {
                assert(!holds_key(
                    self.records[j],
                    self.records[k].chat_id,
                    self.records[k].user_msg_id,
                ));
            }
        } else {
            assert forall|i: int| 0 <= i < next.revisions.len() implies {
                &&& next.has_record((#[trigger] next.revisions[i]).record_id)
                &&& i + 1 <= next.record(next.revisions[i].record_id).revision_id
            } by {
                if i < self.revisions.len() {
                    assert(next.revisions[i] == self.revisions[i]);
                    assert(self.has_revision(
                        self.records[self.revisions[i].record_id - 1].revision_id,
                    ));
                }
            }
            assert forall|k: int| 0 <= k < next.records.len() implies {
                &&& (#[trigger] next.records[k]).id == k + 1
                &&& next.has_revision(next.records[k].revision_id)
                &&& next.revision(next.records[k].revision_id).record_id == k + 1
            } by {
                if k < self.records.len() {
                    assert(next.records[k] == self.records[k]);
                }
            }
            assert forall|j: int, k: int| 0 <= j < k < next.records.len() implies !holds_key(
                #[trigger] next.records[j],
                (#[trigger] next.records[k]).chat_id,
                next.records[k].user_msg_id,
            ) by {
                if k < self.records.len() {
                    assert(!holds_key(
                        self.records[j],
                        self.records[k].chat_id,
                        self.records[k].user_msg_id,
                    ));
                } else {
                    assert(!holds_key(self.records[j], chat_id, user_msg_id));
                }
            }
        }
    }

    /// Replacing a record by one with the same key, the same user message
    /// and the same current revision leaves the store well-formed.
    pub proof fn lemma_with_record_wf(self, record_id: int, record: RecordView)
        requires
            self.wf(),
            self.has_record(record_id),
            record.id == record_id,
            record.chat_id == self.record(record_id).chat_id,
            record.user_msg_id == self.record(record_id).user_msg_id,
            record.revision_id == self.record(record_id).revision_id,
        ensures
            self.with_record(record_id, record).wf(),
    {
        let next = self.with_record(record_id, record);
        assert forall|k: int| 0 <= k < next.records.len() implies {
            &&& (#[trigger] next.records[k]).id == k + 1
            &&& next.has_revision(next.records[k].revision_id)
            &&& next.revision(next.records[k].revision_id).record_id == k + 1
        } by {
            assert(self.records[k].id == k + 1);
        }
        assert forall|j: int, k: int| 0 <= j < k < next.records.len() implies !holds_key(
            #[trigger] next.records[j],
            (#[trigger] next.records[k]).chat_id,
            next.records[k].user_msg_id,
        ) by {
            assert(!holds_key(
                self.records[j],
                self.records[k].chat_id,
                self.records[k].user_msg_id,
            ));
        }
    }

    /// In a well-formed store every revision has an owner among the records.
    pub proof fn lemma_owner(self, revision_id: int)
        requires
            self.wf(),
            self.has_revision(revision_id),
        ensures
            self.has_record(self.owner(revision_id)),
            self.owning_record(revision_id).id == self.owner(revision_id),
            1 <= self.revision_count(self.owner(revision_id)) <= self.revisions.len(),
    {
        assert(self.has_record(self.revisions[revision_id - 1].record_id));
        assert(self.records[self.owner(revision_id) - 1].id == self.owner(revision_id));
        lemma_count_owned_positive(self.revisions, revision_id - 1);
        lemma_count_owned_bound(self.revisions, self.owner(revision_id));
    }

    /// Replacing the content of a revision leaves the store well-formed.
    pub proof fn lemma_with_content_wf(self, revision_id: int, content: RevisionContent)
        requires
            self.wf(),
            self.has_revision(revision_id),
        ensures
            (StoreModel {
                revisions: self.revisions.update(
                    revision_id - 1,
                    RevisionRow { record_id: self.owner(revision_id), content },
                ),
                ..self
            }).wf(),
    {
        let next = StoreModel {
            revisions: self.revisions.update(
                revision_id - 1,
                RevisionRow { record_id: self.owner(revision_id), content },
            ),
            ..self
        };
        assert forall|i: int| 0 <= i < next.revisions.len() implies {
            &&& next.has_record((#[trigger] next.revisions[i]).record_id)
            &&& i + 1 <= next.record(next.revisions[i].record_id).revision_id
        } by {
            assert(self.has_record(self.revisions[i].record_id));
        }
        assert forall|k: int| 0 <= k < next.records.len() implies {
            &&& (#[trigger] next.records[k]).id == k + 1
            &&& next.has_revision(next.records[k].revision_id)
            &&& next.revision(next.records[k].revision_id).record_id == k + 1
        } by {
            assert(self.records[k].id == k + 1);
        }
    }
}

} // verus!
