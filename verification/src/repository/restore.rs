//! A store from rows that were kept elsewhere, and the rows of a store.

use super::model::{holds_key, StoreModel, MAX_REVISIONS};
use super::playground_record::{PlaygroundRecord, PlaygroundRecordRevisionId};
use super::{Repository, StoredRevision, Tables};
use vstd::prelude::*;

verus! {

/// The store that holds the rows, for as many revisions as a store can
/// hold.
pub open spec fn store_of_rows(
    revisions: Seq<StoredRevision>,
    records: Seq<PlaygroundRecord>,
) -> StoreModel {
    StoreModel {
        revisions: Seq::new(revisions.len(), |i: int| revisions[i]@),
        records: Seq::new(records.len(), |k: int| records[k]@),
        limit: MAX_REVISIONS as nat,
    }
}

/// Whether every revision carries the key of its position.
pub open spec fn keys_in_order(revisions: Seq<StoredRevision>) -> bool {
    forall|i: int|
        0 <= i < revisions.len() ==> (#[trigger] revisions[i]).revision.revision_id@ == i + 1
}

/// Whether the rows are the rows of a store: in the order of their keys,
/// and well-formed together.
pub open spec fn restorable(
    revisions: Seq<StoredRevision>,
    records: Seq<PlaygroundRecord>,
) -> bool {
    keys_in_order(revisions) && store_of_rows(revisions, records).wf()
}

impl Tables {
    /// Whether every revision carries the key of its position and belongs
    /// to a record whose current revision is not older than it.
    fn revisions_fit(&self) -> (res: bool)
        requires
            self.records.len() <= self.revisions.len() <= MAX_REVISIONS,
        ensures
            res == (keys_in_order(self.revisions@) && forall|i: int|
                0 <= i < self@.revisions.len() ==> {
                    &&& self@.has_record((#[trigger] self@.revisions[i]).record_id)
                    &&& i + 1 <= self@.record(self@.revisions[i].record_id).revision_id
                }),
    {
        let mut i: usize = 0;
        while i < self.revisions.len()
            invariant
                i <= self.revisions.len() <= MAX_REVISIONS,
                self.records.len() <= self.revisions.len(),
                forall|j: int|
                    0 <= j < i ==> (#[trigger] self.revisions@[j]).revision.revision_id@ == j
                        + 1,
                forall|j: int|
                    0 <= j < i ==> {
                        &&& self@.has_record((#[trigger] self@.revisions[j]).record_id)
                        &&& j + 1 <= self@.record(self@.revisions[j].record_id).revision_id
                    },
            decreases self.revisions.len() - i,
        {
            let entry = &self.revisions[i];
            let owner = entry.record_id.get();
            assert(self@.revisions[i as int] == self.revisions@[i as int]@);
            if entry.revision.revision_id.get() != (i as i64) + 1 || owner < 1 || owner as u64
                > self.records.len() as u64 {
                return false;
            }
            let current = self.records[(owner - 1) as usize].revision_id.get();
            assert(self@.record(owner as int) == self.records@[owner - 1]@);
            if current < (i as i64) + 1 {
                return false;
            }
            i += 1;
        }
        true
    }

    /// Whether every record carries the key of its position and points at
    /// a revision of its own.
    fn records_fit(&self) -> (res: bool)
        requires
            self.records.len() <= self.revisions.len() <= MAX_REVISIONS,
        ensures
            res == forall|k: int|
                0 <= k < self@.records.len() ==> {
                    &&& (#[trigger] self@.records[k]).id == k + 1
                    &&& self@.has_revision(self@.records[k].revision_id)
                    &&& self@.revision(self@.records[k].revision_id).record_id == k + 1
                },
    {
        let mut k: usize = 0;
        while k < self.records.len()
            invariant
                k <= self.records.len() <= self.revisions.len() <= MAX_REVISIONS,
                forall|j: int|
                    0 <= j < k ==> {
                        &&& (#[trigger] self@.records[j]).id == j + 1
                        &&& self@.has_revision(self@.records[j].revision_id)
                        &&& self@.revision(self@.records[j].revision_id).record_id == j + 1
                    },
            decreases self.records.len() - k,
        {
            let record = &self.records[k];
            let current = record.revision_id.get();
            assert(self@.records[k as int] == self.records@[k as int]@);
            if record.id.get() != (k as i64) + 1 || current < 1 || current as u64
                > self.revisions.len() as u64 {
                return false;
            }
            let owner = self.revisions[(current - 1) as usize].record_id.get();
            assert(self@.revision(current as int) == self.revisions@[current - 1]@);
            if owner != (k as i64) + 1 {
                return false;
            }
            k += 1;
        }
        true
    }

    /// Whether no two records are the slot of the same user message.
    fn keys_differ(&self) -> (res: bool)
        ensures
            res == forall|j: int, k: int|
                0 <= j < k < self@.records.len() ==> !holds_key(
                    #[trigger] self@.records[j],
                    (#[trigger] self@.records[k]).chat_id,
                    self@.records[k].user_msg_id,
                ),
    {
        let mut k: usize = 0;
        while k < self.records.len()
            invariant
                k <= self.records.len(),
                forall|i: int, j: int|
                    0 <= i < j < k ==> !holds_key(
                        #[trigger] self@.records[i],
                        (#[trigger] self@.records[j]).chat_id,
                        self@.records[j].user_msg_id,
                    ),
            decreases self.records.len() - k,
        {
            let mut j: usize = 0;
            while j < k
                invariant
                    j <= k < self.records.len(),
                    forall|i: int|
                        0 <= i < j ==> !holds_key(
                            #[trigger] self@.records[i],
                            self@.records[k as int].chat_id,
                            self@.records[k as int].user_msg_id,
                        ),
                decreases k - j,
            {
                assert(self@.records[j as int] == self.records@[j as int]@);
                assert(self@.records[k as int] == self.records@[k as int]@);
                if self.records[j].chat_id == self.records[k].chat_id
                    && self.records[j].user_msg_id == self.records[k].user_msg_id {
                    return false;
                }
                j += 1;
            }
            k += 1;
        }
        true
    }

    /// Whether the rows are the rows of a store.
    fn check(&self) -> (res: bool)
        ensures
            res == (keys_in_order(self.revisions@) && self@.wf()),
    {
        if self.records.len() > self.revisions.len() || self.revisions.len() > self.limit
            || self.limit > MAX_REVISIONS {
            return false;
        }
        self.revisions_fit() && self.records_fit() && self.keys_differ()
    }
}

impl Repository {
    /// Makes a store of rows that were kept elsewhere. The rows have to be
    /// the rows of a store: revisions and records in the order of their
    /// keys, counted from one, every revision owned by a record, every
    /// record pointing at a revision of its own, and no two records for the
    /// same user message. Rows that are not are refused.
    pub fn restore(revisions: Vec<StoredRevision>, records: Vec<PlaygroundRecord>) -> (res:
        Option<Repository>)
        ensures
            res is Some <==> restorable(revisions@, records@),
            res matches Some(repo) ==> repo@ == store_of_rows(revisions@, records@) && repo@.wf(),
    {
        let tables = Tables { revisions, records, limit: MAX_REVISIONS };
        assert(tables@.revisions =~= store_of_rows(revisions@, records@).revisions);
        assert(tables@.records =~= store_of_rows(revisions@, records@).records);
        if tables.check() {
            Some(Repository { tables })
        } else {
            None
        }
    }

    /// The record that owns a revision, for keeping it elsewhere. Hands
    /// back nothing for a key of no revision.
    pub fn get_record_by_revision_id(&self, revision_id: PlaygroundRecordRevisionId) -> (res:
        Option<PlaygroundRecord>)
        ensures
            self@.wf(),
            res is Some <==> self@.has_revision(revision_id@),
            res matches Some(record) ==> record@ == self@.owning_record(revision_id@),
    {
        proof {
            use_type_invariant(self);
        }
        self.tables.owning_record(revision_id)
    }

    /// How many revisions the store holds. Their keys are the numbers from
    /// one to this one.
    pub fn stored_revisions(&self) -> (count: usize)
        ensures
            count == self@.revisions.len(),
    {
        self.tables.revisions.len()
    }
}

} // verus!
