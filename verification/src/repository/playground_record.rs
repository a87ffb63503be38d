//! Records, revisions and the page state of a record.

use super::id::Id;
use super::model::{
    count_owned, holds_key, lemma_count_owned_update, StoreModel, MAX_REVISIONS,
};
use super::{Repository, RepositoryError, RepositoryResult, StoredRevision, Tables};
use vstd::prelude::*;

verus! {

/// Marks the keys of records.
#[derive(Debug, PartialEq, Eq, PartialOrd, Ord, Hash)]
pub struct RecordKey;

/// Marks the keys of revisions.
#[derive(Debug, PartialEq, Eq, PartialOrd, Ord, Hash)]
pub struct RevisionKey;

/// The key of a record.
pub type PlaygroundRecordId = Id<RecordKey>;

/// The key of a revision.
pub type PlaygroundRecordRevisionId = Id<RevisionKey>;

/// Which captured stream a record shows. `Miri` is reserved.
#[derive(Debug, Clone, Copy, PartialEq, Eq, Structural)]
pub enum PlaygroundRecordPageState {
    Output,
    Stderr,
    Miri,
}

impl Default for PlaygroundRecordPageState {
    fn default() -> (res: Self)
        ensures
            res == PlaygroundRecordPageState::Output,
    {
        PlaygroundRecordPageState::Output
    }
}

/// The number under which a page state is stored.
pub open spec fn page_state_code(page_state: PlaygroundRecordPageState) -> u8 {
    match page_state {
        PlaygroundRecordPageState::Output => 0,
        PlaygroundRecordPageState::Stderr => 1,
        PlaygroundRecordPageState::Miri => 2,
    }
}

/// The page state that a stored number stands for: 1 is `Stderr`, 2 is
/// `Miri`, and every other number is `Output`.
pub open spec fn page_state_of_code(code: u8) -> PlaygroundRecordPageState {
    if code == 1 {
        PlaygroundRecordPageState::Stderr
    } else if code == 2 {
        PlaygroundRecordPageState::Miri
    } else {
        PlaygroundRecordPageState::Output
    }
}

/// The number under which a page state is stored.
pub fn encode_page_state(page_state: PlaygroundRecordPageState) -> (code: u8)
    ensures
        code == page_state_code(page_state),
{
    match page_state {
        PlaygroundRecordPageState::Output => 0,
        PlaygroundRecordPageState::Stderr => 1,
        PlaygroundRecordPageState::Miri => 2,
    }
}

/// The page state that a stored number stands for. A number that stands
/// for none is read as `Output`.
pub fn decode_page_state(page_state: u8) -> (res: PlaygroundRecordPageState)
    ensures
        res == page_state_of_code(page_state),
{
    match page_state {
        1 => PlaygroundRecordPageState::Stderr,
        2 => PlaygroundRecordPageState::Miri,
        _ => PlaygroundRecordPageState::Output,
    }
}

/// Decoding undoes encoding: the number under which a page state is stored
/// stands for that page state.
pub proof fn law_page_state_round_trip(page_state: PlaygroundRecordPageState)
    ensures
        page_state_of_code(page_state_code(page_state)) == page_state,
{
}

/// What one execution attempt holds besides its keys: the source that was
/// run and, once the run has finished, its result.
pub struct RevisionContent {
    pub perma_link: Option<Seq<char>>,
    pub rendered_code: Seq<char>,
    pub warning_count: u32,
    pub error_count: u32,
    pub result_success: bool,
    pub result_code: Seq<char>,
    pub result_exit_detail: Seq<char>,
    pub result_stdout: Seq<char>,
    pub result_stderr: Seq<char>,
    pub playground_error: Seq<char>,
}

impl RevisionContent {
    /// The content of a revision whose run has not finished: the source and
    /// nothing else.
    pub open spec fn pending(rendered_code: Seq<char>) -> RevisionContent {
        RevisionContent {
            perma_link: None,
            rendered_code,
            warning_count: 0,
            error_count: 0,
            result_success: false,
            result_code: Seq::empty(),
            result_exit_detail: Seq::empty(),
            result_stdout: Seq::empty(),
            result_stderr: Seq::empty(),
            playground_error: Seq::empty(),
        }
    }
}

/// A revision as a mathematical value.
pub struct RevisionView {
    pub revision_id: int,
    pub record_revision_count: nat,
    pub content: RevisionContent,
}

/// One execution attempt: the source that was run and what came of it.
#[derive(Debug, PartialEq, Eq)]
pub struct PlaygroundRecordRevision {
    pub revision_id: PlaygroundRecordRevisionId,
    /// How many revisions the owning record has had, this one included.
    pub record_revision_count: u32,
    pub perma_link: Option<String>,
    pub rendered_code: String,
    pub warning_count: u32,
    pub error_count: u32,
    pub result_success: bool,
    pub result_code: String,
    pub result_exit_detail: String,
    pub result_stdout: String,
    pub result_stderr: String,
    /// Set when the execution service itself failed; empty otherwise.
    pub playground_error: String,
}

/// The characters of a text that may be missing.
pub open spec fn option_text(text: Option<String>) -> Option<Seq<char>> {
    match text {
        Some(t) => Some(t@),
        None => None,
    }
}

impl View for PlaygroundRecordRevision {
    type V = RevisionView;

    open spec fn view(&self) -> RevisionView {
        RevisionView {
            revision_id: self.revision_id@,
            record_revision_count: self.record_revision_count as nat,
            content: RevisionContent {
                perma_link: option_text(self.perma_link),
                rendered_code: self.rendered_code@,
                warning_count: self.warning_count,
                error_count: self.error_count,
                result_success: self.result_success,
                result_code: self.result_code@,
                result_exit_detail: self.result_exit_detail@,
                result_stdout: self.result_stdout@,
                result_stderr: self.result_stderr@,
                playground_error: self.playground_error@,
            },
        }
    }
}

impl Clone for PlaygroundRecordRevision {
    fn clone(&self) -> (res: Self)
        ensures
            res == *self,
    {
        let perma_link = match &self.perma_link {
            Some(link) => Some(link.clone()),
            None => None,
        };
        PlaygroundRecordRevision {
            revision_id: self.revision_id,
            record_revision_count: self.record_revision_count,
            perma_link,
            rendered_code: self.rendered_code.clone(),
            warning_count: self.warning_count,
            error_count: self.error_count,
            result_success: self.result_success,
            result_code: self.result_code.clone(),
            result_exit_detail: self.result_exit_detail.clone(),
            result_stdout: self.result_stdout.clone(),
            result_stderr: self.result_stderr.clone(),
            playground_error: self.playground_error.clone(),
        }
    }
}

impl Default for PlaygroundRecordRevision {
    /// A revision with the key one, no source and no result.
    fn default() -> (res: Self)
        ensures
            res@ == (RevisionView {
                revision_id: 1,
                record_revision_count: 0,
                content: RevisionContent::pending(Seq::empty()),
            }),
    {
        PlaygroundRecordRevision {
            revision_id: PlaygroundRecordRevisionId::default(),
            record_revision_count: 0,
            perma_link: None,
            rendered_code: String::new(),
            warning_count: 0,
            error_count: 0,
            result_success: false,
            result_code: String::new(),
            result_exit_detail: String::new(),
            result_stdout: String::new(),
            result_stderr: String::new(),
            playground_error: String::new(),
        }
    }
}

/// A record as a mathematical value.
pub struct RecordView {
    pub id: int,
    pub chat_id: i64,
    pub user_msg_id: i64,
    pub eval_msg_id: Option<i64>,
    pub created_by_user_id: i64,
    pub revision_id: int,
    pub page_state: PlaygroundRecordPageState,
}

/// The slot of one user message of one chat: which revision is current,
/// which chat message shows it, and in which page state.
#[derive(Debug, Clone, Copy, PartialEq, Eq)]
pub struct PlaygroundRecord {
    pub id: PlaygroundRecordId,
    pub chat_id: i64,
    pub user_msg_id: i64,
    /// The chat message that shows the result; unset until one has been
    /// sent, and again after it has been deleted.
    pub eval_msg_id: Option<i64>,
    pub created_by_user_id: i64,
    pub revision_id: PlaygroundRecordRevisionId,
    pub page_state: PlaygroundRecordPageState,
}

impl View for PlaygroundRecord {
    type V = RecordView;

    open spec fn view(&self) -> RecordView {
        RecordView {
            id: self.id@,
            chat_id: self.chat_id,
            user_msg_id: self.user_msg_id,
            eval_msg_id: self.eval_msg_id,
            created_by_user_id: self.created_by_user_id,
            revision_id: self.revision_id@,
            page_state: self.page_state,
        }
    }
}

/// What creating a revision hands back: the new revision's key, the chat
/// message that showed the record before, and the record's page state.
#[derive(Debug, Clone, Copy, PartialEq, Eq)]
pub struct CreateRevisionUpsertRecordResult {
    pub revision_id: PlaygroundRecordRevisionId,
    pub eval_msg_id: Option<i64>,
    pub page_state: PlaygroundRecordPageState,
}

impl PlaygroundRecordRevision {
    /// A revision whose run has not finished: the source and nothing else.
    pub fn pending(revision_id: PlaygroundRecordRevisionId, rendered_code: String) -> (res: Self)
        ensures
            res@ == (RevisionView {
                revision_id: revision_id@,
                record_revision_count: 0,
                content: RevisionContent::pending(rendered_code@),
            }),
    {
        PlaygroundRecordRevision {
            revision_id,
            record_revision_count: 0,
            perma_link: None,
            rendered_code,
            warning_count: 0,
            error_count: 0,
            result_success: false,
            result_code: String::new(),
            result_exit_detail: String::new(),
            result_stdout: String::new(),
            result_stderr: String::new(),
            playground_error: String::new(),
        }
    }
}

impl Tables {
    /// The position of the record of the user message, if it has one.
    fn find(&self, chat_id: i64, user_msg_id: i64) -> (found: Option<usize>)
        requires
            self@.wf(),
        ensures
            found is Some <==> self@.has_key(chat_id, user_msg_id),
            found matches Some(k) ==> k < self.records.len() && self@.record_id_of_key(
                chat_id,
                user_msg_id,
            ) == k + 1,
    {
        let mut k: usize = 0;
        while k < self.records.len()
            invariant
                k <= self.records.len(),
                self@.wf(),
                forall|j: int|
                    0 <= j < k ==> !holds_key(#[trigger] self@.records[j], chat_id, user_msg_id),
            decreases self.records.len() - k,
        {
            let record = &self.records[k];
            if record.chat_id == chat_id && record.user_msg_id == user_msg_id {
                proof {
                    self@.lemma_record_of_key(chat_id, user_msg_id, k as int);
                }
                return Some(k);
            }
            k += 1;
        }
        None
    }

    /// Stores a submission, unless the store is full.
    pub(crate) fn create(
        &mut self,
        chat_id: i64,
        user_msg_id: i64,
        created_by_user_id: i64,
        rendered_code: String,
        page_state: PlaygroundRecordPageState,
    ) -> (res: RepositoryResult<CreateRevisionUpsertRecordResult>)
        requires
            old(self)@.wf(),
        ensures
            final(self)@.wf(),
            !old(self)@.has_room() ==> res is Err && res->Err_0 is Db && final(self)@ == old(
                self,
            )@,
            old(self)@.has_room() ==> {
                &&& res matches Ok(created)
                &&& created.revision_id@ == old(self)@.next_revision_id()
                &&& created.eval_msg_id == old(self)@.shown_message(chat_id, user_msg_id)
                &&& created.page_state == page_state
                &&& final(self)@ == old(self)@.create(
                    chat_id,
                    user_msg_id,
                    created_by_user_id,
                    rendered_code@,
                    page_state,
                )
            },
    {
        let count = self.revisions.len();
        if count >= self.limit {
            return Err(RepositoryError::Db(String::from_str("database or disk is full")));
        }
        let revision_id = PlaygroundRecordRevisionId::of_index(count);
        let found = self.find(chat_id, user_msg_id);
        let ghost before = self@;
        let ghost code = rendered_code@;
        let revision = PlaygroundRecordRevision::pending(revision_id, rendered_code);
        proof {
            before.lemma_create_wf(chat_id, user_msg_id, created_by_user_id, code, page_state);
        }
        match found {
            Some(k) => {
                let previous = self.records[k];
                self.revisions.push(StoredRevision { record_id: previous.id, revision });
                self.records.set(k, PlaygroundRecord { revision_id, page_state, ..previous });
                proof {
                    let after = before.create(
                        chat_id,
                        user_msg_id,
                        created_by_user_id,
                        code,
                        page_state,
                    );
                    assert(before.records[k as int].id == k + 1);
                    assert(self@.revisions =~= after.revisions);
                    assert(self@.records =~= after.records);
                }
                Ok(
                    CreateRevisionUpsertRecordResult {
                        revision_id,
                        eval_msg_id: previous.eval_msg_id,
                        page_state,
                    },
                )
            },
            None => {
                let record_id = PlaygroundRecordId::of_index(self.records.len());
                self.revisions.push(StoredRevision { record_id, revision });
                self.records.push(
                    PlaygroundRecord {
                        id: record_id,
                        chat_id,
                        user_msg_id,
                        eval_msg_id: None,
                        created_by_user_id,
                        revision_id,
                        page_state,
                    },
                );
                proof {
                    let after = before.create(
                        chat_id,
                        user_msg_id,
                        created_by_user_id,
                        code,
                        page_state,
                    );
                    assert(self@.revisions =~= after.revisions);
                    assert(self@.records =~= after.records);
                }
                Ok(
                    CreateRevisionUpsertRecordResult {
                        revision_id,
                        eval_msg_id: None,
                        page_state,
                    },
                )
            },
        }
    }

    /// The position of the revision, if the key is that of a revision.
    fn position(&self, revision_id: PlaygroundRecordRevisionId) -> (found: Option<usize>)
        ensures
            found is Some <==> self@.has_revision(revision_id@),
            found matches Some(i) ==> i + 1 == revision_id@,
    {
        let value = revision_id.get();
        if value >= 1 && (value as u64) <= (self.revisions.len() as u64) {
            Some((value - 1) as usize)
        } else {
            None
        }
    }

    /// The position of the record that owns the revision at position `i`.
    fn owner_position(&self, i: usize) -> (k: usize)
        requires
            self@.wf(),
            i < self.revisions.len(),
        ensures
            k < self.records.len(),
            k + 1 == self@.owner(i + 1),
    {
        proof {
            self@.lemma_owner(i + 1);
        }
        (self.revisions[i].record_id.get() - 1) as usize
    }

    /// How many revisions the record with the key `record_id` has had.
    fn count_revisions(&self, record_id: i64) -> (count: u32)
        requires
            self@.wf(),
        ensures
            count == self@.revision_count(record_id as int),
    {
        let mut count: u32 = 0;
        let mut i: usize = 0;
        while i < self.revisions.len()
            invariant
                i <= self.revisions.len() <= MAX_REVISIONS,
                count <= i,
                count == count_owned(self@.revisions.take(i as int), record_id as int),
            decreases self.revisions.len() - i,
        {
            proof {
                assert(self@.revisions.take(i + 1).drop_last() =~= self@.revisions.take(i as int));
            }
            if self.revisions[i].record_id.get() == record_id {
                count += 1;
            }
            i += 1;
        }
        proof {
            assert(self@.revisions.take(i as int) =~= self@.revisions);
        }
        count
    }

    /// Whether the request may change the record behind the revision at
    /// position `i`.
    fn authorizes(&self, i: usize, eval_msg_id: i64, created_by_user_id: i64) -> (res: bool)
        requires
            self@.wf(),
            i < self.revisions.len(),
        ensures
            res == self@.authorizes(eval_msg_id, created_by_user_id, i + 1),
    {
        let k = self.owner_position(i);
        let record = &self.records[k];
        let shown = match record.eval_msg_id {
            Some(shown) => shown == eval_msg_id,
            None => false,
        };
        record.revision_id.get() == (i as i64) + 1 && shown && record.created_by_user_id
            == created_by_user_id
    }

    /// Replaces the record at position `k` by one that differs from it in
    /// the shown message and the page state at most.
    fn put_record(
        &mut self,
        k: usize,
        eval_msg_id: Option<i64>,
        page_state: PlaygroundRecordPageState,
    )
        requires
            old(self)@.wf(),
            k < old(self).records.len(),
        ensures
            final(self)@.wf(),
            final(self)@ == old(self)@.with_record(
                k + 1,
                RecordView { eval_msg_id, page_state, ..old(self)@.record(k + 1) },
            ),
    {
        let ghost before = self@;
        let previous = self.records[k];
        self.records.set(k, PlaygroundRecord { eval_msg_id, page_state, ..previous });
        proof {
            let record = RecordView { eval_msg_id, page_state, ..before.record(k + 1) };
            assert(before.records[k as int].id == k + 1);
            before.lemma_with_record_wf(k + 1, record);
            assert(self@.revisions =~= before.revisions);
            assert(self@.records =~= before.with_record(k + 1, record).records);
        }
    }

    /// The revision at position `i` as a reader gets it.
    fn read(&self, i: usize) -> (revision: PlaygroundRecordRevision)
        requires
            self@.wf(),
            i < self.revisions.len(),
        ensures
            revision@ == self@.read(i + 1),
    {
        let entry = &self.revisions[i];
        let count = self.count_revisions(entry.record_id.get());
        let mut revision = entry.revision.clone();
        revision.revision_id = PlaygroundRecordRevisionId::of_index(i);
        revision.record_revision_count = count;
        revision
    }

    /// Tells the record that owns the revision which chat message shows it.
    pub(crate) fn set_eval_msg_id(
        &mut self,
        revision_id: PlaygroundRecordRevisionId,
        eval_msg_id: i64,
    )
        requires
            old(self)@.wf(),
        ensures
            final(self)@.wf(),
            final(self)@ == old(self)@.set_eval_msg_id(revision_id@, eval_msg_id),
    {
        if let Some(i) = self.position(revision_id) {
            let k = self.owner_position(i);
            let page_state = self.records[k].page_state;
            self.put_record(k, Some(eval_msg_id), page_state);
        }
    }

    /// Writes a result into its revision and says whether the revision is
    /// still the current one of its record.
    pub(crate) fn commit(&mut self, revision: &mut PlaygroundRecordRevision) -> (is_latest: bool)
        requires
            old(self)@.wf(),
        ensures
            final(self)@.wf(),
            final(self)@ == old(self)@.commit(old(revision)@),
            is_latest == old(self)@.is_latest(old(revision)@.revision_id),
            is_latest ==> final(revision)@ == (RevisionView {
                record_revision_count: old(self)@.revision_count(
                    old(self)@.owner(old(revision)@.revision_id),
                ),
                ..old(revision)@
            }),
            !is_latest ==> *final(revision) == *old(revision),
    {
        let ghost before = self@;
        let ghost committed = revision@;
        let found = self.position(revision.revision_id);
        match found {
            None => false,
            Some(i) => {
                let k = self.owner_position(i);
                let entry = &self.revisions[i];
                let record_id = entry.record_id;
                let mut stored = revision.clone();
                stored.rendered_code = entry.revision.rendered_code.clone();
                self.revisions.set(i, StoredRevision { record_id, revision: stored });
                proof {
                    let after = before.commit(committed);
                    before.lemma_with_content_wf(i + 1, after.revision(i + 1).content);
                    lemma_count_owned_update(
                        before.revisions,
                        i as int,
                        after.revisions[i as int],
                        record_id@,
                    );
                    assert(self@.revisions =~= after.revisions);
                    assert(self@.records =~= after.records);
                }
                if self.records[k].revision_id.get() == revision.revision_id.get() {
                    revision.record_revision_count = self.count_revisions(record_id.get());
                    true
                } else {
                    false
                }
            },
        }
    }

    /// Takes the chat message from the record behind the revision, if the
    /// request is authorized.
    pub(crate) fn delete_if_match(
        &mut self,
        eval_msg_id: i64,
        created_by_user_id: i64,
        revision_id: PlaygroundRecordRevisionId,
    ) -> (matched: bool)
        requires
            old(self)@.wf(),
        ensures
            final(self)@.wf(),
            matched == old(self)@.authorizes(eval_msg_id, created_by_user_id, revision_id@),
            matched ==> final(self)@ == old(self)@.clear_eval_msg_id(revision_id@),
            !matched ==> final(self)@ == old(self)@,
    {
        match self.position(revision_id) {
            None => false,
            Some(i) => {
                if self.authorizes(i, eval_msg_id, created_by_user_id) {
                    let k = self.owner_position(i);
                    let page_state = self.records[k].page_state;
                    self.put_record(k, None, page_state);
                    true
                } else {
                    false
                }
            },
        }
    }

    /// Gives the record behind the revision another page state and reads the
    /// revision, if the request is authorized.
    pub(crate) fn switch_page_state_if_match(
        &mut self,
        eval_msg_id: i64,
        created_by_user_id: i64,
        revision_id: PlaygroundRecordRevisionId,
        page_state: PlaygroundRecordPageState,
    ) -> (found: Option<PlaygroundRecordRevision>)
        requires
            old(self)@.wf(),
        ensures
            final(self)@.wf(),
            found is Some <==> old(self)@.authorizes(eval_msg_id, created_by_user_id, revision_id@),
            found matches Some(revision) ==> {
                &&& final(self)@ == old(self)@.set_page_state(revision_id@, page_state)
                &&& revision@ == old(self)@.read(revision_id@)
            },
            found is None ==> final(self)@ == old(self)@,
    {
        match self.position(revision_id) {
            None => None,
            Some(i) => {
                if self.authorizes(i, eval_msg_id, created_by_user_id) {
                    let k = self.owner_position(i);
                    let shown = self.records[k].eval_msg_id;
                    let revision = self.read(i);
                    self.put_record(k, shown, page_state);
                    Some(revision)
                } else {
                    None
                }
            },
        }
    }

    /// Reads a revision and the page state of its record.
    pub(crate) fn get(&self, revision_id: PlaygroundRecordRevisionId) -> (found: Option<
        (PlaygroundRecordRevision, PlaygroundRecordPageState),
    >)
        requires
            self@.wf(),
        ensures
            found is Some <==> self@.has_revision(revision_id@),
            found matches Some((revision, page_state)) ==> {
                &&& revision@ == self@.read(revision_id@)
                &&& page_state == self@.owning_record(revision_id@).page_state
            },
    {
        match self.position(revision_id) {
            None => None,
            Some(i) => {
                let k = self.owner_position(i);
                Some((self.read(i), self.records[k].page_state))
            },
        }
    }

    /// The record that owns a revision.
    pub(crate) fn owning_record(&self, revision_id: PlaygroundRecordRevisionId) -> (res: Option<
        PlaygroundRecord,
    >)
        requires
            self@.wf(),
        ensures
            res is Some <==> self@.has_revision(revision_id@),
            res matches Some(record) ==> record@ == self@.owning_record(revision_id@),
    {
        match self.position(revision_id) {
            None => None,
            Some(i) => {
                let k = self.owner_position(i);
                Some(self.records[k])
            },
        }
    }

    /// Gives a revision a permalink.
    pub(crate) fn set_perma_link(
        &mut self,
        revision_id: PlaygroundRecordRevisionId,
        perma_link: String,
    )
        requires
            old(self)@.wf(),
        ensures
            final(self)@.wf(),
            final(self)@ == old(self)@.set_perma_link(revision_id@, perma_link@),
    {
        let ghost before = self@;
        let ghost link = perma_link@;
        if let Some(i) = self.position(revision_id) {
            let entry = &self.revisions[i];
            let record_id = entry.record_id;
            let mut stored = entry.revision.clone();
            stored.perma_link = Some(perma_link);
            self.revisions.set(i, StoredRevision { record_id, revision: stored });
            proof {
                let after = before.set_perma_link(revision_id@, link);
                before.lemma_with_content_wf(i + 1, after.revision(i + 1).content);
                assert(self@.revisions =~= after.revisions);
                assert(self@.records =~= after.records);
            }
        }
    }
}

/// The operations of a store of records and revisions. Each is one step:
/// it sees the store as the step before it left it, and no other step
/// comes between its reading and its writing.
pub trait IPlaygroundRecordRepository {
    /// The store as a mathematical value.
    spec fn store(&self) -> StoreModel;

    /// Stores a submission: creates a revision that holds `rendered_code`
    /// and points the record of the user message at it, making the record if
    /// the user message has none. Hands back the key of the new revision,
    /// the chat message that shows the record (a record that existed keeps
    /// it), and the page state. A full store refuses and stays as it is.
    fn create_revision_upsert_record(
        &mut self,
        chat_id: i64,
        user_msg_id: i64,
        created_by_user_id: i64,
        rendered_code: String,
        page_state: PlaygroundRecordPageState,
    ) -> (res: RepositoryResult<CreateRevisionUpsertRecordResult>)
        ensures
            old(self).store().wf(),
            final(self).store().wf(),
            !old(self).store().has_room() ==> res is Err && res->Err_0 is Db && final(self).store()
                == old(self).store(),
            old(self).store().has_room() ==> {
                &&& res matches Ok(created)
                &&& created.revision_id@ == old(self).store().next_revision_id()
                &&& created.eval_msg_id == old(self).store().shown_message(chat_id, user_msg_id)
                &&& created.page_state == page_state
                &&& final(self).store() == old(self).store().create(
                    chat_id,
                    user_msg_id,
                    created_by_user_id,
                    rendered_code@,
                    page_state,
                )
            },
    ;

    /// Tells the record that owns the revision which chat message shows it.
    /// Nothing is checked: the caller is the one who sent the message. A key
    /// of no revision changes nothing.
    fn update_eval_msg_id_for_revision_id(
        &mut self,
        revision_id: PlaygroundRecordRevisionId,
        eval_msg_id: i64,
    ) -> (res: RepositoryResult<()>)
        ensures
            old(self).store().wf(),
            final(self).store().wf(),
            res is Ok,
            final(self).store() == old(self).store().set_eval_msg_id(revision_id@, eval_msg_id),
    ;

    /// Writes the result of a finished run into its revision, and says
    /// whether that revision is still the current one of its record. If it
    /// is, `revision` is also told how many revisions the record has had; if
    /// a newer submission has taken its place, the answer is `false`,
    /// `revision` stays as it was, and the caller drops the result.
    fn update_revision_for_revision_count_and_is_latest(
        &mut self,
        revision: &mut PlaygroundRecordRevision,
    ) -> (res: RepositoryResult<bool>)
        ensures
            old(self).store().wf(),
            final(self).store().wf(),
            final(self).store() == old(self).store().commit(old(revision)@),
            res == Ok::<bool, RepositoryError>(
                old(self).store().is_latest(old(revision)@.revision_id),
            ),
            res == Ok::<bool, RepositoryError>(true) ==> final(revision)@ == (RevisionView {
                record_revision_count: old(self).store().revision_count(
                    old(self).store().owner(old(revision)@.revision_id),
                ),
                ..old(revision)@
            }),
            res == Ok::<bool, RepositoryError>(false) ==> *final(revision) == *old(revision),
    ;

    /// Takes from a record the chat message that shows it, if the request
    /// is authorized: the revision is the current one of its record, the
    /// record is shown by `eval_msg_id`, and `created_by_user_id` created
    /// it. Says whether it was; if not, the store stays as it is.
    fn delete_record_by_revision_id_if_match(
        &mut self,
        eval_msg_id: i64,
        created_by_user_id: i64,
        revision_id: PlaygroundRecordRevisionId,
    ) -> (res: RepositoryResult<bool>)
        ensures
            old(self).store().wf(),
            final(self).store().wf(),
            res == Ok::<bool, RepositoryError>(
                old(self).store().authorizes(eval_msg_id, created_by_user_id, revision_id@),
            ),
            final(self).store() == if old(self).store().authorizes(
                eval_msg_id,
                created_by_user_id,
                revision_id@,
            ) {
                old(self).store().clear_eval_msg_id(revision_id@)
            } else {
                old(self).store()
            },
    ;

    /// Gives a record another page state and reads its revision, if the
    /// request is authorized as for a deletion. Hands back nothing, and
    /// leaves the store as it is, if it is not.
    fn get_revision_update_page_state_if_match(
        &mut self,
        eval_msg_id: i64,
        created_by_user_id: i64,
        revision_id: PlaygroundRecordRevisionId,
        page_state: PlaygroundRecordPageState,
    ) -> (res: RepositoryResult<Option<PlaygroundRecordRevision>>)
        ensures
            old(self).store().wf(),
            final(self).store().wf(),
            res matches Ok(found) && (found is Some <==> old(self).store().authorizes(
                eval_msg_id,
                created_by_user_id,
                revision_id@,
            )),
            res matches Ok(Some(revision)) ==> revision@ == old(self).store().read(revision_id@),
            final(self).store() == if old(self).store().authorizes(
                eval_msg_id,
                created_by_user_id,
                revision_id@,
            ) {
                old(self).store().set_page_state(revision_id@, page_state)
            } else {
                old(self).store()
            },
    ;

    /// Reads a revision and the page state of its record. Hands back
    /// nothing for a key of no revision.
    fn get_revision_by_id(&self, revision_id: PlaygroundRecordRevisionId) -> (res:
        RepositoryResult<Option<(PlaygroundRecordRevision, PlaygroundRecordPageState)>>)
        ensures
            self.store().wf(),
            res matches Ok(found) && (found is Some <==> self.store().has_revision(revision_id@)),
            res matches Ok(Some((revision, page_state))) ==> {
                &&& revision@ == self.store().read(revision_id@)
                &&& page_state == self.store().owning_record(revision_id@).page_state
            },
    ;

    /// Gives a revision a permalink. A key of no revision changes nothing.
    fn update_perma_link_for_revision_id(
        &mut self,
        revision_id: PlaygroundRecordRevisionId,
        perma_link: String,
    ) -> (res: RepositoryResult<()>)
        ensures
            old(self).store().wf(),
            final(self).store().wf(),
            res is Ok,
            final(self).store() == old(self).store().set_perma_link(revision_id@, perma_link@),
    ;
}

impl IPlaygroundRecordRepository for Repository {
    open spec fn store(&self) -> StoreModel {
        self@
    }

    fn create_revision_upsert_record(
        &mut self,
        chat_id: i64,
        user_msg_id: i64,
        created_by_user_id: i64,
        rendered_code: String,
        page_state: PlaygroundRecordPageState,
    ) -> (res: RepositoryResult<CreateRevisionUpsertRecordResult>) {
        proof {
            use_type_invariant(&*self);
        }
        let mut tables = Tables::new(0);
        std::mem::swap(&mut self.tables, &mut tables);
        let res = tables.create(
            chat_id,
            user_msg_id,
            created_by_user_id,
            rendered_code,
            page_state,
        );
        self.tables = tables;
        res
    }

    fn update_eval_msg_id_for_revision_id(
        &mut self,
        revision_id: PlaygroundRecordRevisionId,
        eval_msg_id: i64,
    ) -> (res: RepositoryResult<()>) {
        proof {
            use_type_invariant(&*self);
        }
        let mut tables = Tables::new(0);
        std::mem::swap(&mut self.tables, &mut tables);
        tables.set_eval_msg_id(revision_id, eval_msg_id);
        self.tables = tables;
        Ok(())
    }

    fn update_revision_for_revision_count_and_is_latest(
        &mut self,
        revision: &mut PlaygroundRecordRevision,
    ) -> (res: RepositoryResult<bool>) {
        proof {
            use_type_invariant(&*self);
        }
        let mut tables = Tables::new(0);
        std::mem::swap(&mut self.tables, &mut tables);
        let is_latest = tables.commit(revision);
        self.tables = tables;
        Ok(is_latest)
    }

    fn delete_record_by_revision_id_if_match(
        &mut self,
        eval_msg_id: i64,
        created_by_user_id: i64,
        revision_id: PlaygroundRecordRevisionId,
    ) -> (res: RepositoryResult<bool>) {
        proof {
            use_type_invariant(&*self);
        }
        let mut tables = Tables::new(0);
        std::mem::swap(&mut self.tables, &mut tables);
        let matched = tables.delete_if_match(eval_msg_id, created_by_user_id, revision_id);
        self.tables = tables;
        Ok(matched)
    }

    fn get_revision_update_page_state_if_match(
        &mut self,
        eval_msg_id: i64,
        created_by_user_id: i64,
        revision_id: PlaygroundRecordRevisionId,
        page_state: PlaygroundRecordPageState,
    ) -> (res: RepositoryResult<Option<PlaygroundRecordRevision>>) {
        proof {
            use_type_invariant(&*self);
        }
        let mut tables = Tables::new(0);
        std::mem::swap(&mut self.tables, &mut tables);
        let found = tables.switch_page_state_if_match(
            eval_msg_id,
            created_by_user_id,
            revision_id,
            page_state,
        );
        self.tables = tables;
        Ok(found)
    }

    fn get_revision_by_id(&self, revision_id: PlaygroundRecordRevisionId) -> (res:
        RepositoryResult<Option<(PlaygroundRecordRevision, PlaygroundRecordPageState)>>) {
        proof {
            use_type_invariant(self);
        }
        Ok(self.tables.get(revision_id))
    }

    fn update_perma_link_for_revision_id(
        &mut self,
        revision_id: PlaygroundRecordRevisionId,
        perma_link: String,
    ) -> (res: RepositoryResult<()>) {
        proof {
            use_type_invariant(&*self);
        }
        let mut tables = Tables::new(0);
        std::mem::swap(&mut self.tables, &mut tables);
        tables.set_perma_link(revision_id, perma_link);
        self.tables = tables;
        Ok(())
    }
}

} // verus!
