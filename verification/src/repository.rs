//! The evaluation store and its error type.

use vstd::prelude::*;

pub mod id;
pub mod laws;
pub mod model;
pub mod playground_record;
pub mod restore;

use model::{RevisionRow, StoreModel, MAX_REVISIONS};
use playground_record::{PlaygroundRecord, PlaygroundRecordId, PlaygroundRecordRevision};

verus! {

/// Why an operation on the store did not happen.
#[derive(Debug, Clone, PartialEq, Eq)]
pub enum RepositoryError {
    /// The worker that owns the store has stopped.
    WorkerGone,
    /// The store refused the operation; the text says why.
    Db(String),
}

/// What an operation on the store hands back.
pub type RepositoryResult<T> = Result<T, RepositoryError>;

/// The error message as a sequence of characters.
pub open spec fn repository_error_text(error: RepositoryError) -> Seq<char> {
    match error {
        RepositoryError::WorkerGone => "worker has stopped"@,
        RepositoryError::Db(detail) => "db error: "@ + detail@,
    }
}

impl RepositoryError {
    /// The error message.
    pub fn to_string(&self) -> (text: String)
        ensures
            text@ == repository_error_text(*self),
    {
        match self {
            RepositoryError::WorkerGone => String::from_str("worker has stopped"),
            RepositoryError::Db(detail) => String::from_str("db error: ").concat(
                detail.as_str(),
            ),
        }
    }
}

/// A revision as it is stored: with the key of the record that owns it.
/// The count of revisions in it is not looked at: it is counted when the
/// revision is read.
#[derive(Debug, Clone, PartialEq, Eq)]
pub struct StoredRevision {
    pub record_id: PlaygroundRecordId,
    pub revision: PlaygroundRecordRevision,
}

impl View for StoredRevision {
    type V = RevisionRow;

    open spec fn view(&self) -> RevisionRow {
        RevisionRow { record_id: self.record_id@, content: self.revision@.content }
    }
}

/// The rows of the store, in the order of their keys.
pub(crate) struct Tables {
    pub revisions: Vec<StoredRevision>,
    pub records: Vec<PlaygroundRecord>,
    pub limit: usize,
}

impl View for Tables {
    type V = StoreModel;

    closed spec fn view(&self) -> StoreModel {
        StoreModel {
            revisions: Seq::new(self.revisions@.len(), |i: int| self.revisions@[i]@),
            records: Seq::new(self.records@.len(), |k: int| self.records@[k]@),
            limit: self.limit as nat,
        }
    }
}

impl Tables {
    /// Tables without any row, for `limit` revisions at most.
    pub(crate) fn new(limit: usize) -> (tables: Tables)
        ensures
            tables@ == StoreModel::empty(limit as nat),
    {
        let tables = Tables { revisions: Vec::new(), records: Vec::new(), limit };
        assert(tables@.revisions =~= Seq::empty());
        assert(tables@.records =~= Seq::empty());
        tables
    }
}

/// The store of records and revisions. Every operation on it is one step:
/// it sees the store as the operation before it left it.
pub struct Repository {
    pub(crate) tables: Tables,
}

impl View for Repository {
    type V = StoreModel;

    closed spec fn view(&self) -> StoreModel {
        self.tables@
    }
}

impl Repository {
    /// Every store is well-formed.
    #[verifier::type_invariant]
    pub open spec fn well_formed(self) -> bool {
        self@.wf()
    }

    /// A store without any row, for as many revisions as a store can hold.
    pub fn new() -> (repo: Repository)
        ensures
            repo@ == StoreModel::empty(MAX_REVISIONS as nat),
            repo@.wf(),
    {
        Repository { tables: Tables::new(MAX_REVISIONS) }
    }

    /// A store without any row, for `limit` revisions at most, and never
    /// for more than a store can hold.
    pub fn with_limit(limit: usize) -> (repo: Repository)
        ensures
            repo@ == StoreModel::empty(
                if limit <= MAX_REVISIONS {
                    limit as nat
                } else {
                    MAX_REVISIONS as nat
                },
            ),
            repo@.wf(),
    {
        let limit = if limit <= MAX_REVISIONS {
            limit
        } else {
            MAX_REVISIONS
        };
        Repository { tables: Tables::new(limit) }
    }
}

} // verus!
