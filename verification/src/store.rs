//! The draft store and its create/read/update/delete operations.
//!
//! `Db` keeps the persisted rows keyed by their identifier, hands out fresh
//! identifiers on insert, and supplies the registry's default language. Each
//! operation's contract is stated against a spec-level transition on the
//! store's view, so that laws about sequences of operations can be proved
//! once, at the view level.

use vstd::prelude::*;

use std::collections::HashMap;

use crate::draft::{
    row_after_update, row_from_insert, Draft, DraftInsertForm, DraftUpdateForm, DraftView,
    InsertFormView, UpdateFormView,
};
use crate::newtypes::{DraftId, LanguageId};

verus! {

/// How an operation fails. A missing target row is the only failure the store
/// itself produces; everything else the surrounding system maps onto the
/// caller's own error channel before it reaches this layer.
#[derive(Clone, Copy, Debug, PartialEq, Eq, Structural)]
pub enum DbError {
    /// The id names no row: never created, or already deleted.
    NotFound,
}

/// The store of persisted drafts.
pub struct Db {
    rows: HashMap<i32, Draft>,
    next_id: i32,
    default_language_id: LanguageId,
}

/// The mathematical value of a `Db`: the rows by raw id, the next id the
/// store will generate, and the registry's default language.
#[verifier::ext_equal]
pub ghost struct DbView {
    pub contents: Map<i32, DraftView>,
    pub next_id: int,
    pub default_language_id: LanguageId,
}

impl DbView {
    /// Every persisted id was generated: at least 1 and below the next fresh
    /// one, and every row carries the id it is filed under.
    pub open spec fn wf(self) -> bool {
        &&& 1 <= self.next_id <= i32::MAX
        &&& forall|k: i32| #[trigger] self.contents.contains_key(k) ==> 1 <= k < self.next_id
        &&& forall|k: i32|
            #[trigger] self.contents.contains_key(k) ==> self.contents[k].id == DraftId(k)
    }
}

impl View for Db {
    type V = DbView;

    closed spec fn view(&self) -> DbView {
        DbView {
            contents: Map::new(
                |k: i32| self.rows@.contains_key(k),
                |k: i32| self.rows@[k]@,
            ),
            next_id: self.next_id as int,
            default_language_id: self.default_language_id,
        }
    }
}

/// What `create` does to the store: materialize the form under the next
/// fresh id, file the row, and advance the id counter.
pub open spec fn spec_create(db: DbView, form: InsertFormView) -> (DbView, DraftView) {
    let id = DraftId(db.next_id as i32);
    let row = row_from_insert(id, form, db.default_language_id);
    (
        DbView {
            contents: db.contents.insert(id.0, row),
            next_id: db.next_id + 1,
            default_language_id: db.default_language_id,
        },
        row,
    )
}

/// What `read` returns: the row filed under the id, or `NotFound`.
pub open spec fn spec_read(db: DbView, id: DraftId) -> Result<DraftView, DbError> {
    if db.contents.contains_key(id.0) {
        Ok(db.contents[id.0])
    } else {
        Err(DbError::NotFound)
    }
}

/// What `update` does: replace the row under the id with the partial update
/// applied to it and return the result, or leave the store alone and return
/// `NotFound`.
pub open spec fn spec_update(db: DbView, id: DraftId, form: UpdateFormView) -> (
    DbView,
    Result<DraftView, DbError>,
) {
    if db.contents.contains_key(id.0) {
        let row = row_after_update(db.contents[id.0], form);
        (
            DbView {
                contents: db.contents.insert(id.0, row),
                next_id: db.next_id,
                default_language_id: db.default_language_id,
            },
            Ok(row),
        )
    } else {
        (db, Err(DbError::NotFound))
    }
}

/// What `delete` does: drop the row under the id if there is one, and report
/// how many rows went — one or none, never an error.
pub open spec fn spec_delete(db: DbView, id: DraftId) -> (DbView, usize) {
    if db.contents.contains_key(id.0) {
        (
            DbView {
                contents: db.contents.remove(id.0),
                next_id: db.next_id,
                default_language_id: db.default_language_id,
            },
            1,
        )
    } else {
        (db, 0)
    }
}

/// A returned row, seen at the spec level.
pub open spec fn res_view(r: Result<Draft, DbError>) -> Result<DraftView, DbError> {
    match r {
        Ok(d) => Ok(d@),
        Err(e) => Err(e),
    }
}

impl Db {
    /// An empty store that will generate ids from 1 and fall back on the
    /// given default language for inserts that name none.
    pub fn new(default_language_id: LanguageId) -> (db: Db)
        ensures
            db@.wf(),
            db@ == (DbView {
                contents: Map::<i32, DraftView>::empty(),
                next_id: 1,
                default_language_id,
            }),
    {
        let db = Db { rows: HashMap::new(), next_id: 1, default_language_id };
        proof {
            assert(db@.contents =~= Map::<i32, DraftView>::empty());
            assert(db@ =~= (DbView {
                contents: Map::<i32, DraftView>::empty(),
                next_id: 1,
                default_language_id,
            }));
        }
        db
    }
}

impl Draft {
    /// Insert one row built from the form; absent optional fields take the
    /// entity's defaults. Returns the materialized row under a fresh id,
    /// one the store does not hold.
    pub fn create(db: &mut Db, form: &DraftInsertForm) -> (r: Result<Draft, DbError>)
        requires
            old(db)@.wf(),
            old(db)@.next_id < i32::MAX,
        ensures
            final(db)@.wf(),
            final(db)@ == spec_create(old(db)@, form@).0,
            res_view(r) == Ok::<DraftView, DbError>(spec_create(old(db)@, form@).1),
            !old(db)@.contents.contains_key(spec_create(old(db)@, form@).1.id.0),
    {
        let id = DraftId(db.next_id);
        let row = Draft::build(id, form, db.default_language_id);
        db.rows.insert(id.0, row.clone());
        db.next_id = db.next_id + 1;
        proof {
            assert(db@.contents =~= old(db)@.contents.insert(id.0, row@));
            assert(db@ =~= spec_create(old(db)@, form@).0);
        }
        Ok(row)
    }

    /// Look the row up by id; fails with `NotFound` when the id names none.
    pub fn read(db: &Db, draft_id: DraftId) -> (r: Result<Draft, DbError>)
        ensures
            res_view(r) == spec_read(db@, draft_id),
    {
        match db.rows.get(&draft_id.0) {
            Some(d) => Ok(d.clone()),
            None => Err(DbError::NotFound),
        }
    }

    /// Apply only the fields present in the form to the row under the id and
    /// return the full post-update row; the all-absent form is a legal no-op
    /// that returns the row unchanged. Fails with `NotFound`, touching
    /// nothing, when the id names no row.
    pub fn update(db: &mut Db, draft_id: DraftId, form: &DraftUpdateForm) -> (r: Result<
        Draft,
        DbError,
    >)
        requires
            old(db)@.wf(),
        ensures
            final(db)@.wf(),
            final(db)@ == spec_update(old(db)@, draft_id, form@).0,
            res_view(r) == spec_update(old(db)@, draft_id, form@).1,
    {
        let current = match db.rows.get(&draft_id.0) {
            Some(d) => Some(d.clone()),
            None => None,
        };
        match current {
            Some(row) => {
                let updated = row.apply_update(form);
                db.rows.insert(draft_id.0, updated.clone());
                proof {
                    assert(db@.contents =~= old(db)@.contents.insert(draft_id.0, updated@));
                    assert(db@ =~= spec_update(old(db)@, draft_id, form@).0);
                }
                Ok(updated)
            },
            None => Err(DbError::NotFound),
        }
    }

    /// Remove the row under the id and report how many rows went: 1 when it
    /// existed, 0 when not — deleting an absent id is not an error.
    pub fn delete(db: &mut Db, draft_id: DraftId) -> (r: Result<usize, DbError>)
        requires
            old(db)@.wf(),
        ensures
            final(db)@.wf(),
            final(db)@ == spec_delete(old(db)@, draft_id).0,
            r == Ok::<usize, DbError>(spec_delete(old(db)@, draft_id).1),
    {
        match db.rows.remove(&draft_id.0) {
            Some(_) => {
                proof {
                    assert(db@.contents =~= old(db)@.contents.remove(draft_id.0));
                    assert(db@ =~= spec_delete(old(db)@, draft_id).0);
                }
                Ok(1)
            },
            None => {
                proof {
                    assert(db@.contents =~= old(db)@.contents);
                    assert(db@ =~= spec_delete(old(db)@, draft_id).0);
                }
                Ok(0)
            },
        }
    }
}

} // verus!
