//! Laws that hold of sequences of store operations.
//!
//! Each proof function states one law over the spec-level transitions of
//! [`crate::store`], so it covers every execution of the corresponding
//! operations: their contracts tie each call to exactly these transitions.

use vstd::prelude::*;

use crate::draft::{empty_update_form, row_after_update, DraftView, InsertFormView, UpdateFormView};
use crate::newtypes::DraftId;
use crate::store::{spec_create, spec_delete, spec_read, spec_update, DbError, DbView};

verus! {

/// A draft just created is read back by its id exactly as `create` returned
/// it.
pub proof fn lemma_create_then_read(db: DbView, form: InsertFormView)
    requires
        db.wf(),
    ensures
        ({
            let (db1, row) = spec_create(db, form);
            spec_read(db1, row.id) == Ok::<DraftView, DbError>(row)
        }),
{
}

/// The all-absent update form is a no-op: the row comes back unchanged and
/// the store is left exactly as it was.
pub proof fn lemma_update_all_absent(db: DbView, id: DraftId)
    requires
        db.contents.contains_key(id.0),
    ensures
        row_after_update(db.contents[id.0], empty_update_form()) == db.contents[id.0],
        spec_update(db, id, empty_update_form()).1 == Ok::<DraftView, DbError>(
            db.contents[id.0],
        ),
        spec_update(db, id, empty_update_form()).0 == db,
{
    assert(row_after_update(db.contents[id.0], empty_update_form()) =~= db.contents[id.0]);
    assert(spec_update(db, id, empty_update_form()).0 =~= db);
}

/// An update whose `url` is present-null clears the url; one whose `url` is
/// absent leaves the existing url untouched.
pub proof fn lemma_update_url_clear_vs_skip(row: DraftView, clear: UpdateFormView, skip: UpdateFormView)
    requires
        clear.url == Some(Option::<Seq<char>>::None),
        skip.url == Option::<Option<Seq<char>>>::None,
    ensures
        row_after_update(row, clear).url == Option::<Seq<char>>::None,
        row_after_update(row, skip).url == row.url,
{
}

/// Deleting the id a create just generated removes one row; deleting it again
/// removes none: delete is idempotent in effect, and its count says which of
/// the two happened.
pub proof fn lemma_create_then_delete_twice(db: DbView, form: InsertFormView)
    requires
        db.wf(),
    ensures
        ({
            let (db1, row) = spec_create(db, form);
            let (db2, n1) = spec_delete(db1, row.id);
            let (db3, n2) = spec_delete(db2, row.id);
            n1 == 1 && n2 == 0 && db3 == db2
        }),
{
}

/// More generally: deleting a present id reports one row and leaves the id
/// absent; deleting an absent id reports none and changes nothing.
pub proof fn lemma_delete_idempotent(db: DbView, id: DraftId)
    ensures
        db.contents.contains_key(id.0) ==> spec_delete(db, id).1 == 1,
        !db.contents.contains_key(id.0) ==> spec_delete(db, id).1 == 0 && spec_delete(db, id).0
            == db,
        !spec_delete(db, id).0.contents.contains_key(id.0),
{
}

/// Reading an id the store does not hold fails with `NotFound`: one never
/// generated, or one just deleted.
pub proof fn lemma_read_absent(db: DbView, id: DraftId)
    requires
        !db.contents.contains_key(id.0),
    ensures
        spec_read(db, id) == Err::<DraftView, DbError>(DbError::NotFound),
{
}

/// An id the store never generated — below 1 or not yet handed out — is never
/// held, so reading it fails with `NotFound`.
pub proof fn lemma_read_never_created(db: DbView, id: DraftId)
    requires
        db.wf(),
        id.0 < 1 || id.0 >= db.next_id,
    ensures
        spec_read(db, id) == Err::<DraftView, DbError>(DbError::NotFound),
{
}

/// Reading right after a delete of the same id fails with `NotFound`.
pub proof fn lemma_read_after_delete(db: DbView, id: DraftId)
    ensures
        spec_read(spec_delete(db, id).0, id) == Err::<DraftView, DbError>(DbError::NotFound),
{
}

/// The row an update returns is exactly what a subsequent read of the same
/// id yields.
pub proof fn lemma_update_then_read(db: DbView, id: DraftId, form: UpdateFormView)
    requires
        db.contents.contains_key(id.0),
    ensures
        spec_read(spec_update(db, id, form).0, id) == spec_update(db, id, form).1,
{
}

/// A create touches no row but the one it adds: any other id reads afterwards
/// exactly as it did before.
pub proof fn lemma_create_leaves_other_rows(db: DbView, form: InsertFormView, other: DraftId)
    ensures
        ({
            let (db1, row) = spec_create(db, form);
            other.0 != row.id.0 ==> spec_read(db1, other) == spec_read(db, other)
        }),
{
}

/// An update touches no row but its target: any other id reads afterwards
/// exactly as it did before.
pub proof fn lemma_update_leaves_other_rows(
    db: DbView,
    id: DraftId,
    form: UpdateFormView,
    other: DraftId,
)
    ensures
        other.0 != id.0 ==> spec_read(spec_update(db, id, form).0, other) == spec_read(db, other),
{
}

/// A delete touches no row but its target: any other id reads afterwards
/// exactly as it did before.
pub proof fn lemma_delete_leaves_other_rows(db: DbView, id: DraftId, other: DraftId)
    ensures
        other.0 != id.0 ==> spec_read(spec_delete(db, id).0, other) == spec_read(db, other),
{
}

/// No update can touch a row's identity: its id, creator and community are
/// exactly what creation set, whatever the form holds.
pub proof fn lemma_update_keeps_identity(row: DraftView, form: UpdateFormView)
    ensures
        row_after_update(row, form).id == row.id,
        row_after_update(row, form).creator_id == row.creator_id,
        row_after_update(row, form).community_id == row.community_id,
{
}

/// A create whose form leaves every optional field absent materializes the
/// documented defaults: `nsfw` false, the registry default language, and no
/// url, body or embed metadata.
pub proof fn lemma_create_defaults(db: DbView, form: InsertFormView)
    requires
        form.nsfw is None,
        form.language_id is None,
    ensures
        ({
            let row = spec_create(db, form).1;
            &&& row.nsfw == false
            &&& row.language_id == db.default_language_id
            &&& row.name == form.name
            &&& row.creator_id == form.creator_id
            &&& row.community_id == form.community_id
            &&& row.url == form.url
            &&& row.body == form.body
            &&& row.embed_title == form.embed_title
            &&& row.embed_description == form.embed_description
            &&& row.embed_video_url == form.embed_video_url
            &&& row.thumbnail_url == form.thumbnail_url
        }),
{
}

} // verus!
