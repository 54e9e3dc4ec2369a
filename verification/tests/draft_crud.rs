use draft_db::draft::{Draft, DraftInsertForm, DraftUpdateForm};
use draft_db::newtypes::{CommunityId, DbUrl, DraftId, LanguageId, PersonId};
use draft_db::store::{Db, DbError};

#[test]
fn test_crud() {
    let mut db = Db::new(LanguageId::default());

    let creator_id = PersonId(1);
    let community_id = CommunityId(1);

    let new_post = DraftInsertForm::new(String::from("A test post"), creator_id, community_id);

    let inserted_draft = Draft::create(&mut db, &new_post).unwrap();

    let expected_draft = Draft {
        id: inserted_draft.id,
        name: String::from("A test post"),
        url: None,
        body: None,
        creator_id,
        community_id,
        nsfw: false,
        embed_title: None,
        embed_description: None,
        embed_video_url: None,
        thumbnail_url: None,
        language_id: LanguageId::default(),
    };

    let read_draft = Draft::read(&db, inserted_draft.id).unwrap();

    let new_draft_update = DraftUpdateForm::new().with_name(String::from("A test post"));
    let updated_draft = Draft::update(&mut db, inserted_draft.id, &new_draft_update).unwrap();

    let num_deleted: usize = Draft::delete(&mut db, inserted_draft.id).unwrap();

    assert_eq!(expected_draft, read_draft);
    assert_eq!(expected_draft, inserted_draft);
    assert_eq!(expected_draft, updated_draft);
    assert_eq!(1, num_deleted);
}

#[test]
fn create_then_read_round_trips_every_field() {
    let mut db = Db::new(LanguageId(5));
    let form = DraftInsertForm::new(String::from("linked"), PersonId(2), CommunityId(3))
        .with_nsfw(true)
        .with_url(DbUrl(String::from("https://example.com/a")))
        .with_body(String::from("some markdown"))
        .with_embed_title(String::from("a title"))
        .with_embed_description(String::from("a description"))
        .with_embed_video_url(DbUrl(String::from("https://example.com/v")))
        .with_thumbnail_url(DbUrl(String::from("https://example.com/t")))
        .with_language_id(LanguageId(7));

    let created = Draft::create(&mut db, &form).unwrap();
    let read_back = Draft::read(&db, created.id).unwrap();

    assert_eq!(created, read_back);
    assert_eq!(created.name, String::from("linked"));
    assert_eq!(created.url, Some(DbUrl(String::from("https://example.com/a"))));
    assert_eq!(created.body, Some(String::from("some markdown")));
    assert_eq!(created.nsfw, true);
    assert_eq!(created.embed_title, Some(String::from("a title")));
    assert_eq!(created.embed_description, Some(String::from("a description")));
    assert_eq!(created.embed_video_url, Some(DbUrl(String::from("https://example.com/v"))));
    assert_eq!(created.thumbnail_url, Some(DbUrl(String::from("https://example.com/t"))));
    assert_eq!(created.language_id, LanguageId(7));
}

#[test]
fn update_with_all_fields_absent_changes_nothing() {
    let mut db = Db::new(LanguageId::default());
    let form = DraftInsertForm::new(String::from("untouched"), PersonId(4), CommunityId(5))
        .with_url(DbUrl(String::from("https://example.com/u")))
        .with_nsfw(true);
    let created = Draft::create(&mut db, &form).unwrap();

    let noop = DraftUpdateForm::new();
    let updated = Draft::update(&mut db, created.id, &noop).unwrap();

    assert_eq!(created, updated);
    assert_eq!(created, Draft::read(&db, created.id).unwrap());
}

#[test]
fn update_url_present_null_clears_and_absent_skips() {
    let mut db = Db::new(LanguageId::default());
    let form = DraftInsertForm::new(String::from("clearing"), PersonId(6), CommunityId(7))
        .with_url(DbUrl(String::from("https://example.com/old")));
    let created = Draft::create(&mut db, &form).unwrap();
    assert_eq!(created.url, Some(DbUrl(String::from("https://example.com/old"))));

    // url absent in the form: the existing url stays.
    let skip = DraftUpdateForm::new().with_nsfw(true);
    let after_skip = Draft::update(&mut db, created.id, &skip).unwrap();
    assert_eq!(after_skip.url, Some(DbUrl(String::from("https://example.com/old"))));
    assert_eq!(after_skip.nsfw, true);

    // url present with value null: the url is cleared.
    let clear = DraftUpdateForm::new().with_url(None);
    let after_clear = Draft::update(&mut db, created.id, &clear).unwrap();
    assert_eq!(after_clear.url, None);

    // url present with a value: the url is set.
    let set = DraftUpdateForm::new().with_url(Some(DbUrl(String::from("https://example.com/new"))));
    let after_set = Draft::update(&mut db, created.id, &set).unwrap();
    assert_eq!(after_set.url, Some(DbUrl(String::from("https://example.com/new"))));
}

#[test]
fn update_body_double_option_set_and_clear() {
    let mut db = Db::new(LanguageId::default());
    let form = DraftInsertForm::new(String::from("bodied"), PersonId(8), CommunityId(9));
    let created = Draft::create(&mut db, &form).unwrap();
    assert_eq!(created.body, None);

    let set = DraftUpdateForm::new().with_body(Some(String::from("text")));
    let after_set = Draft::update(&mut db, created.id, &set).unwrap();
    assert_eq!(after_set.body, Some(String::from("text")));

    let clear = DraftUpdateForm::new().with_body(None);
    let after_clear = Draft::update(&mut db, created.id, &clear).unwrap();
    assert_eq!(after_clear.body, None);
}

#[test]
fn delete_reports_one_then_zero() {
    let mut db = Db::new(LanguageId::default());
    let form = DraftInsertForm::new(String::from("short-lived"), PersonId(1), CommunityId(2));
    let created = Draft::create(&mut db, &form).unwrap();

    let first: usize = Draft::delete(&mut db, created.id).unwrap();
    let second: usize = Draft::delete(&mut db, created.id).unwrap();
    assert_eq!(first, 1);
    assert_eq!(second, 0);
}

#[test]
fn read_never_created_or_deleted_id_is_not_found() {
    let mut db = Db::new(LanguageId::default());

    assert_eq!(Draft::read(&db, DraftId(42)), Err(DbError::NotFound));

    let form = DraftInsertForm::new(String::from("gone soon"), PersonId(3), CommunityId(4));
    let created = Draft::create(&mut db, &form).unwrap();
    let removed: usize = Draft::delete(&mut db, created.id).unwrap();
    assert_eq!(removed, 1);
    assert_eq!(Draft::read(&db, created.id), Err(DbError::NotFound));
}

#[test]
fn update_never_created_id_is_not_found_and_touches_nothing() {
    let mut db = Db::new(LanguageId::default());
    let form = DraftInsertForm::new(String::from("bystander"), PersonId(5), CommunityId(6));
    let created = Draft::create(&mut db, &form).unwrap();

    let change = DraftUpdateForm::new().with_name(String::from("other"));
    assert_eq!(Draft::update(&mut db, DraftId(99), &change), Err(DbError::NotFound));
    assert_eq!(Draft::read(&db, created.id).unwrap(), created);
}

#[test]
fn scenario_defaults_then_explicit_set_then_delete() {
    let mut db = Db::new(LanguageId::default());
    let creator_id = PersonId(11);
    let community_id = CommunityId(12);

    let form = DraftInsertForm::new(String::from("A test post"), creator_id, community_id);
    let created = Draft::create(&mut db, &form).unwrap();

    assert_eq!(created.nsfw, false);
    assert_eq!(created.url, None);
    assert_eq!(created.body, None);
    assert_eq!(created.language_id, LanguageId::default());

    let set_same = DraftUpdateForm::new().with_name(String::from("A test post"));
    let updated = Draft::update(&mut db, created.id, &set_same).unwrap();
    assert_eq!(updated, created);

    let count: usize = Draft::delete(&mut db, created.id).unwrap();
    assert_eq!(count, 1);
}

#[test]
fn created_ids_are_distinct_and_stay_readable() {
    let mut db = Db::new(LanguageId::default());
    let first = Draft::create(
        &mut db,
        &DraftInsertForm::new(String::from("first"), PersonId(1), CommunityId(1)),
    )
    .unwrap();
    let second = Draft::create(
        &mut db,
        &DraftInsertForm::new(String::from("second"), PersonId(1), CommunityId(1)),
    )
    .unwrap();

    assert_ne!(first.id, second.id);
    assert_eq!(Draft::read(&db, first.id).unwrap().name, String::from("first"));
    assert_eq!(Draft::read(&db, second.id).unwrap().name, String::from("second"));

    let removed: usize = Draft::delete(&mut db, first.id).unwrap();
    assert_eq!(removed, 1);
    assert_eq!(Draft::read(&db, second.id).unwrap().name, String::from("second"));
}

#[test]
fn update_of_one_row_leaves_the_other_alone() {
    let mut db = Db::new(LanguageId::default());
    let first = Draft::create(
        &mut db,
        &DraftInsertForm::new(String::from("kept"), PersonId(1), CommunityId(1)),
    )
    .unwrap();
    let second = Draft::create(
        &mut db,
        &DraftInsertForm::new(String::from("changed"), PersonId(2), CommunityId(2)),
    )
    .unwrap();

    let rename = DraftUpdateForm::new().with_name(String::from("changed indeed"));
    Draft::update(&mut db, second.id, &rename).unwrap();

    assert_eq!(Draft::read(&db, first.id).unwrap(), first);
    assert_eq!(Draft::read(&db, second.id).unwrap().name, String::from("changed indeed"));
}

#[test]
fn update_cannot_touch_identity_fields() {
    let mut db = Db::new(LanguageId::default());
    let form = DraftInsertForm::new(String::from("anchored"), PersonId(21), CommunityId(22));
    let created = Draft::create(&mut db, &form).unwrap();

    let heavy = DraftUpdateForm::new()
        .with_name(String::from("renamed"))
        .with_nsfw(true)
        .with_url(Some(DbUrl(String::from("https://example.com/x"))))
        .with_body(Some(String::from("b")))
        .with_embed_title(Some(String::from("t")))
        .with_embed_description(Some(String::from("d")))
        .with_embed_video_url(Some(DbUrl(String::from("https://example.com/v"))))
        .with_thumbnail_url(Some(DbUrl(String::from("https://example.com/th"))))
        .with_language_id(LanguageId(3));
    let updated = Draft::update(&mut db, created.id, &heavy).unwrap();

    assert_eq!(updated.id, created.id);
    assert_eq!(updated.creator_id, created.creator_id);
    assert_eq!(updated.community_id, created.community_id);
    assert_eq!(updated.name, String::from("renamed"));
    assert_eq!(updated.language_id, LanguageId(3));
}
