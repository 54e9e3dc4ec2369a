//! The draft entity and its two companion forms.
//!
//! `Draft` is the persisted record. `DraftInsertForm` carries everything a
//! creation needs: `name`, `creator_id` and `community_id` are required by
//! construction, every other field defaults when left out. `DraftUpdateForm`
//! describes a partial mutation: every field is independently optional, and a
//! field whose target is itself optional is encoded with a double option, so
//! that "leave unchanged" (`None`), "clear" (`Some(None)`) and "set"
//! (`Some(Some(v))`) stay distinct.

use vstd::prelude::*;

use crate::newtypes::{CommunityId, DbUrl, DraftId, LanguageId, PersonId};

verus! {

/// An unpublished draft of a post.
#[derive(Debug, PartialEq, Eq)]
pub struct Draft {
    pub id: DraftId,
    pub name: String,
    /// An optional link / url for the post.
    pub url: Option<DbUrl>,
    /// An optional post body, in markdown.
    pub body: Option<String>,
    pub creator_id: PersonId,
    pub community_id: CommunityId,
    /// Whether the post is NSFW.
    pub nsfw: bool,
    /// A title for the link.
    pub embed_title: Option<String>,
    /// A description for the link.
    pub embed_description: Option<String>,
    /// A video url for the link.
    pub embed_video_url: Option<DbUrl>,
    /// A thumbnail picture url.
    pub thumbnail_url: Option<DbUrl>,
    pub language_id: LanguageId,
}

/// The mathematical value of a `Draft`: text as character sequences,
/// identifiers kept as their strong types.
#[verifier::ext_equal]
pub ghost struct DraftView {
    pub id: DraftId,
    pub name: Seq<char>,
    pub url: Option<Seq<char>>,
    pub body: Option<Seq<char>>,
    pub creator_id: PersonId,
    pub community_id: CommunityId,
    pub nsfw: bool,
    pub embed_title: Option<Seq<char>>,
    pub embed_description: Option<Seq<char>>,
    pub embed_video_url: Option<Seq<char>>,
    pub thumbnail_url: Option<Seq<char>>,
    pub language_id: LanguageId,
}

pub open spec fn opt_str_view(o: Option<String>) -> Option<Seq<char>> {
    match o {
        Some(s) => Some(s@),
        None => None,
    }
}

pub open spec fn opt_url_view(o: Option<DbUrl>) -> Option<Seq<char>> {
    match o {
        Some(u) => Some(u@),
        None => None,
    }
}

pub open spec fn opt_opt_str_view(o: Option<Option<String>>) -> Option<Option<Seq<char>>> {
    match o {
        Some(i) => Some(opt_str_view(i)),
        None => None,
    }
}

pub open spec fn opt_opt_url_view(o: Option<Option<DbUrl>>) -> Option<Option<Seq<char>>> {
    match o {
        Some(i) => Some(opt_url_view(i)),
        None => None,
    }
}

impl View for Draft {
    type V = DraftView;

    open spec fn view(&self) -> DraftView {
        DraftView {
            id: self.id,
            name: self.name@,
            url: opt_url_view(self.url),
            body: opt_str_view(self.body),
            creator_id: self.creator_id,
            community_id: self.community_id,
            nsfw: self.nsfw,
            embed_title: opt_str_view(self.embed_title),
            embed_description: opt_str_view(self.embed_description),
            embed_video_url: opt_url_view(self.embed_video_url),
            thumbnail_url: opt_url_view(self.thumbnail_url),
            language_id: self.language_id,
        }
    }
}

fn clone_opt_string(o: &Option<String>) -> (r: Option<String>)
    ensures
        r == *o,
{
    match o {
        Some(s) => Some(s.clone()),
        None => None,
    }
}

fn clone_opt_url(o: &Option<DbUrl>) -> (r: Option<DbUrl>)
    ensures
        r == *o,
{
    match o {
        Some(u) => Some(u.clone()),
        None => None,
    }
}

fn clone_opt_opt_string(o: &Option<Option<String>>) -> (r: Option<Option<String>>)
    ensures
        r == *o,
{
    match o {
        Some(i) => Some(clone_opt_string(i)),
        None => None,
    }
}

fn clone_opt_opt_url(o: &Option<Option<DbUrl>>) -> (r: Option<Option<DbUrl>>)
    ensures
        r == *o,
{
    match o {
        Some(i) => Some(clone_opt_url(i)),
        None => None,
    }
}

impl Clone for Draft {
    fn clone(&self) -> (r: Self)
        ensures
            r == *self,
    {
        Draft {
            id: self.id,
            name: self.name.clone(),
            url: clone_opt_url(&self.url),
            body: clone_opt_string(&self.body),
            creator_id: self.creator_id,
            community_id: self.community_id,
            nsfw: self.nsfw,
            embed_title: clone_opt_string(&self.embed_title),
            embed_description: clone_opt_string(&self.embed_description),
            embed_video_url: clone_opt_url(&self.embed_video_url),
            thumbnail_url: clone_opt_url(&self.thumbnail_url),
            language_id: self.language_id,
        }
    }
}

/// Everything a creation needs. The three required fields are arguments of
/// [`DraftInsertForm::new`]; the rest default to absent.
#[derive(Debug)]
pub struct DraftInsertForm {
    pub name: String,
    pub creator_id: PersonId,
    pub community_id: CommunityId,
    pub nsfw: Option<bool>,
    pub url: Option<DbUrl>,
    pub body: Option<String>,
    pub embed_title: Option<String>,
    pub embed_description: Option<String>,
    pub embed_video_url: Option<DbUrl>,
    pub thumbnail_url: Option<DbUrl>,
    pub language_id: Option<LanguageId>,
}

/// The mathematical value of a `DraftInsertForm`.
#[verifier::ext_equal]
pub ghost struct InsertFormView {
    pub name: Seq<char>,
    pub creator_id: PersonId,
    pub community_id: CommunityId,
    pub nsfw: Option<bool>,
    pub url: Option<Seq<char>>,
    pub body: Option<Seq<char>>,
    pub embed_title: Option<Seq<char>>,
    pub embed_description: Option<Seq<char>>,
    pub embed_video_url: Option<Seq<char>>,
    pub thumbnail_url: Option<Seq<char>>,
    pub language_id: Option<LanguageId>,
}

impl View for DraftInsertForm {
    type V = InsertFormView;

    open spec fn view(&self) -> InsertFormView {
        InsertFormView {
            name: self.name@,
            creator_id: self.creator_id,
            community_id: self.community_id,
            nsfw: self.nsfw,
            url: opt_url_view(self.url),
            body: opt_str_view(self.body),
            embed_title: opt_str_view(self.embed_title),
            embed_description: opt_str_view(self.embed_description),
            embed_video_url: opt_url_view(self.embed_video_url),
            thumbnail_url: opt_url_view(self.thumbnail_url),
            language_id: self.language_id,
        }
    }
}

impl Clone for DraftInsertForm {
    fn clone(&self) -> (r: Self)
        ensures
            r == *self,
    {
        DraftInsertForm {
            name: self.name.clone(),
            creator_id: self.creator_id,
            community_id: self.community_id,
            nsfw: self.nsfw,
            url: clone_opt_url(&self.url),
            body: clone_opt_string(&self.body),
            embed_title: clone_opt_string(&self.embed_title),
            embed_description: clone_opt_string(&self.embed_description),
            embed_video_url: clone_opt_url(&self.embed_video_url),
            thumbnail_url: clone_opt_url(&self.thumbnail_url),
            language_id: self.language_id,
        }
    }
}

impl DraftInsertForm {
    /// Start a form from the three required fields; every optional field is
    /// absent until one of the `with_` builders sets it.
    pub fn new(name: String, creator_id: PersonId, community_id: CommunityId) -> (r: Self)
        ensures
            r@ == (InsertFormView {
                name: name@,
                creator_id,
                community_id,
                nsfw: None,
                url: None,
                body: None,
                embed_title: None,
                embed_description: None,
                embed_video_url: None,
                thumbnail_url: None,
                language_id: None,
            }),
    {
        DraftInsertForm {
            name,
            creator_id,
            community_id,
            nsfw: None,
            url: None,
            body: None,
            embed_title: None,
            embed_description: None,
            embed_video_url: None,
            thumbnail_url: None,
            language_id: None,
        }
    }

    pub fn with_nsfw(self, nsfw: bool) -> (r: Self)
        ensures
            r@ == (InsertFormView { nsfw: Some(nsfw), ..self@ }),
    {
        DraftInsertForm { nsfw: Some(nsfw), ..self }
    }

    pub fn with_url(self, url: DbUrl) -> (r: Self)
        ensures
            r@ == (InsertFormView { url: Some(url@), ..self@ }),
    {
        DraftInsertForm { url: Some(url), ..self }
    }

    pub fn with_body(self, body: String) -> (r: Self)
        ensures
            r@ == (InsertFormView { body: Some(body@), ..self@ }),
    {
        DraftInsertForm { body: Some(body), ..self }
    }

    pub fn with_embed_title(self, embed_title: String) -> (r: Self)
        ensures
            r@ == (InsertFormView { embed_title: Some(embed_title@), ..self@ }),
    {
        DraftInsertForm { embed_title: Some(embed_title), ..self }
    }

    pub fn with_embed_description(self, embed_description: String) -> (r: Self)
        ensures
            r@ == (InsertFormView { embed_description: Some(embed_description@), ..self@ }),
    {
        DraftInsertForm { embed_description: Some(embed_description), ..self }
    }

    pub fn with_embed_video_url(self, embed_video_url: DbUrl) -> (r: Self)
        ensures
            r@ == (InsertFormView { embed_video_url: Some(embed_video_url@), ..self@ }),
    {
        DraftInsertForm { embed_video_url: Some(embed_video_url), ..self }
    }

    pub fn with_thumbnail_url(self, thumbnail_url: DbUrl) -> (r: Self)
        ensures
            r@ == (InsertFormView { thumbnail_url: Some(thumbnail_url@), ..self@ }),
    {
        DraftInsertForm { thumbnail_url: Some(thumbnail_url), ..self }
    }

    pub fn with_language_id(self, language_id: LanguageId) -> (r: Self)
        ensures
            r@ == (InsertFormView { language_id: Some(language_id), ..self@ }),
    {
        DraftInsertForm { language_id: Some(language_id), ..self }
    }
}

/// A partial mutation. A plain `Option` field set to `Some` overwrites; a
/// double-option field distinguishes "leave unchanged" (`None`) from "clear"
/// (`Some(None)`) and "set" (`Some(Some(v))`).
#[derive(Debug)]
pub struct DraftUpdateForm {
    pub name: Option<String>,
    pub nsfw: Option<bool>,
    pub url: Option<Option<DbUrl>>,
    pub body: Option<Option<String>>,
    pub embed_title: Option<Option<String>>,
    pub embed_description: Option<Option<String>>,
    pub embed_video_url: Option<Option<DbUrl>>,
    pub thumbnail_url: Option<Option<DbUrl>>,
    pub language_id: Option<LanguageId>,
}

/// The mathematical value of a `DraftUpdateForm`.
#[verifier::ext_equal]
pub ghost struct UpdateFormView {
    pub name: Option<Seq<char>>,
    pub nsfw: Option<bool>,
    pub url: Option<Option<Seq<char>>>,
    pub body: Option<Option<Seq<char>>>,
    pub embed_title: Option<Option<Seq<char>>>,
    pub embed_description: Option<Option<Seq<char>>>,
    pub embed_video_url: Option<Option<Seq<char>>>,
    pub thumbnail_url: Option<Option<Seq<char>>>,
    pub language_id: Option<LanguageId>,
}

impl View for DraftUpdateForm {
    type V = UpdateFormView;

    open spec fn view(&self) -> UpdateFormView {
        UpdateFormView {
            name: opt_str_view(self.name),
            nsfw: self.nsfw,
            url: opt_opt_url_view(self.url),
            body: opt_opt_str_view(self.body),
            embed_title: opt_opt_str_view(self.embed_title),
            embed_description: opt_opt_str_view(self.embed_description),
            embed_video_url: opt_opt_url_view(self.embed_video_url),
            thumbnail_url: opt_opt_url_view(self.thumbnail_url),
            language_id: self.language_id,
        }
    }
}

/// The all-absent update form: a legal mutation that touches nothing.
pub open spec fn empty_update_form() -> UpdateFormView {
    UpdateFormView {
        name: None,
        nsfw: None,
        url: None,
        body: None,
        embed_title: None,
        embed_description: None,
        embed_video_url: None,
        thumbnail_url: None,
        language_id: None,
    }
}

impl Clone for DraftUpdateForm {
    fn clone(&self) -> (r: Self)
        ensures
            r == *self,
    {
        DraftUpdateForm {
            name: clone_opt_string(&self.name),
            nsfw: self.nsfw,
            url: clone_opt_opt_url(&self.url),
            body: clone_opt_opt_string(&self.body),
            embed_title: clone_opt_opt_string(&self.embed_title),
            embed_description: clone_opt_opt_string(&self.embed_description),
            embed_video_url: clone_opt_opt_url(&self.embed_video_url),
            thumbnail_url: clone_opt_opt_url(&self.thumbnail_url),
            language_id: self.language_id,
        }
    }
}

impl DraftUpdateForm {
    /// Start from the no-op form: every field absent.
    pub fn new() -> (r: Self)
        ensures
            r@ == empty_update_form(),
    {
        DraftUpdateForm {
            name: None,
            nsfw: None,
            url: None,
            body: None,
            embed_title: None,
            embed_description: None,
            embed_video_url: None,
            thumbnail_url: None,
            language_id: None,
        }
    }

    pub fn with_name(self, name: String) -> (r: Self)
        ensures
            r@ == (UpdateFormView { name: Some(name@), ..self@ }),
    {
        DraftUpdateForm { name: Some(name), ..self }
    }

    pub fn with_nsfw(self, nsfw: bool) -> (r: Self)
        ensures
            r@ == (UpdateFormView { nsfw: Some(nsfw), ..self@ }),
    {
        DraftUpdateForm { nsfw: Some(nsfw), ..self }
    }

    /// Set or clear the url: `Some(u)` sets it, `None` clears it. To leave it
    /// untouched, do not call this at all.
    pub fn with_url(self, url: Option<DbUrl>) -> (r: Self)
        ensures
            r@ == (UpdateFormView { url: Some(opt_url_view(url)), ..self@ }),
    {
        DraftUpdateForm { url: Some(url), ..self }
    }

    /// Set or clear the body: `Some(b)` sets it, `None` clears it.
    pub fn with_body(self, body: Option<String>) -> (r: Self)
        ensures
            r@ == (UpdateFormView { body: Some(opt_str_view(body)), ..self@ }),
    {
        DraftUpdateForm { body: Some(body), ..self }
    }

    /// Set or clear the embed title: `Some(t)` sets it, `None` clears it.
    pub fn with_embed_title(self, embed_title: Option<String>) -> (r: Self)
        ensures
            r@ == (UpdateFormView { embed_title: Some(opt_str_view(embed_title)), ..self@ }),
    {
        DraftUpdateForm { embed_title: Some(embed_title), ..self }
    }

    /// Set or clear the embed description: `Some(d)` sets it, `None` clears it.
    pub fn with_embed_description(self, embed_description: Option<String>) -> (r: Self)
        ensures
            r@ == (UpdateFormView {
                embed_description: Some(opt_str_view(embed_description)),
                ..self@
            }),
    {
        DraftUpdateForm { embed_description: Some(embed_description), ..self }
    }

    /// Set or clear the embed video url: `Some(u)` sets it, `None` clears it.
    pub fn with_embed_video_url(self, embed_video_url: Option<DbUrl>) -> (r: Self)
        ensures
            r@ == (UpdateFormView {
                embed_video_url: Some(opt_url_view(embed_video_url)),
                ..self@
            }),
    {
        DraftUpdateForm { embed_video_url: Some(embed_video_url), ..self }
    }

    /// Set or clear the thumbnail url: `Some(u)` sets it, `None` clears it.
    pub fn with_thumbnail_url(self, thumbnail_url: Option<DbUrl>) -> (r: Self)
        ensures
            r@ == (UpdateFormView { thumbnail_url: Some(opt_url_view(thumbnail_url)), ..self@ }),
    {
        DraftUpdateForm { thumbnail_url: Some(thumbnail_url), ..self }
    }

    pub fn with_language_id(self, language_id: LanguageId) -> (r: Self)
        ensures
            r@ == (UpdateFormView { language_id: Some(language_id), ..self@ }),
    {
        DraftUpdateForm { language_id: Some(language_id), ..self }
    }
}

/// The row a fresh insert materializes: required fields copied from the form,
/// absent optional fields taking the entity's defaults — `false` for `nsfw`,
/// the registry default for `language_id`, absent for everything else.
pub open spec fn row_from_insert(
    id: DraftId,
    form: InsertFormView,
    default_language_id: LanguageId,
) -> DraftView {
    DraftView {
        id,
        name: form.name,
        url: form.url,
        body: form.body,
        creator_id: form.creator_id,
        community_id: form.community_id,
        nsfw: match form.nsfw {
            Some(b) => b,
            None => false,
        },
        embed_title: form.embed_title,
        embed_description: form.embed_description,
        embed_video_url: form.embed_video_url,
        thumbnail_url: form.thumbnail_url,
        language_id: match form.language_id {
            Some(l) => l,
            None => default_language_id,
        },
    }
}

/// The row a partial update leaves behind: an absent form field keeps the old
/// value, a present one overwrites it — for a double-option field with the
/// inner option as a whole, so `Some(None)` clears. `id`, `creator_id` and
/// `community_id` cannot be touched.
pub open spec fn row_after_update(row: DraftView, form: UpdateFormView) -> DraftView {
    DraftView {
        id: row.id,
        name: match form.name {
            Some(n) => n,
            None => row.name,
        },
        url: match form.url {
            Some(u) => u,
            None => row.url,
        },
        body: match form.body {
            Some(b) => b,
            None => row.body,
        },
        creator_id: row.creator_id,
        community_id: row.community_id,
        nsfw: match form.nsfw {
            Some(b) => b,
            None => row.nsfw,
        },
        embed_title: match form.embed_title {
            Some(t) => t,
            None => row.embed_title,
        },
        embed_description: match form.embed_description {
            Some(d) => d,
            None => row.embed_description,
        },
        embed_video_url: match form.embed_video_url {
            Some(u) => u,
            None => row.embed_video_url,
        },
        thumbnail_url: match form.thumbnail_url {
            Some(u) => u,
            None => row.thumbnail_url,
        },
        language_id: match form.language_id {
            Some(l) => l,
            None => row.language_id,
        },
    }
}

impl Draft {
    /// Materialize the row a given insert form describes, under a given fresh
    /// id and registry default language.
    pub fn build(id: DraftId, form: &DraftInsertForm, default_language_id: LanguageId) -> (d: Draft)
        ensures
            d@ == row_from_insert(id, form@, default_language_id),
    {
        Draft {
            id,
            name: form.name.clone(),
            url: clone_opt_url(&form.url),
            body: clone_opt_string(&form.body),
            creator_id: form.creator_id,
            community_id: form.community_id,
            nsfw: match form.nsfw {
                Some(b) => b,
                None => false,
            },
            embed_title: clone_opt_string(&form.embed_title),
            embed_description: clone_opt_string(&form.embed_description),
            embed_video_url: clone_opt_url(&form.embed_video_url),
            thumbnail_url: clone_opt_url(&form.thumbnail_url),
            language_id: match form.language_id {
                Some(l) => l,
                None => default_language_id,
            },
        }
    }

    /// The row that applying a partial update to this one yields.
    pub fn apply_update(&self, form: &DraftUpdateForm) -> (d: Draft)
        ensures
            d@ == row_after_update(self@, form@),
    {
        Draft {
            id: self.id,
            name: match &form.name {
                Some(n) => n.clone(),
                None => self.name.clone(),
            },
            url: match &form.url {
                Some(u) => clone_opt_url(u),
                None => clone_opt_url(&self.url),
            },
            body: match &form.body {
                Some(b) => clone_opt_string(b),
                None => clone_opt_string(&self.body),
            },
            creator_id: self.creator_id,
            community_id: self.community_id,
            nsfw: match form.nsfw {
                Some(b) => b,
                None => self.nsfw,
            },
            embed_title: match &form.embed_title {
                Some(t) => clone_opt_string(t),
                None => clone_opt_string(&self.embed_title),
            },
            embed_description: match &form.embed_description {
                Some(d) => clone_opt_string(d),
                None => clone_opt_string(&self.embed_description),
            },
            embed_video_url: match &form.embed_video_url {
                Some(u) => clone_opt_url(u),
                None => clone_opt_url(&self.embed_video_url),
            },
            thumbnail_url: match &form.thumbnail_url {
                Some(u) => clone_opt_url(u),
                None => clone_opt_url(&self.thumbnail_url),
            },
            language_id: match form.language_id {
                Some(l) => l,
                None => self.language_id,
            },
        }
    }
}

} // verus!
