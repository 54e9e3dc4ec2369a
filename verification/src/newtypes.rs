//! Strongly-typed identifiers and the url wrapper.
//!
//! Each entity kind gets its own identifier type, so that an id of one kind
//! cannot be passed where another is expected.

use vstd::prelude::*;

verus! {

/// Identifier of a draft row, generated by the store on insert.
#[derive(Clone, Copy, Debug, PartialEq, Eq, Structural, Hash)]
pub struct DraftId(pub i32);

/// Identifier of the person who creates a draft.
#[derive(Clone, Copy, Debug, PartialEq, Eq, Structural, Hash)]
pub struct PersonId(pub i32);

/// Identifier of the community a draft belongs to.
#[derive(Clone, Copy, Debug, PartialEq, Eq, Structural, Hash)]
pub struct CommunityId(pub i32);

/// Identifier into the language registry.
#[derive(Clone, Copy, Debug, PartialEq, Eq, Structural, Hash)]
pub struct LanguageId(pub i32);

impl Default for LanguageId {
    /// The registry's default language.
    fn default() -> (r: Self)
        ensures
            r == LanguageId(0),
    {
        LanguageId(0)
    }
}

/// An external link, kept as its textual form; well-formedness of the url is
/// a concern of an upstream validation layer, not of this one.
#[derive(Debug, PartialEq, Eq)]
pub struct DbUrl(pub String);

impl Clone for DbUrl {
    fn clone(&self) -> (r: Self)
        ensures
            r == *self,
    {
        DbUrl(self.0.clone())
    }
}

impl View for DbUrl {
    type V = Seq<char>;

    open spec fn view(&self) -> Seq<char> {
        self.0@
    }
}

impl DbUrl {
    /// Wrap a url string.
    pub fn new(s: String) -> (r: Self)
        ensures
            r@ == s@,
    {
        DbUrl(s)
    }
}

} // verus!
