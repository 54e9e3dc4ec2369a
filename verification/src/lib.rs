//! Persistence model for an unpublished content draft.
//!
//! The crate defines the draft entity, its insert and update forms, and an
//! in-memory store that gives the create/read/update/delete operations exact,
//! verified semantics: defaults applied on insert, field-granular partial
//! updates with three-state (absent / clear / set) encoding, lookup by id,
//! and idempotent delete.

pub mod draft;
pub mod laws;
pub mod newtypes;
pub mod store;

