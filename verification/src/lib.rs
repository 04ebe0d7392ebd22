//! Invites to workshops.
//!
//! A visitor asks for an invite to a workshop; an organizer confirms or
//! declines it. The library holds what is decided along the way and nothing
//! that touches the outside world:
//!
//! - [`invite`]: the proposed invite, the stored row, and where a row stands;
//! - [`resource`]: what is asked of a patch (complete, well formed) and the
//!   five operations of a repository;
//! - [`repository`]: an operation as a dialogue with a store, query by query;
//! - [`table`]: what a store holds and what each query does to it;
//! - [`memory`]: a store in memory that answers as [`table`] says;
//! - [`laws`]: what holds of all of this;
//! - [`error`], [`form`], [`page`]: the errors, the submitted form, and the
//!   helpers that the pages of the site share.

pub mod error;
pub mod form;
pub mod invite;
pub mod laws;
pub mod memory;
pub mod page;
pub mod repository;
pub mod resource;
pub mod table;
