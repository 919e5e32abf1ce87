//! Decision logic of a federation-aware listing gateway.
//!
//! The crate turns a client's listing request (a page of posts, or a person's
//! profile with posts, comments and moderated communities) into the reads that
//! have to be made against the store and the actor resolver, and into the
//! response that is owed once those reads have been answered. All of it is
//! pure: the caller performs the reads and reports what came back.

pub mod types;
pub mod privacy;
pub mod sort;
pub mod hex;
pub mod cursor;
pub mod identity;
pub mod request;
pub mod query;
pub mod listing;
pub mod profile;
pub mod listing_laws;
pub mod profile_laws;
pub mod paging;

pub use crate::listing::list_posts;
pub use crate::profile::read_person;
