//! Plain data shared by every part of the gateway.

use vstd::prelude::*;

verus! {

/// Identifier of a community in the local store.
#[derive(Clone, Copy, Debug, PartialEq, Eq, Hash, Structural)]
pub struct CommunityId(pub i32);

/// Identifier of a person in the local store.
#[derive(Clone, Copy, Debug, PartialEq, Eq, Hash, Structural)]
pub struct PersonId(pub i32);

/// Sort orders of a post listing.
#[derive(Clone, Copy, Debug, PartialEq, Eq, Hash, Structural)]
pub enum SortType {
    Active,
    Hot,
    New,
    Old,
    TopDay,
    TopWeek,
    TopMonth,
    TopYear,
    TopAll,
    MostComments,
    NewComments,
    TopHour,
    TopSixHour,
    TopTwelveHour,
    TopThreeMonths,
    TopSixMonths,
    TopNineMonths,
    Controversial,
    Scaled,
}

/// Sort orders of a comment listing.
#[derive(Clone, Copy, Debug, PartialEq, Eq, Hash, Structural)]
pub enum CommentSortType {
    Hot,
    Top,
    New,
    Old,
    Controversial,
}

/// Which communities a listing without a community scope draws from.
#[derive(Clone, Copy, Debug, PartialEq, Eq, Hash, Structural)]
pub enum ListingType {
    /// Content of this instance and of every federated one.
    All,
    /// Content of this instance only.
    Local,
    /// Content of the communities the requester subscribed to.
    Subscribed,
    /// Content of the communities the requester moderates.
    ModeratorView,
}

/// How much of an instance is visible to callers that are not logged in.
#[derive(Clone, Copy, Debug, PartialEq, Eq, Hash, Structural)]
pub enum PrivacyMode {
    /// Everything is visible to everyone.
    Public,
    /// Nothing is visible without a local login.
    Private,
    /// Federation is on, but a community is only visible to outsiders who
    /// name it.
    SemiPrivate,
}

/// The part of the local site's configuration that listings depend on.
#[derive(Clone, Copy, Debug, PartialEq, Eq, Structural)]
pub struct SiteConfig {
    pub privacy: PrivacyMode,
    /// Listing type of a front-page listing that names none.
    pub default_post_listing_type: ListingType,
}

/// A post or a comment as the store lists it: its identity and the value it
/// is ordered by under the sort order of the query that returned it.
#[derive(Clone, Copy, Debug, PartialEq, Eq, Structural)]
pub struct ListedItem {
    pub id: i32,
    pub rank: i64,
}

/// A person's public profile summary.
#[derive(Clone, Copy, Debug, PartialEq, Eq, Structural)]
pub struct PersonSummary {
    pub person_id: PersonId,
    pub post_count: i64,
    pub comment_count: i64,
}

/// One moderation role: `person_id` moderates `community_id`.
#[derive(Clone, Copy, Debug, PartialEq, Eq, Structural)]
pub struct ModeratorRole {
    pub community_id: CommunityId,
    pub person_id: PersonId,
}

/// Why a request was not answered with a result.
#[derive(Clone, Copy, Debug, PartialEq, Eq, Structural)]
pub enum ListingError {
    /// A profile request named neither a person id nor a username.
    NoIdGiven,
    /// Both `liked_only` and `disliked_only` were set.
    ContradictingFilters,
    /// The pagination cursor is malformed or belongs to another sort order.
    InvalidCursor,
    /// The resolver could not produce the named community.
    CouldntFindCommunity,
    /// The resolver could not produce the named person.
    CouldntFindPerson,
    /// The store failed to list posts.
    CouldntGetPosts,
    /// Another read of the store failed.
    StoreUnavailable,
    /// The caller reported an event that does not answer the pending read.
    UnexpectedEvent,
}

/// The classes of errors, by what the caller may learn from them.
#[derive(Clone, Copy, Debug, PartialEq, Eq, Structural)]
pub enum ErrorKind {
    /// The request itself is at fault; it is told so verbatim and a retry
    /// of the same request fails the same way.
    Validation,
    /// An actor was not found; whether it never existed, is private or
    /// could not be reached is not told.
    Resolution,
    /// A read of the store failed; the cause is for the log, not for the
    /// caller.
    Store,
    /// The caller of the flow did not follow it.
    Protocol,
}

/// The class of each error.
pub open spec fn error_kind(error: ListingError) -> ErrorKind {
    match error {
        ListingError::NoIdGiven
        | ListingError::ContradictingFilters
        | ListingError::InvalidCursor => ErrorKind::Validation,
        ListingError::CouldntFindCommunity | ListingError::CouldntFindPerson => ErrorKind::Resolution,
        ListingError::CouldntGetPosts | ListingError::StoreUnavailable => ErrorKind::Store,
        ListingError::UnexpectedEvent => ErrorKind::Protocol,
    }
}

impl ListingError {
    /// The class of this error.
    pub fn kind(&self) -> (kind: ErrorKind)
        ensures
            kind == error_kind(*self),
    {
        match self {
            ListingError::NoIdGiven => ErrorKind::Validation,
            ListingError::ContradictingFilters => ErrorKind::Validation,
            ListingError::InvalidCursor => ErrorKind::Validation,
            ListingError::CouldntFindCommunity => ErrorKind::Resolution,
            ListingError::CouldntFindPerson => ErrorKind::Resolution,
            ListingError::CouldntGetPosts => ErrorKind::Store,
            ListingError::StoreUnavailable => ErrorKind::Store,
            ListingError::UnexpectedEvent => ErrorKind::Protocol,
        }
    }
}

} // verus!
