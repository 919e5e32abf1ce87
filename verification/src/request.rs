//! The two requests the gateway answers.

use vstd::prelude::*;
use crate::cursor::PaginationCursor;
use crate::identity::{identifier_preferring_id, identifier_preferring_name, ActorIdentifier};
use crate::types::{CommunityId, ListingType, PersonId, SortType};

verus! {

/// A request for one page of posts.
#[derive(Clone, Debug, PartialEq, Eq)]
pub struct ListingRequest {
    /// The local user who asks; `None` for a caller without a local login.
    pub requester: Option<PersonId>,
    pub type_: Option<ListingType>,
    pub sort: Option<SortType>,
    /// Absolute page number; ignored when `page_cursor` is given.
    pub page: Option<i64>,
    pub limit: Option<i64>,
    pub community_id: Option<CommunityId>,
    /// Handle of the community to list; wins over `community_id`.
    pub community_name: Option<String>,
    pub saved_only: Option<bool>,
    pub liked_only: Option<bool>,
    pub disliked_only: Option<bool>,
    /// Continuation token taken from the previous page's response.
    pub page_cursor: Option<PaginationCursor>,
}

/// A request for a person's profile: summary, posts, comments and
/// moderated communities.
#[derive(Clone, Debug, PartialEq, Eq)]
pub struct ProfileRequest {
    /// The local user who asks; `None` for a caller without a local login.
    pub requester: Option<PersonId>,
    /// Id of the person; wins over `username`.
    pub person_id: Option<PersonId>,
    /// Handle of the person, as in `name` or `name@instance.tld`.
    pub username: Option<String>,
    pub sort: Option<SortType>,
    pub page: Option<i64>,
    pub limit: Option<i64>,
    pub community_id: Option<CommunityId>,
    pub saved_only: Option<bool>,
}

/// Whether an optional switch is on; a switch that is not given is off.
pub open spec fn is_set(switch: Option<bool>) -> bool {
    switch == Some(true)
}

/// Whether an optional switch is on; a switch that is not given is off.
pub fn switch_on(switch: Option<bool>) -> (on: bool)
    ensures
        on == is_set(switch),
{
    match switch {
        Some(on) => on,
        None => false,
    }
}

/// The bare number of an optional community id.
pub open spec fn community_number(id: Option<CommunityId>) -> Option<i32> {
    match id {
        Some(id) => Some(id.0),
        None => None,
    }
}

/// The bare number of an optional person id.
pub open spec fn person_number(id: Option<PersonId>) -> Option<i32> {
    match id {
        Some(id) => Some(id.0),
        None => None,
    }
}

impl ListingRequest {
    /// How the request names the community it is scoped to, if it names one.
    pub open spec fn scope_identifier(&self) -> Option<ActorIdentifier> {
        identifier_preferring_name(community_number(self.community_id), self.community_name)
    }

    /// How the request names the community it is scoped to, if it names one.
    pub fn community(&self) -> (identifier: Option<ActorIdentifier>)
        ensures
            identifier == self.scope_identifier(),
    {
        let id = match self.community_id {
            Some(id) => Some(id.0),
            None => None,
        };
        ActorIdentifier::preferring_name(id, &self.community_name)
    }
}

impl ProfileRequest {
    /// How the request names the person whose profile it asks for, if it
    /// names one.
    pub open spec fn person_identifier(&self) -> Option<ActorIdentifier> {
        identifier_preferring_id(person_number(self.person_id), self.username)
    }

    /// How the request names the person whose profile it asks for, if it
    /// names one.
    pub fn person(&self) -> (identifier: Option<ActorIdentifier>)
        ensures
            identifier == self.person_identifier(),
    {
        let id = match self.person_id {
            Some(id) => Some(id.0),
            None => None,
        };
        ActorIdentifier::preferring_id(id, &self.username)
    }
}

} // verus!
