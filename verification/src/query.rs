//! The query composer: from a validated request to the parameter sets that
//! are handed to the store.

use vstd::prelude::*;
use crate::cursor::{decoded_cursor, SortKey};
use crate::request::{is_set, switch_on, ListingRequest, ProfileRequest};
use crate::sort::{comment_sort_for, effective_sort, effective_sort_of, post_to_comment_sort_type};
use crate::types::{
    CommentSortType, CommunityId, ListingError, ListingType, PersonId, SiteConfig, SortType,
};

verus! {

/// The two kinds of content that can be listed.
#[derive(Clone, Copy, Debug, PartialEq, Eq, Structural)]
pub enum ContentKind {
    Posts,
    Comments,
}

/// The sort order of a query, in the vocabulary of the content it lists.
#[derive(Clone, Copy, Debug, PartialEq, Eq, Structural)]
pub enum QuerySort {
    Posts(SortType),
    Comments(CommentSortType),
}

/// A fully resolved listing query, as the store receives it.
///
/// Every field is set by the composer; `unfiltered_query` documents the
/// value of each field that a composer leaves alone.
#[derive(Clone, Copy, Debug, PartialEq, Eq, Structural)]
pub struct ListingQuerySpec {
    /// Kind of content and the order it comes in.
    pub sort: QuerySort,
    /// Which communities an unscoped listing draws from; `None` leaves it
    /// to the store.
    pub listing_type: Option<ListingType>,
    /// Restricts the listing to one community.
    pub community_id: Option<CommunityId>,
    /// Restricts the listing to the content of one person.
    pub creator_id: Option<PersonId>,
    /// The local user on whose behalf the store reads.
    pub requester: Option<PersonId>,
    pub saved_only: bool,
    pub liked_only: bool,
    pub disliked_only: bool,
    /// Whether the listing is part of a person's profile.
    pub profile_view: bool,
    /// Absolute page number; `None` where a cursor is given.
    pub page: Option<i64>,
    pub limit: Option<i64>,
    /// Position after which the page starts.
    pub page_after: Option<SortKey>,
}

/// The query for the moderation roles of one person, in one community or
/// in all of them.
#[derive(Clone, Copy, Debug, PartialEq, Eq, Structural)]
pub struct ModerationQuery {
    pub person_id: PersonId,
    pub community_id: Option<CommunityId>,
}

/// The query that lists everything of one kind in `sort` order: no scope,
/// no filter, first page, the store's page size.
pub open spec fn unfiltered_query(sort: QuerySort) -> ListingQuerySpec {
    ListingQuerySpec {
        sort,
        listing_type: None,
        community_id: None,
        creator_id: None,
        requester: None,
        saved_only: false,
        liked_only: false,
        disliked_only: false,
        profile_view: false,
        page: None,
        limit: None,
        page_after: None,
    }
}

impl ListingQuerySpec {
    /// The kind of content the query lists.
    pub open spec fn content_kind(&self) -> ContentKind {
        match self.sort {
            QuerySort::Posts(_) => ContentKind::Posts,
            QuerySort::Comments(_) => ContentKind::Comments,
        }
    }

    /// What holds of every query a composer hands out: the two vote filters
    /// exclude each other, and a cursor is only ever attached to a post
    /// listing of the cursor's own sort order, in place of a page number.
    pub open spec fn well_formed(&self) -> bool {
        &&& !(self.liked_only && self.disliked_only)
        &&& self.page_after matches Some(key) ==> self.sort == QuerySort::Posts(key.sort)
            && self.page is None
    }

    /// The query that lists everything of one kind in `sort` order.
    pub fn unfiltered(sort: QuerySort) -> (query: ListingQuerySpec)
        ensures
            query == unfiltered_query(sort),
            query.well_formed(),
    {
        ListingQuerySpec {
            sort,
            listing_type: None,
            community_id: None,
            creator_id: None,
            requester: None,
            saved_only: false,
            liked_only: false,
            disliked_only: false,
            profile_view: false,
            page: None,
            limit: None,
            page_after: None,
        }
    }

    /// The kind of content the query lists.
    pub fn kind(&self) -> (kind: ContentKind)
        ensures
            kind == self.content_kind(),
    {
        match self.sort {
            QuerySort::Posts(_) => ContentKind::Posts,
            QuerySort::Comments(_) => ContentKind::Comments,
        }
    }
}

/// The listing type a post listing runs under: inside a community
/// everything is shown; on the front page the requested type counts, and
/// the site's default where none is requested.
pub open spec fn effective_listing_type(
    requested: Option<ListingType>,
    site_default: ListingType,
    scope: Option<CommunityId>,
) -> ListingType {
    if scope is Some {
        ListingType::All
    } else {
        match requested {
            Some(listing_type) => listing_type,
            None => site_default,
        }
    }
}

/// Resolves the listing type a post listing runs under.
pub fn listing_type_with_default(
    requested: Option<ListingType>,
    site: &SiteConfig,
    scope: Option<CommunityId>,
) -> (listing_type: ListingType)
    ensures
        listing_type == effective_listing_type(requested, site.default_post_listing_type, scope),
{
    if scope.is_some() {
        ListingType::All
    } else {
        match requested {
            Some(listing_type) => listing_type,
            None => site.default_post_listing_type,
        }
    }
}

/// The creator a profile listing is restricted to: saved items are listed
/// whoever made them, anything else only if `person` made it.
pub open spec fn profile_creator(saved_only: bool, person: PersonId) -> Option<PersonId> {
    if saved_only {
        None
    } else {
        Some(person)
    }
}

/// The post query of a listing request scoped to `scope`, or the reason the
/// request is refused.
///
/// A request that sets both vote filters is refused with
/// `ContradictingFilters` whatever else it holds. A cursor is decoded under
/// the sort order the listing runs under and replaces the page number; one
/// that does not decode is refused with `InvalidCursor`.
pub open spec fn post_listing_query(
    req: ListingRequest,
    site: SiteConfig,
    scope: Option<CommunityId>,
) -> Result<ListingQuerySpec, ListingError> {
    let sort = effective_sort_of(req.sort);
    let query = ListingQuerySpec {
        listing_type: Some(
            effective_listing_type(req.type_, site.default_post_listing_type, scope),
        ),
        community_id: scope,
        requester: req.requester,
        saved_only: is_set(req.saved_only),
        liked_only: is_set(req.liked_only),
        disliked_only: is_set(req.disliked_only),
        page: req.page,
        limit: req.limit,
        ..unfiltered_query(QuerySort::Posts(sort))
    };
    if is_set(req.liked_only) && is_set(req.disliked_only) {
        Err(ListingError::ContradictingFilters)
    } else {
        match req.page_cursor {
            None => Ok(query),
            Some(cursor) => match decoded_cursor(cursor@, sort) {
                Ok(key) => Ok(ListingQuerySpec { page: None, page_after: Some(key), ..query }),
                Err(e) => Err(e),
            },
        }
    }
}

/// The post query of a person's profile.
pub open spec fn profile_post_query(req: ProfileRequest, person: PersonId) -> ListingQuerySpec {
    ListingQuerySpec {
        community_id: req.community_id,
        creator_id: profile_creator(is_set(req.saved_only), person),
        requester: req.requester,
        saved_only: is_set(req.saved_only),
        profile_view: true,
        page: req.page,
        limit: req.limit,
        ..unfiltered_query(QuerySort::Posts(effective_sort_of(req.sort)))
    }
}

/// The comment query of a person's profile: the post query with its sort
/// order mapped onto the comment vocabulary.
pub open spec fn profile_comment_query(req: ProfileRequest, person: PersonId) -> ListingQuerySpec {
    ListingQuerySpec {
        sort: QuerySort::Comments(comment_sort_for(effective_sort_of(req.sort))),
        ..profile_post_query(req, person)
    }
}

/// The moderation query of a person's profile: the roles in the community
/// the request is scoped to, or in every community.
pub open spec fn profile_moderation_query(req: ProfileRequest, person: PersonId) -> ModerationQuery {
    ModerationQuery { person_id: person, community_id: req.community_id }
}

/// Composes the post query of a listing request scoped to `scope`.
pub fn compose_post_listing(
    req: &ListingRequest,
    site: &SiteConfig,
    scope: Option<CommunityId>,
) -> (query: Result<ListingQuerySpec, ListingError>)
    ensures
        query == post_listing_query(*req, *site, scope),
        query matches Ok(q) ==> q.well_formed(),
        is_set(req.liked_only) && is_set(req.disliked_only) ==> query == Err::<
            ListingQuerySpec,
            ListingError,
        >(ListingError::ContradictingFilters),
{
    let liked_only = switch_on(req.liked_only);
    let disliked_only = switch_on(req.disliked_only);
    if liked_only && disliked_only {
        return Err(ListingError::ContradictingFilters);
    }
    let sort = effective_sort(req.sort);
    let mut query = ListingQuerySpec::unfiltered(QuerySort::Posts(sort));
    query.listing_type = Some(listing_type_with_default(req.type_, site, scope));
    query.community_id = scope;
    query.requester = req.requester;
    query.saved_only = switch_on(req.saved_only);
    query.liked_only = liked_only;
    query.disliked_only = disliked_only;
    query.limit = req.limit;
    match &req.page_cursor {
        None => {
            query.page = req.page;
        },
        Some(cursor) => {
            let key = cursor.decode(sort)?;
            query.page_after = Some(key);
        },
    }
    Ok(query)
}

/// Composes the post query of the profile of `person`.
pub fn compose_profile_posts(req: &ProfileRequest, person: PersonId) -> (query: ListingQuerySpec)
    ensures
        query == profile_post_query(*req, person),
        query.well_formed(),
{
    let saved_only = switch_on(req.saved_only);
    let mut query = ListingQuerySpec::unfiltered(QuerySort::Posts(effective_sort(req.sort)));
    query.community_id = req.community_id;
    query.creator_id = if saved_only {
        None
    } else {
        Some(person)
    };
    query.requester = req.requester;
    query.saved_only = saved_only;
    query.profile_view = true;
    query.page = req.page;
    query.limit = req.limit;
    query
}

/// Composes the comment query of the profile of `person`.
pub fn compose_profile_comments(req: &ProfileRequest, person: PersonId) -> (query: ListingQuerySpec)
    ensures
        query == profile_comment_query(*req, person),
        query.well_formed(),
{
    let mut query = compose_profile_posts(req, person);
    query.sort = QuerySort::Comments(post_to_comment_sort_type(effective_sort(req.sort)));
    query
}

/// Composes the moderation query of the profile of `person`.
pub fn compose_profile_moderation(req: &ProfileRequest, person: PersonId) -> (query: ModerationQuery)
    ensures
        query == profile_moderation_query(*req, person),
{
    ModerationQuery { person_id: person, community_id: req.community_id }
}

} // verus!
