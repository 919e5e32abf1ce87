//! What holds of every post listing, whatever the store and the resolver
//! answer.

use vstd::prelude::*;
use crate::cursor::{
    cursor_token, key_of_item, lemma_decode_encode, lemma_decode_other_sort, PaginationCursor,
    SortKey,
};
use crate::identity::ActorIdentifier;
use crate::listing::{
    empty_page, list_posts_step, page_of, ListPostsActionView, ListPostsEvent, ListPostsState,
    PostsPageView,
};
use crate::privacy::{privacy_decision, PrivacyDecision};
use crate::query::{post_listing_query, ContentKind, ListingQuerySpec};
use crate::request::{is_set, ListingRequest};
use crate::sort::effective_sort_of;
use crate::types::{CommunityId, ListedItem, ListingError, PrivacyMode, SiteConfig, SortType};

verus! {

/// The reply that the flow gives when `driver` answers its actions, if it
/// gives one within `steps` actions after the step on `event`.
pub open spec fn list_posts_run(
    req: ListingRequest,
    driver: spec_fn(ListPostsActionView) -> ListPostsEvent,
    state: ListPostsState,
    event: ListPostsEvent,
    steps: nat,
) -> Option<Result<PostsPageView, ListingError>>
    decreases steps,
{
    let (next, action) = list_posts_step(req, state, event);
    match action {
        ListPostsActionView::Reply(reply) => Some(reply),
        _ => if steps == 0 {
            None
        } else {
            list_posts_run(req, driver, next, driver(action), (steps - 1) as nat)
        },
    }
}

/// The site configuration and the community scope that a listing runs
/// under, as the first two reads establish them, or the error that ends
/// the request before the privacy filter is asked.
pub open spec fn list_posts_scope(
    req: ListingRequest,
    driver: spec_fn(ListPostsActionView) -> ListPostsEvent,
) -> Result<(SiteConfig, Option<CommunityId>), ListingError> {
    match driver(ListPostsActionView::ReadSiteConfig) {
        ListPostsEvent::SiteLoaded(site) => match req.scope_identifier() {
            Some(ActorIdentifier::ByName(name)) => match driver(
                ListPostsActionView::ResolveCommunity {
                    identifier: ActorIdentifier::ByName(name),
                    requester: None,
                    allow_remote_fetch: true,
                },
            ) {
                ListPostsEvent::CommunityResolved(id) => Ok((site, Some(id))),
                ListPostsEvent::CommunityNotFound => Err(ListingError::CouldntFindCommunity),
                _ => Err(ListingError::UnexpectedEvent),
            },
            Some(ActorIdentifier::ById(id)) => Ok((site, Some(CommunityId(id)))),
            None => Ok((site, None)),
        },
        ListPostsEvent::SiteUnavailable => Err(ListingError::StoreUnavailable),
        _ => Err(ListingError::UnexpectedEvent),
    }
}

/// The reply owed to a request that passed the privacy filter: the error
/// of a refused request, or the page made of what the store returns for
/// the composed query.
pub open spec fn list_posts_allowed(
    req: ListingRequest,
    driver: spec_fn(ListPostsActionView) -> ListPostsEvent,
    site: SiteConfig,
    scope: Option<CommunityId>,
) -> Result<PostsPageView, ListingError> {
    match post_listing_query(req, site, scope) {
        Err(e) => Err(e),
        Ok(query) => match driver(ListPostsActionView::RunQuery(query)) {
            ListPostsEvent::PostsLoaded(items) => Ok(page_of(items@, effective_sort_of(req.sort))),
            ListPostsEvent::PostsUnavailable => Err(ListingError::CouldntGetPosts),
            _ => Err(ListingError::UnexpectedEvent),
        },
    }
}

/// The reply owed to `req` when `driver` answers the reads.
pub open spec fn list_posts_outcome(
    req: ListingRequest,
    driver: spec_fn(ListPostsActionView) -> ListPostsEvent,
) -> Result<PostsPageView, ListingError> {
    match list_posts_scope(req, driver) {
        Err(e) => Err(e),
        Ok((site, scope)) => match privacy_decision(req.requester, site.privacy, scope) {
            PrivacyDecision::SilentlyEmpty => Ok(empty_page()),
            PrivacyDecision::Allow => list_posts_allowed(req, driver, site, scope),
        },
    }
}

/// The query that the flow hands to the store when `driver` answers its
/// actions, if it hands one over within `steps` actions after the step on
/// `event`.
pub open spec fn list_posts_asked(
    req: ListingRequest,
    driver: spec_fn(ListPostsActionView) -> ListPostsEvent,
    state: ListPostsState,
    event: ListPostsEvent,
    steps: nat,
) -> Option<ListingQuerySpec>
    decreases steps,
{
    let (next, action) = list_posts_step(req, state, event);
    match action {
        ListPostsActionView::Reply(_) => None,
        ListPostsActionView::RunQuery(query) => Some(query),
        _ => if steps == 0 {
            None
        } else {
            list_posts_asked(req, driver, next, driver(action), (steps - 1) as nat)
        },
    }
}

/// The query that is owed to the store for `req`: the composed query of a
/// request that passed the privacy filter and was not refused, and none
/// for any other request.
pub open spec fn list_posts_query(
    req: ListingRequest,
    driver: spec_fn(ListPostsActionView) -> ListPostsEvent,
) -> Option<ListingQuerySpec> {
    match list_posts_scope(req, driver) {
        Err(_) => None,
        Ok((site, scope)) => match privacy_decision(req.requester, site.privacy, scope) {
            PrivacyDecision::SilentlyEmpty => None,
            PrivacyDecision::Allow => match post_listing_query(req, site, scope) {
                Err(_) => None,
                Ok(query) => Some(query),
            },
        },
    }
}

/// Whatever is read, the flow replies after at most three reads, and its
/// reply is `list_posts_outcome`.
pub proof fn law_list_posts_replies(
    req: ListingRequest,
    driver: spec_fn(ListPostsActionView) -> ListPostsEvent,
)
    ensures
        list_posts_run(req, driver, ListPostsState::Start, ListPostsEvent::Begin, 3) == Some(
            list_posts_outcome(req, driver),
        ),
        list_posts_asked(req, driver, ListPostsState::Start, ListPostsEvent::Begin, 3)
            == list_posts_query(req, driver),
{
    reveal_with_fuel(list_posts_run, 4);
    reveal_with_fuel(list_posts_asked, 4);
}

/// The store is asked for posts at most once, with a well-formed post
/// query, and whatever it answers ends the flow.
pub proof fn law_one_well_formed_query(
    req: ListingRequest,
    state: ListPostsState,
    event: ListPostsEvent,
    sort: SortType,
)
    ensures
        list_posts_step(req, state, event).1 matches ListPostsActionView::RunQuery(query) ==> {
            &&& query.well_formed()
            &&& query.content_kind() == ContentKind::Posts
            &&& list_posts_step(req, state, event).0 is AwaitingPosts
        },
        list_posts_step(req, ListPostsState::AwaitingPosts { sort }, event).1 is Reply,
        list_posts_step(req, ListPostsState::Done, event).1 is Reply,
{
}

/// No query is ever composed for a request that sets both `liked_only` and
/// `disliked_only`: the composer refuses it with `ContradictingFilters`,
/// whatever its other fields, the site and the scope are.
pub proof fn law_contradicting_filters_compose_nothing(
    req: ListingRequest,
    site: SiteConfig,
    scope: Option<CommunityId>,
)
    requires
        is_set(req.liked_only),
        is_set(req.disliked_only),
    ensures
        post_listing_query(req, site, scope) == Err::<ListingQuerySpec, ListingError>(
            ListingError::ContradictingFilters,
        ),
{
}

/// A request that sets both `liked_only` and `disliked_only` is refused
/// with `ContradictingFilters`, whatever its other fields hold, once it has
/// passed the privacy filter. No query is composed for it.
pub proof fn law_contradicting_filters(
    req: ListingRequest,
    driver: spec_fn(ListPostsActionView) -> ListPostsEvent,
    site: SiteConfig,
    scope: Option<CommunityId>,
)
    requires
        is_set(req.liked_only),
        is_set(req.disliked_only),
        list_posts_scope(req, driver) == Ok::<(SiteConfig, Option<CommunityId>), ListingError>(
            (site, scope),
        ),
        privacy_decision(req.requester, site.privacy, scope) == PrivacyDecision::Allow,
    ensures
        post_listing_query(req, site, scope) == Err::<ListingQuerySpec, ListingError>(
            ListingError::ContradictingFilters,
        ),
        list_posts_outcome(req, driver) == Err::<PostsPageView, ListingError>(
            ListingError::ContradictingFilters,
        ),
        list_posts_query(req, driver) is None,
{
}

/// On a private instance a caller without a local login gets the empty
/// page, without continuation and without error, whatever filters the
/// request holds, as soon as the site configuration is read and the
/// community that the request names, if any, is resolved. The store is not
/// asked for posts.
pub proof fn law_private_instance_lists_nothing(
    req: ListingRequest,
    driver: spec_fn(ListPostsActionView) -> ListPostsEvent,
    site: SiteConfig,
    scope: Option<CommunityId>,
)
    requires
        req.requester is None,
        site.privacy == PrivacyMode::Private,
        list_posts_scope(req, driver) == Ok::<(SiteConfig, Option<CommunityId>), ListingError>(
            (site, scope),
        ),
    ensures
        list_posts_outcome(req, driver) == Ok::<PostsPageView, ListingError>(empty_page()),
        empty_page().posts.len() == 0,
        empty_page().next_page is None,
        list_posts_query(req, driver) is None,
{
}

/// On a semi-private instance a caller without a local login who names no
/// community gets the empty page.
pub proof fn law_semi_private_unscoped_lists_nothing(
    req: ListingRequest,
    driver: spec_fn(ListPostsActionView) -> ListPostsEvent,
    site: SiteConfig,
)
    requires
        req.requester is None,
        req.community_id is None,
        req.community_name is None,
        site.privacy == PrivacyMode::SemiPrivate,
        driver(ListPostsActionView::ReadSiteConfig) == ListPostsEvent::SiteLoaded(site),
    ensures
        list_posts_outcome(req, driver) == Ok::<PostsPageView, ListingError>(empty_page()),
        list_posts_query(req, driver) is None,
{
}

/// On a semi-private instance a caller without a local login who names a
/// community is answered as on a public instance: with the page that the
/// store returns for the query composed from the request, scoped to that
/// community and with every filter of the request in place.
pub proof fn law_semi_private_scoped_lists(
    req: ListingRequest,
    driver: spec_fn(ListPostsActionView) -> ListPostsEvent,
    site: SiteConfig,
    community: CommunityId,
)
    requires
        site.privacy == PrivacyMode::SemiPrivate,
        list_posts_scope(req, driver) == Ok::<(SiteConfig, Option<CommunityId>), ListingError>(
            (site, Some(community)),
        ),
    ensures
        list_posts_outcome(req, driver) == list_posts_allowed(req, driver, site, Some(community)),
        post_listing_query(req, site, Some(community)) matches Ok(query) ==> list_posts_query(
            req,
            driver,
        ) == Some(query),
        post_listing_query(req, site, Some(community)) == post_listing_query(
            req,
            SiteConfig { privacy: PrivacyMode::Public, ..site },
            Some(community),
        ),
        post_listing_query(req, site, Some(community)) matches Ok(query) ==> {
            &&& query.community_id == Some(community)
            &&& query.saved_only == is_set(req.saved_only)
            &&& query.liked_only == is_set(req.liked_only)
            &&& query.disliked_only == is_set(req.disliked_only)
            &&& query.limit == req.limit
        },
{
}

/// A cursor made under one sort order and sent with a request for another
/// is refused with `InvalidCursor`; no query is composed for it.
pub proof fn law_cursor_of_another_sort_is_refused(
    req: ListingRequest,
    site: SiteConfig,
    scope: Option<CommunityId>,
    cursor: PaginationCursor,
    key: SortKey,
)
    requires
        !(is_set(req.liked_only) && is_set(req.disliked_only)),
        req.page_cursor == Some(cursor),
        cursor@ == cursor_token(key),
        key.sort != effective_sort_of(req.sort),
    ensures
        post_listing_query(req, site, scope) == Err::<ListingQuerySpec, ListingError>(
            ListingError::InvalidCursor,
        ),
{
    lemma_decode_other_sort(key, effective_sort_of(req.sort));
}

/// A page has a continuation if and only if it holds an item, and the
/// continuation stands for its last item. A request that carries it, under
/// the same sort order, asks the store for what comes after that item, and
/// for no page number.
pub proof fn law_continuation_resumes_after_last_item(
    req: ListingRequest,
    site: SiteConfig,
    scope: Option<CommunityId>,
    items: Seq<ListedItem>,
    cursor: PaginationCursor,
)
    requires
        !(is_set(req.liked_only) && is_set(req.disliked_only)),
        req.page_cursor == Some(cursor),
        page_of(items, effective_sort_of(req.sort)).next_page == Some(cursor@),
    ensures
        items.len() > 0,
        post_listing_query(req, site, scope) matches Ok(query) && query.page is None
            && query.page_after == Some(key_of_item(items.last(), effective_sort_of(req.sort))),
{
    lemma_decode_encode(key_of_item(items.last(), effective_sort_of(req.sort)));
}

/// A filtered listing cannot be told from a listing without content: both
/// are the empty page, and `page_of` gives a continuation exactly for the
/// pages that hold an item.
pub proof fn law_empty_page(items: Seq<ListedItem>, sort: SortType)
    ensures
        page_of(Seq::empty(), sort) == empty_page(),
        page_of(items, sort).posts == items,
        page_of(items, sort).next_page is Some <==> items.len() > 0,
{
}

} // verus!
