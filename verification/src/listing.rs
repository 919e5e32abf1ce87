//! Listing posts: the decisions between the reads that answer a
//! `ListingRequest`.
//!
//! The caller drives the flow. It hands `list_posts` the state it holds and
//! the event that answers the action it was last given, performs the action
//! that comes back, and goes on until the action is a reply. Site
//! configuration and actor resolution are read anew for every request.
//!
//! A community that the request names by handle is resolved before the
//! privacy filter is asked. A handle that does not resolve is therefore
//! reported as not found even to a caller who would have been shown the
//! empty page, and such a caller can tell a community that resolves from
//! one that does not. Filter and resolution are separate steps, so that
//! their order can be changed in `list_posts_step` alone.

use vstd::prelude::*;
use crate::cursor::{cursor_token, key_of_item, PaginationCursor};
use crate::identity::ActorIdentifier;
use crate::privacy::{evaluate, privacy_decision, PrivacyDecision};
use crate::query::{compose_post_listing, post_listing_query, ListingQuerySpec};
use crate::request::ListingRequest;
use crate::sort::{effective_sort, effective_sort_of};
use crate::types::{CommunityId, ListedItem, ListingError, PersonId, SiteConfig, SortType};

verus! {

/// One page of a post listing.
#[derive(Clone, Debug, PartialEq, Eq)]
pub struct PostsPage {
    pub posts: Vec<ListedItem>,
    /// Cursor of the page after this one; `None` after the last page.
    pub next_page: Option<PaginationCursor>,
}

/// What a `PostsPage` holds.
pub struct PostsPageView {
    pub posts: Seq<ListedItem>,
    pub next_page: Option<Seq<u8>>,
}

impl View for PostsPage {
    type V = PostsPageView;

    open spec fn view(&self) -> PostsPageView {
        PostsPageView {
            posts: self.posts@,
            next_page: match self.next_page {
                Some(cursor) => Some(cursor@),
                None => None,
            },
        }
    }
}

/// The page without posts and without continuation.
pub open spec fn empty_page() -> PostsPageView {
    PostsPageView { posts: Seq::empty(), next_page: None }
}

/// The page made of what the store returned for a listing sorted by
/// `sort`: the items as they came, and a cursor that stands for the last of
/// them if there is one.
pub open spec fn page_of(items: Seq<ListedItem>, sort: SortType) -> PostsPageView {
    PostsPageView {
        posts: items,
        next_page: if items.len() == 0 {
            None
        } else {
            Some(cursor_token(key_of_item(items.last(), sort)))
        },
    }
}

impl PostsPage {
    /// The page without posts and without continuation.
    pub fn empty() -> (page: PostsPage)
        ensures
            page@ == empty_page(),
    {
        PostsPage { posts: Vec::new(), next_page: None }
    }

    /// Wraps what the store returned for a listing sorted by `sort` into a
    /// page, deriving the continuation from the last item.
    pub fn of_items(posts: Vec<ListedItem>, sort: SortType) -> (page: PostsPage)
        ensures
            page@ == page_of(posts@, sort),
    {
        let next_page = if posts.len() == 0 {
            None
        } else {
            Some(PaginationCursor::after_post(&posts[posts.len() - 1], sort))
        };
        PostsPage { posts, next_page }
    }
}

/// Where a listing request stands between two reads.
#[derive(Clone, Copy, Debug, PartialEq, Eq, Structural)]
pub enum ListPostsState {
    /// Nothing has been read yet.
    Start,
    /// The site configuration was asked for.
    AwaitingSite,
    /// The community named by the request is being resolved.
    AwaitingCommunity { site: SiteConfig },
    /// The listing query runs; `sort` is the order it runs under.
    AwaitingPosts { sort: SortType },
    /// The reply was given.
    Done,
}

/// What the caller reports back.
#[derive(Clone, Debug, PartialEq, Eq)]
pub enum ListPostsEvent {
    /// The request arrived.
    Begin,
    SiteLoaded(SiteConfig),
    SiteUnavailable,
    CommunityResolved(CommunityId),
    /// The resolver failed, timed out, or knows no such community.
    CommunityNotFound,
    PostsLoaded(Vec<ListedItem>),
    PostsUnavailable,
}

/// What the caller has to do next.
#[derive(Debug, PartialEq, Eq)]
pub enum ListPostsAction {
    /// Read the local site's configuration from the store.
    ReadSiteConfig,
    /// Resolve a community through the resolver, once, on behalf of
    /// `requester`.
    ResolveCommunity {
        identifier: ActorIdentifier,
        requester: Option<PersonId>,
        allow_remote_fetch: bool,
    },
    /// Run the listing query against the store.
    RunQuery(ListingQuerySpec),
    /// Answer the request; the flow is over.
    Reply(Result<PostsPage, ListingError>),
}

/// What a `ListPostsAction` holds.
pub enum ListPostsActionView {
    ReadSiteConfig,
    ResolveCommunity {
        identifier: ActorIdentifier,
        requester: Option<PersonId>,
        allow_remote_fetch: bool,
    },
    RunQuery(ListingQuerySpec),
    Reply(Result<PostsPageView, ListingError>),
}

impl View for ListPostsAction {
    type V = ListPostsActionView;

    open spec fn view(&self) -> ListPostsActionView {
        match *self {
            ListPostsAction::ReadSiteConfig => ListPostsActionView::ReadSiteConfig,
            ListPostsAction::ResolveCommunity { identifier, requester, allow_remote_fetch } =>
                ListPostsActionView::ResolveCommunity { identifier, requester, allow_remote_fetch },
            ListPostsAction::RunQuery(query) => ListPostsActionView::RunQuery(query),
            ListPostsAction::Reply(Ok(page)) => ListPostsActionView::Reply(Ok(page@)),
            ListPostsAction::Reply(Err(e)) => ListPostsActionView::Reply(Err(e)),
        }
    }
}

/// The step that ends the flow with `reply`.
pub open spec fn list_posts_reply(reply: Result<PostsPageView, ListingError>) -> (
    ListPostsState,
    ListPostsActionView,
) {
    (ListPostsState::Done, ListPostsActionView::Reply(reply))
}

/// The step taken once the community scope of the listing is known: a
/// filtered request is answered at once with the empty page, a refused one
/// with its error, and any other goes to the store.
pub open spec fn list_posts_scoped(
    req: ListingRequest,
    site: SiteConfig,
    scope: Option<CommunityId>,
) -> (ListPostsState, ListPostsActionView) {
    match privacy_decision(req.requester, site.privacy, scope) {
        PrivacyDecision::SilentlyEmpty => list_posts_reply(Ok(empty_page())),
        PrivacyDecision::Allow => match post_listing_query(req, site, scope) {
            Err(e) => list_posts_reply(Err(e)),
            Ok(query) => (
                ListPostsState::AwaitingPosts { sort: effective_sort_of(req.sort) },
                ListPostsActionView::RunQuery(query),
            ),
        },
    }
}

/// The step of the flow: the state that follows `state` on `event`, and the
/// action that is due.
///
/// A community that the request names by handle is resolved before the
/// privacy filter is asked, without a requester and with remote fetch
/// allowed; one that it names by id is taken as it is. An event that does
/// not answer the action that led to `state` ends the flow with
/// `UnexpectedEvent`.
pub open spec fn list_posts_step(req: ListingRequest, state: ListPostsState, event: ListPostsEvent) -> (
    ListPostsState,
    ListPostsActionView,
) {
    match (state, event) {
        (ListPostsState::Start, ListPostsEvent::Begin) => (
            ListPostsState::AwaitingSite,
            ListPostsActionView::ReadSiteConfig,
        ),
        (ListPostsState::AwaitingSite, ListPostsEvent::SiteLoaded(site)) => match req.scope_identifier() {
            Some(ActorIdentifier::ByName(name)) => (
                ListPostsState::AwaitingCommunity { site },
                ListPostsActionView::ResolveCommunity {
                    identifier: ActorIdentifier::ByName(name),
                    requester: None,
                    allow_remote_fetch: true,
                },
            ),
            Some(ActorIdentifier::ById(id)) => list_posts_scoped(req, site, Some(CommunityId(id))),
            None => list_posts_scoped(req, site, None),
        },
        (ListPostsState::AwaitingSite, ListPostsEvent::SiteUnavailable) => list_posts_reply(
            Err(ListingError::StoreUnavailable),
        ),
        (ListPostsState::AwaitingCommunity { site }, ListPostsEvent::CommunityResolved(id)) =>
            list_posts_scoped(req, site, Some(id)),
        (ListPostsState::AwaitingCommunity { .. }, ListPostsEvent::CommunityNotFound) =>
            list_posts_reply(Err(ListingError::CouldntFindCommunity)),
        (ListPostsState::AwaitingPosts { sort }, ListPostsEvent::PostsLoaded(items)) =>
            list_posts_reply(Ok(page_of(items@, sort))),
        (ListPostsState::AwaitingPosts { .. }, ListPostsEvent::PostsUnavailable) => list_posts_reply(
            Err(ListingError::CouldntGetPosts),
        ),
        _ => list_posts_reply(Err(ListingError::UnexpectedEvent)),
    }
}

fn reply(result: Result<PostsPage, ListingError>) -> (next: (ListPostsState, ListPostsAction))
    ensures
        next.0 == ListPostsState::Done,
        next.1 == ListPostsAction::Reply(result),
{
    (ListPostsState::Done, ListPostsAction::Reply(result))
}

fn scoped(req: &ListingRequest, site: &SiteConfig, scope: Option<CommunityId>) -> (next: (
    ListPostsState,
    ListPostsAction,
))
    ensures
        next.0 == list_posts_scoped(*req, *site, scope).0,
        next.1@ == list_posts_scoped(*req, *site, scope).1,
{
    match evaluate(req.requester, site, scope) {
        PrivacyDecision::SilentlyEmpty => reply(Ok(PostsPage::empty())),
        PrivacyDecision::Allow => match compose_post_listing(req, site, scope) {
            Err(e) => reply(Err(e)),
            Ok(query) => (
                ListPostsState::AwaitingPosts { sort: effective_sort(req.sort) },
                ListPostsAction::RunQuery(query),
            ),
        },
    }
}

/// Takes one step of the flow that answers `req`.
///
/// Start with `ListPostsState::Start` and `ListPostsEvent::Begin`; after
/// that, pass the state that came back and the event that answers the
/// action that came back with it. The flow is over when the action is a
/// `Reply`.
pub fn list_posts(req: &ListingRequest, state: ListPostsState, event: ListPostsEvent) -> (next: (
    ListPostsState,
    ListPostsAction,
))
    ensures
        next.0 == list_posts_step(*req, state, event).0,
        next.1@ == list_posts_step(*req, state, event).1,
{
    match state {
        ListPostsState::Start => match event {
            ListPostsEvent::Begin => (ListPostsState::AwaitingSite, ListPostsAction::ReadSiteConfig),
            _ => reply(Err(ListingError::UnexpectedEvent)),
        },
        ListPostsState::AwaitingSite => match event {
            ListPostsEvent::SiteLoaded(site) => match req.community() {
                Some(ActorIdentifier::ByName(name)) => (
                    ListPostsState::AwaitingCommunity { site },
                    ListPostsAction::ResolveCommunity {
                        identifier: ActorIdentifier::ByName(name),
                        requester: None,
                        allow_remote_fetch: true,
                    },
                ),
                Some(ActorIdentifier::ById(id)) => scoped(req, &site, Some(CommunityId(id))),
                None => scoped(req, &site, None),
            },
            ListPostsEvent::SiteUnavailable => reply(Err(ListingError::StoreUnavailable)),
            _ => reply(Err(ListingError::UnexpectedEvent)),
        },
        ListPostsState::AwaitingCommunity { site } => match event {
            ListPostsEvent::CommunityResolved(id) => scoped(req, &site, Some(id)),
            ListPostsEvent::CommunityNotFound => reply(Err(ListingError::CouldntFindCommunity)),
            _ => reply(Err(ListingError::UnexpectedEvent)),
        },
        ListPostsState::AwaitingPosts { sort } => match event {
            ListPostsEvent::PostsLoaded(items) => reply(Ok(PostsPage::of_items(items, sort))),
            ListPostsEvent::PostsUnavailable => reply(Err(ListingError::CouldntGetPosts)),
            _ => reply(Err(ListingError::UnexpectedEvent)),
        },
        ListPostsState::Done => reply(Err(ListingError::UnexpectedEvent)),
    }
}

} // verus!
