use listing_gateway::cursor::{PaginationCursor, SortKey};
use listing_gateway::identity::ActorIdentifier;
use listing_gateway::listing::{
    list_posts, ListPostsAction, ListPostsEvent, ListPostsState, PostsPage,
};
use listing_gateway::query::{ListingQuerySpec, QuerySort};
use listing_gateway::request::ListingRequest;
use listing_gateway::types::{
    CommunityId, ListedItem, ListingError, ListingType, PersonId, PrivacyMode, SiteConfig, SortType,
};

/// A store and a resolver held in memory. Posts are kept in listing order:
/// highest rank first, and among equal ranks highest id first.
struct Instance {
    site: Option<SiteConfig>,
    communities: Vec<(String, CommunityId)>,
    posts: Vec<(CommunityId, ListedItem)>,
    posts_readable: bool,
    page_size: usize,
    reads: Vec<String>,
    queries: Vec<ListingQuerySpec>,
}

fn instance(privacy: PrivacyMode) -> Instance {
    let ranks: Vec<(i32, i64)> =
        vec![(8, 50), (7, 40), (6, 40), (5, 40), (4, 30), (3, 20), (2, 20), (1, 10)];
    Instance {
        site: Some(SiteConfig { privacy, default_post_listing_type: ListingType::Local }),
        communities: vec![("rust".to_string(), CommunityId(1)), ("verus".to_string(), CommunityId(2))],
        posts: ranks
            .into_iter()
            .map(|(id, rank)| (CommunityId(1 + id % 2), ListedItem { id, rank }))
            .collect(),
        posts_readable: true,
        page_size: 3,
        reads: Vec::new(),
        queries: Vec::new(),
    }
}

fn comes_after(item: &ListedItem, key: &SortKey) -> bool {
    item.rank < key.rank || (item.rank == key.rank && item.id < key.id)
}

fn answer(world: &mut Instance, action: ListPostsAction) -> Result<ListPostsEvent, Result<PostsPage, ListingError>> {
    match action {
        ListPostsAction::ReadSiteConfig => {
            world.reads.push("site".to_string());
            Ok(match world.site {
                Some(site) => ListPostsEvent::SiteLoaded(site),
                None => ListPostsEvent::SiteUnavailable,
            })
        }
        ListPostsAction::ResolveCommunity { identifier, requester, allow_remote_fetch } => {
            assert!(allow_remote_fetch);
            assert_eq!(requester, None);
            let name = match identifier {
                ActorIdentifier::ByName(name) => name,
                ActorIdentifier::ById(_) => panic!("ids are not sent to the resolver"),
            };
            world.reads.push(format!("resolve {}", name));
            Ok(match world.communities.iter().find(|(known, _)| *known == name) {
                Some((_, id)) => ListPostsEvent::CommunityResolved(*id),
                None => ListPostsEvent::CommunityNotFound,
            })
        }
        ListPostsAction::RunQuery(query) => {
            world.reads.push("posts".to_string());
            world.queries.push(query);
            if !world.posts_readable {
                return Ok(ListPostsEvent::PostsUnavailable);
            }
            let limit = query.limit.map(|l| l as usize).unwrap_or(world.page_size);
            let page: Vec<ListedItem> = world
                .posts
                .iter()
                .filter(|(community, _)| query.community_id.map_or(true, |scope| scope == *community))
                .map(|(_, item)| *item)
                .filter(|item| query.page_after.map_or(true, |key| comes_after(item, &key)))
                .take(limit)
                .collect();
            Ok(ListPostsEvent::PostsLoaded(page))
        }
        ListPostsAction::Reply(reply) => Err(reply),
    }
}

fn drive(req: &ListingRequest, world: &mut Instance) -> Result<PostsPage, ListingError> {
    let mut state = ListPostsState::Start;
    let mut event = ListPostsEvent::Begin;
    loop {
        let (next, action) = list_posts(req, state, event);
        state = next;
        event = match answer(world, action) {
            Ok(event) => event,
            Err(reply) => {
                assert_eq!(state, ListPostsState::Done);
                return reply;
            }
        };
    }
}

fn anonymous() -> ListingRequest {
    ListingRequest {
        requester: None,
        type_: None,
        sort: Some(SortType::TopAll),
        page: None,
        limit: None,
        community_id: None,
        community_name: None,
        saved_only: None,
        liked_only: None,
        disliked_only: None,
        page_cursor: None,
    }
}

fn ids(page: &PostsPage) -> Vec<i32> {
    page.posts.iter().map(|item| item.id).collect()
}

#[test]
fn first_step_asks_for_the_site_configuration() {
    let (state, action) = list_posts(&anonymous(), ListPostsState::Start, ListPostsEvent::Begin);
    assert_eq!(state, ListPostsState::AwaitingSite);
    assert_eq!(action, ListPostsAction::ReadSiteConfig);
}

#[test]
fn unscoped_listing_goes_from_site_to_query() {
    let site = SiteConfig { privacy: PrivacyMode::Public, default_post_listing_type: ListingType::All };
    let (state, action) =
        list_posts(&anonymous(), ListPostsState::AwaitingSite, ListPostsEvent::SiteLoaded(site));
    assert_eq!(state, ListPostsState::AwaitingPosts { sort: SortType::TopAll });
    assert_eq!(
        action,
        ListPostsAction::RunQuery(ListingQuerySpec {
            sort: QuerySort::Posts(SortType::TopAll),
            listing_type: Some(ListingType::All),
            community_id: None,
            creator_id: None,
            requester: None,
            saved_only: false,
            liked_only: false,
            disliked_only: false,
            profile_view: false,
            page: None,
            limit: None,
            page_after: None,
        })
    );
}

#[test]
fn named_community_is_resolved_once_with_remote_fetch() {
    let req = ListingRequest {
        requester: Some(PersonId(3)),
        community_id: Some(CommunityId(2)),
        community_name: Some("rust".to_string()),
        ..anonymous()
    };
    let site = SiteConfig { privacy: PrivacyMode::Public, default_post_listing_type: ListingType::All };
    let (state, action) = list_posts(&req, ListPostsState::AwaitingSite, ListPostsEvent::SiteLoaded(site));
    assert_eq!(state, ListPostsState::AwaitingCommunity { site });
    assert_eq!(
        action,
        ListPostsAction::ResolveCommunity {
            identifier: ActorIdentifier::ByName("rust".to_string()),
            requester: None,
            allow_remote_fetch: true,
        }
    );
    let mut world = instance(PrivacyMode::Public);
    let page = drive(&req, &mut world).unwrap();
    assert_eq!(world.reads, vec!["site", "resolve rust", "posts"]);
    assert_eq!(world.queries[0].community_id, Some(CommunityId(1)));
    assert_eq!(ids(&page), vec![8, 6, 4]);
}

#[test]
fn community_id_scopes_without_the_resolver() {
    let req = ListingRequest { community_id: Some(CommunityId(2)), ..anonymous() };
    let mut world = instance(PrivacyMode::Public);
    let page = drive(&req, &mut world).unwrap();
    assert_eq!(world.reads, vec!["site", "posts"]);
    assert_eq!(world.queries[0].community_id, Some(CommunityId(2)));
    assert_eq!(world.queries[0].listing_type, Some(ListingType::All));
    assert_eq!(ids(&page), vec![7, 5, 3]);
}

#[test]
fn unknown_community_is_not_found() {
    let req = ListingRequest { community_name: Some("nowhere@far.example".to_string()), ..anonymous() };
    let mut world = instance(PrivacyMode::Public);
    assert_eq!(drive(&req, &mut world), Err(ListingError::CouldntFindCommunity));
    assert_eq!(world.reads, vec!["site", "resolve nowhere@far.example"]);
}

#[test]
fn unreadable_site_configuration_fails_the_request() {
    let mut world = instance(PrivacyMode::Public);
    world.site = None;
    assert_eq!(drive(&anonymous(), &mut world), Err(ListingError::StoreUnavailable));
    assert_eq!(world.reads, vec!["site"]);
}

#[test]
fn failing_post_query_is_reported_as_couldnt_get_posts() {
    let mut world = instance(PrivacyMode::Public);
    world.posts_readable = false;
    assert_eq!(drive(&anonymous(), &mut world), Err(ListingError::CouldntGetPosts));
}

#[test]
fn contradicting_filters_are_refused_before_the_store_is_asked_for_posts() {
    let bases = vec![
        anonymous(),
        ListingRequest { requester: Some(PersonId(3)), ..anonymous() },
        ListingRequest { community_id: Some(CommunityId(1)), page: Some(2), ..anonymous() },
        ListingRequest { community_name: Some("verus".to_string()), saved_only: Some(true), ..anonymous() },
        ListingRequest { page_cursor: Some(PaginationCursor(b"broken".to_vec())), ..anonymous() },
    ];
    for base in bases {
        let req = ListingRequest { liked_only: Some(true), disliked_only: Some(true), ..base };
        let mut world = instance(PrivacyMode::Public);
        assert_eq!(drive(&req, &mut world), Err(ListingError::ContradictingFilters));
        assert!(world.queries.is_empty());
    }
}

#[test]
fn private_instance_answers_outsiders_with_the_empty_page() {
    let requests = vec![
        anonymous(),
        ListingRequest { type_: Some(ListingType::All), sort: Some(SortType::New), ..anonymous() },
        ListingRequest { community_id: Some(CommunityId(1)), limit: Some(50), ..anonymous() },
        ListingRequest { community_name: Some("rust".to_string()), page: Some(2), ..anonymous() },
        ListingRequest { saved_only: Some(true), liked_only: Some(true), ..anonymous() },
        ListingRequest {
            page_cursor: Some(PaginationCursor::encode(&SortKey { sort: SortType::TopAll, rank: 40, id: 6 })),
            ..anonymous()
        },
    ];
    for req in requests {
        let mut world = instance(PrivacyMode::Private);
        let page = drive(&req, &mut world).unwrap();
        assert_eq!(page, PostsPage { posts: vec![], next_page: None });
        assert!(world.queries.is_empty());
    }
}

#[test]
fn private_instance_lists_for_local_users() {
    let req = ListingRequest { requester: Some(PersonId(3)), ..anonymous() };
    let mut world = instance(PrivacyMode::Private);
    let page = drive(&req, &mut world).unwrap();
    assert_eq!(ids(&page), vec![8, 7, 6]);
    assert_eq!(world.queries[0].requester, Some(PersonId(3)));
}

#[test]
fn filtered_page_equals_a_page_without_content() {
    let mut silent = instance(PrivacyMode::Private);
    let mut vacant = instance(PrivacyMode::Public);
    vacant.posts.clear();
    let filtered = drive(&anonymous(), &mut silent);
    let vacant_page = drive(&anonymous(), &mut vacant);
    assert_eq!(filtered, vacant_page);
    assert_eq!(silent.reads, vec!["site"]);
    assert_eq!(vacant.reads, vec!["site", "posts"]);
}

#[test]
fn semi_private_instance_lists_nothing_without_a_community() {
    let mut world = instance(PrivacyMode::SemiPrivate);
    let page = drive(&anonymous(), &mut world).unwrap();
    assert_eq!(page, PostsPage { posts: vec![], next_page: None });
    assert!(world.queries.is_empty());
}

#[test]
fn semi_private_instance_lists_the_named_community() {
    let req = ListingRequest { community_id: Some(CommunityId(2)), limit: Some(2), ..anonymous() };
    let mut world = instance(PrivacyMode::SemiPrivate);
    let page = drive(&req, &mut world).unwrap();
    assert_eq!(ids(&page), vec![7, 5]);
    assert_eq!(
        page.next_page,
        Some(PaginationCursor::encode(&SortKey { sort: SortType::TopAll, rank: 40, id: 5 }))
    );
    assert_eq!(world.queries[0].community_id, Some(CommunityId(2)));
    assert_eq!(world.queries[0].limit, Some(2));

    let by_name = ListingRequest { community_name: Some("verus".to_string()), ..anonymous() };
    let mut world = instance(PrivacyMode::SemiPrivate);
    assert_eq!(ids(&drive(&by_name, &mut world).unwrap()), vec![7, 5, 3]);
}

#[test]
fn semi_private_instance_still_refuses_contradicting_filters_in_a_named_community() {
    let req = ListingRequest {
        community_id: Some(CommunityId(2)),
        liked_only: Some(true),
        disliked_only: Some(true),
        ..anonymous()
    };
    let mut world = instance(PrivacyMode::SemiPrivate);
    assert_eq!(drive(&req, &mut world), Err(ListingError::ContradictingFilters));
}

#[test]
fn pages_follow_each_other_without_gap_or_repetition() {
    let mut world = instance(PrivacyMode::Public);
    let everything: Vec<i32> = world.posts.iter().map(|(_, item)| item.id).collect();
    let mut seen: Vec<i32> = Vec::new();
    let mut sizes: Vec<usize> = Vec::new();
    let mut cursor: Option<PaginationCursor> = None;
    loop {
        let req = ListingRequest { page_cursor: cursor.clone(), ..anonymous() };
        let page = drive(&req, &mut world).unwrap();
        sizes.push(page.posts.len());
        for id in ids(&page) {
            assert!(!seen.contains(&id));
            seen.push(id);
        }
        match page.posts.last() {
            Some(last) => {
                assert_eq!(page.next_page, Some(PaginationCursor::after_post(last, SortType::TopAll)));
            }
            None => {
                assert_eq!(page.next_page, None);
                break;
            }
        }
        cursor = page.next_page;
    }
    assert_eq!(sizes, vec![3, 3, 2, 0]);
    assert_eq!(seen, everything);
    assert_eq!(world.queries[0].page_after, None);
    assert_eq!(world.queries[1].page_after, Some(SortKey { sort: SortType::TopAll, rank: 40, id: 6 }));
    assert_eq!(world.queries[2].page_after, Some(SortKey { sort: SortType::TopAll, rank: 20, id: 3 }));
    assert_eq!(world.queries[3].page_after, Some(SortKey { sort: SortType::TopAll, rank: 10, id: 1 }));
}

#[test]
fn cursor_of_one_sort_order_is_refused_under_another() {
    let mut world = instance(PrivacyMode::Public);
    let first = drive(&anonymous(), &mut world).unwrap();
    let req = ListingRequest { sort: Some(SortType::New), page_cursor: first.next_page, ..anonymous() };
    assert_eq!(drive(&req, &mut world), Err(ListingError::InvalidCursor));
    assert_eq!(world.queries.len(), 1);
}

#[test]
fn malformed_cursor_fails_the_request() {
    let req = ListingRequest { page_cursor: Some(PaginationCursor(b"P2a".to_vec())), ..anonymous() };
    let mut world = instance(PrivacyMode::Public);
    assert_eq!(drive(&req, &mut world), Err(ListingError::InvalidCursor));
    assert!(world.queries.is_empty());
}

#[test]
fn empty_page_from_the_store_ends_the_listing() {
    let (state, action) = list_posts(
        &anonymous(),
        ListPostsState::AwaitingPosts { sort: SortType::TopAll },
        ListPostsEvent::PostsLoaded(vec![]),
    );
    assert_eq!(state, ListPostsState::Done);
    assert_eq!(action, ListPostsAction::Reply(Ok(PostsPage { posts: vec![], next_page: None })));
}

#[test]
fn continuation_stands_for_the_last_item_of_the_page() {
    let items = vec![ListedItem { id: 4, rank: 9 }, ListedItem { id: 2, rank: 9 }];
    let (_, action) = list_posts(
        &anonymous(),
        ListPostsState::AwaitingPosts { sort: SortType::New },
        ListPostsEvent::PostsLoaded(items.clone()),
    );
    assert_eq!(
        action,
        ListPostsAction::Reply(Ok(PostsPage {
            posts: items,
            next_page: Some(PaginationCursor(b"P02800000000000000980000002".to_vec())),
        }))
    );
    assert_eq!(PostsPage::empty(), PostsPage { posts: vec![], next_page: None });
    assert_eq!(PostsPage::of_items(vec![], SortType::New), PostsPage::empty());
}

#[test]
fn events_out_of_turn_end_the_flow() {
    let site = SiteConfig { privacy: PrivacyMode::Public, default_post_listing_type: ListingType::All };
    let unexpected = ListPostsAction::Reply(Err(ListingError::UnexpectedEvent));
    let cases = vec![
        (ListPostsState::Start, ListPostsEvent::SiteLoaded(site)),
        (ListPostsState::AwaitingSite, ListPostsEvent::Begin),
        (ListPostsState::AwaitingSite, ListPostsEvent::PostsLoaded(vec![])),
        (ListPostsState::AwaitingCommunity { site }, ListPostsEvent::SiteLoaded(site)),
        (ListPostsState::AwaitingPosts { sort: SortType::Hot }, ListPostsEvent::CommunityNotFound),
        (ListPostsState::Done, ListPostsEvent::Begin),
        (ListPostsState::Done, ListPostsEvent::PostsUnavailable),
    ];
    for (state, event) in cases {
        assert_eq!(list_posts(&anonymous(), state, event), (ListPostsState::Done, unexpected_reply()));
    }
    assert_eq!(unexpected, unexpected_reply());
}

fn unexpected_reply() -> ListPostsAction {
    ListPostsAction::Reply(Err(ListingError::UnexpectedEvent))
}
