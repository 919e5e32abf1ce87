//! What holds of every profile request, whatever the store and the
//! resolver answer.

use vstd::prelude::*;
use crate::identity::ActorIdentifier;
use crate::privacy::{privacy_decision, PrivacyDecision};
use crate::profile::{
    assembled_profile, bare_profile, read_person_step, ProfileResultView, ReadPersonActionView,
    ReadPersonEvent, ReadPersonState,
};
use crate::query::{
    profile_comment_query, profile_creator, profile_moderation_query, profile_post_query,
    ContentKind, ListingQuerySpec, QuerySort,
};
use crate::request::{is_set, ProfileRequest};
use crate::sort::{comment_sort_for, effective_sort_of};
use crate::types::{
    ListedItem, ListingError, ModeratorRole, PersonId, PersonSummary, PrivacyMode, SiteConfig,
};

verus! {

/// The reply that the flow gives when `driver` answers its actions, if it
/// gives one within `steps` actions after the step on `event`.
pub open spec fn read_person_run(
    req: ProfileRequest,
    driver: spec_fn(ReadPersonActionView) -> ReadPersonEvent,
    state: ReadPersonState,
    event: ReadPersonEvent,
    steps: nat,
) -> Option<Result<ProfileResultView, ListingError>>
    decreases steps,
{
    let (next, action) = read_person_step(req, state, event);
    match action {
        ReadPersonActionView::Reply(reply) => Some(reply),
        _ => if steps == 0 {
            None
        } else {
            read_person_run(req, driver, next, driver(action), (steps - 1) as nat)
        },
    }
}

/// The person whose profile is read, as the request names it or the
/// resolver finds it.
pub open spec fn read_person_target(
    req: ProfileRequest,
    driver: spec_fn(ReadPersonActionView) -> ReadPersonEvent,
) -> Result<PersonId, ListingError> {
    match req.person_identifier() {
        None => Err(ListingError::NoIdGiven),
        Some(ActorIdentifier::ById(id)) => Ok(PersonId(id)),
        Some(ActorIdentifier::ByName(name)) => match driver(
            ReadPersonActionView::ResolvePerson {
                identifier: ActorIdentifier::ByName(name),
                requester: req.requester,
                allow_remote_fetch: true,
            },
        ) {
            ReadPersonEvent::PersonResolved(person) => Ok(person),
            ReadPersonEvent::PersonNotFound => Err(ListingError::CouldntFindPerson),
            _ => Err(ListingError::UnexpectedEvent),
        },
    }
}

/// The summary of `person`, as the store returns it.
pub open spec fn read_person_loaded(
    driver: spec_fn(ReadPersonActionView) -> ReadPersonEvent,
    person: PersonId,
) -> Result<PersonSummary, ListingError> {
    match driver(ReadPersonActionView::ReadPersonSummary(person)) {
        ReadPersonEvent::SummaryLoaded(summary) => Ok(summary),
        ReadPersonEvent::SummaryUnavailable => Err(ListingError::StoreUnavailable),
        _ => Err(ListingError::UnexpectedEvent),
    }
}

/// The reply owed to a request that passed the privacy filter: the profile
/// made of what the three content reads return.
pub open spec fn read_person_allowed(
    req: ProfileRequest,
    driver: spec_fn(ReadPersonActionView) -> ReadPersonEvent,
    person: PersonId,
    summary: PersonSummary,
) -> Result<ProfileResultView, ListingError> {
    match driver(
        ReadPersonActionView::FanOut {
            posts: profile_post_query(req, person),
            comments: profile_comment_query(req, person),
            moderation: profile_moderation_query(req, person),
        },
    ) {
        ReadPersonEvent::ContentLoaded { posts, comments, moderates } => assembled_profile(
            summary,
            posts,
            comments,
            moderates,
        ),
        _ => Err(ListingError::UnexpectedEvent),
    }
}

/// The reply owed to `req` when `driver` answers the reads.
pub open spec fn read_person_outcome(
    req: ProfileRequest,
    driver: spec_fn(ReadPersonActionView) -> ReadPersonEvent,
) -> Result<ProfileResultView, ListingError> {
    if req.person_identifier() is None {
        Err(ListingError::NoIdGiven)
    } else {
        match driver(ReadPersonActionView::ReadSiteConfig) {
            ReadPersonEvent::SiteLoaded(site) => match read_person_target(req, driver) {
                Err(e) => Err(e),
                Ok(person) => match read_person_loaded(driver, person) {
                    Err(e) => Err(e),
                    Ok(summary) => match privacy_decision(
                        req.requester,
                        site.privacy,
                        req.community_id,
                    ) {
                        PrivacyDecision::SilentlyEmpty => Ok(bare_profile(summary)),
                        PrivacyDecision::Allow => read_person_allowed(req, driver, person, summary),
                    },
                },
            },
            ReadPersonEvent::SiteUnavailable => Err(ListingError::StoreUnavailable),
            _ => Err(ListingError::UnexpectedEvent),
        }
    }
}

/// Whether the flow hands the three content queries to the store when
/// `driver` answers its actions, within `steps` actions after the step on
/// `event`.
pub open spec fn read_person_fans_out(
    req: ProfileRequest,
    driver: spec_fn(ReadPersonActionView) -> ReadPersonEvent,
    state: ReadPersonState,
    event: ReadPersonEvent,
    steps: nat,
) -> bool
    decreases steps,
{
    let (next, action) = read_person_step(req, state, event);
    match action {
        ReadPersonActionView::Reply(_) => false,
        ReadPersonActionView::FanOut { .. } => true,
        _ => if steps == 0 {
            false
        } else {
            read_person_fans_out(req, driver, next, driver(action), (steps - 1) as nat)
        },
    }
}

/// Whether content is owed to `req`: the site configuration is read, the
/// person found, the summary read, and the privacy filter passed.
pub open spec fn read_person_shows_content(
    req: ProfileRequest,
    driver: spec_fn(ReadPersonActionView) -> ReadPersonEvent,
) -> bool {
    &&& driver(ReadPersonActionView::ReadSiteConfig) matches ReadPersonEvent::SiteLoaded(site)
    &&& read_person_target(req, driver) matches Ok(person)
    &&& read_person_loaded(driver, person) is Ok
    &&& privacy_decision(req.requester, site.privacy, req.community_id) == PrivacyDecision::Allow
}

/// Whatever is read, the flow replies after at most four reads, and its
/// reply is `read_person_outcome`.
pub proof fn law_read_person_replies(
    req: ProfileRequest,
    driver: spec_fn(ReadPersonActionView) -> ReadPersonEvent,
)
    ensures
        read_person_run(req, driver, ReadPersonState::Start, ReadPersonEvent::Begin, 4) == Some(
            read_person_outcome(req, driver),
        ),
        read_person_fans_out(req, driver, ReadPersonState::Start, ReadPersonEvent::Begin, 4)
            == read_person_shows_content(req, driver),
{
    reveal_with_fuel(read_person_run, 5);
    reveal_with_fuel(read_person_fans_out, 5);
}

/// The store is asked for content at most once, with well-formed queries:
/// a post query and a comment query that carries no cursor. Whatever the
/// store answers ends the flow.
pub proof fn law_one_well_formed_fan_out(
    req: ProfileRequest,
    state: ReadPersonState,
    event: ReadPersonEvent,
    summary: PersonSummary,
)
    ensures
        read_person_step(req, state, event).1 matches ReadPersonActionView::FanOut {
            posts,
            comments,
            moderation,
        } ==> {
            &&& posts.well_formed()
            &&& posts.content_kind() == ContentKind::Posts
            &&& comments.well_formed()
            &&& comments.content_kind() == ContentKind::Comments
            &&& comments.page_after is None
            &&& read_person_step(req, state, event).0 is AwaitingContent
        },
        read_person_step(req, ReadPersonState::AwaitingContent { summary }, event).1 is Reply,
        read_person_step(req, ReadPersonState::Done, event).1 is Reply,
{
}

/// A request that names neither a person id nor a username is refused with
/// `NoIdGiven` at the first step, before anything is read.
pub proof fn law_no_id_given(
    req: ProfileRequest,
    driver: spec_fn(ReadPersonActionView) -> ReadPersonEvent,
)
    requires
        req.person_id is None,
        req.username is None,
    ensures
        read_person_step(req, ReadPersonState::Start, ReadPersonEvent::Begin).1
            == ReadPersonActionView::Reply(Err(ListingError::NoIdGiven)),
        read_person_run(req, driver, ReadPersonState::Start, ReadPersonEvent::Begin, 0) == Some(
            Err::<ProfileResultView, ListingError>(ListingError::NoIdGiven),
        ),
        read_person_outcome(req, driver) == Err::<ProfileResultView, ListingError>(
            ListingError::NoIdGiven,
        ),
{
}

/// On a private instance a caller without a local login gets the summary
/// of the person and three empty lists, without error, whatever filters
/// the request holds, as soon as the person is found and the summary read.
/// The store is not asked for content.
pub proof fn law_private_instance_shows_summary_only(
    req: ProfileRequest,
    driver: spec_fn(ReadPersonActionView) -> ReadPersonEvent,
    site: SiteConfig,
    person: PersonId,
    summary: PersonSummary,
)
    requires
        req.requester is None,
        site.privacy == PrivacyMode::Private,
        driver(ReadPersonActionView::ReadSiteConfig) == ReadPersonEvent::SiteLoaded(site),
        read_person_target(req, driver) == Ok::<PersonId, ListingError>(person),
        read_person_loaded(driver, person) == Ok::<PersonSummary, ListingError>(summary),
    ensures
        read_person_outcome(req, driver) == Ok::<ProfileResultView, ListingError>(
            bare_profile(summary),
        ),
        bare_profile(summary).posts.len() == 0,
        bare_profile(summary).comments.len() == 0,
        bare_profile(summary).moderates.len() == 0,
        !read_person_shows_content(req, driver),
{
}

/// On a semi-private instance a caller without a local login gets the
/// summary alone if the request names no community, and the profile that
/// the store returns for that community if it names one.
pub proof fn law_semi_private_profile(
    req: ProfileRequest,
    driver: spec_fn(ReadPersonActionView) -> ReadPersonEvent,
    site: SiteConfig,
    person: PersonId,
    summary: PersonSummary,
)
    requires
        req.requester is None,
        site.privacy == PrivacyMode::SemiPrivate,
        driver(ReadPersonActionView::ReadSiteConfig) == ReadPersonEvent::SiteLoaded(site),
        read_person_target(req, driver) == Ok::<PersonId, ListingError>(person),
        read_person_loaded(driver, person) == Ok::<PersonSummary, ListingError>(summary),
    ensures
        req.community_id is None ==> read_person_outcome(req, driver) == Ok::<
            ProfileResultView,
            ListingError,
        >(bare_profile(summary)),
        req.community_id is Some ==> read_person_outcome(req, driver) == read_person_allowed(
            req,
            driver,
            person,
            summary,
        ),
{
}

/// The three queries of a profile share scope, filters and pagination: the
/// comment query is the post query in the comment vocabulary, saved items
/// are listed whoever made them, and anything else only if the person made
/// it.
pub proof fn law_profile_queries_agree(req: ProfileRequest, person: PersonId)
    ensures
        profile_post_query(req, person).sort == QuerySort::Posts(effective_sort_of(req.sort)),
        profile_comment_query(req, person).sort == QuerySort::Comments(
            comment_sort_for(effective_sort_of(req.sort)),
        ),
        profile_comment_query(req, person) == (ListingQuerySpec {
            sort: profile_comment_query(req, person).sort,
            ..profile_post_query(req, person)
        }),
        profile_post_query(req, person).creator_id == profile_creator(
            is_set(req.saved_only),
            person,
        ),
        is_set(req.saved_only) ==> profile_post_query(req, person).creator_id is None,
        !is_set(req.saved_only) ==> profile_post_query(req, person).creator_id == Some(person),
        profile_post_query(req, person).community_id == req.community_id,
        profile_moderation_query(req, person).community_id == req.community_id,
        profile_moderation_query(req, person).person_id == person,
        profile_post_query(req, person).well_formed(),
        profile_comment_query(req, person).well_formed(),
{
}

/// A profile is complete or absent: it is handed out only if all three
/// content reads succeeded, and then holds exactly what they returned. A
/// person without content gets three empty lists, as a filtered request
/// does.
pub proof fn law_profile_is_whole(
    summary: PersonSummary,
    posts: Option<Vec<ListedItem>>,
    comments: Option<Vec<ListedItem>>,
    moderates: Option<Vec<ModeratorRole>>,
)
    ensures
        assembled_profile(summary, posts, comments, moderates) is Ok <==> (posts is Some
            && comments is Some && moderates is Some),
        assembled_profile(summary, posts, comments, moderates) matches Ok(profile) ==> {
            &&& profile.person == summary
            &&& profile.posts == posts->0@
            &&& profile.comments == comments->0@
            &&& profile.moderates == moderates->0@
        },
        assembled_profile(summary, posts, comments, moderates) is Err ==> assembled_profile(
            summary,
            posts,
            comments,
            moderates,
        ) == Err::<ProfileResultView, ListingError>(ListingError::StoreUnavailable),
        (posts matches Some(p) && comments matches Some(c) && moderates matches Some(m)
            && p@.len() == 0 && c@.len() == 0 && m@.len() == 0) ==> assembled_profile(
            summary,
            posts,
            comments,
            moderates,
        ) == Ok::<ProfileResultView, ListingError>(bare_profile(summary)),
{
    if posts is Some && comments is Some && moderates is Some {
        let profile = assembled_profile(summary, posts, comments, moderates)->Ok_0;
        if posts->0@.len() == 0 && comments->0@.len() == 0 && moderates->0@.len() == 0 {
            assert(profile.posts =~= Seq::empty());
            assert(profile.comments =~= Seq::empty());
            assert(profile.moderates =~= Seq::empty());
        }
    }
}

} // verus!
