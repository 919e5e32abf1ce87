//! Reading a person's profile: the decisions between the reads that answer
//! a `ProfileRequest`.
//!
//! The caller drives the flow as it drives `list_posts`: it hands
//! `read_person` its state and the event that answers the last action, and
//! performs the action that comes back, until the action is a reply.

use vstd::prelude::*;
use crate::identity::ActorIdentifier;
use crate::privacy::{evaluate, privacy_decision, PrivacyDecision};
use crate::query::{
    compose_profile_comments, compose_profile_moderation, compose_profile_posts,
    profile_comment_query, profile_moderation_query, profile_post_query, ListingQuerySpec,
    ModerationQuery,
};
use crate::request::ProfileRequest;
use crate::types::{ListedItem, ListingError, ModeratorRole, PersonId, PersonSummary, SiteConfig};

verus! {

/// A person's profile: the summary and one list per kind of content. The
/// lists are filtered and paginated independently of each other, under one
/// privacy decision.
#[derive(Clone, Debug, PartialEq, Eq)]
pub struct ProfileResult {
    pub person: PersonSummary,
    pub posts: Vec<ListedItem>,
    pub comments: Vec<ListedItem>,
    pub moderates: Vec<ModeratorRole>,
}

/// What a `ProfileResult` holds.
pub struct ProfileResultView {
    pub person: PersonSummary,
    pub posts: Seq<ListedItem>,
    pub comments: Seq<ListedItem>,
    pub moderates: Seq<ModeratorRole>,
}

impl View for ProfileResult {
    type V = ProfileResultView;

    open spec fn view(&self) -> ProfileResultView {
        ProfileResultView {
            person: self.person,
            posts: self.posts@,
            comments: self.comments@,
            moderates: self.moderates@,
        }
    }
}

/// The profile that shows the summary and nothing else.
pub open spec fn bare_profile(person: PersonSummary) -> ProfileResultView {
    ProfileResultView {
        person,
        posts: Seq::empty(),
        comments: Seq::empty(),
        moderates: Seq::empty(),
    }
}

/// The result of the three content reads of a profile: the profile made of
/// what they returned if all three succeeded, and a failure of the whole
/// request if any of them failed. No partial profile is ever handed out.
pub open spec fn assembled_profile(
    person: PersonSummary,
    posts: Option<Vec<ListedItem>>,
    comments: Option<Vec<ListedItem>>,
    moderates: Option<Vec<ModeratorRole>>,
) -> Result<ProfileResultView, ListingError> {
    match (posts, comments, moderates) {
        (Some(posts), Some(comments), Some(moderates)) => Ok(
            ProfileResultView { person, posts: posts@, comments: comments@, moderates: moderates@ },
        ),
        _ => Err(ListingError::StoreUnavailable),
    }
}

impl ProfileResult {
    /// The profile that shows the summary and nothing else.
    pub fn bare(person: PersonSummary) -> (profile: ProfileResult)
        ensures
            profile@ == bare_profile(person),
    {
        ProfileResult { person, posts: Vec::new(), comments: Vec::new(), moderates: Vec::new() }
    }

    /// Assembles a profile from the summary and the outcome of the three
    /// content reads; `None` stands for a read that failed.
    pub fn assemble(
        person: PersonSummary,
        posts: Option<Vec<ListedItem>>,
        comments: Option<Vec<ListedItem>>,
        moderates: Option<Vec<ModeratorRole>>,
    ) -> (profile: Result<ProfileResult, ListingError>)
        ensures
            match profile {
                Ok(p) => assembled_profile(person, posts, comments, moderates) == Ok::<
                    ProfileResultView,
                    ListingError,
                >(p@),
                Err(e) => assembled_profile(person, posts, comments, moderates) == Err::<
                    ProfileResultView,
                    ListingError,
                >(e),
            },
    {
        match (posts, comments, moderates) {
            (Some(posts), Some(comments), Some(moderates)) => Ok(
                ProfileResult { person, posts, comments, moderates },
            ),
            _ => Err(ListingError::StoreUnavailable),
        }
    }
}

/// Where a profile request stands between two reads.
#[derive(Clone, Copy, Debug, PartialEq, Eq, Structural)]
pub enum ReadPersonState {
    /// Nothing has been read yet.
    Start,
    /// The site configuration was asked for.
    AwaitingSite,
    /// The person named by the request is being resolved.
    AwaitingPerson { decision: PrivacyDecision },
    /// The summary of `person` was asked for.
    AwaitingSummary { person: PersonId, decision: PrivacyDecision },
    /// The three content queries run.
    AwaitingContent { summary: PersonSummary },
    /// The reply was given.
    Done,
}

/// What the caller reports back.
#[derive(Debug, PartialEq, Eq)]
pub enum ReadPersonEvent {
    /// The request arrived.
    Begin,
    SiteLoaded(SiteConfig),
    SiteUnavailable,
    PersonResolved(PersonId),
    /// The resolver failed, timed out, or knows no such person.
    PersonNotFound,
    SummaryLoaded(PersonSummary),
    SummaryUnavailable,
    /// The three content reads ended; `None` stands for one that failed.
    ContentLoaded {
        posts: Option<Vec<ListedItem>>,
        comments: Option<Vec<ListedItem>>,
        moderates: Option<Vec<ModeratorRole>>,
    },
}

/// What the caller has to do next.
#[derive(Debug, PartialEq, Eq)]
pub enum ReadPersonAction {
    /// Read the local site's configuration from the store.
    ReadSiteConfig,
    /// Resolve a person through the resolver, once.
    ResolvePerson {
        identifier: ActorIdentifier,
        requester: Option<PersonId>,
        allow_remote_fetch: bool,
    },
    /// Read the profile summary of a person from the store.
    ReadPersonSummary(PersonId),
    /// Run the three content reads, in any order or at once, and report
    /// them together.
    FanOut { posts: ListingQuerySpec, comments: ListingQuerySpec, moderation: ModerationQuery },
    /// Answer the request; the flow is over.
    Reply(Result<ProfileResult, ListingError>),
}

/// What a `ReadPersonAction` holds.
pub enum ReadPersonActionView {
    ReadSiteConfig,
    ResolvePerson {
        identifier: ActorIdentifier,
        requester: Option<PersonId>,
        allow_remote_fetch: bool,
    },
    ReadPersonSummary(PersonId),
    FanOut { posts: ListingQuerySpec, comments: ListingQuerySpec, moderation: ModerationQuery },
    Reply(Result<ProfileResultView, ListingError>),
}

impl View for ReadPersonAction {
    type V = ReadPersonActionView;

    open spec fn view(&self) -> ReadPersonActionView {
        match *self {
            ReadPersonAction::ReadSiteConfig => ReadPersonActionView::ReadSiteConfig,
            ReadPersonAction::ResolvePerson { identifier, requester, allow_remote_fetch } =>
                ReadPersonActionView::ResolvePerson { identifier, requester, allow_remote_fetch },
            ReadPersonAction::ReadPersonSummary(person) => ReadPersonActionView::ReadPersonSummary(
                person,
            ),
            ReadPersonAction::FanOut { posts, comments, moderation } => ReadPersonActionView::FanOut {
                posts,
                comments,
                moderation,
            },
            ReadPersonAction::Reply(Ok(profile)) => ReadPersonActionView::Reply(Ok(profile@)),
            ReadPersonAction::Reply(Err(e)) => ReadPersonActionView::Reply(Err(e)),
        }
    }
}

/// The step that ends the flow with `reply`.
pub open spec fn read_person_reply(reply: Result<ProfileResultView, ListingError>) -> (
    ReadPersonState,
    ReadPersonActionView,
) {
    (ReadPersonState::Done, ReadPersonActionView::Reply(reply))
}

/// The step that asks for the summary of `person`.
pub open spec fn read_person_summary(person: PersonId, decision: PrivacyDecision) -> (
    ReadPersonState,
    ReadPersonActionView,
) {
    (
        ReadPersonState::AwaitingSummary { person, decision },
        ReadPersonActionView::ReadPersonSummary(person),
    )
}

/// The step of the flow: the state that follows `state` on `event`, and the
/// action that is due.
///
/// A request that names no person is refused before anything is read. The
/// privacy decision is made as soon as the site configuration is known, for
/// the community the request is scoped to; a filtered request still
/// resolves the person and reads the summary, and is then answered with
/// the summary alone. An event that does not answer the action that led to
/// `state` ends the flow with `UnexpectedEvent`.
pub open spec fn read_person_step(req: ProfileRequest, state: ReadPersonState, event: ReadPersonEvent) -> (
    ReadPersonState,
    ReadPersonActionView,
) {
    match (state, event) {
        (ReadPersonState::Start, ReadPersonEvent::Begin) => match req.person_identifier() {
            None => read_person_reply(Err(ListingError::NoIdGiven)),
            Some(_) => (ReadPersonState::AwaitingSite, ReadPersonActionView::ReadSiteConfig),
        },
        (ReadPersonState::AwaitingSite, ReadPersonEvent::SiteLoaded(site)) => {
            let decision = privacy_decision(req.requester, site.privacy, req.community_id);
            match req.person_identifier() {
                None => read_person_reply(Err(ListingError::NoIdGiven)),
                Some(ActorIdentifier::ById(id)) => read_person_summary(PersonId(id), decision),
                Some(ActorIdentifier::ByName(name)) => (
                    ReadPersonState::AwaitingPerson { decision },
                    ReadPersonActionView::ResolvePerson {
                        identifier: ActorIdentifier::ByName(name),
                        requester: req.requester,
                        allow_remote_fetch: true,
                    },
                ),
            }
        },
        (ReadPersonState::AwaitingSite, ReadPersonEvent::SiteUnavailable) => read_person_reply(
            Err(ListingError::StoreUnavailable),
        ),
        (ReadPersonState::AwaitingPerson { decision }, ReadPersonEvent::PersonResolved(person)) =>
            read_person_summary(person, decision),
        (ReadPersonState::AwaitingPerson { .. }, ReadPersonEvent::PersonNotFound) => read_person_reply(
            Err(ListingError::CouldntFindPerson),
        ),
        (
            ReadPersonState::AwaitingSummary { person, decision },
            ReadPersonEvent::SummaryLoaded(summary),
        ) => match decision {
            PrivacyDecision::SilentlyEmpty => read_person_reply(Ok(bare_profile(summary))),
            PrivacyDecision::Allow => (
                ReadPersonState::AwaitingContent { summary },
                ReadPersonActionView::FanOut {
                    posts: profile_post_query(req, person),
                    comments: profile_comment_query(req, person),
                    moderation: profile_moderation_query(req, person),
                },
            ),
        },
        (ReadPersonState::AwaitingSummary { .. }, ReadPersonEvent::SummaryUnavailable) =>
            read_person_reply(Err(ListingError::StoreUnavailable)),
        (
            ReadPersonState::AwaitingContent { summary },
            ReadPersonEvent::ContentLoaded { posts, comments, moderates },
        ) => read_person_reply(assembled_profile(summary, posts, comments, moderates)),
        _ => read_person_reply(Err(ListingError::UnexpectedEvent)),
    }
}

fn reply(result: Result<ProfileResult, ListingError>) -> (next: (ReadPersonState, ReadPersonAction))
    ensures
        next.0 == ReadPersonState::Done,
        next.1 == ReadPersonAction::Reply(result),
{
    (ReadPersonState::Done, ReadPersonAction::Reply(result))
}

fn summary_of(person: PersonId, decision: PrivacyDecision) -> (next: (
    ReadPersonState,
    ReadPersonAction,
))
    ensures
        next.0 == read_person_summary(person, decision).0,
        next.1@ == read_person_summary(person, decision).1,
{
    (
        ReadPersonState::AwaitingSummary { person, decision },
        ReadPersonAction::ReadPersonSummary(person),
    )
}

/// Takes one step of the flow that answers `req`.
///
/// Start with `ReadPersonState::Start` and `ReadPersonEvent::Begin`; after
/// that, pass the state that came back and the event that answers the
/// action that came back with it. The flow is over when the action is a
/// `Reply`.
pub fn read_person(req: &ProfileRequest, state: ReadPersonState, event: ReadPersonEvent) -> (next: (
    ReadPersonState,
    ReadPersonAction,
))
    ensures
        next.0 == read_person_step(*req, state, event).0,
        next.1@ == read_person_step(*req, state, event).1,
{
    match state {
        ReadPersonState::Start => match event {
            ReadPersonEvent::Begin => match req.person() {
                None => reply(Err(ListingError::NoIdGiven)),
                Some(_) => (ReadPersonState::AwaitingSite, ReadPersonAction::ReadSiteConfig),
            },
            _ => reply(Err(ListingError::UnexpectedEvent)),
        },
        ReadPersonState::AwaitingSite => match event {
            ReadPersonEvent::SiteLoaded(site) => {
                let decision = evaluate(req.requester, &site, req.community_id);
                match req.person() {
                    None => reply(Err(ListingError::NoIdGiven)),
                    Some(ActorIdentifier::ById(id)) => summary_of(PersonId(id), decision),
                    Some(ActorIdentifier::ByName(name)) => (
                        ReadPersonState::AwaitingPerson { decision },
                        ReadPersonAction::ResolvePerson {
                            identifier: ActorIdentifier::ByName(name),
                            requester: req.requester,
                            allow_remote_fetch: true,
                        },
                    ),
                }
            },
            ReadPersonEvent::SiteUnavailable => reply(Err(ListingError::StoreUnavailable)),
            _ => reply(Err(ListingError::UnexpectedEvent)),
        },
        ReadPersonState::AwaitingPerson { decision } => match event {
            ReadPersonEvent::PersonResolved(person) => summary_of(person, decision),
            ReadPersonEvent::PersonNotFound => reply(Err(ListingError::CouldntFindPerson)),
            _ => reply(Err(ListingError::UnexpectedEvent)),
        },
        ReadPersonState::AwaitingSummary { person, decision } => match event {
            ReadPersonEvent::SummaryLoaded(summary) => match decision {
                PrivacyDecision::SilentlyEmpty => reply(Ok(ProfileResult::bare(summary))),
                PrivacyDecision::Allow => (
                    ReadPersonState::AwaitingContent { summary },
                    ReadPersonAction::FanOut {
                        posts: compose_profile_posts(req, person),
                        comments: compose_profile_comments(req, person),
                        moderation: compose_profile_moderation(req, person),
                    },
                ),
            },
            ReadPersonEvent::SummaryUnavailable => reply(Err(ListingError::StoreUnavailable)),
            _ => reply(Err(ListingError::UnexpectedEvent)),
        },
        ReadPersonState::AwaitingContent { summary } => match event {
            ReadPersonEvent::ContentLoaded { posts, comments, moderates } => reply(
                ProfileResult::assemble(summary, posts, comments, moderates),
            ),
            _ => reply(Err(ListingError::UnexpectedEvent)),
        },
        ReadPersonState::Done => reply(Err(ListingError::UnexpectedEvent)),
    }
}

} // verus!
