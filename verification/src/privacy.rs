//! The privacy filter: whether a listing may show anything to its requester.

use vstd::prelude::*;
use crate::types::{CommunityId, PersonId, PrivacyMode, SiteConfig};

verus! {

/// Outcome of the privacy filter for one request.
#[derive(Clone, Copy, Debug, PartialEq, Eq, Structural)]
pub enum PrivacyDecision {
    /// The listing is built and run as requested.
    Allow,
    /// The request succeeds with empty lists and no continuation, so that a
    /// filtered listing cannot be told from one that has no content.
    SilentlyEmpty,
}

/// The policy table of the privacy filter.
///
/// A public instance shows everything. A logged-in local user sees
/// everything on any instance. Anyone else sees nothing on a private
/// instance, and on a semi-private one only the community that the request
/// names.
pub open spec fn privacy_decision(
    requester: Option<PersonId>,
    mode: PrivacyMode,
    scope: Option<CommunityId>,
) -> PrivacyDecision {
    match mode {
        PrivacyMode::Public => PrivacyDecision::Allow,
        PrivacyMode::Private => if requester is Some {
            PrivacyDecision::Allow
        } else {
            PrivacyDecision::SilentlyEmpty
        },
        PrivacyMode::SemiPrivate => if requester is Some || scope is Some {
            PrivacyDecision::Allow
        } else {
            PrivacyDecision::SilentlyEmpty
        },
    }
}

/// The privacy mode that an instance's two switches stand for: a private
/// instance with federation enabled is semi-private.
pub open spec fn privacy_mode_of_flags(private_instance: bool, federation_enabled: bool) -> PrivacyMode {
    if !private_instance {
        PrivacyMode::Public
    } else if federation_enabled {
        PrivacyMode::SemiPrivate
    } else {
        PrivacyMode::Private
    }
}

impl PrivacyMode {
    /// Reads the privacy mode off an instance's `private_instance` and
    /// `federation_enabled` switches.
    pub fn from_flags(private_instance: bool, federation_enabled: bool) -> (mode: PrivacyMode)
        ensures
            mode == privacy_mode_of_flags(private_instance, federation_enabled),
    {
        if !private_instance {
            PrivacyMode::Public
        } else if federation_enabled {
            PrivacyMode::SemiPrivate
        } else {
            PrivacyMode::Private
        }
    }
}

/// Decides whether a listing requested by `requester` (`None` for a caller
/// without a local login) and scoped to `scope` may show content on the
/// instance configured by `site`.
///
/// The decision depends on nothing but the three arguments, so it is made
/// afresh for every request.
pub fn evaluate(
    requester: Option<PersonId>,
    site: &SiteConfig,
    scope: Option<CommunityId>,
) -> (decision: PrivacyDecision)
    ensures
        decision == privacy_decision(requester, site.privacy, scope),
{
    match site.privacy {
        PrivacyMode::Public => PrivacyDecision::Allow,
        PrivacyMode::Private => {
            if requester.is_some() {
                PrivacyDecision::Allow
            } else {
                PrivacyDecision::SilentlyEmpty
            }
        },
        PrivacyMode::SemiPrivate => {
            if requester.is_some() || scope.is_some() {
                PrivacyDecision::Allow
            } else {
                PrivacyDecision::SilentlyEmpty
            }
        },
    }
}

/// The policy, row by row: a public instance filters nobody; a local user
/// is never filtered; a private instance filters every other caller,
/// whatever the scope; a semi-private instance filters every other caller
/// unless the request names a community.
pub proof fn law_policy_table(
    requester: Option<PersonId>,
    mode: PrivacyMode,
    scope: Option<CommunityId>,
)
    ensures
        mode == PrivacyMode::Public ==> privacy_decision(requester, mode, scope)
            == PrivacyDecision::Allow,
        requester is Some ==> privacy_decision(requester, mode, scope) == PrivacyDecision::Allow,
        mode == PrivacyMode::Private && requester is None ==> privacy_decision(
            requester,
            mode,
            scope,
        ) == PrivacyDecision::SilentlyEmpty,
        mode == PrivacyMode::SemiPrivate && requester is None && scope is None
            ==> privacy_decision(requester, mode, scope) == PrivacyDecision::SilentlyEmpty,
        mode == PrivacyMode::SemiPrivate && requester is None && scope is Some
            ==> privacy_decision(requester, mode, scope) == PrivacyDecision::Allow,
{
}

} // verus!
