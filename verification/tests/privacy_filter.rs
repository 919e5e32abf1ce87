use listing_gateway::privacy::{evaluate, PrivacyDecision};
use listing_gateway::types::{CommunityId, ListingType, PersonId, PrivacyMode, SiteConfig};

fn site_with(privacy: PrivacyMode) -> SiteConfig {
    SiteConfig { privacy, default_post_listing_type: ListingType::Local }
}

#[test]
fn public_instance_allows_everyone() {
    let site = site_with(PrivacyMode::Public);
    assert_eq!(evaluate(None, &site, None), PrivacyDecision::Allow);
    assert_eq!(evaluate(None, &site, Some(CommunityId(3))), PrivacyDecision::Allow);
    assert_eq!(evaluate(Some(PersonId(1)), &site, None), PrivacyDecision::Allow);
    assert_eq!(evaluate(Some(PersonId(1)), &site, Some(CommunityId(3))), PrivacyDecision::Allow);
}

#[test]
fn private_instance_is_silent_towards_outsiders() {
    let site = site_with(PrivacyMode::Private);
    assert_eq!(evaluate(None, &site, None), PrivacyDecision::SilentlyEmpty);
    assert_eq!(evaluate(None, &site, Some(CommunityId(3))), PrivacyDecision::SilentlyEmpty);
}

#[test]
fn private_instance_allows_local_users() {
    let site = site_with(PrivacyMode::Private);
    assert_eq!(evaluate(Some(PersonId(1)), &site, None), PrivacyDecision::Allow);
    assert_eq!(evaluate(Some(PersonId(1)), &site, Some(CommunityId(3))), PrivacyDecision::Allow);
}

#[test]
fn semi_private_instance_shows_outsiders_only_what_they_name() {
    let site = site_with(PrivacyMode::SemiPrivate);
    assert_eq!(evaluate(None, &site, None), PrivacyDecision::SilentlyEmpty);
    assert_eq!(evaluate(None, &site, Some(CommunityId(3))), PrivacyDecision::Allow);
}

#[test]
fn semi_private_instance_allows_local_users() {
    let site = site_with(PrivacyMode::SemiPrivate);
    assert_eq!(evaluate(Some(PersonId(1)), &site, None), PrivacyDecision::Allow);
    assert_eq!(evaluate(Some(PersonId(1)), &site, Some(CommunityId(3))), PrivacyDecision::Allow);
}

#[test]
fn privacy_mode_is_read_off_the_two_switches() {
    assert_eq!(PrivacyMode::from_flags(false, false), PrivacyMode::Public);
    assert_eq!(PrivacyMode::from_flags(false, true), PrivacyMode::Public);
    assert_eq!(PrivacyMode::from_flags(true, false), PrivacyMode::Private);
    assert_eq!(PrivacyMode::from_flags(true, true), PrivacyMode::SemiPrivate);
}
