use olarm_bridge::cache_policy::{cache_ttl_secs, Endpoint};
use olarm_bridge::channels::{availability_topic, vendor_client_id, vendor_control_topic, vendor_state_topic, vendor_status_topic};
use olarm_bridge::correlator::{CorrelationError, Correlator};
use olarm_bridge::credential::{CredentialCache, CredentialStep, LoginViaUserCredentialsResponse, RefreshOAuthTokenResponse};
use olarm_bridge::discovery::DiscoveryTracker;
use olarm_bridge::session::{next_phase, reader_action, DedupFilter, PayloadKind, ReaderAction, SessionEvent, SessionPhase};

fn credential(expires_at: u64) -> LoginViaUserCredentialsResponse {
    LoginViaUserCredentialsResponse {
        user_index: 7,
        user_id: "u-1".to_string(),
        oat: "access".to_string(),
        oat_expire: expires_at,
        ort: "refresh".to_string(),
    }
}

#[test]
fn expiry_buffer_of_thirty_seconds() {
    let now = 1_700_000_000u64;
    assert!(credential(now + 29).is_expired_at(now));
    assert!(credential(now + 30).is_expired_at(now));
    assert!(!credential(now + 31).is_expired_at(now));
    assert!(credential(0).is_expired_at(0));
    assert!(credential(10).is_expired_at(0));
}

#[test]
fn wall_clock_expiry() {
    assert!(credential(0).is_expired());
    assert!(!credential(u64::MAX).is_expired());
}

#[test]
fn refresh_updates_token_in_place() {
    let mut c = credential(100);
    c.update_from_refresh_response(&RefreshOAuthTokenResponse { oat: "new".to_string(), oat_expire: 500 });
    assert_eq!(c.oat, "new");
    assert_eq!(c.oat_expire, 500);
    assert_eq!(c.ort, "refresh");
    assert_eq!(c.user_index, 7);
}

#[test]
fn credential_cache_login_refresh_and_fallback() {
    let mut cache = CredentialCache::new();
    assert!(matches!(cache.begin(1000), CredentialStep::Login));
    let got = cache.finish_login(credential(2000));
    assert_eq!(got.oat, "access");
    match cache.begin(1000) {
        CredentialStep::Ready(c) => assert_eq!(c.oat_expire, 2000),
        _ => panic!("expected the stored credential"),
    }
    match cache.begin(1975) {
        CredentialStep::Refresh(ort) => assert_eq!(ort, "refresh"),
        _ => panic!("expected a refresh"),
    }
    match cache.finish_refresh(Some(RefreshOAuthTokenResponse { oat: "fresh".to_string(), oat_expire: 5000 })) {
        CredentialStep::Ready(c) => {
            assert_eq!(c.oat, "fresh");
            assert_eq!(c.ort, "refresh");
        }
        _ => panic!("expected the refreshed credential"),
    }
    assert!(matches!(cache.begin(4000), CredentialStep::Ready(_)));
    assert!(matches!(cache.finish_refresh(None), CredentialStep::Login));
    let mut empty = CredentialCache::new();
    assert!(matches!(empty.finish_refresh(Some(RefreshOAuthTokenResponse { oat: "x".to_string(), oat_expire: 1 })), CredentialStep::Login));
}

#[test]
fn identical_messages_are_dropped() {
    let mut f = DedupFilter::new();
    assert!(f.accept("{\"a\":1}"));
    assert!(!f.accept("{\"a\":1}"));
    assert!(!f.accept("{\"a\":1}"));
}

#[test]
fn reverted_content_is_processed_again() {
    let mut f = DedupFilter::new();
    assert!(f.accept("state-A"));
    assert!(f.accept("state-B"));
    assert!(f.accept("state-A"));
    let mut fresh = DedupFilter::new();
    assert!(fresh.accept("state-A"));
}

#[test]
fn dedup_by_hash() {
    let mut f = DedupFilter::new();
    assert!(f.accept_hash(5));
    assert!(!f.accept_hash(5));
    assert!(f.accept_hash(6));
}

#[test]
fn discovery_announces_once_per_entity() {
    let mut t = DiscoveryTracker::new();
    let ids = vec!["d_1_binary".to_string(), "d_1_bypass".to_string(), "d_2_binary".to_string()];
    let mut announcements = 0;
    let mut state_publishes = 0;
    for _ in 0..5 {
        for flag in t.mark_all(&ids) {
            if flag {
                announcements += 1;
            }
            state_publishes += 1;
        }
    }
    assert_eq!(announcements, 3);
    assert_eq!(state_publishes, 15);
}

#[test]
fn discovery_reannounces_after_clear() {
    let mut t = DiscoveryTracker::new();
    assert!(t.insert("e1".to_string()));
    assert!(!t.insert("e1".to_string()));
    assert!(t.contains(&"e1".to_string()));
    t.clear();
    assert!(!t.contains(&"e1".to_string()));
    assert_eq!(t.mark_all(&vec!["e1".to_string(), "e2".to_string()]), vec![true, true]);
}

#[test]
fn duplicate_ids_in_one_message() {
    let mut t = DiscoveryTracker::new();
    assert_eq!(t.mark_all(&vec!["x".to_string(), "x".to_string()]), vec![true, false]);
}

#[test]
fn second_request_waits_for_the_first() {
    let mut c = Correlator::new();
    assert!(c.try_acquire());
    assert!(!c.try_acquire());
    assert_eq!(c.published(true), Ok(()));
    assert!(!c.try_acquire());
    assert!(c.notify_response());
    assert!(!c.try_acquire());
    assert_eq!(c.finish(), Ok(()));
    assert!(c.try_acquire());
}

#[test]
fn correlator_timeout_and_publish_failure() {
    let mut c = Correlator::new();
    assert!(!c.notify_response());
    assert!(c.try_acquire());
    assert_eq!(c.published(true), Ok(()));
    assert_eq!(c.finish(), Err(CorrelationError::Timeout));
    assert!(c.try_acquire());
    assert_eq!(c.published(false), Err(CorrelationError::Publish));
    assert!(c.try_acquire());
    assert!(c.notify_response());
    assert_eq!(c.published(true), Ok(()));
    assert_eq!(c.finish(), Ok(()));
}

#[test]
fn session_phases() {
    let p = next_phase(SessionPhase::Starting, SessionEvent::Connected);
    assert_eq!(p, SessionPhase::Connected);
    let p = next_phase(p, SessionEvent::LoopsStarted);
    assert_eq!(p, SessionPhase::Streaming);
    let p = next_phase(p, SessionEvent::Failed);
    assert_eq!(p, SessionPhase::Terminated);
    assert_eq!(next_phase(p, SessionEvent::Connected), SessionPhase::Terminated);
    assert_eq!(next_phase(p, SessionEvent::RestartDelayElapsed), SessionPhase::Starting);
    assert_eq!(next_phase(SessionPhase::Starting, SessionEvent::Failed), SessionPhase::Terminated);
    assert_eq!(next_phase(SessionPhase::Starting, SessionEvent::LoopsStarted), SessionPhase::Starting);
}

#[test]
fn reader_actions() {
    assert_eq!(reader_action(PayloadKind::Telemetry), ReaderAction::AcknowledgeAndProcess);
    assert_eq!(reader_action(PayloadKind::NetworkStatus), ReaderAction::Ignore);
    assert_eq!(reader_action(PayloadKind::Unknown), ReaderAction::ReportUndecodable);
}

#[test]
fn topic_names() {
    assert_eq!(vendor_state_topic("123"), "so/app/v1/123");
    assert_eq!(vendor_status_topic("123"), "si/app/v2/123/status");
    assert_eq!(vendor_control_topic("123"), "si/app/v2/123/control");
    assert_eq!(vendor_client_id("123"), "native-app-oauth-123");
    assert_eq!(availability_topic("dev"), "olarm/device/dev/availability");
}

#[test]
fn cache_lifetimes_per_endpoint() {
    assert_eq!(cache_ttl_secs(Endpoint::User), Some(300));
    assert_eq!(cache_ttl_secs(Endpoint::DeviceList), Some(60));
    assert_eq!(cache_ttl_secs(Endpoint::Device), Some(30));
    assert_eq!(cache_ttl_secs(Endpoint::Actions), Some(30));
    assert_eq!(cache_ttl_secs(Endpoint::ActionSubmission), None);
}
