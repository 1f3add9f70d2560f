use uuid::Uuid;
use z407_puck::discovery::{judge_advertisement, ScanDecision, SCAN_TIMEOUT_MS};
use z407_puck::error::SessionError;
use z407_puck::profile::{
    advertises_target, find_uuid, resolve_endpoints, resolve_service, ServiceEndpoints,
    COMMAND_UUID, RESPONSE_UUID, SERVICE_UUID,
};

#[test]
fn uuid_constants_match_their_text() {
    assert_eq!(
        Uuid::parse_str("0000fdc2-0000-1000-8000-00805f9b34fb").unwrap().as_u128(),
        SERVICE_UUID
    );
    assert_eq!(
        Uuid::parse_str("c2e758b9-0e78-41e0-b0cb-98a593193fc5").unwrap().as_u128(),
        COMMAND_UUID
    );
    assert_eq!(
        Uuid::parse_str("b84ac9c6-29c5-46d4-bba1-9d534784330f").unwrap().as_u128(),
        RESPONSE_UUID
    );
    assert_eq!(
        Uuid::from_u128(SERVICE_UUID).to_string(),
        "0000fdc2-0000-1000-8000-00805f9b34fb"
    );
}

#[test]
fn find_uuid_gives_first_position() {
    assert_eq!(find_uuid(&vec![], 7), None);
    assert_eq!(find_uuid(&vec![1, 2, 3], 7), None);
    assert_eq!(find_uuid(&vec![7], 7), Some(0));
    assert_eq!(find_uuid(&vec![1, 7, 3, 7], 7), Some(1));
    assert_eq!(find_uuid(&vec![1, 2, 7], 7), Some(2));
}

#[test]
fn match_rule_is_the_service_uuid() {
    assert!(!advertises_target(&vec![]));
    assert!(!advertises_target(&vec![COMMAND_UUID, RESPONSE_UUID]));
    assert!(!advertises_target(&vec![SERVICE_UUID + 1]));
    assert!(advertises_target(&vec![SERVICE_UUID]));
    assert!(advertises_target(&vec![0x180f, SERVICE_UUID, 0x180a]));
}

#[test]
fn resolve_service_finds_or_fails() {
    assert_eq!(resolve_service(&vec![0x1800, 0x1801, SERVICE_UUID]), Ok(2));
    assert_eq!(resolve_service(&vec![SERVICE_UUID, SERVICE_UUID]), Ok(0));
    assert_eq!(resolve_service(&vec![0x1800, 0x1801]), Err(SessionError::ServiceDiscoveryError));
    assert_eq!(resolve_service(&vec![]), Err(SessionError::ServiceDiscoveryError));
}

#[test]
fn resolve_endpoints_needs_both() {
    assert_eq!(
        resolve_endpoints(&vec![RESPONSE_UUID, 0x2a00, COMMAND_UUID]),
        Ok(ServiceEndpoints { command_characteristic: 2, response_characteristic: 0 })
    );
    assert_eq!(
        resolve_endpoints(&vec![COMMAND_UUID, RESPONSE_UUID, COMMAND_UUID, RESPONSE_UUID]),
        Ok(ServiceEndpoints { command_characteristic: 0, response_characteristic: 1 })
    );
    assert_eq!(resolve_endpoints(&vec![COMMAND_UUID]), Err(SessionError::ServiceDiscoveryError));
    assert_eq!(resolve_endpoints(&vec![RESPONSE_UUID]), Err(SessionError::ServiceDiscoveryError));
    assert_eq!(resolve_endpoints(&vec![SERVICE_UUID]), Err(SessionError::ServiceDiscoveryError));
    assert_eq!(resolve_endpoints(&vec![]), Err(SessionError::ServiceDiscoveryError));
}

#[test]
fn scan_timeout_is_ten_seconds() {
    assert_eq!(SCAN_TIMEOUT_MS, 10_000);
}

#[test]
fn advertisement_within_limit() {
    let dock = vec![SERVICE_UUID];
    let other = vec![0x180f];
    assert_eq!(judge_advertisement(&dock, 0, 10_000), ScanDecision::Accept);
    assert_eq!(judge_advertisement(&dock, 10_000, 10_000), ScanDecision::Accept);
    assert_eq!(
        judge_advertisement(&other, 0, 10_000),
        ScanDecision::Continue { remaining_ms: 10_000 }
    );
    assert_eq!(
        judge_advertisement(&other, 2_500, 10_000),
        ScanDecision::Continue { remaining_ms: 7_500 }
    );
    assert_eq!(
        judge_advertisement(&other, 10_000, 10_000),
        ScanDecision::Continue { remaining_ms: 0 }
    );
}

#[test]
fn advertisement_past_limit() {
    let dock = vec![SERVICE_UUID];
    let other = vec![0x180f];
    assert_eq!(judge_advertisement(&dock, 10_001, 10_000), ScanDecision::GiveUp);
    assert_eq!(judge_advertisement(&other, 10_001, 10_000), ScanDecision::GiveUp);
    assert_eq!(judge_advertisement(&dock, u64::MAX, 10_000), ScanDecision::GiveUp);
    assert_eq!(judge_advertisement(&dock, 1, 0), ScanDecision::GiveUp);
    assert_eq!(judge_advertisement(&dock, 0, 0), ScanDecision::Accept);
}

#[test]
fn only_notification_setup_is_not_fatal() {
    for error in [
        SessionError::AdapterUnavailable,
        SessionError::DeviceNotFound,
        SessionError::ConnectionFailed,
        SessionError::ServiceDiscoveryError,
        SessionError::HandshakeFailed,
        SessionError::WriteFailure,
    ] {
        assert!(error.is_fatal());
    }
    assert!(!SessionError::NotificationSetupFailure.is_fatal());
}
