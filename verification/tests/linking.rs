use chat_core::auth::register_with;
use chat_core::auth::RegisterRequest;
use chat_core::entities::device_linking_sessions::LinkingStatus;
use chat_core::entities::device_linking_sessions::Model;
use chat_core::entities::devices::DeviceType;
use chat_core::error::CoreError;
use chat_core::gateway::Gateway;
use chat_core::gateway::Settings;
use chat_core::gateway::DEFAULT_LINKING_TTL;
use chat_core::keys::generate_bundle;
use chat_core::keys::KeyBundle;
use chat_core::linking::approve_linking_session;
use chat_core::linking::approve_linking_session_with;
use chat_core::linking::create_linking_session;
use chat_core::linking::create_linking_session_with;
use chat_core::linking::redeem_linking_session;
use chat_core::linking::redeem_linking_session_at;
use chat_core::linking::reject_linking_session;
use chat_core::linking::reject_linking_session_at;
use chat_core::linking::session_is_live;
use chat_core::linking::LinkingSessionState;

const NOW: i64 = 1_700_000_000;
const SESSION: u128 = 0xabc;

fn bundle(count: u32) -> KeyBundle {
    generate_bundle(count, 1, 1).expect("a bundle")
}

fn gateway_with_primary() -> Gateway {
    let mut g = Gateway::new("top-secret".to_string(), Settings::standard());
    let req = RegisterRequest { phone_number: "+1".to_string(), device_name: None, platform: 1 };
    register_with(&mut g, &req, 1001, 77, Some(bundle(3)), NOW).expect("registered");
    g
}

fn gateway_with_session() -> Gateway {
    let mut g = gateway_with_primary();
    create_linking_session_with(&mut g, 1, SESSION, "tok".to_string(), NOW).expect("opened");
    g
}

fn session(status: i16, expires_at: i64) -> Model {
    Model {
        session_id: 1,
        primary_device_id: 1,
        qr_code_token: "tok".to_string(),
        status,
        new_device_uuid: None,
        new_device_name: None,
        expires_at,
        created_at: NOW,
        approved_at: None,
    }
}

#[test]
fn status_codes_read_as_statuses() {
    assert_eq!(LinkingStatus::from(1), LinkingStatus::Pending);
    assert_eq!(LinkingStatus::from(2), LinkingStatus::Approved);
    assert_eq!(LinkingStatus::from(3), LinkingStatus::Expired);
    assert_eq!(LinkingStatus::from(4), LinkingStatus::Rejected);
    assert_eq!(LinkingStatus::from(0), LinkingStatus::Pending);
    assert_eq!(LinkingStatus::from(5), LinkingStatus::Pending);
    assert_eq!(LinkingStatus::from(-1), LinkingStatus::Pending);
    assert_eq!(LinkingStatus::from(i16::MAX), LinkingStatus::Pending);
}

#[test]
fn statuses_are_stored_as_codes() {
    assert_eq!(i16::from(LinkingStatus::Pending), 1);
    assert_eq!(i16::from(LinkingStatus::Approved), 2);
    assert_eq!(i16::from(LinkingStatus::Expired), 3);
    assert_eq!(i16::from(LinkingStatus::Rejected), 4);
}

#[test]
fn linking_status_is_the_stored_one() {
    assert_eq!(session(1, NOW).linking_status(), LinkingStatus::Pending);
    assert_eq!(session(2, NOW).linking_status(), LinkingStatus::Approved);
    assert_eq!(session(3, NOW).linking_status(), LinkingStatus::Expired);
    assert_eq!(session(4, NOW).linking_status(), LinkingStatus::Rejected);
    assert_eq!(session(9, NOW).linking_status(), LinkingStatus::Pending);
}

#[test]
fn a_session_runs_out_at_its_expiry() {
    let s = session(1, NOW);
    assert!(!s.is_expired_at(NOW - 1));
    assert!(s.is_expired_at(NOW));
    assert!(s.is_expired_at(NOW + 1));
    assert!(s.is_pending_at(NOW - 1));
    assert!(!s.is_pending_at(NOW));
    assert_eq!(s.status_at(NOW - 1), LinkingStatus::Pending);
    assert_eq!(s.status_at(NOW), LinkingStatus::Expired);
    assert_eq!(s.linking_status(), LinkingStatus::Pending);
}

#[test]
fn only_a_pending_session_is_live() {
    for status in [2i16, 3, 4, 0, 9] {
        assert!(!session(status, NOW).is_pending_at(NOW - 100));
        assert!(!session(status, i64::MAX).is_pending());
    }
    assert_eq!(session(2, NOW).status_at(NOW + 5), LinkingStatus::Approved);
    assert_eq!(session(4, NOW).status_at(NOW + 5), LinkingStatus::Rejected);
    assert_eq!(session(3, NOW).status_at(NOW - 5), LinkingStatus::Expired);
}

#[test]
fn the_clock_decides_expiry() {
    assert!(session(1, 0).is_expired());
    assert!(!session(1, i64::MAX).is_expired());
    assert!(session(1, i64::MAX).is_pending());
    assert!(!session(1, 0).is_pending());
}

#[test]
fn a_session_is_approved_once() {
    let mut s = session(1, NOW + 10);
    assert_eq!(s.approve(5, Some("watch".to_string()), NOW), Ok(()));
    assert_eq!(s.status, 2);
    assert_eq!(s.new_device_uuid, Some(5));
    assert_eq!(s.new_device_name, Some("watch".to_string()));
    assert_eq!(s.approved_at, Some(NOW));
    let kept = s.clone();
    assert_eq!(s.approve(6, None, NOW), Err(CoreError::InvalidSessionState));
    assert_eq!(s.reject(NOW), Err(CoreError::InvalidSessionState));
    assert_eq!(s, kept);
}

#[test]
fn a_session_that_ran_out_is_left_alone() {
    let mut s = session(1, NOW);
    let kept = s.clone();
    assert_eq!(s.approve(5, None, NOW), Err(CoreError::InvalidSessionState));
    assert_eq!(s.reject(NOW), Err(CoreError::InvalidSessionState));
    assert_eq!(s, kept);
    assert_eq!(s.reject(NOW - 1), Ok(()));
    assert_eq!(s.status, 4);
    assert_eq!(s.approve(5, None, NOW - 1), Err(CoreError::InvalidSessionState));
}

#[test]
fn creating_a_session_opens_it_pending() {
    let mut g = gateway_with_primary();
    let created =
        create_linking_session_with(&mut g, 1, SESSION, "tok".to_string(), NOW).expect("opened");
    assert_eq!(created.session_id, SESSION);
    assert_eq!(created.token, "tok");
    assert_eq!(created.expires_at, NOW + DEFAULT_LINKING_TTL as i64);
    assert_eq!(created.expires_at, NOW + 300);
    assert_eq!(g.registry.session_count(), 1);
    let stored = g.registry.find_session(SESSION).expect("a session");
    assert_eq!(stored.status, 1);
    assert_eq!(stored.primary_device_id, 1);
    assert_eq!(stored.qr_code_token, "tok");
    assert_eq!(stored.expires_at, NOW + 300);
    assert_eq!(stored.created_at, NOW);
    assert_eq!(stored.new_device_uuid, None);
    assert_eq!(stored.approved_at, None);
    assert!(session_is_live(&g, SESSION, NOW));
    assert!(!session_is_live(&g, SESSION, NOW + 300));
    assert!(!session_is_live(&g, SESSION + 1, NOW));
}

#[test]
fn creating_a_session_needs_a_known_device() {
    let mut g = gateway_with_primary();
    assert_eq!(
        create_linking_session_with(&mut g, 9, SESSION, "tok".to_string(), NOW),
        Err(CoreError::DeviceNotFound)
    );
    assert_eq!(create_linking_session(&mut g, 9), Err(CoreError::DeviceNotFound));
    assert_eq!(g.registry.session_count(), 0);
}

#[test]
fn a_token_is_used_for_one_session() {
    let mut g = gateway_with_session();
    assert_eq!(
        create_linking_session_with(&mut g, 1, SESSION + 1, "tok".to_string(), NOW),
        Err(CoreError::ConflictError)
    );
    assert_eq!(
        create_linking_session_with(&mut g, 1, SESSION, "other".to_string(), NOW),
        Err(CoreError::ConflictError)
    );
    assert_eq!(g.registry.session_count(), 1);
    assert!(create_linking_session_with(&mut g, 1, SESSION + 1, "other".to_string(), NOW).is_ok());
    assert_eq!(g.registry.session_count(), 2);
}

#[test]
fn created_sessions_get_fresh_tokens() {
    let mut g = gateway_with_primary();
    let a = create_linking_session(&mut g, 1).expect("opened");
    let b = create_linking_session(&mut g, 1).expect("opened");
    assert_ne!(a.session_id, b.session_id);
    assert_ne!(a.token, b.token);
    assert_eq!(a.token.len(), 36);
    let now = chrono::Utc::now().timestamp();
    assert!(a.expires_at > now && a.expires_at <= now + 300);
    let seen = redeem_linking_session(&g, &a.token).expect("found");
    assert_eq!(seen, LinkingSessionState { session_id: a.session_id, status: LinkingStatus::Pending });
}

#[test]
fn redeeming_an_unknown_token_fails() {
    let g = gateway_with_session();
    assert_eq!(redeem_linking_session_at(&g, "nope", NOW), Err(CoreError::LinkingSessionNotFound));
    assert_eq!(redeem_linking_session(&g, ""), Err(CoreError::LinkingSessionNotFound));
}

#[test]
fn redeeming_reports_the_status_seen() {
    let g = gateway_with_session();
    assert_eq!(
        redeem_linking_session_at(&g, "tok", NOW + 299),
        Ok(LinkingSessionState { session_id: SESSION, status: LinkingStatus::Pending })
    );
    assert_eq!(
        redeem_linking_session_at(&g, "tok", NOW + 300),
        Ok(LinkingSessionState { session_id: SESSION, status: LinkingStatus::Expired })
    );
    assert_eq!(g.registry.find_session(SESSION).expect("a session").status, 1);
}

#[test]
fn an_expired_session_cannot_be_approved() {
    let mut g = gateway_with_session();
    assert_eq!(
        approve_linking_session_with(&mut g, SESSION, 2002, None, Some(bundle(3)), NOW + 300),
        Err(CoreError::InvalidSessionState)
    );
    assert_eq!(reject_linking_session_at(&mut g, SESSION, NOW + 300), Err(CoreError::InvalidSessionState));
    assert_eq!(g.registry.device_count(), 1);
    assert_eq!(g.registry.prekey_count(), 3);
    assert_eq!(g.registry.find_session(SESSION).expect("a session").status, 1);
}

#[test]
fn approval_links_a_device() {
    let mut g = gateway_with_session();
    let b = bundle(100);
    let device_id = approve_linking_session_with(
        &mut g,
        SESSION,
        2002,
        Some("watch".to_string()),
        Some(b.clone()),
        NOW + 5,
    )
    .expect("approved");
    assert_eq!(device_id, 2);
    assert_eq!(g.registry.device_count(), 2);
    assert_eq!(g.registry.devices_of(77), 2);
    assert_eq!(g.registry.prekeys_of(2), 100);
    assert_eq!(g.registry.prekey_count(), 103);
    let device = g.registry.find_device(2).expect("a device");
    assert_eq!(device.user_id, 77);
    assert_eq!(device.device_uuid, 2002);
    assert_eq!(device.device_name, Some("watch".to_string()));
    assert_eq!(device.device_type, DeviceType::Linked.code());
    assert_eq!(device.device_type, 2);
    assert_eq!(device.linked_by_device_id, Some(1));
    assert_eq!(device.linked_at, Some(NOW + 5));
    assert_eq!(device.identity_key_public, b.identity.public_key);
    let stored = g.registry.find_session(SESSION).expect("a session");
    assert_eq!(stored.status, 2);
    assert_eq!(stored.new_device_uuid, Some(2002));
    assert_eq!(stored.new_device_name, Some("watch".to_string()));
    assert_eq!(stored.approved_at, Some(NOW + 5));
    assert_eq!(
        redeem_linking_session_at(&g, "tok", NOW + 6),
        Ok(LinkingSessionState { session_id: SESSION, status: LinkingStatus::Approved })
    );
    assert_eq!(
        redeem_linking_session_at(&g, "tok", NOW + 100_000),
        Ok(LinkingSessionState { session_id: SESSION, status: LinkingStatus::Approved })
    );
}

#[test]
fn a_second_approval_is_refused() {
    let mut g = gateway_with_session();
    approve_linking_session_with(&mut g, SESSION, 2002, None, Some(bundle(3)), NOW + 5)
        .expect("approved");
    assert_eq!(
        approve_linking_session_with(&mut g, SESSION, 2003, None, Some(bundle(3)), NOW + 6),
        Err(CoreError::InvalidSessionState)
    );
    assert_eq!(reject_linking_session_at(&mut g, SESSION, NOW + 6), Err(CoreError::InvalidSessionState));
    assert_eq!(g.registry.device_count(), 2);
    assert_eq!(g.registry.prekey_count(), 6);
    assert!(g.registry.find_device_by_uuid(2003).is_none());
}

#[test]
fn approval_of_an_unknown_session_is_refused() {
    let mut g = gateway_with_session();
    assert_eq!(
        approve_linking_session_with(&mut g, 5, 2002, None, Some(bundle(3)), NOW),
        Err(CoreError::InvalidSessionState)
    );
    assert_eq!(approve_linking_session(&mut g, 5, 2002, None), Err(CoreError::InvalidSessionState));
    assert_eq!(reject_linking_session(&mut g, 5), Err(CoreError::InvalidSessionState));
}

#[test]
fn approval_without_key_material_leaves_the_session_pending() {
    let mut g = gateway_with_session();
    assert_eq!(
        approve_linking_session_with(&mut g, SESSION, 2002, None, None, NOW),
        Err(CoreError::KeyGenerationError)
    );
    assert_eq!(g.registry.find_session(SESSION).expect("a session").status, 1);
    assert_eq!(g.registry.device_count(), 1);
    assert!(approve_linking_session_with(&mut g, SESSION, 2002, None, Some(bundle(1)), NOW).is_ok());
}

#[test]
fn approval_for_a_taken_uuid_leaves_the_session_pending() {
    let mut g = gateway_with_session();
    assert_eq!(
        approve_linking_session_with(&mut g, SESSION, 1001, None, Some(bundle(3)), NOW),
        Err(CoreError::ConflictError)
    );
    assert_eq!(g.registry.find_session(SESSION).expect("a session").status, 1);
    assert_eq!(g.registry.device_count(), 1);
    assert_eq!(g.registry.prekey_count(), 3);
}

#[test]
fn a_failed_prekey_insert_undoes_the_linked_device() {
    let mut g = gateway_with_session();
    let mut b = bundle(5);
    b.one_time_prekeys[4].id = b.one_time_prekeys[3].id;
    assert_eq!(
        approve_linking_session_with(&mut g, SESSION, 2002, None, Some(b), NOW),
        Err(CoreError::ConflictError)
    );
    assert_eq!(g.registry.device_count(), 1);
    assert_eq!(g.registry.prekey_count(), 3);
    assert_eq!(g.registry.find_session(SESSION).expect("a session").status, 1);
    assert!(session_is_live(&g, SESSION, NOW));
}

#[test]
fn rejection_ends_the_session() {
    let mut g = gateway_with_session();
    assert_eq!(reject_linking_session_at(&mut g, SESSION, NOW + 1), Ok(()));
    assert_eq!(g.registry.find_session(SESSION).expect("a session").status, 4);
    assert_eq!(
        redeem_linking_session_at(&g, "tok", NOW + 2),
        Ok(LinkingSessionState { session_id: SESSION, status: LinkingStatus::Rejected })
    );
    assert_eq!(
        approve_linking_session_with(&mut g, SESSION, 2002, None, Some(bundle(3)), NOW + 2),
        Err(CoreError::InvalidSessionState)
    );
    assert_eq!(reject_linking_session_at(&mut g, SESSION, NOW + 2), Err(CoreError::InvalidSessionState));
    assert_eq!(g.registry.device_count(), 1);
}

#[test]
fn approval_by_the_clock_links_a_device() {
    let mut g = gateway_with_primary();
    let created = create_linking_session(&mut g, 1).expect("opened");
    let device_id =
        approve_linking_session(&mut g, created.session_id, 2002, Some("watch".to_string()))
            .expect("approved");
    assert_eq!(device_id, 2);
    assert_eq!(g.registry.prekeys_of(2), 100);
    assert_eq!(
        approve_linking_session(&mut g, created.session_id, 2003, None),
        Err(CoreError::InvalidSessionState)
    );
    assert_eq!(g.registry.device_count(), 2);
}

#[test]
fn rejection_by_the_clock_ends_the_session() {
    let mut g = gateway_with_primary();
    let created = create_linking_session(&mut g, 1).expect("opened");
    assert_eq!(reject_linking_session(&mut g, created.session_id), Ok(()));
    assert_eq!(reject_linking_session(&mut g, created.session_id), Err(CoreError::InvalidSessionState));
}
