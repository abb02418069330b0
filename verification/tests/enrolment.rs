use chat_core::auth::login;
use chat_core::auth::login_at;
use chat_core::auth::register;
use chat_core::auth::register_with;
use chat_core::auth::store_otp;
use chat_core::auth::verify_otp_with;
use chat_core::auth::LoginRequest;
use chat_core::auth::RegisterRequest;
use chat_core::auth::RegisterResponse;
use chat_core::auth::VerifyOtpRequest;
use chat_core::digest::phone_hash;
use chat_core::entities::devices::DeviceType;
use chat_core::entities::devices::DEFAULT_PLATFORM;
use chat_core::error::CoreError;
use chat_core::gateway::Gateway;
use chat_core::gateway::Settings;
use chat_core::ident::uuid_text;
use chat_core::keys::generate_bundle;
use chat_core::keys::KeyBundle;
use chat_core::registry::Enrollment;
use chat_core::registry::Registry;
use chat_core::token::TokenKind;

const PHONE: &str = "+15551234567";
const NOW: i64 = 1_700_000_000;

fn gateway() -> Gateway {
    Gateway::new("top-secret".to_string(), Settings::standard())
}

fn bundle(count: u32) -> KeyBundle {
    generate_bundle(count, 1, 1).expect("a bundle")
}

fn offer(phone: &str, device_uuid: u128) -> VerifyOtpRequest {
    VerifyOtpRequest {
        phone_number: phone.to_string(),
        otp: "123456".to_string(),
        device_uuid,
        device_name: None,
    }
}

fn registration(phone: &str) -> RegisterRequest {
    RegisterRequest { phone_number: phone.to_string(), device_name: Some("tablet".to_string()), platform: 2 }
}

#[test]
fn phone_hash_is_sha256_of_the_number() {
    assert_eq!(
        phone_hash(PHONE),
        vec![
            138, 89, 120, 11, 184, 205, 43, 160, 34, 191, 165, 186, 46, 163, 182, 224, 122, 241, 122,
            125, 139, 48, 193, 249, 179, 57, 14, 54, 246, 144, 25, 228
        ]
    );
    assert_ne!(phone_hash(PHONE), phone_hash("+15551234568"));
}

#[test]
fn enrolment_creates_account_device_and_prekeys() {
    let mut registry = Registry::new();
    let b = bundle(100);
    let e = registry
        .enroll(PHONE, 77, 1001, Some("phone".to_string()), DEFAULT_PLATFORM, Some(&b), NOW)
        .expect("enrolled");
    assert_eq!(e, Enrollment { user_id: 77, device_id: 1, is_new_user: true });
    assert_eq!(registry.user_count(), 1);
    assert_eq!(registry.device_count(), 1);
    assert_eq!(registry.prekey_count(), 100);
    assert_eq!(registry.devices_of(77), 1);
    assert_eq!(registry.prekeys_of(1), 100);
    let user = registry.find_user_by_phone(PHONE).expect("an account");
    assert_eq!(user.user_id, 77);
    assert_eq!(user.phone_number, PHONE);
    assert_eq!(user.phone_number_hash, phone_hash(PHONE));
    assert!(!user.is_deleted);
    assert_eq!(user.created_at, NOW);
    let device = registry.find_device_by_uuid(1001).expect("a device");
    assert_eq!(device.device_id, 1);
    assert_eq!(device.user_id, 77);
    assert_eq!(device.device_name, Some("phone".to_string()));
    assert_eq!(device.platform, 1);
    assert_eq!(device.identity_key_public, b.identity.public_key);
    assert_eq!(device.registration_id, b.registration_id);
    assert_eq!(device.signed_prekey_id, 1);
    assert_eq!(device.signed_prekey_public, b.signed_prekey.public_key);
    assert_eq!(device.signed_prekey_signature, b.signed_prekey.signature);
    assert_eq!(device.device_type, DeviceType::Primary.code());
    assert_eq!(device.device_type, 1);
    assert!(device.is_active);
    assert_eq!(device.linked_at, None);
    assert_eq!(device.linked_by_device_id, None);
    assert_eq!(device.created_at, NOW);
    assert_eq!(device.last_seen_at, NOW);
}

#[test]
fn second_verification_finds_the_same_user() {
    let mut g = gateway();
    store_otp(&mut g, PHONE, "123456".to_string(), NOW);
    let first = verify_otp_with(&mut g, &offer(PHONE, 1001), NOW, 77, Some(bundle(100)))
        .expect("verified");
    store_otp(&mut g, PHONE, "123456".to_string(), NOW + 60);
    let second = verify_otp_with(&mut g, &offer(PHONE, 1002), NOW + 60, 78, Some(bundle(100)))
        .expect("verified");
    assert!(first.is_new_user);
    assert!(!second.is_new_user);
    assert_eq!(first.user_id, 77);
    assert_eq!(second.user_id, 77);
    assert_eq!(first.device_id, 1);
    assert_eq!(second.device_id, 2);
    assert_eq!(g.registry.user_count(), 1);
    assert_eq!(g.registry.device_count(), 2);
    assert_eq!(g.registry.devices_of(77), 2);
    assert_eq!(g.registry.prekey_count(), 200);
    assert_eq!(g.registry.prekeys_of(1), 100);
    assert_eq!(g.registry.prekeys_of(2), 100);
}

#[test]
fn verification_issues_tokens_for_user_and_device() {
    let mut g = gateway();
    store_otp(&mut g, PHONE, "123456".to_string(), NOW);
    let resp = verify_otp_with(&mut g, &offer(PHONE, 1001), NOW, 77, Some(bundle(3))).expect("verified");
    assert_eq!(resp.access_token, g.issuer.issue(77, 1, TokenKind::Access, NOW));
    assert_eq!(resp.refresh_token, g.issuer.issue(77, 1, TokenKind::Refresh, NOW));
    let claims = g.issuer.verify(&resp.access_token, TokenKind::Access, NOW + 1).expect("accepted");
    assert_eq!(claims.sub, uuid_text(77));
    assert_eq!(claims.device_id, 1);
    assert_eq!(claims.exp, NOW + 900);
}

#[test]
fn a_bundle_with_a_repeated_prekey_id_leaves_no_row() {
    let mut registry = Registry::new();
    let mut b = bundle(10);
    b.one_time_prekeys[7].id = b.one_time_prekeys[2].id;
    let r = registry.enroll(PHONE, 77, 1001, None, DEFAULT_PLATFORM, Some(&b), NOW);
    assert_eq!(r, Err(CoreError::ConflictError));
    assert_eq!(registry.user_count(), 0);
    assert_eq!(registry.device_count(), 0);
    assert_eq!(registry.prekey_count(), 0);
    assert!(registry.find_user_by_phone(PHONE).is_none());
    assert!(registry.find_device_by_uuid(1001).is_none());
    let e = registry.enroll(PHONE, 77, 1001, None, DEFAULT_PLATFORM, Some(&bundle(10)), NOW).expect("enrolled");
    assert_eq!(e.device_id, 1);
    assert_eq!(registry.prekey_count(), 10);
}

#[test]
fn a_failed_enrolment_of_a_known_user_keeps_what_was_there() {
    let mut registry = Registry::new();
    registry.enroll(PHONE, 77, 1001, None, DEFAULT_PLATFORM, Some(&bundle(4)), NOW).expect("enrolled");
    let mut b = bundle(4);
    b.one_time_prekeys[3].id = b.one_time_prekeys[0].id;
    assert_eq!(
        registry.enroll(PHONE, 78, 1002, None, DEFAULT_PLATFORM, Some(&b), NOW + 1),
        Err(CoreError::ConflictError)
    );
    assert_eq!(registry.user_count(), 1);
    assert_eq!(registry.device_count(), 1);
    assert_eq!(registry.prekey_count(), 4);
    assert_eq!(registry.prekeys_of(2), 0);
}

#[test]
fn a_bundle_whose_signature_fails_is_refused() {
    let mut registry = Registry::new();
    let mut b = bundle(4);
    b.signed_prekey.signature[0] ^= 1;
    assert_eq!(
        registry.enroll(PHONE, 77, 1001, None, DEFAULT_PLATFORM, Some(&b), NOW),
        Err(CoreError::KeyGenerationError)
    );
    assert_eq!(registry.user_count(), 0);
    assert_eq!(registry.device_count(), 0);
}

#[test]
fn enrolment_without_key_material_fails_after_the_account_is_settled() {
    let mut registry = Registry::new();
    assert_eq!(
        registry.enroll(PHONE, 77, 1001, None, DEFAULT_PLATFORM, None, NOW),
        Err(CoreError::KeyGenerationError)
    );
    assert_eq!(registry.user_count(), 0);
    registry.enroll(PHONE, 77, 1001, None, DEFAULT_PLATFORM, Some(&bundle(1)), NOW).expect("enrolled");
    assert_eq!(
        registry.enroll("+2", 77, 1002, None, DEFAULT_PLATFORM, None, NOW),
        Err(CoreError::ConflictError)
    );
    assert_eq!(
        registry.enroll("+2", 78, 1002, None, DEFAULT_PLATFORM, None, NOW),
        Err(CoreError::KeyGenerationError)
    );
    assert_eq!(registry.user_count(), 1);
    assert_eq!(registry.device_count(), 1);
}

#[test]
fn a_taken_user_id_is_a_conflict() {
    let mut registry = Registry::new();
    registry.enroll(PHONE, 77, 1001, None, DEFAULT_PLATFORM, Some(&bundle(1)), NOW).expect("enrolled");
    assert_eq!(
        registry.enroll("+2", 77, 1002, None, DEFAULT_PLATFORM, Some(&bundle(1)), NOW),
        Err(CoreError::ConflictError)
    );
    assert_eq!(registry.user_count(), 1);
    assert!(registry.find_user_by_phone("+2").is_none());
}

#[test]
fn register_with_the_same_device_uuid_conflicts() {
    let mut g = gateway();
    let first = register_with(&mut g, &registration(PHONE), 1001, 77, Some(bundle(100)), NOW);
    assert_eq!(first, Ok(RegisterResponse { user_id: 77, device_id: 1, device_uuid: 1001 }));
    let second = register_with(&mut g, &registration("+2"), 1001, 78, Some(bundle(100)), NOW + 1);
    assert_eq!(second, Err(CoreError::ConflictError));
    let third = register_with(&mut g, &registration(PHONE), 1001, 79, Some(bundle(100)), NOW + 2);
    assert_eq!(third, Err(CoreError::ConflictError));
    assert_eq!(g.registry.user_count(), 1);
    assert_eq!(g.registry.device_count(), 1);
    assert_eq!(g.registry.prekey_count(), 100);
    assert!(g.registry.find_user_by_phone("+2").is_none());
}

#[test]
fn register_with_keeps_the_platform() {
    let mut g = gateway();
    register_with(&mut g, &registration(PHONE), 1001, 77, Some(bundle(2)), NOW).expect("registered");
    let device = g.registry.find_device_by_uuid(1001).expect("a device");
    assert_eq!(device.platform, 2);
    assert_eq!(device.device_name, Some("tablet".to_string()));
    let user = g.registry.find_user_by_phone(PHONE).expect("an account");
    assert_eq!(user.phone_number_hash, phone_hash(PHONE));
}

#[test]
fn register_without_key_material_fails() {
    let mut g = gateway();
    assert_eq!(
        register_with(&mut g, &registration(PHONE), 1001, 77, None, NOW),
        Err(CoreError::KeyGenerationError)
    );
    assert_eq!(g.registry.user_count(), 0);
}

#[test]
fn register_draws_its_own_ids() {
    let mut g = gateway();
    let first = register(&mut g, &registration(PHONE)).expect("registered");
    let second = register(&mut g, &registration(PHONE)).expect("registered");
    assert_eq!(first.user_id, second.user_id);
    assert_ne!(first.device_uuid, second.device_uuid);
    assert_eq!(first.device_id, 1);
    assert_eq!(second.device_id, 2);
    assert_eq!(g.registry.prekeys_of(1), 100);
    assert_eq!(g.registry.prekeys_of(2), 100);
    let device = g.registry.find_device_by_uuid(first.device_uuid).expect("a device");
    assert!(chat_core::keys::verify_signature(
        &device.identity_key_public,
        &device.signed_prekey_public,
        &device.signed_prekey_signature
    ));
}

#[test]
fn login_needs_a_known_user() {
    let g = gateway();
    let req = LoginRequest { phone_number: PHONE.to_string(), device_uuid: 1001 };
    assert_eq!(login_at(&g, &req, NOW), Err(CoreError::UserNotFound));
    assert_eq!(login(&g, &req), Err(CoreError::UserNotFound));
}

#[test]
fn login_needs_a_device_of_the_user() {
    let mut g = gateway();
    register_with(&mut g, &registration(PHONE), 1001, 77, Some(bundle(1)), NOW).expect("registered");
    register_with(&mut g, &registration("+2"), 1002, 78, Some(bundle(1)), NOW).expect("registered");
    let unknown = LoginRequest { phone_number: PHONE.to_string(), device_uuid: 4004 };
    assert_eq!(login_at(&g, &unknown, NOW), Err(CoreError::DeviceNotFound));
    let foreign = LoginRequest { phone_number: PHONE.to_string(), device_uuid: 1002 };
    assert_eq!(login_at(&g, &foreign, NOW), Err(CoreError::DeviceNotFound));
}

#[test]
fn login_issues_signed_tokens_and_creates_nothing() {
    let mut g = gateway();
    register_with(&mut g, &registration(PHONE), 1001, 77, Some(bundle(1)), NOW).expect("registered");
    let req = LoginRequest { phone_number: PHONE.to_string(), device_uuid: 1001 };
    let resp = login_at(&g, &req, NOW + 500).expect("logged in");
    assert_eq!(resp.user_id, 77);
    assert_eq!(resp.access_token, g.issuer.issue(77, 1, TokenKind::Access, NOW + 500));
    assert_eq!(resp.refresh_token, g.issuer.issue(77, 1, TokenKind::Refresh, NOW + 500));
    assert!(g.issuer.verify(&resp.access_token, TokenKind::Access, NOW + 500).is_ok());
    assert_eq!(g.registry.user_count(), 1);
    assert_eq!(g.registry.device_count(), 1);
    assert_eq!(g.registry.prekey_count(), 1);
    let resp = login(&g, &req).expect("logged in");
    let now = chrono::Utc::now().timestamp();
    assert!(g.issuer.verify(&resp.refresh_token, TokenKind::Refresh, now).is_ok());
}

#[test]
fn device_ids_count_up_from_one() {
    let mut registry = Registry::new();
    for n in 0..5u128 {
        let phone = format!("+{}", n);
        let e = registry
            .enroll(&phone, 100 + n, 1000 + n, None, DEFAULT_PLATFORM, Some(&bundle(2)), NOW)
            .expect("enrolled");
        assert_eq!(e.device_id, 1 + n as i64);
        assert!(e.is_new_user);
    }
    assert_eq!(registry.find_device(3).expect("a device").device_uuid, 1002);
    assert!(registry.find_device(6).is_none());
    assert!(registry.find_device(0).is_none());
    assert_eq!(registry.prekey_count(), 10);
}
