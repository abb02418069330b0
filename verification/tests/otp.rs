use chat_core::auth::request_otp;
use chat_core::auth::store_otp;
use chat_core::auth::verify_otp;
use chat_core::auth::verify_otp_with;
use chat_core::auth::RequestOtpRequest;
use chat_core::auth::VerifyOtpRequest;
use chat_core::error::CoreError;
use chat_core::gateway::Gateway;
use chat_core::gateway::Settings;
use chat_core::keys::generate_bundle;
use chat_core::otp::generate_otp;
use chat_core::otp::otp_key;
use chat_core::otp::otp_matches;
use chat_core::otp::CodeStore;
use chat_core::otp::DEFAULT_OTP_TTL;
use chat_core::otp::OTP_LENGTH;

const PHONE: &str = "+15551234567";
const NOW: i64 = 1_700_000_000;

fn gateway() -> Gateway {
    Gateway::new("top-secret".to_string(), Settings::standard())
}

fn offer(code: &str, device_uuid: u128) -> VerifyOtpRequest {
    VerifyOtpRequest {
        phone_number: PHONE.to_string(),
        otp: code.to_string(),
        device_uuid,
        device_name: Some("phone".to_string()),
    }
}

#[test]
fn generated_otp_is_six_digits() {
    for _ in 0..200 {
        let code = generate_otp();
        assert_eq!(code.len(), OTP_LENGTH);
        assert_eq!(code.chars().count(), 6);
        assert!(code.chars().all(|c| c.is_ascii_digit()));
    }
}

#[test]
fn generated_otps_vary() {
    let first = generate_otp();
    let mut varied = false;
    for _ in 0..50 {
        if generate_otp() != first {
            varied = true;
        }
    }
    assert!(varied);
}

#[test]
fn otp_key_names_the_phone_number() {
    assert_eq!(otp_key(PHONE), "otp:+15551234567");
    assert_eq!(otp_key(""), "otp:");
}

#[test]
fn otp_matches_only_the_stored_code() {
    assert!(otp_matches(Some("123456"), "123456"));
    assert!(!otp_matches(Some("123456"), "123457"));
    assert!(!otp_matches(Some("123456"), "12345"));
    assert!(!otp_matches(Some("123456"), ""));
    assert!(!otp_matches(None, "123456"));
    assert!(!otp_matches(None, ""));
}

#[test]
fn default_ttl_is_three_minutes() {
    assert_eq!(DEFAULT_OTP_TTL, 180);
    assert_eq!(Settings::standard().otp_ttl, 180);
}

#[test]
fn code_store_redeems_the_right_code_in_time() {
    let mut store = CodeStore::new();
    store.put(PHONE, "123456".to_string(), NOW, 180);
    assert_eq!(store.len(), 1);
    assert!(store.redeem(PHONE, "123456", NOW + 179));
    assert_eq!(store.len(), 0);
}

#[test]
fn code_store_turns_away_the_right_code_after_the_ttl() {
    let mut store = CodeStore::new();
    store.put(PHONE, "123456".to_string(), NOW, 180);
    assert!(!store.redeem(PHONE, "123456", NOW + 180));
    assert_eq!(store.len(), 0);
    store.put(PHONE, "123456".to_string(), NOW, 180);
    assert!(!store.redeem(PHONE, "123456", NOW + 10_000));
}

#[test]
fn code_store_consumes_the_code_on_a_wrong_candidate() {
    let mut store = CodeStore::new();
    store.put(PHONE, "123456".to_string(), NOW, 180);
    assert!(!store.redeem(PHONE, "654321", NOW));
    assert!(!store.redeem(PHONE, "123456", NOW));
}

#[test]
fn code_store_keeps_the_last_code_only() {
    let mut store = CodeStore::new();
    store.put(PHONE, "111111".to_string(), NOW, 180);
    store.put(PHONE, "222222".to_string(), NOW + 5, 180);
    assert_eq!(store.len(), 1);
    let entry = store.take(PHONE).expect("a code");
    assert_eq!(entry.code, "222222");
    assert_eq!(entry.phone_number, PHONE);
    assert_eq!(entry.expires_at, NOW + 185);
    assert!(store.take(PHONE).is_none());
}

#[test]
fn code_store_tells_phone_numbers_apart() {
    let mut store = CodeStore::new();
    store.put("+1", "111111".to_string(), NOW, 180);
    store.put("+2", "222222".to_string(), NOW, 180);
    assert_eq!(store.len(), 2);
    assert!(!store.redeem("+3", "111111", NOW));
    assert!(store.redeem("+2", "222222", NOW));
    assert!(store.redeem("+1", "111111", NOW));
}

#[test]
fn code_store_expiry_never_passes_the_last_second() {
    let mut store = CodeStore::new();
    store.put(PHONE, "123456".to_string(), i64::MAX - 3, 180);
    let entry = store.take(PHONE).expect("a code");
    assert_eq!(entry.expires_at, i64::MAX);
}

#[test]
fn request_otp_lets_the_code_wait() {
    let mut g = gateway();
    let issued = request_otp(&mut g, &RequestOtpRequest { phone_number: PHONE.to_string() });
    assert_eq!(issued.message, "OTP sent successfully");
    assert_eq!(issued.code.len(), 6);
    assert!(issued.code.chars().all(|c| c.is_ascii_digit()));
    let now = chrono::Utc::now().timestamp();
    let entry = g.codes.take(PHONE).expect("a code");
    assert_eq!(entry.code, issued.code);
    assert!(entry.expires_at >= now + 175 && entry.expires_at <= now + 180);
}

#[test]
fn verify_otp_accepts_the_requested_code() {
    let mut g = gateway();
    let issued = request_otp(&mut g, &RequestOtpRequest { phone_number: PHONE.to_string() });
    let resp = verify_otp(&mut g, &offer(&issued.code, 1)).expect("verified");
    assert!(resp.is_new_user);
    assert_eq!(resp.device_id, 1);
    assert_eq!(g.registry.user_count(), 1);
    assert_eq!(g.registry.device_count(), 1);
    assert_eq!(g.registry.prekey_count(), 100);
    assert_eq!(g.registry.prekeys_of(resp.device_id), 100);
    let now = chrono::Utc::now().timestamp();
    let claims = g
        .issuer
        .verify(&resp.access_token, chat_core::token::TokenKind::Access, now)
        .expect("accepted");
    assert_eq!(claims.device_id, resp.device_id);
    assert_eq!(claims.sub, chat_core::ident::uuid_text(resp.user_id));
    assert!(g
        .issuer
        .verify(&resp.refresh_token, chat_core::token::TokenKind::Refresh, now)
        .is_ok());
}

#[test]
fn verify_otp_turns_away_a_wrong_code() {
    let mut g = gateway();
    let issued = request_otp(&mut g, &RequestOtpRequest { phone_number: PHONE.to_string() });
    let wrong = if issued.code == "000000" { "000001" } else { "000000" };
    assert_eq!(verify_otp(&mut g, &offer(wrong, 1)), Err(CoreError::InvalidOrExpiredOtp));
    assert_eq!(verify_otp(&mut g, &offer(&issued.code, 1)), Err(CoreError::InvalidOrExpiredOtp));
    assert_eq!(g.registry.user_count(), 0);
    assert_eq!(g.registry.device_count(), 0);
}

#[test]
fn verify_otp_without_a_request_fails() {
    let mut g = gateway();
    assert_eq!(verify_otp(&mut g, &offer("123456", 1)), Err(CoreError::InvalidOrExpiredOtp));
}

#[test]
fn verification_succeeds_with_the_last_code_in_time() {
    let mut g = gateway();
    store_otp(&mut g, PHONE, "111111".to_string(), NOW);
    store_otp(&mut g, PHONE, "222222".to_string(), NOW + 10);
    let bundle = generate_bundle(5, 1, 1).ok();
    let resp = verify_otp_with(&mut g, &offer("222222", 1), NOW + 189, 77, bundle).expect("verified");
    assert_eq!(resp.user_id, 77);
}

#[test]
fn verification_fails_with_the_earlier_code() {
    let mut g = gateway();
    store_otp(&mut g, PHONE, "111111".to_string(), NOW);
    store_otp(&mut g, PHONE, "222222".to_string(), NOW + 10);
    let bundle = generate_bundle(5, 1, 1).ok();
    assert_eq!(
        verify_otp_with(&mut g, &offer("111111", 1), NOW + 20, 77, bundle),
        Err(CoreError::InvalidOrExpiredOtp)
    );
}

#[test]
fn verification_fails_with_the_right_code_after_the_ttl() {
    let mut g = gateway();
    store_otp(&mut g, PHONE, "123456".to_string(), NOW);
    let bundle = generate_bundle(5, 1, 1).ok();
    assert_eq!(
        verify_otp_with(&mut g, &offer("123456", 1), NOW + 180, 77, bundle),
        Err(CoreError::InvalidOrExpiredOtp)
    );
    assert_eq!(g.registry.device_count(), 0);
}

#[test]
fn verification_consumes_the_code() {
    let mut g = gateway();
    store_otp(&mut g, PHONE, "123456".to_string(), NOW);
    let first = generate_bundle(5, 1, 1).ok();
    let second = generate_bundle(5, 1, 1).ok();
    assert!(verify_otp_with(&mut g, &offer("123456", 1), NOW + 1, 77, first).is_ok());
    assert_eq!(
        verify_otp_with(&mut g, &offer("123456", 2), NOW + 2, 78, second),
        Err(CoreError::InvalidOrExpiredOtp)
    );
    assert_eq!(g.registry.device_count(), 1);
}

#[test]
fn verification_without_key_material_fails_and_consumes_the_code() {
    let mut g = gateway();
    store_otp(&mut g, PHONE, "123456".to_string(), NOW);
    assert_eq!(
        verify_otp_with(&mut g, &offer("123456", 1), NOW + 1, 77, None),
        Err(CoreError::KeyGenerationError)
    );
    assert_eq!(g.registry.user_count(), 0);
    assert_eq!(g.registry.device_count(), 0);
    assert_eq!(g.registry.prekey_count(), 0);
    assert_eq!(g.codes.len(), 0);
}

#[test]
fn a_configured_ttl_is_used() {
    let mut settings = Settings::standard();
    settings.otp_ttl = 30;
    let mut g = Gateway::new("s".to_string(), settings);
    store_otp(&mut g, PHONE, "123456".to_string(), NOW);
    let bundle = generate_bundle(1, 1, 1).ok();
    assert_eq!(
        verify_otp_with(&mut g, &offer("123456", 1), NOW + 30, 77, bundle),
        Err(CoreError::InvalidOrExpiredOtp)
    );
    store_otp(&mut g, PHONE, "123456".to_string(), NOW);
    let bundle = generate_bundle(1, 1, 1).ok();
    assert!(verify_otp_with(&mut g, &offer("123456", 1), NOW + 29, 77, bundle).is_ok());
}

#[test]
fn a_second_request_replaces_the_code() {
    let mut g = gateway();
    let first = request_otp(&mut g, &RequestOtpRequest { phone_number: PHONE.to_string() });
    let second = request_otp(&mut g, &RequestOtpRequest { phone_number: PHONE.to_string() });
    assert_eq!(g.codes.len(), 1);
    if first.code != second.code {
        assert_eq!(verify_otp(&mut g, &offer(&first.code, 1)), Err(CoreError::InvalidOrExpiredOtp));
        assert_eq!(g.codes.len(), 0);
    } else {
        assert!(verify_otp(&mut g, &offer(&second.code, 1)).is_ok());
    }
}
