use chat_core::clock::deadline;
use chat_core::entities::devices::DeviceType;
use chat_core::error::CoreError;
use chat_core::gateway::Gateway;
use chat_core::gateway::Settings;
use chat_core::ident::uuid_text;
use chat_core::text::bytes_equal;
use chat_core::text::text_equal;

#[test]
fn deadline_adds_the_span() {
    assert_eq!(deadline(0, 0), 0);
    assert_eq!(deadline(100, 180), 280);
    assert_eq!(deadline(-50, 20), -30);
    assert_eq!(deadline(i64::MIN, u32::MAX), i64::MIN + u32::MAX as i64);
}

#[test]
fn deadline_stops_at_the_last_second() {
    assert_eq!(deadline(i64::MAX, 1), i64::MAX);
    assert_eq!(deadline(i64::MAX - 5, 5), i64::MAX);
    assert_eq!(deadline(i64::MAX - 5, 6), i64::MAX);
    assert_eq!(deadline(i64::MAX - 5, 4), i64::MAX - 1);
}

#[test]
fn uuid_text_is_hyphenated_lower_case() {
    assert_eq!(uuid_text(0), "00000000-0000-0000-0000-000000000000");
    assert_eq!(uuid_text(u128::MAX), "ffffffff-ffff-ffff-ffff-ffffffffffff");
    assert_eq!(
        uuid_text(0x0123_4567_89ab_cdef_0123_4567_89ab_cdef),
        "01234567-89ab-cdef-0123-456789abcdef"
    );
    assert_eq!(uuid_text(0xa), "00000000-0000-0000-0000-00000000000a");
    assert_eq!(uuid_text(0xF << 124), "f0000000-0000-0000-0000-000000000000");
}

#[test]
fn texts_are_compared_whole() {
    assert!(text_equal("", ""));
    assert!(text_equal("123456", "123456"));
    assert!(!text_equal("123456", "123450"));
    assert!(!text_equal("023456", "123456"));
    assert!(!text_equal("12345", "123456"));
    assert!(text_equal("größe", "größe"));
    assert!(!text_equal("größe", "grösse"));
}

#[test]
fn bytes_are_compared_whole() {
    assert!(bytes_equal(&[], &[]));
    assert!(bytes_equal(&[1, 2, 3], &[1, 2, 3]));
    assert!(!bytes_equal(&[1, 2, 3], &[1, 2, 4]));
    assert!(!bytes_equal(&[0, 2, 3], &[128, 2, 3]));
    assert!(!bytes_equal(&[1, 2], &[1, 2, 3]));
}

#[test]
fn errors_have_their_messages() {
    assert_eq!(CoreError::InvalidOrExpiredOtp.message(), "Invalid or expired OTP");
    assert_eq!(CoreError::UserNotFound.message(), "User not found");
    assert_eq!(CoreError::DeviceNotFound.message(), "Device not found");
    assert_eq!(CoreError::LinkingSessionNotFound.message(), "Linking session not found");
    assert_eq!(CoreError::InvalidSessionState.message(), "Invalid session state");
    assert_eq!(CoreError::ConflictError.message(), "Conflict");
    assert_eq!(CoreError::KeyGenerationError.message(), "Key generation failed");
    assert_eq!(CoreError::StoreUnavailable.message(), "Store unavailable");
    assert_eq!(CoreError::TransactionAborted.message(), "Transaction aborted");
}

#[test]
fn only_store_failures_can_be_tried_again() {
    assert!(CoreError::StoreUnavailable.is_retryable());
    assert!(CoreError::TransactionAborted.is_retryable());
    for e in [
        CoreError::InvalidOrExpiredOtp,
        CoreError::UserNotFound,
        CoreError::DeviceNotFound,
        CoreError::LinkingSessionNotFound,
        CoreError::InvalidSessionState,
        CoreError::ConflictError,
        CoreError::KeyGenerationError,
    ] {
        assert!(!e.is_retryable());
    }
}

#[test]
fn device_types_have_their_codes() {
    assert_eq!(DeviceType::Primary.code(), 1);
    assert_eq!(DeviceType::Linked.code(), 2);
}

#[test]
fn a_new_gateway_is_empty() {
    let g = Gateway::new("s".to_string(), Settings::standard());
    assert_eq!(g.codes.len(), 0);
    assert_eq!(g.registry.user_count(), 0);
    assert_eq!(g.registry.device_count(), 0);
    assert_eq!(g.registry.prekey_count(), 0);
    assert_eq!(g.registry.session_count(), 0);
    assert_eq!(g.settings.prekey_batch, 100);
    assert_eq!(g.settings.first_prekey_id, 1);
    assert_eq!(g.settings.signed_prekey_id, 1);
    assert_eq!(g.settings.linking_ttl, 300);
}
