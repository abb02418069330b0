use chat_core::auth::store_otp;
use chat_core::auth::verify_otp_with;
use chat_core::auth::VerifyOtpRequest;
use chat_core::digest::phone_hash;
use chat_core::error::CoreError;
use chat_core::flow::as_store_error;
use chat_core::flow::FlowAction;
use chat_core::flow::FlowEvent;
use chat_core::flow::Stage;
use chat_core::flow::VerificationFlow;
use chat_core::gateway::Gateway;
use chat_core::gateway::Settings;
use chat_core::keys::generate_bundle;
use chat_core::keys::KeyBundle;
use chat_core::token::TokenIssuer;
use chat_core::token::TokenKind;

const PHONE: &str = "+15551234567";
const NOW: i64 = 1_700_000_000;

fn issuer() -> TokenIssuer {
    TokenIssuer::new("top-secret".to_string())
}

fn request() -> VerifyOtpRequest {
    VerifyOtpRequest {
        phone_number: PHONE.to_string(),
        otp: "123456".to_string(),
        device_uuid: 1001,
        device_name: Some("phone".to_string()),
    }
}

fn bundle(count: u32) -> KeyBundle {
    generate_bundle(count, 1, 1).expect("a bundle")
}

fn started() -> VerificationFlow {
    let (flow, action) = VerificationFlow::start(request(), NOW, 77);
    assert_eq!(action, FlowAction::TakeCode { key: "otp:+15551234567".to_string() });
    assert_eq!(flow.stage, Stage::TakingCode);
    flow
}

fn code() -> FlowEvent {
    FlowEvent::Code(Some("123456".to_string()))
}

/// A flow that has found no account, inserted one and asked for keys.
fn at_keys_for_new_user() -> VerificationFlow {
    let issuer = issuer();
    let mut flow = started();
    assert_eq!(flow.step(code(), &issuer), FlowAction::Begin);
    assert_eq!(
        flow.step(FlowEvent::Done, &issuer),
        FlowAction::FindUser { phone_number: PHONE.to_string() }
    );
    match flow.step(FlowEvent::User(None), &issuer) {
        FlowAction::InsertUser(row) => {
            assert_eq!(row.user_id, 77);
            assert_eq!(row.phone_number, PHONE);
            assert_eq!(row.phone_number_hash, phone_hash(PHONE));
            assert_eq!(row.created_at, NOW);
            assert!(!row.is_deleted);
        }
        other => panic!("asked for {:?}", other),
    }
    assert_eq!(flow.step(FlowEvent::Done, &issuer), FlowAction::MakeKeys);
    flow
}

#[test]
fn flow_of_a_new_user_runs_to_the_commit() {
    let issuer = issuer();
    let mut flow = at_keys_for_new_user();
    let b = bundle(3);
    match flow.step(FlowEvent::Keys(Some(b.clone())), &issuer) {
        FlowAction::InsertDevice(row) => {
            assert_eq!(row.device_id, 0);
            assert_eq!(row.user_id, 77);
            assert_eq!(row.device_uuid, 1001);
            assert_eq!(row.device_name, Some("phone".to_string()));
            assert_eq!(row.platform, 1);
            assert_eq!(row.device_type, 1);
            assert_eq!(row.identity_key_public, b.identity.public_key);
            assert_eq!(row.signed_prekey_signature, b.signed_prekey.signature);
            assert_eq!(row.linked_by_device_id, None);
        }
        other => panic!("asked for {:?}", other),
    }
    for i in 0..3 {
        let event = if i == 0 { FlowEvent::Device(42) } else { FlowEvent::Done };
        match flow.step(event, &issuer) {
            FlowAction::InsertPrekey(row) => {
                assert_eq!(row.device_id, 42);
                assert_eq!(row.prekey_id, 1 + i as i32);
                assert_eq!(row.public_key, b.one_time_prekeys[i].public_key);
            }
            other => panic!("asked for {:?}", other),
        }
    }
    assert_eq!(flow.step(FlowEvent::Done, &issuer), FlowAction::Commit);
    match flow.step(FlowEvent::Done, &issuer) {
        FlowAction::Respond(Ok(resp)) => {
            assert_eq!(resp.user_id, 77);
            assert_eq!(resp.device_id, 42);
            assert!(resp.is_new_user);
            assert_eq!(resp.access_token, issuer.issue(77, 42, TokenKind::Access, NOW));
            assert_eq!(resp.refresh_token, issuer.issue(77, 42, TokenKind::Refresh, NOW));
        }
        other => panic!("asked for {:?}", other),
    }
    assert_eq!(flow.stage, Stage::Done);
    assert_eq!(flow.step(FlowEvent::Done, &issuer), FlowAction::Stop);
    assert_eq!(flow.step(code(), &issuer), FlowAction::Stop);
}

#[test]
fn flow_of_a_known_user_skips_the_insert() {
    let issuer = issuer();
    let mut flow = started();
    flow.step(code(), &issuer);
    flow.step(FlowEvent::Done, &issuer);
    assert_eq!(flow.step(FlowEvent::User(Some(5)), &issuer), FlowAction::MakeKeys);
    assert!(matches!(
        flow.step(FlowEvent::Keys(Some(bundle(0))), &issuer),
        FlowAction::InsertDevice(row) if row.user_id == 5
    ));
    assert_eq!(flow.step(FlowEvent::Device(9), &issuer), FlowAction::Commit);
    match flow.step(FlowEvent::Done, &issuer) {
        FlowAction::Respond(Ok(resp)) => {
            assert_eq!(resp.user_id, 5);
            assert_eq!(resp.device_id, 9);
            assert!(!resp.is_new_user);
        }
        other => panic!("asked for {:?}", other),
    }
}

#[test]
fn flow_turns_away_a_wrong_code_before_any_write() {
    let issuer = issuer();
    for stored in [None, Some("654321".to_string()), Some("12345".to_string())] {
        let mut flow = started();
        assert_eq!(
            flow.step(FlowEvent::Code(stored), &issuer),
            FlowAction::Respond(Err(CoreError::InvalidOrExpiredOtp))
        );
        assert_eq!(flow.step(FlowEvent::Done, &issuer), FlowAction::Stop);
    }
}

#[test]
fn flow_reports_a_code_store_that_fails() {
    let issuer = issuer();
    let mut flow = started();
    assert_eq!(
        flow.step(FlowEvent::Failed(CoreError::ConflictError), &issuer),
        FlowAction::Respond(Err(CoreError::StoreUnavailable))
    );
}

#[test]
fn flow_does_not_roll_back_a_unit_that_never_began() {
    let issuer = issuer();
    let mut flow = started();
    flow.step(code(), &issuer);
    assert_eq!(
        flow.step(FlowEvent::Failed(CoreError::StoreUnavailable), &issuer),
        FlowAction::Respond(Err(CoreError::StoreUnavailable))
    );
}

#[test]
fn flow_rolls_back_when_the_device_insert_conflicts() {
    let issuer = issuer();
    let mut flow = at_keys_for_new_user();
    flow.step(FlowEvent::Keys(Some(bundle(2))), &issuer);
    assert_eq!(flow.step(FlowEvent::Failed(CoreError::ConflictError), &issuer), FlowAction::Rollback);
    assert_eq!(flow.stage, Stage::RollingBack { error: CoreError::ConflictError });
    assert_eq!(
        flow.step(FlowEvent::Done, &issuer),
        FlowAction::Respond(Err(CoreError::ConflictError))
    );
    assert_eq!(flow.step(FlowEvent::Done, &issuer), FlowAction::Stop);
}

#[test]
fn flow_rolls_back_when_a_prekey_insert_fails() {
    let issuer = issuer();
    let mut flow = at_keys_for_new_user();
    flow.step(FlowEvent::Keys(Some(bundle(5))), &issuer);
    flow.step(FlowEvent::Device(1), &issuer);
    flow.step(FlowEvent::Done, &issuer);
    assert_eq!(
        flow.step(FlowEvent::Failed(CoreError::TransactionAborted), &issuer),
        FlowAction::Rollback
    );
    assert_eq!(
        flow.step(FlowEvent::Failed(CoreError::StoreUnavailable), &issuer),
        FlowAction::Respond(Err(CoreError::TransactionAborted))
    );
}

#[test]
fn flow_rolls_back_when_the_commit_fails() {
    let issuer = issuer();
    let mut flow = at_keys_for_new_user();
    flow.step(FlowEvent::Keys(Some(bundle(0))), &issuer);
    assert_eq!(flow.step(FlowEvent::Device(1), &issuer), FlowAction::Commit);
    assert_eq!(flow.step(FlowEvent::Failed(CoreError::StoreUnavailable), &issuer), FlowAction::Rollback);
    assert_eq!(
        flow.step(FlowEvent::Done, &issuer),
        FlowAction::Respond(Err(CoreError::StoreUnavailable))
    );
}

#[test]
fn flow_rolls_back_without_keys() {
    let issuer = issuer();
    let mut flow = at_keys_for_new_user();
    assert_eq!(flow.step(FlowEvent::Keys(None), &issuer), FlowAction::Rollback);
    assert_eq!(
        flow.step(FlowEvent::Done, &issuer),
        FlowAction::Respond(Err(CoreError::KeyGenerationError))
    );
}

#[test]
fn flow_rolls_back_on_keys_whose_signature_fails() {
    let issuer = issuer();
    let mut flow = at_keys_for_new_user();
    let mut b = bundle(2);
    b.signed_prekey.signature[3] ^= 8;
    assert_eq!(flow.step(FlowEvent::Keys(Some(b)), &issuer), FlowAction::Rollback);
    assert_eq!(
        flow.step(FlowEvent::Done, &issuer),
        FlowAction::Respond(Err(CoreError::KeyGenerationError))
    );
}

#[test]
fn flow_rolls_back_on_a_report_it_did_not_ask_for() {
    let issuer = issuer();
    let mut flow = at_keys_for_new_user();
    assert_eq!(flow.step(FlowEvent::Device(3), &issuer), FlowAction::Rollback);
    assert_eq!(
        flow.step(FlowEvent::Done, &issuer),
        FlowAction::Respond(Err(CoreError::TransactionAborted))
    );
    let mut flow = started();
    flow.step(code(), &issuer);
    flow.step(FlowEvent::Done, &issuer);
    assert_eq!(flow.step(FlowEvent::Done, &issuer), FlowAction::Rollback);
}

#[test]
fn store_failures_are_conflicts_or_can_be_tried_again() {
    assert_eq!(as_store_error(CoreError::ConflictError), CoreError::ConflictError);
    assert_eq!(as_store_error(CoreError::StoreUnavailable), CoreError::StoreUnavailable);
    assert_eq!(as_store_error(CoreError::TransactionAborted), CoreError::TransactionAborted);
    assert_eq!(as_store_error(CoreError::UserNotFound), CoreError::TransactionAborted);
    assert_eq!(as_store_error(CoreError::InvalidOrExpiredOtp), CoreError::TransactionAborted);
    assert_eq!(as_store_error(CoreError::KeyGenerationError), CoreError::TransactionAborted);
}

#[test]
fn flow_and_gateway_answer_alike() {
    let issuer = issuer();
    let b = bundle(4);
    let mut g = Gateway::new("top-secret".to_string(), Settings::standard());
    store_otp(&mut g, PHONE, "123456".to_string(), NOW - 10);
    let expected = verify_otp_with(&mut g, &request(), NOW, 77, Some(b.clone())).expect("verified");

    let mut flow = at_keys_for_new_user();
    flow.step(FlowEvent::Keys(Some(b)), &issuer);
    let mut action = flow.step(FlowEvent::Device(expected.device_id), &issuer);
    let mut prekeys = 0;
    while matches!(action, FlowAction::InsertPrekey(_)) {
        prekeys += 1;
        action = flow.step(FlowEvent::Done, &issuer);
    }
    assert_eq!(prekeys, 4);
    assert_eq!(action, FlowAction::Commit);
    assert_eq!(flow.step(FlowEvent::Done, &issuer), FlowAction::Respond(Ok(expected)));
}
