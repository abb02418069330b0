//! The authentication gateway: passcodes sent to a phone number, the
//! enrolment of a device once its owner has proved the number, direct
//! registration, and login.

use vstd::prelude::*;
use vstd::string::*;
use crate::clock::deadline_after;
use crate::clock::unix_now;
use crate::entities::devices::DEFAULT_PLATFORM;
use crate::error::CoreError;
use crate::gateway::Gateway;
use crate::gateway::GatewayView;
use crate::ident::fresh_uuid;
use crate::keys::generate_bundle;
use crate::keys::KeyBundle;
use crate::otp::generate_otp;
use crate::otp::is_otp;
use crate::otp::PendingCodeView;
use crate::registry::Enrollment;
use crate::registry::RegistryView;
use crate::text::text_of;
use crate::token::claims_for;
use crate::token::signed;
use crate::token::TokenKind;

verus! {

/// A request for a passcode.
#[derive(Debug, Clone, PartialEq, Eq)]
pub struct RequestOtpRequest {
    pub phone_number: String,
}

/// What a request for a passcode gives: the message for the caller, and the
/// code for whoever delivers it to the phone.
#[derive(Debug, Clone, PartialEq, Eq)]
pub struct RequestOtpResponse {
    pub message: String,
    pub code: String,
}

/// A passcode offered for a phone number, with the device to enrol.
#[derive(Debug, Clone, PartialEq, Eq)]
pub struct VerifyOtpRequest {
    pub phone_number: String,
    pub otp: String,
    pub device_uuid: u128,
    pub device_name: Option<String>,
}

/// What a successful verification gives.
#[derive(Debug, Clone, PartialEq, Eq)]
pub struct VerifyOtpResponse {
    pub access_token: String,
    pub refresh_token: String,
    pub user_id: u128,
    pub device_id: i64,
    pub is_new_user: bool,
}

/// A direct registration, for deployments that prove the phone number elsewhere.
#[derive(Debug, Clone, PartialEq, Eq)]
pub struct RegisterRequest {
    pub phone_number: String,
    pub device_name: Option<String>,
    pub platform: i16,
}

/// What a successful registration gives.
#[derive(Debug, Clone, Copy, PartialEq, Eq, Structural)]
pub struct RegisterResponse {
    pub user_id: u128,
    pub device_id: i64,
    pub device_uuid: u128,
}

/// A login of a device that is already enrolled.
#[derive(Debug, Clone, PartialEq, Eq)]
pub struct LoginRequest {
    pub phone_number: String,
    pub device_uuid: u128,
}

/// What a successful login gives.
#[derive(Debug, Clone, PartialEq, Eq)]
pub struct LoginResponse {
    pub access_token: String,
    pub refresh_token: String,
    pub user_id: u128,
}

/// The message that answers a request for a passcode.
pub open spec fn otp_sent_message() -> Seq<char> {
    "OTP sent successfully"@
}

impl VerifyOtpResponse {
    /// Whether the response reports an enrolment and carries the two tokens
    /// issued at `now` for its user and device under a secret.
    pub open spec fn carries(self, e: Enrollment, now: i64, secret: Seq<char>) -> bool {
        &&& self.user_id == e.user_id
        &&& self.device_id == e.device_id
        &&& self.is_new_user == e.is_new_user
        &&& self.access_token@ == signed(
            claims_for(e.user_id, e.device_id, TokenKind::Access, now),
            secret,
        )
        &&& self.refresh_token@ == signed(
            claims_for(e.user_id, e.device_id, TokenKind::Refresh, now),
            secret,
        )
    }
}

impl LoginResponse {
    /// Whether the response carries the two tokens issued at `now` for a
    /// user's device under a secret.
    pub open spec fn carries(self, user_id: u128, device_id: i64, now: i64, secret: Seq<char>) -> bool {
        &&& self.user_id == user_id
        &&& self.access_token@ == signed(
            claims_for(user_id, device_id, TokenKind::Access, now),
            secret,
        )
        &&& self.refresh_token@ == signed(
            claims_for(user_id, device_id, TokenKind::Refresh, now),
            secret,
        )
    }
}

impl GatewayView {
    /// The code that waits for a phone number once `code` was stored at `now`.
    pub open spec fn waiting(self, code: Seq<char>, now: i64) -> PendingCodeView {
        PendingCodeView { code, expires_at: deadline_after(now, self.settings.otp_ttl) }
    }

    /// Whether a candidate is accepted for a phone number at `now`: a code
    /// waits for the number, has not run out, and equals the candidate.
    pub open spec fn code_accepted(self, phone_number: Seq<char>, candidate: Seq<char>, now: i64) -> bool {
        self.codes.contains_key(phone_number) && self.codes[phone_number].accepts(candidate, now)
    }

    /// What the enrolment of a device whose owner has proved the phone number
    /// does to the registry and what it reports, or why it fails.
    pub open spec fn enrolment(
        self,
        req: VerifyOtpRequest,
        now: i64,
        candidate: u128,
        material: Option<KeyBundle>,
    ) -> Result<(RegistryView, Enrollment), CoreError> {
        self.registry.enrolled(
            req.phone_number@,
            candidate,
            req.device_uuid,
            text_of(req.device_name),
            DEFAULT_PLATFORM,
            material,
            now,
        )
    }

    /// What a verification does to the registry and what it reports, or why
    /// it fails. `candidate` is the id that a new account would get;
    /// `material` is the key bundle made for the device, if one could be made.
    pub open spec fn verification(
        self,
        req: VerifyOtpRequest,
        now: i64,
        candidate: u128,
        material: Option<KeyBundle>,
    ) -> Result<(RegistryView, Enrollment), CoreError> {
        if !self.code_accepted(req.phone_number@, req.otp@, now) {
            Err(CoreError::InvalidOrExpiredOtp)
        } else {
            self.enrolment(req, now, candidate, material)
        }
    }

    /// What a registration does to the registry and what it reports, or why
    /// it fails.
    pub open spec fn registration(
        self,
        req: RegisterRequest,
        device_uuid: u128,
        candidate: u128,
        material: Option<KeyBundle>,
        now: i64,
    ) -> Result<(RegistryView, Enrollment), CoreError> {
        self.registry.enrolled(
            req.phone_number@,
            candidate,
            device_uuid,
            text_of(req.device_name),
            req.platform,
            material,
            now,
        )
    }

    /// The user and device that a login is for, or why it is refused: no
    /// account has the phone number, or the account has no device of the UUID.
    pub open spec fn login_target(self, req: LoginRequest) -> Result<(u128, i64), CoreError> {
        if !self.registry.phone_taken(req.phone_number@) {
            Err(CoreError::UserNotFound)
        } else {
            let user = self.registry.users[self.registry.user_index(req.phone_number@)];
            if !self.registry.device_uuid_taken(req.device_uuid) {
                Err(CoreError::DeviceNotFound)
            } else {
                let device = self.registry.devices[self.registry.device_index(req.device_uuid)];
                if device.user_id != user.user_id {
                    Err(CoreError::DeviceNotFound)
                } else {
                    Ok((user.user_id, device.device_id))
                }
            }
        }
    }
}

/// Lets `code` wait for a phone number from `now` on, in place of any code
/// that waited for it.
pub fn store_otp(gateway: &mut Gateway, phone_number: &str, code: String, now: i64)
    requires
        old(gateway).wf(),
    ensures
        final(gateway).wf(),
        final(gateway)@ == (GatewayView {
            codes: old(gateway)@.codes.insert(phone_number@, old(gateway)@.waiting(code@, now)),
            ..old(gateway)@
        }),
{
    let ttl = gateway.settings.otp_ttl;
    gateway.codes.put(phone_number, code, now, ttl);
}

/// Makes a passcode for a phone number and lets it wait, in place of any
/// code that waited for the number. The code is handed back for delivery.
///
/// The code is drawn at random and the clock is read, so the contract states
/// what holds whatever they gave: the code that now waits is the one handed
/// back, it is a passcode, and it waits from some second on.
pub fn request_otp(gateway: &mut Gateway, req: &RequestOtpRequest) -> (r: RequestOtpResponse)
    requires
        old(gateway).wf(),
    ensures
        final(gateway).wf(),
        is_otp(r.code@),
        r.message@ == otp_sent_message(),
        exists|now: i64|
            now >= 0 && final(gateway)@ == (GatewayView {
                codes: old(gateway)@.codes.insert(
                    req.phone_number@,
                    #[trigger] old(gateway)@.waiting(r.code@, now),
                ),
                ..old(gateway)@
            }),
{
    let code = generate_otp();
    let now = unix_now();
    let ghost before = gateway@;
    store_otp(gateway, req.phone_number.as_str(), code.clone(), now);
    let r = RequestOtpResponse { message: String::from_str("OTP sent successfully"), code };
    assert(gateway@ == (GatewayView {
        codes: before.codes.insert(req.phone_number@, before.waiting(r.code@, now)),
        ..before
    }));
    r
}

/// Makes the key bundle of a new device as the settings ask for it, if one
/// can be made.
pub(crate) fn draw_bundle(gateway: &Gateway) -> (r: Option<KeyBundle>)
    ensures
        gateway.settings.asks_for(r),
{
    match generate_bundle(
        gateway.settings.prekey_batch,
        gateway.settings.signed_prekey_id,
        gateway.settings.first_prekey_id,
    ) {
        Ok(bundle) => Some(bundle),
        Err(_) => None,
    }
}

/// Enrols the device of a request whose code was accepted, and issues its tokens.
fn enroll_and_issue(
    gateway: &mut Gateway,
    req: &VerifyOtpRequest,
    now: i64,
    candidate: u128,
    material: Option<KeyBundle>,
) -> (r: Result<VerifyOtpResponse, CoreError>)
    requires
        old(gateway).wf(),
    ensures
        final(gateway).wf(),
        final(gateway)@.codes == old(gateway)@.codes,
        final(gateway)@.secret == old(gateway)@.secret,
        final(gateway)@.settings == old(gateway)@.settings,
        match old(gateway)@.enrolment(*req, now, candidate, material) {
            Ok((registry, e)) => final(gateway)@.registry == registry && (r matches Ok(resp)
                && resp.carries(e, now, old(gateway)@.secret)),
            Err(e) => final(gateway)@.registry == old(gateway)@.registry && r == Err::<
                VerifyOtpResponse,
                CoreError,
            >(e),
        },
{
    let e = gateway.registry.enroll(
        req.phone_number.as_str(),
        candidate,
        req.device_uuid,
        req.device_name.clone(),
        DEFAULT_PLATFORM,
        material.as_ref(),
        now,
    )?;
    let access_token = gateway.issuer.issue(e.user_id, e.device_id, TokenKind::Access, now);
    let refresh_token = gateway.issuer.issue(e.user_id, e.device_id, TokenKind::Refresh, now);
    Ok(
        VerifyOtpResponse {
            access_token,
            refresh_token,
            user_id: e.user_id,
            device_id: e.device_id,
            is_new_user: e.is_new_user,
        },
    )
}

/// Checks a passcode and, where it is accepted, enrols the device as one
/// unit and issues its tokens. Nothing is drawn and no clock is read here:
/// `now` is the second of the call, `candidate` the id for a new account,
/// `material` the key bundle made for the device, if one could be made.
///
/// The code that waited for the phone number is gone afterwards, whatever
/// the outcome. Where the verification fails the registry is as it was.
pub fn verify_otp_with(
    gateway: &mut Gateway,
    req: &VerifyOtpRequest,
    now: i64,
    candidate: u128,
    material: Option<KeyBundle>,
) -> (r: Result<VerifyOtpResponse, CoreError>)
    requires
        old(gateway).wf(),
    ensures
        final(gateway).wf(),
        final(gateway)@.codes == old(gateway)@.codes.remove(req.phone_number@),
        final(gateway)@.secret == old(gateway)@.secret,
        final(gateway)@.settings == old(gateway)@.settings,
        match old(gateway)@.verification(*req, now, candidate, material) {
            Ok((registry, e)) => final(gateway)@.registry == registry && (r matches Ok(resp)
                && resp.carries(e, now, old(gateway)@.secret)),
            Err(e) => final(gateway)@.registry == old(gateway)@.registry && r == Err::<
                VerifyOtpResponse,
                CoreError,
            >(e),
        },
{
    if !gateway.codes.redeem(req.phone_number.as_str(), req.otp.as_str(), now) {
        return Err(CoreError::InvalidOrExpiredOtp);
    }
    enroll_and_issue(gateway, req, now, candidate, material)
}

/// Checks a passcode and, where it is accepted, enrols the device and issues
/// its tokens. The key bundle is made only once the code has been accepted.
///
/// The clock is read, and the id of a new account and the key material are
/// drawn at random, so the contract states what holds whatever they gave:
/// the outcome is that of `verify_otp_with` for some second, some id and
/// some bundle or none.
pub fn verify_otp(gateway: &mut Gateway, req: &VerifyOtpRequest) -> (r: Result<
    VerifyOtpResponse,
    CoreError,
>)
    requires
        old(gateway).wf(),
    ensures
        final(gateway).wf(),
        final(gateway)@.codes == old(gateway)@.codes.remove(req.phone_number@),
        final(gateway)@.secret == old(gateway)@.secret,
        final(gateway)@.settings == old(gateway)@.settings,
        exists|now: i64, candidate: u128, material: Option<KeyBundle>|
            now >= 0 && old(gateway)@.settings.asks_for(material) && match #[trigger] old(
                gateway,
            )@.verification(*req, now, candidate, material) {
                Ok((registry, e)) => final(gateway)@.registry == registry && (r matches Ok(resp)
                    && resp.carries(e, now, old(gateway)@.secret)),
                Err(e) => final(gateway)@.registry == old(gateway)@.registry && r == Err::<
                    VerifyOtpResponse,
                    CoreError,
                >(e),
            },
{
    let now = unix_now();
    let ghost before = gateway@;
    if !gateway.codes.redeem(req.phone_number.as_str(), req.otp.as_str(), now) {
        assert(before.verification(*req, now, 0, None) == Err::<(RegistryView, Enrollment), CoreError>(
            CoreError::InvalidOrExpiredOtp,
        ));
        return Err(CoreError::InvalidOrExpiredOtp);
    }
    let candidate = fresh_uuid();
    let material = draw_bundle(gateway);
    assert(before.verification(*req, now, candidate, material) == before.enrolment(
        *req,
        now,
        candidate,
        material,
    ));
    enroll_and_issue(gateway, req, now, candidate, material)
}

/// Registers a device directly and as one unit, without a passcode. Nothing
/// is drawn and no clock is read here: `device_uuid` is the UUID for the
/// device, `candidate` the id for a new account, `material` the key bundle
/// made for the device, if one could be made. Where the registration fails
/// the registry is as it was.
pub fn register_with(
    gateway: &mut Gateway,
    req: &RegisterRequest,
    device_uuid: u128,
    candidate: u128,
    material: Option<KeyBundle>,
    now: i64,
) -> (r: Result<RegisterResponse, CoreError>)
    requires
        old(gateway).wf(),
    ensures
        final(gateway).wf(),
        final(gateway)@.codes == old(gateway)@.codes,
        final(gateway)@.secret == old(gateway)@.secret,
        final(gateway)@.settings == old(gateway)@.settings,
        match old(gateway)@.registration(*req, device_uuid, candidate, material, now) {
            Ok((registry, e)) => final(gateway)@.registry == registry && r == Ok::<
                RegisterResponse,
                CoreError,
            >(RegisterResponse { user_id: e.user_id, device_id: e.device_id, device_uuid }),
            Err(e) => final(gateway)@.registry == old(gateway)@.registry && r == Err::<
                RegisterResponse,
                CoreError,
            >(e),
        },
{
    let e = gateway.registry.enroll(
        req.phone_number.as_str(),
        candidate,
        device_uuid,
        req.device_name.clone(),
        req.platform,
        material.as_ref(),
        now,
    )?;
    Ok(RegisterResponse { user_id: e.user_id, device_id: e.device_id, device_uuid })
}

/// Registers a device directly, under a fresh UUID.
///
/// The clock is read, and the UUID, the id of a new account and the key
/// material are drawn at random, so the contract states what holds whatever
/// they gave: the outcome is that of `register_with` for some UUID, some id,
/// some bundle or none, and some second.
pub fn register(gateway: &mut Gateway, req: &RegisterRequest) -> (r: Result<
    RegisterResponse,
    CoreError,
>)
    requires
        old(gateway).wf(),
    ensures
        final(gateway).wf(),
        final(gateway)@.codes == old(gateway)@.codes,
        final(gateway)@.secret == old(gateway)@.secret,
        final(gateway)@.settings == old(gateway)@.settings,
        exists|device_uuid: u128, candidate: u128, material: Option<KeyBundle>, now: i64|
            now >= 0 && old(gateway)@.settings.asks_for(material) && match #[trigger] old(
                gateway,
            )@.registration(
                *req,
                device_uuid,
                candidate,
                material,
                now,
            ) {
                Ok((registry, e)) => final(gateway)@.registry == registry && r == Ok::<
                    RegisterResponse,
                    CoreError,
                >(RegisterResponse { user_id: e.user_id, device_id: e.device_id, device_uuid }),
                Err(e) => final(gateway)@.registry == old(gateway)@.registry && r == Err::<
                    RegisterResponse,
                    CoreError,
                >(e),
            },
{
    let now = unix_now();
    let device_uuid = fresh_uuid();
    let candidate = fresh_uuid();
    let material = draw_bundle(gateway);
    let ghost before = gateway@;
    let r = register_with(gateway, req, device_uuid, candidate, material, now);
    assert(before.registration(*req, device_uuid, candidate, material, now) is Ok
        || before.registration(*req, device_uuid, candidate, material, now) is Err);
    r
}

/// Logs a device in at `now`: issues fresh tokens for a device that is
/// already enrolled under the account of the phone number. Nothing is ever
/// created or changed by a login.
pub fn login_at(gateway: &Gateway, req: &LoginRequest, now: i64) -> (r: Result<
    LoginResponse,
    CoreError,
>)
    requires
        gateway.wf(),
    ensures
        match gateway@.login_target(*req) {
            Ok((user_id, device_id)) => r matches Ok(resp) && resp.carries(
                user_id,
                device_id,
                now,
                gateway@.secret,
            ),
            Err(e) => r == Err::<LoginResponse, CoreError>(e),
        },
{
    let user_id = match gateway.registry.find_user_by_phone(req.phone_number.as_str()) {
        Some(user) => user.user_id,
        None => {
            return Err(CoreError::UserNotFound);
        },
    };
    let device_id = match gateway.registry.find_device_by_uuid(req.device_uuid) {
        Some(device) => {
            if device.user_id != user_id {
                return Err(CoreError::DeviceNotFound);
            }
            device.device_id
        },
        None => {
            return Err(CoreError::DeviceNotFound);
        },
    };
    let access_token = gateway.issuer.issue(user_id, device_id, TokenKind::Access, now);
    let refresh_token = gateway.issuer.issue(user_id, device_id, TokenKind::Refresh, now);
    Ok(LoginResponse { access_token, refresh_token, user_id })
}

/// Logs a device in at the current second: the outcome of `login_at` for
/// some reading of the clock.
pub fn login(gateway: &Gateway, req: &LoginRequest) -> (r: Result<LoginResponse, CoreError>)
    requires
        gateway.wf(),
    ensures
        match gateway@.login_target(*req) {
            Ok((user_id, device_id)) => r matches Ok(resp) && exists|now: i64|
                now >= 0 && #[trigger] resp.carries(user_id, device_id, now, gateway@.secret),
            Err(e) => r == Err::<LoginResponse, CoreError>(e),
        },
{
    let now = unix_now();
    login_at(gateway, req, now)
}

/// Once a code was stored for a phone number at `stored_at`, a candidate
/// is accepted for the number exactly where it equals that code and the
/// time to live has not elapsed; any other is turned away as invalid or
/// expired, the right code after the time to live included. A later request
/// replaces the code: the earlier one is then turned away. Once a code has
/// been checked, whatever the outcome, not even the right one is accepted.
pub proof fn code_is_accepted_once_and_in_time(
    g: GatewayView,
    phone_number: Seq<char>,
    earlier: Seq<char>,
    earlier_at: i64,
    code: Seq<char>,
    stored_at: i64,
    req: VerifyOtpRequest,
    now: i64,
    candidate: u128,
    material: Option<KeyBundle>,
)
    requires
        req.phone_number@ == phone_number,
    ensures
        ({
            let first = GatewayView {
                codes: g.codes.insert(phone_number, g.waiting(earlier, earlier_at)),
                ..g
            };
            let stored = GatewayView {
                codes: first.codes.insert(phone_number, first.waiting(code, stored_at)),
                ..first
            };
            let checked = GatewayView { codes: stored.codes.remove(phone_number), ..stored };
            &&& stored.code_accepted(phone_number, req.otp@, now) <==> (req.otp@ == code && now
                < deadline_after(stored_at, g.settings.otp_ttl))
            &&& stored.verification(req, now, candidate, material) == Err::<
                (RegistryView, Enrollment),
                CoreError,
            >(CoreError::InvalidOrExpiredOtp) <==> !stored.code_accepted(
                phone_number,
                req.otp@,
                now,
            )
            &&& stored.code_accepted(phone_number, req.otp@, now) ==> stored.verification(
                req,
                now,
                candidate,
                material,
            ) == stored.enrolment(req, now, candidate, material)
            &&& earlier != code ==> !stored.code_accepted(phone_number, earlier, now)
            &&& !checked.code_accepted(phone_number, code, now)
        }),
{
}

} // verus!
