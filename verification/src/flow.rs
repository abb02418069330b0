//! The verification of a passcode as a sequence of decisions, for a service
//! that keeps its codes and its records in stores of its own.
//!
//! The flow never touches a store. It names the next thing to do; the
//! service does it and reports what came of it; the flow decides again. All
//! writes happen inside one unit of work: once the unit has begun, a failure
//! of any kind is answered by rolling the unit back, and success is reported
//! only after the commit.

use vstd::prelude::*;
use vstd::string::*;
use crate::auth::VerifyOtpRequest;
use crate::auth::VerifyOtpResponse;
use crate::digest::phone_hash;
use crate::entities::devices;
use crate::entities::devices::DeviceType;
use crate::entities::devices::DEFAULT_PLATFORM;
use crate::entities::one_time_prekeys;
use crate::entities::users;
use crate::error::CoreError;
use crate::keys::KeyBundle;
use crate::otp::otp_key;
use crate::otp::otp_key_of;
use crate::otp::otp_matches;
use crate::registry::device_row;
use crate::registry::prekey_rows;
use crate::registry::user_row;
use crate::registry::Enrollment;
use crate::text::text_of;
use crate::token::TokenIssuer;
use crate::token::TokenKind;

verus! {

/// Where a flow stands: what it has asked for and waits to hear of.
#[derive(Debug, Clone, Copy, PartialEq, Eq, Structural)]
pub enum Stage {
    /// The code that waits for the phone number, taken out of its store.
    TakingCode,
    /// The start of the unit of work.
    Beginning,
    /// The account of the phone number.
    FindingUser,
    /// The insert of a new account.
    InsertingUser,
    /// The key bundle of the new device.
    MakingKeys { user_id: u128, is_new_user: bool },
    /// The insert of the device, which gives the device its id.
    InsertingDevice { user_id: u128, is_new_user: bool },
    /// The insert of the one-time prekey at `index` of the bundle.
    InsertingPrekey { user_id: u128, is_new_user: bool, device_id: i64, index: usize },
    /// The commit of the unit of work.
    Committing { user_id: u128, is_new_user: bool, device_id: i64 },
    /// The rollback of the unit of work after `error`.
    RollingBack { error: CoreError },
    /// Nothing: the answer has been given.
    Done,
}

/// What the service reports.
#[derive(Clone, PartialEq, Eq)]
pub enum FlowEvent {
    /// The code that waited, if one did.
    Code(Option<String>),
    /// What was asked for has been done.
    Done,
    /// The id of the account that was looked for, if there is one.
    User(Option<u128>),
    /// The key bundle, if one could be made.
    Keys(Option<KeyBundle>),
    /// The id that the store gave the device.
    Device(i64),
    /// What was asked for has failed.
    Failed(CoreError),
}

/// What the flow asks the service to do.
#[derive(Debug, PartialEq, Eq)]
pub enum FlowAction {
    /// Take the code under `key` out of the code store; report `Code`.
    TakeCode { key: String },
    /// Begin a unit of work; report `Done`.
    Begin,
    /// Look for the account of the phone number; report `User`.
    FindUser { phone_number: String },
    /// Insert the account; report `Done`.
    InsertUser(users::Model),
    /// Make a key bundle; report `Keys`.
    MakeKeys,
    /// Insert the device, whose id the store assigns; report `Device`.
    InsertDevice(devices::Model),
    /// Insert the one-time prekey; report `Done`.
    InsertPrekey(one_time_prekeys::Model),
    /// Commit the unit of work; report `Done`.
    Commit,
    /// Roll the unit of work back; report `Done`.
    Rollback,
    /// Answer the caller.
    Respond(Result<VerifyOtpResponse, CoreError>),
    /// Do nothing more.
    Stop,
}

/// What kind of thing the flow asks for.
#[derive(Debug, Clone, Copy, PartialEq, Eq, Structural)]
pub enum ActionKind {
    TakeCode,
    Begin,
    FindUser,
    InsertUser,
    MakeKeys,
    InsertDevice,
    InsertPrekey,
    Commit,
    Rollback,
    RespondOk,
    RespondErr(CoreError),
    Stop,
}

/// The kind of an action.
pub open spec fn kind_of(action: FlowAction) -> ActionKind {
    match action {
        FlowAction::TakeCode { .. } => ActionKind::TakeCode,
        FlowAction::Begin => ActionKind::Begin,
        FlowAction::FindUser { .. } => ActionKind::FindUser,
        FlowAction::InsertUser(_) => ActionKind::InsertUser,
        FlowAction::MakeKeys => ActionKind::MakeKeys,
        FlowAction::InsertDevice(_) => ActionKind::InsertDevice,
        FlowAction::InsertPrekey(_) => ActionKind::InsertPrekey,
        FlowAction::Commit => ActionKind::Commit,
        FlowAction::Rollback => ActionKind::Rollback,
        FlowAction::Respond(Ok(_)) => ActionKind::RespondOk,
        FlowAction::Respond(Err(e)) => ActionKind::RespondErr(e),
        FlowAction::Stop => ActionKind::Stop,
    }
}

/// The failure that is reported for a failure of a store: a conflict stays
/// a conflict, and everything else can be tried again.
pub open spec fn store_error(e: CoreError) -> CoreError {
    if e == CoreError::ConflictError || e == CoreError::StoreUnavailable {
        e
    } else {
        CoreError::TransactionAborted
    }
}

/// The failure that is reported for a failure of a store.
pub fn as_store_error(e: CoreError) -> (r: CoreError)
    ensures
        r == store_error(e),
{
    match e {
        CoreError::ConflictError => CoreError::ConflictError,
        CoreError::StoreUnavailable => CoreError::StoreUnavailable,
        _ => CoreError::TransactionAborted,
    }
}

/// What a flow decides: where it stands next, which bundle it holds, and
/// what kind of thing it asks for.
pub struct Decision {
    pub stage: Stage,
    pub bundle: Option<KeyBundle>,
    pub kind: ActionKind,
}

/// One verification under way.
pub struct VerificationFlow {
    pub request: VerifyOtpRequest,
    /// The second of the verification.
    pub now: i64,
    /// The id that a new account gets.
    pub candidate: u128,
    pub stage: Stage,
    /// The key bundle of the new device, once it is made.
    pub bundle: Option<KeyBundle>,
}

impl VerificationFlow {
    /// The decision to roll back after `error`.
    pub open spec fn rolls_back(self, error: CoreError) -> Decision {
        Decision {
            stage: Stage::RollingBack { error },
            bundle: self.bundle,
            kind: ActionKind::Rollback,
        }
    }

    /// The decision to answer with `error` without a rollback: no unit of
    /// work is open.
    pub open spec fn gives_up(self, error: CoreError) -> Decision {
        Decision { stage: Stage::Done, bundle: self.bundle, kind: ActionKind::RespondErr(error) }
    }

    /// The decision to go on to `stage` and ask for a thing of `kind`.
    pub open spec fn goes_on(self, stage: Stage, kind: ActionKind) -> Decision {
        Decision { stage, bundle: self.bundle, kind }
    }

    /// The decision after the last insert before the prekey at `index`: the
    /// insert of that prekey, or the commit where the bundle has no more.
    pub open spec fn after_insert(
        self,
        user_id: u128,
        is_new_user: bool,
        device_id: i64,
        index: int,
    ) -> Decision {
        match self.bundle {
            Some(bundle) => if index < bundle.one_time_prekeys@.len() {
                self.goes_on(
                    Stage::InsertingPrekey { user_id, is_new_user, device_id, index: index as usize },
                    ActionKind::InsertPrekey,
                )
            } else {
                self.goes_on(
                    Stage::Committing { user_id, is_new_user, device_id },
                    ActionKind::Commit,
                )
            },
            None => self.rolls_back(CoreError::KeyGenerationError),
        }
    }

    /// What the flow decides on an event.
    ///
    /// Before the unit of work has begun, a failure is answered at once.
    /// From then on every failure, and every report that does not answer
    /// what was asked, leads to a rollback, and the answer follows the
    /// rollback. Success is answered on the report of the commit alone.
    pub open spec fn decision(self, event: FlowEvent) -> Decision {
        match self.stage {
            Stage::TakingCode => match event {
                FlowEvent::Code(stored) => if stored matches Some(code) && code@
                    == self.request.otp@ {
                    self.goes_on(Stage::Beginning, ActionKind::Begin)
                } else {
                    self.gives_up(CoreError::InvalidOrExpiredOtp)
                },
                _ => self.gives_up(CoreError::StoreUnavailable),
            },
            Stage::Beginning => match event {
                FlowEvent::Done => self.goes_on(Stage::FindingUser, ActionKind::FindUser),
                _ => self.gives_up(CoreError::StoreUnavailable),
            },
            Stage::FindingUser => match event {
                FlowEvent::User(Some(user_id)) => self.goes_on(
                    Stage::MakingKeys { user_id, is_new_user: false },
                    ActionKind::MakeKeys,
                ),
                FlowEvent::User(None) => self.goes_on(Stage::InsertingUser, ActionKind::InsertUser),
                FlowEvent::Failed(e) => self.rolls_back(store_error(e)),
                _ => self.rolls_back(CoreError::TransactionAborted),
            },
            Stage::InsertingUser => match event {
                FlowEvent::Done => self.goes_on(
                    Stage::MakingKeys { user_id: self.candidate, is_new_user: true },
                    ActionKind::MakeKeys,
                ),
                FlowEvent::Failed(e) => self.rolls_back(store_error(e)),
                _ => self.rolls_back(CoreError::TransactionAborted),
            },
            Stage::MakingKeys { user_id, is_new_user } => match event {
                FlowEvent::Keys(Some(bundle)) => if bundle.self_consistent() {
                    Decision {
                        stage: Stage::InsertingDevice { user_id, is_new_user },
                        bundle: Some(bundle),
                        kind: ActionKind::InsertDevice,
                    }
                } else {
                    self.rolls_back(CoreError::KeyGenerationError)
                },
                FlowEvent::Keys(None) => self.rolls_back(CoreError::KeyGenerationError),
                FlowEvent::Failed(e) => self.rolls_back(store_error(e)),
                _ => self.rolls_back(CoreError::TransactionAborted),
            },
            Stage::InsertingDevice { user_id, is_new_user } => match event {
                FlowEvent::Device(device_id) => self.after_insert(
                    user_id,
                    is_new_user,
                    device_id,
                    0,
                ),
                FlowEvent::Failed(e) => self.rolls_back(store_error(e)),
                _ => self.rolls_back(CoreError::TransactionAborted),
            },
            Stage::InsertingPrekey { user_id, is_new_user, device_id, index } => match event {
                FlowEvent::Done => if index < usize::MAX {
                    self.after_insert(user_id, is_new_user, device_id, index + 1)
                } else {
                    self.rolls_back(CoreError::TransactionAborted)
                },
                FlowEvent::Failed(e) => self.rolls_back(store_error(e)),
                _ => self.rolls_back(CoreError::TransactionAborted),
            },
            Stage::Committing { user_id, is_new_user, device_id } => match event {
                FlowEvent::Done => self.goes_on(Stage::Done, ActionKind::RespondOk),
                FlowEvent::Failed(e) => self.rolls_back(store_error(e)),
                _ => self.rolls_back(CoreError::TransactionAborted),
            },
            Stage::RollingBack { error } => self.gives_up(error),
            Stage::Done => self.goes_on(Stage::Done, ActionKind::Stop),
        }
    }

    /// Whether an action carries what the flow, standing as `self` stood
    /// before the decision, asks for: the key of the phone number, the
    /// account, device and prekey records as the registry would create
    /// them (the device without an id, which the store assigns), and in the
    /// answer the tokens issued at the second of the verification.
    pub open spec fn fills(self, decided: Decision, action: FlowAction, secret: Seq<char>) -> bool {
        match action {
            FlowAction::TakeCode { key } => key@ == otp_key_of(self.request.phone_number@),
            FlowAction::FindUser { phone_number } => phone_number@ == self.request.phone_number@,
            FlowAction::InsertUser(row) => row@ == user_row(
                self.candidate,
                self.request.phone_number@,
                self.now,
            ),
            FlowAction::InsertDevice(row) => decided.stage matches Stage::InsertingDevice {
                user_id,
                ..
            } && decided.bundle matches Some(bundle) && row@ == device_row(
                0,
                user_id,
                self.request.device_uuid,
                text_of(self.request.device_name),
                DEFAULT_PLATFORM,
                DeviceType::Primary,
                None,
                bundle,
                self.now,
            ),
            FlowAction::InsertPrekey(row) => decided.stage matches Stage::InsertingPrekey {
                device_id,
                index,
                ..
            } && decided.bundle matches Some(bundle) && index < bundle.one_time_prekeys@.len() && row@
                == prekey_rows(device_id, bundle)[index as int],
            FlowAction::Respond(Ok(resp)) => self.stage matches Stage::Committing {
                user_id,
                is_new_user,
                device_id,
            } && resp.carries(Enrollment { user_id, device_id, is_new_user }, self.now, secret),
            _ => true,
        }
    }

    /// Starts the verification of a request at `now`. A new account would
    /// get the id `candidate`. The first thing asked for is the code.
    pub fn start(request: VerifyOtpRequest, now: i64, candidate: u128) -> (r: (
        VerificationFlow,
        FlowAction,
    ))
        ensures
            r.0.request == request,
            r.0.now == now,
            r.0.candidate == candidate,
            r.0.stage == Stage::TakingCode,
            r.0.bundle is None,
            r.1 matches FlowAction::TakeCode { key } && key@ == otp_key_of(request.phone_number@),
    {
        let key = otp_key(request.phone_number.as_str());
        (
            VerificationFlow { request, now, candidate, stage: Stage::TakingCode, bundle: None },
            FlowAction::TakeCode { key },
        )
    }

    /// Turns to the rollback after `error`.
    fn roll_back(&mut self, error: CoreError) -> (r: FlowAction)
        ensures
            final(self).request == old(self).request,
            final(self).now == old(self).now,
            final(self).candidate == old(self).candidate,
            final(self).bundle == old(self).bundle,
            final(self).stage == (Stage::RollingBack { error }),
            r == FlowAction::Rollback,
    {
        self.stage = Stage::RollingBack { error };
        FlowAction::Rollback
    }

    /// Answers with `error` where no unit of work is open.
    fn give_up(&mut self, error: CoreError) -> (r: FlowAction)
        ensures
            final(self).request == old(self).request,
            final(self).now == old(self).now,
            final(self).candidate == old(self).candidate,
            final(self).bundle == old(self).bundle,
            final(self).stage == Stage::Done,
            r == FlowAction::Respond(Err(error)),
    {
        self.stage = Stage::Done;
        FlowAction::Respond(Err(error))
    }

    /// Turns to the insert of the prekey at `index`, or to the commit where
    /// the bundle has no more.
    fn insert_next(&mut self, user_id: u128, is_new_user: bool, device_id: i64, index: usize) -> (r:
        FlowAction)
        ensures
            final(self).request == old(self).request,
            final(self).now == old(self).now,
            final(self).candidate == old(self).candidate,
            final(self).bundle == old(self).bundle,
            final(self).stage == old(self).after_insert(
                user_id,
                is_new_user,
                device_id,
                index as int,
            ).stage,
            kind_of(r) == old(self).after_insert(user_id, is_new_user, device_id, index as int).kind,
            r matches FlowAction::InsertPrekey(row) ==> old(self).bundle matches Some(bundle)
                && index < bundle.one_time_prekeys@.len() && row@ == prekey_rows(
                device_id,
                bundle,
            )[index as int],
    {
        let next = match &self.bundle {
            Some(bundle) => {
                if index < bundle.one_time_prekeys.len() {
                    Some(
                        one_time_prekeys::Model {
                            device_id,
                            prekey_id: bundle.one_time_prekeys[index].id,
                            public_key: bundle.one_time_prekeys[index].public_key.clone(),
                        },
                    )
                } else {
                    None
                }
            },
            None => {
                return self.roll_back(CoreError::KeyGenerationError);
            },
        };
        match next {
            Some(row) => {
                self.stage = Stage::InsertingPrekey { user_id, is_new_user, device_id, index };
                FlowAction::InsertPrekey(row)
            },
            None => {
                self.stage = Stage::Committing { user_id, is_new_user, device_id };
                FlowAction::Commit
            },
        }
    }

    /// Takes the report of the service and names the next thing to do.
    pub fn step(&mut self, event: FlowEvent, issuer: &TokenIssuer) -> (r: FlowAction)
        ensures
            final(self).request == old(self).request,
            final(self).now == old(self).now,
            final(self).candidate == old(self).candidate,
            final(self).stage == old(self).decision(event).stage,
            final(self).bundle == old(self).decision(event).bundle,
            kind_of(r) == old(self).decision(event).kind,
            old(self).fills(old(self).decision(event), r, issuer.secret()),
    {
        match self.stage {
            Stage::TakingCode => match event {
                FlowEvent::Code(stored) => {
                    let accepted = match &stored {
                        Some(code) => otp_matches(Some(code.as_str()), self.request.otp.as_str()),
                        None => false,
                    };
                    if accepted {
                        self.stage = Stage::Beginning;
                        FlowAction::Begin
                    } else {
                        self.give_up(CoreError::InvalidOrExpiredOtp)
                    }
                },
                _ => self.give_up(CoreError::StoreUnavailable),
            },
            Stage::Beginning => match event {
                FlowEvent::Done => {
                    self.stage = Stage::FindingUser;
                    FlowAction::FindUser { phone_number: self.request.phone_number.clone() }
                },
                _ => self.give_up(CoreError::StoreUnavailable),
            },
            Stage::FindingUser => match event {
                FlowEvent::User(Some(user_id)) => {
                    self.stage = Stage::MakingKeys { user_id, is_new_user: false };
                    FlowAction::MakeKeys
                },
                FlowEvent::User(None) => {
                    let row = users::Model {
                        user_id: self.candidate,
                        phone_number: self.request.phone_number.clone(),
                        phone_number_hash: phone_hash(self.request.phone_number.as_str()),
                        display_name: None,
                        is_deleted: false,
                        created_at: self.now,
                        updated_at: self.now,
                    };
                    self.stage = Stage::InsertingUser;
                    FlowAction::InsertUser(row)
                },
                FlowEvent::Failed(e) => self.roll_back(as_store_error(e)),
                _ => self.roll_back(CoreError::TransactionAborted),
            },
            Stage::InsertingUser => match event {
                FlowEvent::Done => {
                    self.stage = Stage::MakingKeys { user_id: self.candidate, is_new_user: true };
                    FlowAction::MakeKeys
                },
                FlowEvent::Failed(e) => self.roll_back(as_store_error(e)),
                _ => self.roll_back(CoreError::TransactionAborted),
            },
            Stage::MakingKeys { user_id, is_new_user } => match event {
                FlowEvent::Keys(Some(bundle)) => {
                    if bundle.check() {
                        let row = devices::Model {
                            device_id: 0,
                            user_id,
                            device_uuid: self.request.device_uuid,
                            device_name: self.request.device_name.clone(),
                            platform: DEFAULT_PLATFORM,
                            identity_key_public: bundle.identity.public_key.clone(),
                            registration_id: bundle.registration_id,
                            signed_prekey_id: bundle.signed_prekey.id,
                            signed_prekey_public: bundle.signed_prekey.public_key.clone(),
                            signed_prekey_signature: bundle.signed_prekey.signature.clone(),
                            last_seen_at: self.now,
                            created_at: self.now,
                            device_type: DeviceType::Primary.code(),
                            is_active: true,
                            linked_at: None,
                            linked_by_device_id: None,
                        };
                        self.bundle = Some(bundle);
                        self.stage = Stage::InsertingDevice { user_id, is_new_user };
                        FlowAction::InsertDevice(row)
                    } else {
                        self.roll_back(CoreError::KeyGenerationError)
                    }
                },
                FlowEvent::Keys(None) => self.roll_back(CoreError::KeyGenerationError),
                FlowEvent::Failed(e) => self.roll_back(as_store_error(e)),
                _ => self.roll_back(CoreError::TransactionAborted),
            },
            Stage::InsertingDevice { user_id, is_new_user } => match event {
                FlowEvent::Device(device_id) => self.insert_next(user_id, is_new_user, device_id, 0),
                FlowEvent::Failed(e) => self.roll_back(as_store_error(e)),
                _ => self.roll_back(CoreError::TransactionAborted),
            },
            Stage::InsertingPrekey { user_id, is_new_user, device_id, index } => match event {
                FlowEvent::Done => {
                    if index == usize::MAX {
                        self.roll_back(CoreError::TransactionAborted)
                    } else {
                        self.insert_next(user_id, is_new_user, device_id, index + 1)
                    }
                },
                FlowEvent::Failed(e) => self.roll_back(as_store_error(e)),
                _ => self.roll_back(CoreError::TransactionAborted),
            },
            Stage::Committing { user_id, is_new_user, device_id } => match event {
                FlowEvent::Done => {
                    let access_token = issuer.issue(user_id, device_id, TokenKind::Access, self.now);
                    let refresh_token = issuer.issue(
                        user_id,
                        device_id,
                        TokenKind::Refresh,
                        self.now,
                    );
                    self.stage = Stage::Done;
                    FlowAction::Respond(
                        Ok(
                            VerifyOtpResponse {
                                access_token,
                                refresh_token,
                                user_id,
                                device_id,
                                is_new_user,
                            },
                        ),
                    )
                },
                FlowEvent::Failed(e) => self.roll_back(as_store_error(e)),
                _ => self.roll_back(CoreError::TransactionAborted),
            },
            Stage::RollingBack { error } => self.give_up(error),
            Stage::Done => FlowAction::Stop,
        }
    }
}

impl ActionKind {
    /// Whether the kind is an answer to the caller.
    pub open spec fn answers(self) -> bool {
        self is RespondOk || self is RespondErr
    }

    /// Whether the kind is neither an answer nor the end.
    pub open spec fn works(self) -> bool {
        !self.answers() && self != ActionKind::Stop
    }
}

/// What is asked for up to the search for the account and, where there is
/// none, the insert of a new one.
pub open spec fn lead(is_new_user: bool) -> Seq<ActionKind> {
    if is_new_user {
        seq![ActionKind::TakeCode, ActionKind::Begin, ActionKind::FindUser, ActionKind::InsertUser]
    } else {
        seq![ActionKind::TakeCode, ActionKind::Begin, ActionKind::FindUser]
    }
}

/// What is asked for up to the insert of the first `prekeys` one-time prekeys.
pub open spec fn body(is_new_user: bool, prekeys: int) -> Seq<ActionKind> {
    lead(is_new_user) + seq![ActionKind::MakeKeys, ActionKind::InsertDevice] + Seq::new(
        prekeys as nat,
        |i: int| ActionKind::InsertPrekey,
    )
}

/// Everything that a successful verification asks for, in order: the code,
/// the unit of work, the account, the keys, the device, each of
/// `prekeys` one-time prekeys, the commit, and the answer.
pub open spec fn success(is_new_user: bool, prekeys: int) -> Seq<ActionKind> {
    body(is_new_user, prekeys) + seq![ActionKind::Commit, ActionKind::RespondOk]
}

/// Whether what was asked for at `i`, if anything, is neither an answer
/// nor the end.
pub open spec fn works_at(history: Seq<ActionKind>, i: int) -> bool {
    0 <= i < history.len() ==> history[i].works()
}

/// Whether nothing asked for so far is an answer or the end.
pub open spec fn all_work(history: Seq<ActionKind>) -> bool {
    forall|i: int| #[trigger] works_at(history, i)
}

/// Whether the history up to `r` is all that a successful verification
/// asks for, in order.
pub open spec fn success_at(history: Seq<ActionKind>, r: int) -> bool {
    exists|is_new_user: bool, prekeys: int|
        prekeys >= 0 && history.subrange(0, r + 1) == #[trigger] success(is_new_user, prekeys)
}

/// Success, where it is answered at `r`, is answered at the end of a
/// whole sequence of a successful verification.
pub open spec fn success_rule(history: Seq<ActionKind>, r: int) -> bool {
    0 <= r < history.len() && history[r] == ActionKind::RespondOk ==> success_at(history, r)
}

/// A failure, where it is answered at `r` once the unit of work has begun,
/// is answered right after the rollback.
pub open spec fn failure_rule(history: Seq<ActionKind>, r: int) -> bool {
    3 <= r < history.len() && history[2] == ActionKind::FindUser && history[r] is RespondErr
        ==> history[r - 1] == ActionKind::Rollback
}

/// After an answer at `r`, nothing is asked for at `j`.
pub open spec fn end_rule(history: Seq<ActionKind>, r: int, j: int) -> bool {
    0 <= r < j < history.len() && history[r].answers() ==> history[j] == ActionKind::Stop
}

/// Whether a history is that of one unit of work: success is answered at
/// the end of a whole `success` and nowhere else; a failure that is answered
/// once the unit has begun follows the rollback; after an answer nothing
/// more is asked for.
pub open spec fn one_unit(history: Seq<ActionKind>) -> bool {
    &&& forall|r: int| #[trigger] success_rule(history, r)
    &&& forall|r: int| #[trigger] failure_rule(history, r)
    &&& forall|r: int, j: int| #[trigger] end_rule(history, r, j)
}

impl VerificationFlow {
    /// The flow after it has decided on an event.
    pub open spec fn after(self, event: FlowEvent) -> VerificationFlow {
        VerificationFlow {
            stage: self.decision(event).stage,
            bundle: self.decision(event).bundle,
            ..self
        }
    }

    /// The flow after it has decided on each of the events in turn.
    pub open spec fn reached(self, events: Seq<FlowEvent>) -> VerificationFlow
        decreases events.len(),
    {
        if events.len() == 0 {
            self
        } else {
            self.reached(events.drop_last()).after(events.last())
        }
    }

    /// What a flow that has just started has asked for once it has decided
    /// on each of the events in turn: first the code, then one thing for
    /// each event.
    pub open spec fn asked(self, events: Seq<FlowEvent>) -> Seq<ActionKind>
        decreases events.len(),
    {
        if events.len() == 0 {
            seq![ActionKind::TakeCode]
        } else {
            self.asked(events.drop_last()).push(
                self.reached(events.drop_last()).decision(events.last()).kind,
            )
        }
    }

    /// How many one-time prekeys the flow has to insert.
    pub open spec fn batch(self) -> int {
        match self.bundle {
            Some(bundle) => bundle.one_time_prekeys@.len() as int,
            None => 0,
        }
    }

    /// Whether a history is what a flow at its stage has asked for.
    pub open spec fn follows(self, history: Seq<ActionKind>) -> bool {
        &&& self.stage != Stage::Done ==> all_work(history)
        &&& match self.stage {
            Stage::TakingCode => history == seq![ActionKind::TakeCode],
            Stage::Beginning => history == seq![ActionKind::TakeCode, ActionKind::Begin],
            Stage::FindingUser => history == lead(false),
            Stage::InsertingUser => history == lead(true),
            Stage::MakingKeys { is_new_user, .. } => history == lead(is_new_user).push(
                ActionKind::MakeKeys,
            ),
            Stage::InsertingDevice { is_new_user, .. } => self.bundle is Some && history == body(
                is_new_user,
                0,
            ),
            Stage::InsertingPrekey { is_new_user, index, .. } => self.bundle is Some && index
                < self.batch() && history == body(is_new_user, index + 1),
            Stage::Committing { is_new_user, .. } => self.bundle is Some && history == body(
                is_new_user,
                self.batch(),
            ).push(ActionKind::Commit),
            Stage::RollingBack { .. } => history.len() >= 4 && history[2] == ActionKind::FindUser
                && history.last() == ActionKind::Rollback,
            Stage::Done => one_unit(history),
        }
    }
}

/// A history of work stays one when more work is asked for.
proof fn lemma_more_work(history: Seq<ActionKind>, kind: ActionKind)
    requires
        all_work(history),
        kind.works(),
    ensures
        all_work(history.push(kind)),
{
    let more = history.push(kind);
    assert forall|i: int| #[trigger] works_at(more, i) by {
        assert(works_at(history, i));
    }
}

/// A history of work is that of one unit once it is answered, provided
/// that success is answered after a whole `success` only and failure, once
/// the unit has begun, after the rollback only.
proof fn lemma_answered(history: Seq<ActionKind>, kind: ActionKind)
    requires
        all_work(history),
        kind.answers(),
        kind == ActionKind::RespondOk ==> success_at(history.push(kind), history.len() as int),
        kind is RespondErr && history.len() >= 3 && history[2] == ActionKind::FindUser
            ==> history.last() == ActionKind::Rollback,
    ensures
        one_unit(history.push(kind)),
{
    let more = history.push(kind);
    assert forall|r: int| #[trigger] success_rule(more, r) by {
        assert(works_at(history, r));
    }
    assert forall|r: int| #[trigger] failure_rule(more, r) by {
        assert(works_at(history, r));
    }
    assert forall|r: int, j: int| #[trigger] end_rule(more, r, j) by {
        assert(works_at(history, r));
    }
}

/// The history of one unit stays one when the end is added to it.
proof fn lemma_stopped(history: Seq<ActionKind>)
    requires
        one_unit(history),
    ensures
        one_unit(history.push(ActionKind::Stop)),
{
    let more = history.push(ActionKind::Stop);
    assert forall|r: int| #[trigger] success_rule(more, r) by {
        assert(success_rule(history, r));
        if 0 <= r < history.len() {
            assert(more.subrange(0, r + 1) == history.subrange(0, r + 1));
        }
    }
    assert forall|r: int| #[trigger] failure_rule(more, r) by {
        assert(failure_rule(history, r));
    }
    assert forall|r: int, j: int| #[trigger] end_rule(more, r, j) by {
        assert(end_rule(history, r, j));
    }
}

/// Whatever a flow decides, its history goes on as its new stage says.
proof fn lemma_step(flow: VerificationFlow, history: Seq<ActionKind>, event: FlowEvent)
    requires
        flow.follows(history),
    ensures
        flow.after(event).follows(history.push(flow.decision(event).kind)),
{
    let decided = flow.decision(event);
    let next = flow.after(event);
    let more = history.push(decided.kind);
    match flow.stage {
        Stage::Done => {
            lemma_stopped(history);
        },
        Stage::RollingBack { error } => {
            lemma_answered(history, decided.kind);
        },
        Stage::TakingCode => {
            if decided.kind.answers() {
                lemma_answered(history, decided.kind);
            } else {
                lemma_more_work(history, decided.kind);
                assert(more == seq![ActionKind::TakeCode, ActionKind::Begin]);
            }
        },
        Stage::Beginning => {
            if decided.kind.answers() {
                lemma_answered(history, decided.kind);
            } else {
                lemma_more_work(history, decided.kind);
                assert(more == lead(false));
            }
        },
        Stage::Committing { is_new_user, .. } => {
            if decided.kind == ActionKind::RespondOk {
                assert(more == success(is_new_user, flow.batch()));
                assert(more.subrange(0, history.len() as int + 1) == more);
                assert(success_at(more, history.len() as int));
                lemma_answered(history, decided.kind);
            } else {
                lemma_more_work(history, decided.kind);
                assert(more[2] == history[2]);
            }
        },
        Stage::FindingUser => {
            lemma_more_work(history, decided.kind);
            assert(more[2] == history[2]);
            if decided.kind == ActionKind::InsertUser {
                assert(more == lead(true));
            }
        },
        Stage::InsertingUser => {
            lemma_more_work(history, decided.kind);
            assert(more[2] == history[2]);
        },
        Stage::MakingKeys { is_new_user, .. } => {
            lemma_more_work(history, decided.kind);
            assert(more[2] == history[2]);
            if decided.kind == ActionKind::InsertDevice {
                assert(more == body(is_new_user, 0));
            }
        },
        Stage::InsertingDevice { is_new_user, .. } => {
            lemma_more_work(history, decided.kind);
            assert(more[2] == history[2]);
            if decided.kind == ActionKind::InsertPrekey {
                assert(more == body(is_new_user, 1));
            } else if decided.kind == ActionKind::Commit {
                assert(flow.batch() == 0);
            }
        },
        Stage::InsertingPrekey { is_new_user, index, .. } => {
            lemma_more_work(history, decided.kind);
            assert(more[2] == history[2]);
            if decided.kind == ActionKind::InsertPrekey {
                assert(more == body(is_new_user, index + 2));
            } else if decided.kind == ActionKind::Commit {
                assert(flow.batch() == index + 1);
            }
        },
    }
}

/// A flow that has just started and is told any events at all has asked
/// for what its stage says.
proof fn lemma_run(flow: VerificationFlow, events: Seq<FlowEvent>)
    requires
        flow.stage == Stage::TakingCode,
    ensures
        flow.reached(events).follows(flow.asked(events)),
    decreases events.len(),
{
    if events.len() == 0 {
        assert forall|i: int| #[trigger] works_at(seq![ActionKind::TakeCode], i) by {}
    } else {
        lemma_run(flow, events.drop_last());
        lemma_step(flow.reached(events.drop_last()), flow.asked(events.drop_last()), events.last());
    }
}

/// Whatever the service reports, in whatever order, a verification is one
/// unit of work. Success is answered only at the end of the whole sequence
/// of a successful verification, whose last request before the answer is
/// the commit. A failure that is answered once the unit has begun is
/// answered right after the rollback. There is one answer, and nothing is
/// asked for after it.
pub proof fn verification_is_one_unit(flow: VerificationFlow, events: Seq<FlowEvent>)
    requires
        flow.stage == Stage::TakingCode,
    ensures
        one_unit(flow.asked(events)),
{
    lemma_run(flow, events);
    let history = flow.asked(events);
    if flow.reached(events).stage != Stage::Done {
        assert forall|r: int| #[trigger] success_rule(history, r) by {
            assert(works_at(history, r));
        }
        assert forall|r: int| #[trigger] failure_rule(history, r) by {
            assert(works_at(history, r));
        }
        assert forall|r: int, j: int| #[trigger] end_rule(history, r, j) by {
            assert(works_at(history, r));
        }
    }
}

} // verus!
