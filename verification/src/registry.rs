//! The account and device registry: users, devices, one-time prekeys and
//! linking sessions, with the constraints that hold between them.
//!
//! Every write that touches more than one record is a single unit: it is
//! applied whole or not at all. A value that must be unique and is already
//! taken is reported as `ConflictError`, never passed over.

use vstd::prelude::*;
use crate::clock::deadline;
use crate::clock::deadline_after;
use crate::digest::phone_hash;
use crate::digest::phone_hash_of;
use crate::entities::device_linking_sessions;
use crate::entities::device_linking_sessions::valid_code;
use crate::entities::devices;
use crate::entities::devices::DeviceType;
use crate::entities::one_time_prekeys;
use crate::entities::users;
use crate::error::CoreError;
use crate::keys::KeyBundle;
use crate::text::text_equal;
use crate::text::text_of;

verus! {

/// The views of a list of accounts.
pub open spec fn user_views(s: Seq<users::Model>) -> Seq<users::ModelView> {
    s.map_values(|m: users::Model| m@)
}

/// The views of a list of devices.
pub open spec fn device_views(s: Seq<devices::Model>) -> Seq<devices::ModelView> {
    s.map_values(|m: devices::Model| m@)
}

/// The views of a list of prekeys.
pub open spec fn prekey_views(s: Seq<one_time_prekeys::Model>) -> Seq<one_time_prekeys::ModelView> {
    s.map_values(|m: one_time_prekeys::Model| m@)
}

/// The views of a list of linking sessions.
pub open spec fn session_views(s: Seq<device_linking_sessions::Model>) -> Seq<
    device_linking_sessions::ModelView,
> {
    s.map_values(|m: device_linking_sessions::Model| m@)
}

/// The key material behind an optional reference.
pub open spec fn owned(material: Option<&KeyBundle>) -> Option<KeyBundle> {
    match material {
        Some(bundle) => Some(*bundle),
        None => None,
    }
}

/// Whether no two numbers of a list are equal.
pub open spec fn distinct(ids: Seq<i32>) -> bool {
    forall|i: int, j: int| 0 <= i < j < ids.len() ==> ids[i] != ids[j]
}

/// The account that is created for a phone number at `now`.
pub open spec fn user_row(user_id: u128, phone_number: Seq<char>, now: i64) -> users::ModelView {
    users::ModelView {
        user_id,
        phone_number,
        phone_number_hash: phone_hash_of(phone_number),
        display_name: None,
        is_deleted: false,
        created_at: now,
        updated_at: now,
    }
}

/// The device that is created at `now` with the public half of a bundle. A
/// device that names the device that admitted it was linked at `now`.
pub open spec fn device_row(
    device_id: i64,
    user_id: u128,
    device_uuid: u128,
    device_name: Option<Seq<char>>,
    platform: i16,
    device_type: DeviceType,
    linked_by: Option<i64>,
    bundle: KeyBundle,
    now: i64,
) -> devices::ModelView {
    devices::ModelView {
        device_id,
        user_id,
        device_uuid,
        device_name,
        platform,
        identity_key_public: bundle.identity.public_key@,
        registration_id: bundle.registration_id,
        signed_prekey_id: bundle.signed_prekey.id,
        signed_prekey_public: bundle.signed_prekey.public_key@,
        signed_prekey_signature: bundle.signed_prekey.signature@,
        last_seen_at: now,
        created_at: now,
        device_type: device_type.code_of(),
        is_active: true,
        linked_at: if linked_by is Some {
            Some(now)
        } else {
            None
        },
        linked_by_device_id: linked_by,
    }
}

/// The prekey records of a bundle's one-time prekeys, in order: the public
/// keys under their ids, tied to the device.
pub open spec fn prekey_rows(device_id: i64, bundle: KeyBundle) -> Seq<one_time_prekeys::ModelView> {
    Seq::new(
        bundle.one_time_prekeys@.len(),
        |i: int|
            one_time_prekeys::ModelView {
                device_id,
                prekey_id: bundle.one_time_prekeys@[i].id,
                public_key: bundle.one_time_prekeys@[i].public_key@,
            },
    )
}

/// The pending session that is opened at `now` and runs out `ttl` seconds later.
pub open spec fn session_row(
    session_id: u128,
    primary_device_id: i64,
    token: Seq<char>,
    now: i64,
    ttl: u32,
) -> device_linking_sessions::ModelView {
    device_linking_sessions::ModelView {
        session_id,
        primary_device_id,
        qr_code_token: token,
        status: 1,
        new_device_uuid: None,
        new_device_name: None,
        expires_at: deadline_after(now, ttl),
        created_at: now,
        approved_at: None,
    }
}

/// What a successful enrolment reports.
#[derive(Debug, Clone, Copy, PartialEq, Eq, Structural)]
pub struct Enrollment {
    pub user_id: u128,
    pub device_id: i64,
    pub is_new_user: bool,
}

/// What the registry holds, as mathematical values: its records in the
/// order in which they were created, and the id that the next device gets.
#[verifier::ext_equal]
pub struct RegistryView {
    pub users: Seq<users::ModelView>,
    pub devices: Seq<devices::ModelView>,
    pub prekeys: Seq<one_time_prekeys::ModelView>,
    pub sessions: Seq<device_linking_sessions::ModelView>,
    pub next_device_id: i64,
}

impl RegistryView {
    /// Whether an account exists for the phone number.
    pub open spec fn phone_taken(self, phone_number: Seq<char>) -> bool {
        exists|i: int|
            0 <= i < self.users.len() && (#[trigger] self.users[i]).phone_number == phone_number
    }

    /// Whether an account has the id.
    pub open spec fn user_id_taken(self, user_id: u128) -> bool {
        exists|i: int| 0 <= i < self.users.len() && (#[trigger] self.users[i]).user_id == user_id
    }

    /// Whether a device has the UUID.
    pub open spec fn device_uuid_taken(self, device_uuid: u128) -> bool {
        exists|i: int|
            0 <= i < self.devices.len() && (#[trigger] self.devices[i]).device_uuid == device_uuid
    }

    /// Whether a device has the id.
    pub open spec fn device_id_taken(self, device_id: i64) -> bool {
        exists|i: int|
            0 <= i < self.devices.len() && (#[trigger] self.devices[i]).device_id == device_id
    }

    /// Whether the device has a prekey under the id.
    pub open spec fn prekey_taken(self, device_id: i64, prekey_id: i32) -> bool {
        exists|i: int|
            0 <= i < self.prekeys.len() && (#[trigger] self.prekeys[i]).device_id == device_id
                && self.prekeys[i].prekey_id == prekey_id
    }

    /// Whether a linking session has the id.
    pub open spec fn session_id_taken(self, session_id: u128) -> bool {
        exists|i: int|
            0 <= i < self.sessions.len() && (#[trigger] self.sessions[i]).session_id == session_id
    }

    /// Whether a linking session carries the token.
    pub open spec fn token_taken(self, token: Seq<char>) -> bool {
        exists|i: int|
            0 <= i < self.sessions.len() && (#[trigger] self.sessions[i]).qr_code_token == token
    }

    /// Where the account of a phone number stands.
    pub open spec fn user_index(self, phone_number: Seq<char>) -> int {
        choose|i: int|
            0 <= i < self.users.len() && (#[trigger] self.users[i]).phone_number == phone_number
    }

    /// Where the device of a UUID stands.
    pub open spec fn device_index(self, device_uuid: u128) -> int {
        choose|i: int|
            0 <= i < self.devices.len() && (#[trigger] self.devices[i]).device_uuid == device_uuid
    }

    /// Where the device of an id stands.
    pub open spec fn device_index_of_id(self, device_id: i64) -> int {
        choose|i: int|
            0 <= i < self.devices.len() && (#[trigger] self.devices[i]).device_id == device_id
    }

    /// Where the linking session of an id stands.
    pub open spec fn session_index(self, session_id: u128) -> int {
        choose|i: int|
            0 <= i < self.sessions.len() && (#[trigger] self.sessions[i]).session_id == session_id
    }

    /// Where the linking session of a token stands.
    pub open spec fn session_index_of_token(self, token: Seq<char>) -> int {
        choose|i: int|
            0 <= i < self.sessions.len() && (#[trigger] self.sessions[i]).qr_code_token == token
    }

    /// How many devices an account has.
    pub open spec fn device_count(self, user_id: u128) -> nat {
        self.devices.filter(|d: devices::ModelView| d.user_id == user_id).len()
    }

    /// How many one-time prekeys a device has.
    pub open spec fn prekey_count(self, device_id: i64) -> nat {
        self.prekeys.filter(|p: one_time_prekeys::ModelView| p.device_id == device_id).len()
    }

    /// One account per id and per phone number.
    pub open spec fn users_ok(self) -> bool {
        forall|i: int, j: int|
            0 <= i < j < self.users.len() ==> (#[trigger] self.users[i]).user_id != (
            #[trigger] self.users[j]).user_id && self.users[i].phone_number
                != self.users[j].phone_number
    }

    /// One device per id and per UUID; every device has an id that was given
    /// out, belongs to an account, and carries a signed prekey that verifies.
    pub open spec fn devices_ok(self) -> bool {
        &&& self.next_device_id >= 1
        &&& forall|i: int|
            0 <= i < self.devices.len() ==> {
                let d = #[trigger] self.devices[i];
                &&& 1 <= d.device_id < self.next_device_id
                &&& self.user_id_taken(d.user_id)
                &&& d.self_consistent()
            }
        &&& forall|i: int, j: int|
            0 <= i < j < self.devices.len() ==> (#[trigger] self.devices[i]).device_id != (
            #[trigger] self.devices[j]).device_id && self.devices[i].device_uuid
                != self.devices[j].device_uuid
    }

    /// One prekey per device and prekey id; every prekey belongs to a device.
    pub open spec fn prekeys_ok(self) -> bool {
        &&& forall|i: int|
            0 <= i < self.prekeys.len() ==> self.device_id_taken(
                (#[trigger] self.prekeys[i]).device_id,
            )
        &&& forall|i: int, j: int|
            0 <= i < j < self.prekeys.len() ==> !((#[trigger] self.prekeys[i]).device_id == (
            #[trigger] self.prekeys[j]).device_id && self.prekeys[i].prekey_id
                == self.prekeys[j].prekey_id)
    }

    /// One linking session per id and per token; every session was opened by
    /// a device and is stored under the code of a status.
    pub open spec fn sessions_ok(self) -> bool {
        &&& forall|i: int|
            0 <= i < self.sessions.len() ==> {
                let s = #[trigger] self.sessions[i];
                &&& self.device_id_taken(s.primary_device_id)
                &&& valid_code(s.status)
            }
        &&& forall|i: int, j: int|
            0 <= i < j < self.sessions.len() ==> (#[trigger] self.sessions[i]).session_id != (
            #[trigger] self.sessions[j]).session_id && self.sessions[i].qr_code_token
                != self.sessions[j].qr_code_token
    }

    /// The constraints of the registry.
    pub open spec fn wf(self) -> bool {
        &&& self.users_ok()
        &&& self.devices_ok()
        &&& self.prekeys_ok()
        &&& self.sessions_ok()
    }

    /// The registry after one device and its one-time prekeys were added for
    /// an account, or why they were not: there is no key material or its
    /// signature does not verify, no device id is left, the UUID is taken, or
    /// two of the bundle's one-time prekeys share an id.
    pub open spec fn with_device(
        self,
        user_id: u128,
        device_uuid: u128,
        device_name: Option<Seq<char>>,
        platform: i16,
        device_type: DeviceType,
        linked_by: Option<i64>,
        material: Option<KeyBundle>,
        now: i64,
    ) -> Result<RegistryView, CoreError> {
        match material {
            None => Err(CoreError::KeyGenerationError),
            Some(bundle) => if !bundle.self_consistent() {
                Err(CoreError::KeyGenerationError)
            } else if self.next_device_id == i64::MAX {
                Err(CoreError::StoreUnavailable)
            } else if self.device_uuid_taken(device_uuid) {
                Err(CoreError::ConflictError)
            } else if !distinct(bundle.prekey_ids()) {
                Err(CoreError::ConflictError)
            } else {
                Ok(
                    RegistryView {
                        devices: self.devices.push(
                            device_row(
                                self.next_device_id,
                                user_id,
                                device_uuid,
                                device_name,
                                platform,
                                device_type,
                                linked_by,
                                bundle,
                                now,
                            ),
                        ),
                        prekeys: self.prekeys + prekey_rows(self.next_device_id, bundle),
                        next_device_id: (self.next_device_id + 1) as i64,
                        ..self
                    },
                )
            },
        }
    }

    /// The registry after an enrolment and what the enrolment reports, or why
    /// it was refused. The account of the phone number is used where there is
    /// one; otherwise one is created under `candidate`, unless that id is
    /// taken. The device is a primary device, made with `material`, the key
    /// bundle of the device if one could be made. The account is settled
    /// before the key material is looked at.
    pub open spec fn enrolled(
        self,
        phone_number: Seq<char>,
        candidate: u128,
        device_uuid: u128,
        device_name: Option<Seq<char>>,
        platform: i16,
        material: Option<KeyBundle>,
        now: i64,
    ) -> Result<(RegistryView, Enrollment), CoreError> {
        if self.phone_taken(phone_number) {
            let user_id = self.users[self.user_index(phone_number)].user_id;
            match self.with_device(
                user_id,
                device_uuid,
                device_name,
                platform,
                DeviceType::Primary,
                None,
                material,
                now,
            ) {
                Ok(v) => Ok(
                    (v, Enrollment { user_id, device_id: self.next_device_id, is_new_user: false }),
                ),
                Err(e) => Err(e),
            }
        } else if self.user_id_taken(candidate) {
            Err(CoreError::ConflictError)
        } else {
            let with_user = RegistryView {
                users: self.users.push(user_row(candidate, phone_number, now)),
                ..self
            };
            match with_user.with_device(
                candidate,
                device_uuid,
                device_name,
                platform,
                DeviceType::Primary,
                None,
                material,
                now,
            ) {
                Ok(v) => Ok(
                    (
                        v,
                        Enrollment {
                            user_id: candidate,
                            device_id: self.next_device_id,
                            is_new_user: true,
                        },
                    ),
                ),
                Err(e) => Err(e),
            }
        }
    }
}

impl RegistryView {
    /// The registry after a pending session was opened by a device, or why it
    /// was not: the device is unknown, or the id or the token is taken.
    pub open spec fn with_session(
        self,
        session_id: u128,
        primary_device_id: i64,
        token: Seq<char>,
        now: i64,
        ttl: u32,
    ) -> Result<RegistryView, CoreError> {
        if !self.device_id_taken(primary_device_id) {
            Err(CoreError::DeviceNotFound)
        } else if self.session_id_taken(session_id) || self.token_taken(token) {
            Err(CoreError::ConflictError)
        } else {
            Ok(
                RegistryView {
                    sessions: self.sessions.push(
                        session_row(session_id, primary_device_id, token, now, ttl),
                    ),
                    ..self
                },
            )
        }
    }

    /// Whether the session of the id exists and is live at `now`.
    pub open spec fn session_live(self, session_id: u128, now: i64) -> bool {
        self.session_id_taken(session_id) && self.sessions[self.session_index(session_id)].live_at(
            now,
        )
    }

    /// The registry after a session was approved at `now` and the id of the
    /// device that was linked, or why it was not. Only a live session can be
    /// approved. The new device belongs to the account of the device that
    /// opened the session, and names that device as the one that admitted it.
    /// Whether the session is live is settled before the key material is
    /// looked at.
    pub open spec fn linked(
        self,
        session_id: u128,
        device_uuid: u128,
        device_name: Option<Seq<char>>,
        platform: i16,
        material: Option<KeyBundle>,
        now: i64,
    ) -> Result<(RegistryView, i64), CoreError> {
        if !self.session_live(session_id, now) {
            Err(CoreError::InvalidSessionState)
        } else {
            let at = self.session_index(session_id);
            let session = self.sessions[at];
            let primary = self.devices[self.device_index_of_id(session.primary_device_id)];
            match self.with_device(
                primary.user_id,
                device_uuid,
                device_name,
                platform,
                DeviceType::Linked,
                Some(primary.device_id),
                material,
                now,
            ) {
                Ok(v) => Ok(
                    (
                        RegistryView {
                            sessions: v.sessions.update(
                                at,
                                session.approved(device_uuid, device_name, now),
                            ),
                            ..v
                        },
                        self.next_device_id,
                    ),
                ),
                Err(e) => Err(e),
            }
        }
    }

    /// The registry after a session was rejected at `now`, or why it was not.
    /// Only a live session can be rejected.
    pub open spec fn rejected(self, session_id: u128, now: i64) -> Result<RegistryView, CoreError> {
        if !self.session_live(session_id, now) {
            Err(CoreError::InvalidSessionState)
        } else {
            let at = self.session_index(session_id);
            Ok(RegistryView { sessions: self.sessions.update(at, self.sessions[at].rejected()), ..self })
        }
    }
}

/// Adding a session of an existing device under a fresh id and token keeps
/// the constraints.
proof fn lemma_push_session(v: RegistryView, row: device_linking_sessions::ModelView)
    requires
        v.wf(),
        v.device_id_taken(row.primary_device_id),
        valid_code(row.status),
        !v.session_id_taken(row.session_id),
        !v.token_taken(row.qr_code_token),
    ensures
        (RegistryView { sessions: v.sessions.push(row), ..v }).wf(),
{
    let w = RegistryView { sessions: v.sessions.push(row), ..v };
    assert forall|i: int| 0 <= i < w.sessions.len() implies {
        let s = #[trigger] w.sessions[i];
        &&& w.device_id_taken(s.primary_device_id)
        &&& valid_code(s.status)
    } by {
        if i < v.sessions.len() {
            assert(w.sessions[i] == v.sessions[i]);
        }
    }
    assert forall|i: int, j: int| 0 <= i < j < w.sessions.len() implies (
    #[trigger] w.sessions[i]).session_id != (#[trigger] w.sessions[j]).session_id
        && w.sessions[i].qr_code_token != w.sessions[j].qr_code_token by {
        assert(w.sessions[i] == v.sessions[i]);
        if j < v.sessions.len() {
            assert(w.sessions[j] == v.sessions[j]);
        }
    }
}

/// Replacing a session by one with the same id, token and device, under the
/// code of a status, keeps the constraints.
proof fn lemma_update_session(v: RegistryView, at: int, row: device_linking_sessions::ModelView)
    requires
        v.wf(),
        0 <= at < v.sessions.len(),
        row.session_id == v.sessions[at].session_id,
        row.qr_code_token == v.sessions[at].qr_code_token,
        row.primary_device_id == v.sessions[at].primary_device_id,
        valid_code(row.status),
    ensures
        (RegistryView { sessions: v.sessions.update(at, row), ..v }).wf(),
{
    let w = RegistryView { sessions: v.sessions.update(at, row), ..v };
    assert forall|i: int| 0 <= i < w.sessions.len() implies {
        let s = #[trigger] w.sessions[i];
        &&& w.device_id_taken(s.primary_device_id)
        &&& valid_code(s.status)
    } by {
        assert(v.device_id_taken(v.sessions[i].primary_device_id));
    }
    assert forall|i: int, j: int| 0 <= i < j < w.sessions.len() implies (
    #[trigger] w.sessions[i]).session_id != (#[trigger] w.sessions[j]).session_id
        && w.sessions[i].qr_code_token != w.sessions[j].qr_code_token by {
        assert(v.sessions[i].session_id != v.sessions[j].session_id);
        assert(v.sessions[i].qr_code_token != v.sessions[j].qr_code_token);
    }
}

/// Adding an account under a fresh id and phone number keeps the constraints.
proof fn lemma_push_user(v: RegistryView, row: users::ModelView)
    requires
        v.wf(),
        !v.user_id_taken(row.user_id),
        !v.phone_taken(row.phone_number),
    ensures
        (RegistryView { users: v.users.push(row), ..v }).wf(),
        (RegistryView { users: v.users.push(row), ..v }).user_id_taken(row.user_id),
        (RegistryView { users: v.users.push(row), ..v }).phone_taken(row.phone_number),
{
    let w = RegistryView { users: v.users.push(row), ..v };
    assert(w.users[v.users.len() as int] == row);
    assert forall|i: int| 0 <= i < w.devices.len() implies w.user_id_taken(
        (#[trigger] w.devices[i]).user_id,
    ) by {
        let d = v.devices[i];
        assert(v.user_id_taken(d.user_id));
        let k = choose|k: int| 0 <= k < v.users.len() && (#[trigger] v.users[k]).user_id == d.user_id;
        assert(w.users[k].user_id == d.user_id);
    }
    assert forall|i: int, j: int| 0 <= i < j < w.users.len() implies (#[trigger] w.users[i]).user_id
        != (#[trigger] w.users[j]).user_id && w.users[i].phone_number != w.users[j].phone_number by {
        if j < v.users.len() {
            assert(w.users[i] == v.users[i]);
            assert(w.users[j] == v.users[j]);
        } else {
            assert(w.users[i] == v.users[i]);
        }
    }
    assert(w.prekeys_ok());
    assert(w.sessions_ok());
}

/// Adding a device under the next id and a fresh UUID keeps the constraints.
proof fn lemma_push_device(v: RegistryView, row: devices::ModelView)
    requires
        v.wf(),
        v.next_device_id < i64::MAX,
        row.device_id == v.next_device_id,
        v.user_id_taken(row.user_id),
        row.self_consistent(),
        !v.device_uuid_taken(row.device_uuid),
    ensures
        (RegistryView {
            devices: v.devices.push(row),
            next_device_id: (v.next_device_id + 1) as i64,
            ..v
        }).wf(),
        (RegistryView {
            devices: v.devices.push(row),
            next_device_id: (v.next_device_id + 1) as i64,
            ..v
        }).device_id_taken(row.device_id),
{
    let w = RegistryView {
        devices: v.devices.push(row),
        next_device_id: (v.next_device_id + 1) as i64,
        ..v
    };
    assert(w.devices[v.devices.len() as int] == row);
    assert forall|i: int| 0 <= i < w.devices.len() implies {
        let d = #[trigger] w.devices[i];
        &&& 1 <= d.device_id < w.next_device_id
        &&& w.user_id_taken(d.user_id)
        &&& d.self_consistent()
    } by {
        if i < v.devices.len() {
            assert(w.devices[i] == v.devices[i]);
        }
    }
    assert forall|i: int, j: int| 0 <= i < j < w.devices.len() implies (
    #[trigger] w.devices[i]).device_id != (#[trigger] w.devices[j]).device_id
        && w.devices[i].device_uuid != w.devices[j].device_uuid by {
        assert(w.devices[i] == v.devices[i]);
        if j < v.devices.len() {
            assert(w.devices[j] == v.devices[j]);
        }
    }
    assert forall|i: int| 0 <= i < w.prekeys.len() implies w.device_id_taken(
        (#[trigger] w.prekeys[i]).device_id,
    ) by {
        let p = v.prekeys[i];
        assert(v.device_id_taken(p.device_id));
        let k = choose|k: int|
            0 <= k < v.devices.len() && (#[trigger] v.devices[k]).device_id == p.device_id;
        assert(w.devices[k].device_id == p.device_id);
    }
    assert forall|i: int| 0 <= i < w.sessions.len() implies {
        let s = #[trigger] w.sessions[i];
        &&& w.device_id_taken(s.primary_device_id)
        &&& valid_code(s.status)
    } by {
        let s = v.sessions[i];
        assert(v.device_id_taken(s.primary_device_id));
        let k = choose|k: int|
            0 <= k < v.devices.len() && (#[trigger] v.devices[k]).device_id == s.primary_device_id;
        assert(w.devices[k].device_id == s.primary_device_id);
    }
}

/// Adding a prekey of an existing device under a fresh id keeps the constraints.
proof fn lemma_push_prekey(v: RegistryView, row: one_time_prekeys::ModelView)
    requires
        v.wf(),
        v.device_id_taken(row.device_id),
        !v.prekey_taken(row.device_id, row.prekey_id),
    ensures
        (RegistryView { prekeys: v.prekeys.push(row), ..v }).wf(),
{
    let w = RegistryView { prekeys: v.prekeys.push(row), ..v };
    assert forall|i: int| 0 <= i < w.prekeys.len() implies w.device_id_taken(
        (#[trigger] w.prekeys[i]).device_id,
    ) by {
        if i < v.prekeys.len() {
            assert(w.prekeys[i] == v.prekeys[i]);
        }
    }
    assert forall|i: int, j: int| 0 <= i < j < w.prekeys.len() implies !((
    #[trigger] w.prekeys[i]).device_id == (#[trigger] w.prekeys[j]).device_id
        && w.prekeys[i].prekey_id == w.prekeys[j].prekey_id) by {
        assert(w.prekeys[i] == v.prekeys[i]);
        if j < v.prekeys.len() {
            assert(w.prekeys[j] == v.prekeys[j]);
        }
    }
}

/// The registry itself. Its records are reached through its operations only.
pub struct Registry {
    users: Vec<users::Model>,
    devices: Vec<devices::Model>,
    prekeys: Vec<one_time_prekeys::Model>,
    sessions: Vec<device_linking_sessions::Model>,
    next_device_id: i64,
}

impl View for Registry {
    type V = RegistryView;

    closed spec fn view(&self) -> RegistryView {
        RegistryView {
            users: user_views(self.users@),
            devices: device_views(self.devices@),
            prekeys: prekey_views(self.prekeys@),
            sessions: session_views(self.sessions@),
            next_device_id: self.next_device_id,
        }
    }
}

impl Registry {
    /// Whether the registry meets its constraints.
    pub open spec fn wf(&self) -> bool {
        self@.wf()
    }

    /// The registry without records. Device ids start at 1.
    pub fn new() -> (r: Registry)
        ensures
            r.wf(),
            r@.users.len() == 0,
            r@.devices.len() == 0,
            r@.prekeys.len() == 0,
            r@.sessions.len() == 0,
            r@.next_device_id == 1,
    {
        Registry {
            users: Vec::new(),
            devices: Vec::new(),
            prekeys: Vec::new(),
            sessions: Vec::new(),
            next_device_id: 1,
        }
    }

    /// How many accounts there are.
    pub fn user_count(&self) -> (r: usize)
        ensures
            r == self@.users.len(),
    {
        self.users.len()
    }

    /// How many devices there are.
    pub fn device_count(&self) -> (r: usize)
        ensures
            r == self@.devices.len(),
    {
        self.devices.len()
    }

    /// How many one-time prekeys there are.
    pub fn prekey_count(&self) -> (r: usize)
        ensures
            r == self@.prekeys.len(),
    {
        self.prekeys.len()
    }

    /// How many linking sessions there are.
    pub fn session_count(&self) -> (r: usize)
        ensures
            r == self@.sessions.len(),
    {
        self.sessions.len()
    }

    /// How many devices an account has.
    pub fn devices_of(&self, user_id: u128) -> (r: usize)
        ensures
            r == self@.device_count(user_id),
    {
        let ghost of_user = |d: devices::ModelView| d.user_id == user_id;
        let mut count: usize = 0;
        let mut i: usize = 0;
        proof {
            reveal(Seq::filter);
            assert(self@.devices.subrange(0, 0).filter(of_user).len() == 0);
        }
        while i < self.devices.len()
            invariant
                i <= self.devices@.len(),
                of_user == |d: devices::ModelView| d.user_id == user_id,
                count == self@.devices.subrange(0, i as int).filter(of_user).len(),
                count <= i,
            decreases self.devices@.len() - i,
        {
            proof {
                reveal(Seq::filter);
                let next = self@.devices.subrange(0, i as int + 1);
                assert(next.drop_last() == self@.devices.subrange(0, i as int));
                assert(next.last() == self@.devices[i as int]);
            }
            if self.devices[i].user_id == user_id {
                count = count + 1;
            }
            i = i + 1;
        }
        assert(self@.devices.subrange(0, i as int) == self@.devices);
        count
    }

    /// How many one-time prekeys a device has.
    pub fn prekeys_of(&self, device_id: i64) -> (r: usize)
        ensures
            r == self@.prekey_count(device_id),
    {
        let ghost of_device = |p: one_time_prekeys::ModelView| p.device_id == device_id;
        let mut count: usize = 0;
        let mut i: usize = 0;
        proof {
            reveal(Seq::filter);
            assert(self@.prekeys.subrange(0, 0).filter(of_device).len() == 0);
        }
        while i < self.prekeys.len()
            invariant
                i <= self.prekeys@.len(),
                of_device == |p: one_time_prekeys::ModelView| p.device_id == device_id,
                count == self@.prekeys.subrange(0, i as int).filter(of_device).len(),
                count <= i,
            decreases self.prekeys@.len() - i,
        {
            proof {
                reveal(Seq::filter);
                let next = self@.prekeys.subrange(0, i as int + 1);
                assert(next.drop_last() == self@.prekeys.subrange(0, i as int));
                assert(next.last() == self@.prekeys[i as int]);
            }
            if self.prekeys[i].device_id == device_id {
                count = count + 1;
            }
            i = i + 1;
        }
        assert(self@.prekeys.subrange(0, i as int) == self@.prekeys);
        count
    }

    /// The account of a phone number.
    pub fn find_user_by_phone(&self, phone_number: &str) -> (r: Option<&users::Model>)
        requires
            self.wf(),
        ensures
            match r {
                Some(u) => self@.phone_taken(phone_number@) && u@
                    == self@.users[self@.user_index(phone_number@)],
                None => !self@.phone_taken(phone_number@),
            },
    {
        let mut i: usize = 0;
        while i < self.users.len()
            invariant
                self.wf(),
                i <= self.users@.len(),
                forall|k: int| 0 <= k < i ==> (#[trigger] self@.users[k]).phone_number != phone_number@,
            decreases self.users@.len() - i,
        {
            if text_equal(self.users[i].phone_number.as_str(), phone_number) {
                assert(self@.users[i as int].phone_number == phone_number@);
                return Some(&self.users[i]);
            }
            i = i + 1;
        }
        None
    }

    /// Whether an account has the id.
    fn user_id_in_use(&self, user_id: u128) -> (r: bool)
        ensures
            r == self@.user_id_taken(user_id),
    {
        let mut i: usize = 0;
        while i < self.users.len()
            invariant
                i <= self.users@.len(),
                forall|k: int| 0 <= k < i ==> (#[trigger] self@.users[k]).user_id != user_id,
            decreases self.users@.len() - i,
        {
            if self.users[i].user_id == user_id {
                assert(self@.users[i as int].user_id == user_id);
                return true;
            }
            i = i + 1;
        }
        false
    }

    /// The device of a UUID.
    pub fn find_device_by_uuid(&self, device_uuid: u128) -> (r: Option<&devices::Model>)
        requires
            self.wf(),
        ensures
            match r {
                Some(d) => self@.device_uuid_taken(device_uuid) && d@
                    == self@.devices[self@.device_index(device_uuid)],
                None => !self@.device_uuid_taken(device_uuid),
            },
    {
        let mut i: usize = 0;
        while i < self.devices.len()
            invariant
                self.wf(),
                i <= self.devices@.len(),
                forall|k: int| 0 <= k < i ==> (#[trigger] self@.devices[k]).device_uuid != device_uuid,
            decreases self.devices@.len() - i,
        {
            if self.devices[i].device_uuid == device_uuid {
                assert(self@.devices[i as int].device_uuid == device_uuid);
                return Some(&self.devices[i]);
            }
            i = i + 1;
        }
        None
    }

    /// The device of an id.
    pub fn find_device(&self, device_id: i64) -> (r: Option<&devices::Model>)
        requires
            self.wf(),
        ensures
            match r {
                Some(d) => self@.device_id_taken(device_id) && d@
                    == self@.devices[self@.device_index_of_id(device_id)],
                None => !self@.device_id_taken(device_id),
            },
    {
        let mut i: usize = 0;
        while i < self.devices.len()
            invariant
                self.wf(),
                i <= self.devices@.len(),
                forall|k: int| 0 <= k < i ==> (#[trigger] self@.devices[k]).device_id != device_id,
            decreases self.devices@.len() - i,
        {
            if self.devices[i].device_id == device_id {
                assert(self@.devices[i as int].device_id == device_id);
                return Some(&self.devices[i]);
            }
            i = i + 1;
        }
        None
    }

    /// Whether the device has a prekey under the id.
    fn prekey_in_use(&self, device_id: i64, prekey_id: i32) -> (r: bool)
        ensures
            r == self@.prekey_taken(device_id, prekey_id),
    {
        let mut i: usize = 0;
        while i < self.prekeys.len()
            invariant
                i <= self.prekeys@.len(),
                forall|k: int|
                    0 <= k < i ==> !((#[trigger] self@.prekeys[k]).device_id == device_id
                        && self@.prekeys[k].prekey_id == prekey_id),
            decreases self.prekeys@.len() - i,
        {
            if self.prekeys[i].device_id == device_id && self.prekeys[i].prekey_id == prekey_id {
                assert(self@.prekeys[i as int].device_id == device_id);
                return true;
            }
            i = i + 1;
        }
        false
    }

    /// Adds one device with the public half of its bundle, and the bundle's
    /// one-time prekeys one by one. Where a step fails, the steps before it
    /// are undone.
    fn add_device(
        &mut self,
        user_id: u128,
        device_uuid: u128,
        device_name: Option<String>,
        platform: i16,
        device_type: DeviceType,
        linked_by: Option<i64>,
        material: Option<&KeyBundle>,
        now: i64,
    ) -> (r: Result<i64, CoreError>)
        requires
            old(self).wf(),
            old(self)@.user_id_taken(user_id),
        ensures
            final(self).wf(),
            match old(self)@.with_device(
                user_id,
                device_uuid,
                text_of(device_name),
                platform,
                device_type,
                linked_by,
                owned(material),
                now,
            ) {
                Ok(v) => r == Ok::<i64, CoreError>(old(self)@.next_device_id) && final(self)@ == v,
                Err(e) => r == Err::<i64, CoreError>(e) && final(self)@ == old(self)@,
            },
    {
        let ghost before = self@;
        let bundle = match material {
            Some(bundle) => bundle,
            None => {
                return Err(CoreError::KeyGenerationError);
            },
        };
        if !bundle.check() {
            return Err(CoreError::KeyGenerationError);
        }
        if self.next_device_id == i64::MAX {
            return Err(CoreError::StoreUnavailable);
        }
        if self.find_device_by_uuid(device_uuid).is_some() {
            return Err(CoreError::ConflictError);
        }
        let device_id = self.next_device_id;
        let ghost name_view = text_of(device_name);
        let row = devices::Model {
            device_id,
            user_id,
            device_uuid,
            device_name,
            platform,
            identity_key_public: bundle.identity.public_key.clone(),
            registration_id: bundle.registration_id,
            signed_prekey_id: bundle.signed_prekey.id,
            signed_prekey_public: bundle.signed_prekey.public_key.clone(),
            signed_prekey_signature: bundle.signed_prekey.signature.clone(),
            last_seen_at: now,
            created_at: now,
            device_type: device_type.code(),
            is_active: true,
            linked_at: match linked_by {
                Some(_) => Some(now),
                None => None,
            },
            linked_by_device_id: linked_by,
        };
        let ghost device = device_row(
            device_id,
            user_id,
            device_uuid,
            name_view,
            platform,
            device_type,
            linked_by,
            *bundle,
            now,
        );
        assert(row@ == device);
        let mark = self.prekeys.len();
        let ghost rows = prekey_rows(device_id, *bundle);
        let ghost ids = bundle.prekey_ids();
        proof {
            lemma_push_device(before, device);
            assert forall|k: int| 0 <= k < before.prekeys.len() implies (
            #[trigger] before.prekeys[k]).device_id != device_id by {
                let p = before.prekeys[k];
                assert(before.device_id_taken(p.device_id));
            }
        }
        self.devices.push(row);
        self.next_device_id = device_id + 1;
        assert(self@.devices == before.devices.push(device));
        let n = bundle.one_time_prekeys.len();
        let mut i: usize = 0;
        assert(self@.prekeys == before.prekeys + rows.subrange(0, 0));
        while i < n
            invariant
                i <= n,
                n == bundle.one_time_prekeys@.len(),
                rows == prekey_rows(device_id, *bundle),
                ids == bundle.prekey_ids(),
                before == old(self)@,
                material == Some(bundle),
                before.wf(),
                before.next_device_id == device_id,
                !before.device_uuid_taken(device_uuid),
                bundle.self_consistent(),
                device_id < i64::MAX,
                mark == before.prekeys.len(),
                self.wf(),
                self@.device_id_taken(device_id),
                self@.users == before.users,
                self@.sessions == before.sessions,
                self@.devices == before.devices.push(device),
                self@.next_device_id == device_id + 1,
                self@.prekeys == before.prekeys + rows.subrange(0, i as int),
                forall|k: int|
                    0 <= k < before.prekeys.len() ==> (#[trigger] before.prekeys[k]).device_id
                        != device_id,
                forall|a: int, b: int| 0 <= a < b < i ==> ids[a] != ids[b],
            decreases n - i,
        {
            let prekey_id = bundle.one_time_prekeys[i].id;
            assert(ids[i as int] == prekey_id);
            if self.prekey_in_use(device_id, prekey_id) {
                proof {
                    let k = choose|k: int|
                        0 <= k < self@.prekeys.len() && (#[trigger] self@.prekeys[k]).device_id
                            == device_id && self@.prekeys[k].prekey_id == prekey_id;
                    if k < before.prekeys.len() {
                        assert(self@.prekeys[k] == before.prekeys[k]);
                    } else {
                        let a = k - before.prekeys.len();
                        assert(self@.prekeys[k] == rows[a]);
                        assert(ids[a] == ids[i as int]);
                    }
                    assert(!distinct(ids));
                }
                let ghost reached = self@;
                self.prekeys.truncate(mark);
                self.devices.pop();
                self.next_device_id = device_id;
                assert(self@.prekeys == reached.prekeys.subrange(0, mark as int));
                assert(self@.prekeys == before.prekeys);
                assert(self@.devices == reached.devices.subrange(0, reached.devices.len() - 1));
                assert(self@.devices == before.devices);
                assert(self@ == before);
                return Err(CoreError::ConflictError);
            }
            let prekey = one_time_prekeys::Model {
                device_id,
                prekey_id,
                public_key: bundle.one_time_prekeys[i].public_key.clone(),
            };
            assert(prekey@ == rows[i as int]);
            proof {
                lemma_push_prekey(self@, prekey@);
                assert(rows.subrange(0, i as int + 1) == rows.subrange(0, i as int).push(
                    rows[i as int],
                ));
                assert forall|a: int, b: int| 0 <= a < b < i + 1 implies ids[a] != ids[b] by {
                    if b == i && ids[a] == ids[b] {
                        let k = before.prekeys.len() + a;
                        assert(self@.prekeys[k] == rows[a]);
                        assert(self@.prekey_taken(device_id, prekey_id));
                    }
                }
            }
            let ghost reached = self@;
            self.prekeys.push(prekey);
            assert(self@.prekeys == reached.prekeys.push(rows[i as int]));
            assert(self@ == (RegistryView { prekeys: reached.prekeys.push(rows[i as int]), ..reached }));
            i = i + 1;
        }
        proof {
            assert(rows.subrange(0, n as int) == rows);
            assert(distinct(ids));
        }
        Ok(device_id)
    }

    /// Enrols a device through its owner's phone number, as one unit: the
    /// account of the phone number is used or, where there is none, created
    /// under `candidate`; a primary device is created for it with the public
    /// half of the bundle; the bundle's one-time prekeys are added. `material`
    /// is the key bundle made for the device, if one could be made. Where any
    /// step fails nothing of the unit stays: the registry is as it was.
    pub fn enroll(
        &mut self,
        phone_number: &str,
        candidate: u128,
        device_uuid: u128,
        device_name: Option<String>,
        platform: i16,
        material: Option<&KeyBundle>,
        now: i64,
    ) -> (r: Result<Enrollment, CoreError>)
        requires
            old(self).wf(),
        ensures
            final(self).wf(),
            match old(self)@.enrolled(
                phone_number@,
                candidate,
                device_uuid,
                text_of(device_name),
                platform,
                owned(material),
                now,
            ) {
                Ok((v, e)) => r == Ok::<Enrollment, CoreError>(e) && final(self)@ == v,
                Err(e) => r == Err::<Enrollment, CoreError>(e) && final(self)@ == old(self)@,
            },
    {
        let ghost before = self@;
        let found = match self.find_user_by_phone(phone_number) {
            Some(u) => Some(u.user_id),
            None => None,
        };
        match found {
            Some(user_id) => {
                assert(before.user_id_taken(user_id)) by {
                    assert(before.users[before.user_index(phone_number@)].user_id == user_id);
                }
                match self.add_device(
                    user_id,
                    device_uuid,
                    device_name,
                    platform,
                    DeviceType::Primary,
                    None,
                    material,
                    now,
                ) {
                    Ok(device_id) => Ok(Enrollment { user_id, device_id, is_new_user: false }),
                    Err(e) => Err(e),
                }
            },
            None => {
                if self.user_id_in_use(candidate) {
                    return Err(CoreError::ConflictError);
                }
                let mark = self.users.len();
                let user = users::Model {
                    user_id: candidate,
                    phone_number: phone_number.to_owned(),
                    phone_number_hash: phone_hash(phone_number),
                    display_name: None,
                    is_deleted: false,
                    created_at: now,
                    updated_at: now,
                };
                assert(user@ == user_row(candidate, phone_number@, now));
                proof {
                    lemma_push_user(before, user@);
                }
                self.users.push(user);
                assert(self@.users == before.users.push(user_row(candidate, phone_number@, now)));
                match self.add_device(
                    candidate,
                    device_uuid,
                    device_name,
                    platform,
                    DeviceType::Primary,
                    None,
                    material,
                    now,
                ) {
                    Ok(device_id) => Ok(
                        Enrollment { user_id: candidate, device_id, is_new_user: true },
                    ),
                    Err(e) => {
                        let ghost reached = self@;
                        self.users.truncate(mark);
                        assert(self@.users == reached.users.subrange(0, mark as int));
                        assert(self@.users == before.users);
                        assert(self@ == before);
                        Err(e)
                    },
                }
            },
        }
    }

    /// Where the session of an id stands.
    fn session_position(&self, session_id: u128) -> (r: Option<usize>)
        requires
            self.wf(),
        ensures
            match r {
                Some(at) => self@.session_id_taken(session_id) && at == self@.session_index(
                    session_id,
                ) && at < self@.sessions.len(),
                None => !self@.session_id_taken(session_id),
            },
    {
        let mut i: usize = 0;
        while i < self.sessions.len()
            invariant
                self.wf(),
                i <= self.sessions@.len(),
                forall|k: int| 0 <= k < i ==> (#[trigger] self@.sessions[k]).session_id != session_id,
            decreases self.sessions@.len() - i,
        {
            if self.sessions[i].session_id == session_id {
                assert(self@.sessions[i as int].session_id == session_id);
                return Some(i);
            }
            i = i + 1;
        }
        None
    }

    /// The linking session of an id.
    pub fn find_session(&self, session_id: u128) -> (r: Option<&device_linking_sessions::Model>)
        requires
            self.wf(),
        ensures
            match r {
                Some(s) => self@.session_id_taken(session_id) && s@
                    == self@.sessions[self@.session_index(session_id)],
                None => !self@.session_id_taken(session_id),
            },
    {
        match self.session_position(session_id) {
            Some(at) => Some(&self.sessions[at]),
            None => None,
        }
    }

    /// The linking session that carries a token.
    pub fn find_session_by_token(&self, token: &str) -> (r: Option<&device_linking_sessions::Model>)
        requires
            self.wf(),
        ensures
            match r {
                Some(s) => self@.token_taken(token@) && s@
                    == self@.sessions[self@.session_index_of_token(token@)],
                None => !self@.token_taken(token@),
            },
    {
        let mut i: usize = 0;
        while i < self.sessions.len()
            invariant
                self.wf(),
                i <= self.sessions@.len(),
                forall|k: int| 0 <= k < i ==> (#[trigger] self@.sessions[k]).qr_code_token != token@,
            decreases self.sessions@.len() - i,
        {
            if text_equal(self.sessions[i].qr_code_token.as_str(), token) {
                assert(self@.sessions[i as int].qr_code_token == token@);
                return Some(&self.sessions[i]);
            }
            i = i + 1;
        }
        None
    }

    /// Opens a pending linking session for a device. The session runs out
    /// `ttl` seconds after `now`.
    pub fn open_session(
        &mut self,
        session_id: u128,
        primary_device_id: i64,
        token: String,
        now: i64,
        ttl: u32,
    ) -> (r: Result<(), CoreError>)
        requires
            old(self).wf(),
        ensures
            final(self).wf(),
            match old(self)@.with_session(session_id, primary_device_id, token@, now, ttl) {
                Ok(v) => r is Ok && final(self)@ == v,
                Err(e) => r == Err::<(), CoreError>(e) && final(self)@ == old(self)@,
            },
    {
        if self.find_device(primary_device_id).is_none() {
            return Err(CoreError::DeviceNotFound);
        }
        if self.session_position(session_id).is_some() {
            return Err(CoreError::ConflictError);
        }
        if self.find_session_by_token(token.as_str()).is_some() {
            return Err(CoreError::ConflictError);
        }
        let row = device_linking_sessions::Model {
            session_id,
            primary_device_id,
            qr_code_token: token,
            status: 1,
            new_device_uuid: None,
            new_device_name: None,
            expires_at: deadline(now, ttl),
            created_at: now,
            approved_at: None,
        };
        let ghost before = self@;
        proof {
            lemma_push_session(before, row@);
        }
        self.sessions.push(row);
        assert(self@.sessions == before.sessions.push(
            session_row(session_id, primary_device_id, token@, now, ttl),
        ));
        Ok(())
    }

    /// Approves a linking session at `now`, as one unit: a linked device is
    /// created with the public half of the bundle for the account of the
    /// device that opened the session, the bundle's one-time prekeys are
    /// added, and the session is marked approved. Where the session is not
    /// live, or any step fails, the registry is as it was.
    pub fn link_device(
        &mut self,
        session_id: u128,
        device_uuid: u128,
        device_name: Option<String>,
        platform: i16,
        material: Option<&KeyBundle>,
        now: i64,
    ) -> (r: Result<i64, CoreError>)
        requires
            old(self).wf(),
        ensures
            final(self).wf(),
            match old(self)@.linked(
                session_id,
                device_uuid,
                text_of(device_name),
                platform,
                owned(material),
                now,
            ) {
                Ok((v, id)) => r == Ok::<i64, CoreError>(id) && final(self)@ == v,
                Err(e) => r == Err::<i64, CoreError>(e) && final(self)@ == old(self)@,
            },
    {
        let ghost before = self@;
        let at = match self.session_position(session_id) {
            Some(at) => at,
            None => {
                return Err(CoreError::InvalidSessionState);
            },
        };
        if !self.sessions[at].is_pending_at(now) {
            return Err(CoreError::InvalidSessionState);
        }
        let primary_device_id = self.sessions[at].primary_device_id;
        let ghost session = before.sessions[at as int];
        assert(before.device_id_taken(primary_device_id)) by {
            assert(session.primary_device_id == primary_device_id);
        }
        let user_id = match self.find_device(primary_device_id) {
            Some(d) => d.user_id,
            None => {
                return Err(CoreError::InvalidSessionState);
            },
        };
        assert(before.user_id_taken(user_id)) by {
            let d = before.devices[before.device_index_of_id(primary_device_id)];
            assert(d.user_id == user_id);
        }
        let session_name = device_name.clone();
        let device_id = self.add_device(
            user_id,
            device_uuid,
            device_name,
            platform,
            DeviceType::Linked,
            Some(primary_device_id),
            material,
            now,
        )?;
        let ghost reached = self@;
        assert(reached.sessions == before.sessions);
        proof {
            lemma_update_session(
                reached,
                at as int,
                session.approved(device_uuid, text_of(device_name), now),
            );
        }
        let _ = self.sessions[at].approve(device_uuid, session_name, now);
        assert(self@.sessions == reached.sessions.update(
            at as int,
            session.approved(device_uuid, text_of(device_name), now),
        ));
        Ok(device_id)
    }

    /// Rejects a linking session at `now`. Where the session is not live the
    /// registry is as it was.
    pub fn reject_session(&mut self, session_id: u128, now: i64) -> (r: Result<(), CoreError>)
        requires
            old(self).wf(),
        ensures
            final(self).wf(),
            match old(self)@.rejected(session_id, now) {
                Ok(v) => r is Ok && final(self)@ == v,
                Err(e) => r == Err::<(), CoreError>(e) && final(self)@ == old(self)@,
            },
    {
        let ghost before = self@;
        let at = match self.session_position(session_id) {
            Some(at) => at,
            None => {
                return Err(CoreError::InvalidSessionState);
            },
        };
        if !self.sessions[at].is_pending_at(now) {
            return Err(CoreError::InvalidSessionState);
        }
        let ghost session = before.sessions[at as int];
        proof {
            lemma_update_session(before, at as int, session.rejected());
        }
        let _ = self.sessions[at].reject(now);
        assert(self@.sessions == before.sessions.update(at as int, session.rejected()));
        Ok(())
    }
}

/// Adding the first `k` prekeys of a device that has none keeps the constraints.
proof fn lemma_extend_prekeys(
    v: RegistryView,
    device_id: i64,
    rows: Seq<one_time_prekeys::ModelView>,
    k: int,
)
    requires
        v.wf(),
        v.device_id_taken(device_id),
        0 <= k <= rows.len(),
        forall|i: int| 0 <= i < rows.len() ==> (#[trigger] rows[i]).device_id == device_id,
        forall|i: int, j: int|
            0 <= i < j < rows.len() ==> (#[trigger] rows[i]).prekey_id != (
            #[trigger] rows[j]).prekey_id,
        forall|i: int| 0 <= i < v.prekeys.len() ==> (#[trigger] v.prekeys[i]).device_id != device_id,
    ensures
        (RegistryView { prekeys: v.prekeys + rows.subrange(0, k), ..v }).wf(),
    decreases k,
{
    if k == 0 {
        assert(v.prekeys + rows.subrange(0, 0) == v.prekeys);
    } else {
        lemma_extend_prekeys(v, device_id, rows, k - 1);
        let u = RegistryView { prekeys: v.prekeys + rows.subrange(0, k - 1), ..v };
        let row = rows[k - 1];
        assert(!u.prekey_taken(row.device_id, row.prekey_id)) by {
            if u.prekey_taken(row.device_id, row.prekey_id) {
                let i = choose|i: int|
                    0 <= i < u.prekeys.len() && (#[trigger] u.prekeys[i]).device_id == row.device_id
                        && u.prekeys[i].prekey_id == row.prekey_id;
                if i < v.prekeys.len() {
                    assert(u.prekeys[i] == v.prekeys[i]);
                } else {
                    assert(u.prekeys[i] == rows[i - v.prekeys.len()]);
                }
            }
        }
        lemma_push_prekey(u, row);
        assert(u.prekeys.push(row) == v.prekeys + rows.subrange(0, k));
    }
}

/// A device that is added with its prekeys keeps the constraints, gets the
/// next id, and is listed under its id and its UUID.
pub proof fn lemma_with_device(
    v: RegistryView,
    user_id: u128,
    device_uuid: u128,
    device_name: Option<Seq<char>>,
    platform: i16,
    device_type: DeviceType,
    linked_by: Option<i64>,
    bundle: KeyBundle,
    now: i64,
)
    requires
        v.wf(),
        v.user_id_taken(user_id),
        v.with_device(
            user_id,
            device_uuid,
            device_name,
            platform,
            device_type,
            linked_by,
            Some(bundle),
            now,
        ) is Ok,
    ensures
        ({
            let w = v.with_device(
                user_id,
                device_uuid,
                device_name,
                platform,
                device_type,
                linked_by,
                Some(bundle),
                now,
            ).unwrap();
            &&& w.wf()
            &&& w.device_id_taken(v.next_device_id)
            &&& w.device_uuid_taken(device_uuid)
            &&& w.users == v.users
            &&& w.sessions == v.sessions
        }),
{
    let w = v.with_device(
        user_id,
        device_uuid,
        device_name,
        platform,
        device_type,
        linked_by,
        Some(bundle),
        now,
    ).unwrap();
    let device = device_row(
        v.next_device_id,
        user_id,
        device_uuid,
        device_name,
        platform,
        device_type,
        linked_by,
        bundle,
        now,
    );
    let rows = prekey_rows(v.next_device_id, bundle);
    let ids = bundle.prekey_ids();
    lemma_push_device(v, device);
    let u = RegistryView {
        devices: v.devices.push(device),
        next_device_id: (v.next_device_id + 1) as i64,
        ..v
    };
    assert(u.devices[v.devices.len() as int] == device);
    assert forall|i: int| 0 <= i < u.prekeys.len() implies (#[trigger] u.prekeys[i]).device_id
        != v.next_device_id by {
        assert(v.device_id_taken(v.prekeys[i].device_id));
    }
    assert forall|i: int, j: int| 0 <= i < j < rows.len() implies (#[trigger] rows[i]).prekey_id != (
    #[trigger] rows[j]).prekey_id by {
        assert(ids[i] != ids[j]);
    }
    lemma_extend_prekeys(u, v.next_device_id, rows, rows.len() as int);
    assert(rows.subrange(0, rows.len() as int) == rows);
    assert(w == (RegistryView { prekeys: u.prekeys + rows, ..u }));
    assert(w.devices[v.devices.len() as int] == device);
}

/// An enrolment keeps the constraints. Afterwards the phone number has an
/// account, which is the one reported, and the device is listed.
pub proof fn lemma_enrolled(
    v: RegistryView,
    phone_number: Seq<char>,
    candidate: u128,
    device_uuid: u128,
    device_name: Option<Seq<char>>,
    platform: i16,
    bundle: KeyBundle,
    now: i64,
)
    requires
        v.wf(),
        v.enrolled(phone_number, candidate, device_uuid, device_name, platform, Some(bundle), now) is Ok,
    ensures
        ({
            let (w, e) = v.enrolled(
                phone_number,
                candidate,
                device_uuid,
                device_name,
                platform,
                Some(bundle),
                now,
            ).unwrap();
            &&& w.wf()
            &&& w.phone_taken(phone_number)
            &&& w.users[w.user_index(phone_number)].user_id == e.user_id
            &&& w.device_uuid_taken(device_uuid)
            &&& w.device_id_taken(e.device_id)
            &&& e.device_id == v.next_device_id
            &&& e.is_new_user == !v.phone_taken(phone_number)
        }),
{
    let (w, e) = v.enrolled(
        phone_number,
        candidate,
        device_uuid,
        device_name,
        platform,
        Some(bundle),
        now,
    ).unwrap();
    if v.phone_taken(phone_number) {
        let at = v.user_index(phone_number);
        let user_id = v.users[at].user_id;
        lemma_with_device(
            v,
            user_id,
            device_uuid,
            device_name,
            platform,
            DeviceType::Primary,
            None,
            bundle,
            now,
        );
        assert(w.users[at].phone_number == phone_number);
    } else {
        let row = user_row(candidate, phone_number, now);
        lemma_push_user(v, row);
        let u = RegistryView { users: v.users.push(row), ..v };
        lemma_with_device(
            u,
            candidate,
            device_uuid,
            device_name,
            platform,
            DeviceType::Primary,
            None,
            bundle,
            now,
        );
        let last = v.users.len() as int;
        assert(w.users[last] == row);
        let at = w.user_index(phone_number);
        if at < last {
            assert(w.users[at].phone_number != w.users[last].phone_number);
        }
    }
}

/// A successful enrolment adds exactly one device, which gets the id that
/// is reported, and exactly the one-time prekeys of the bundle, all tied to
/// that device; it adds at most one account and touches no linking session.
pub proof fn enrolment_adds_one_device_and_its_prekeys(
    v: RegistryView,
    phone_number: Seq<char>,
    candidate: u128,
    device_uuid: u128,
    device_name: Option<Seq<char>>,
    platform: i16,
    bundle: KeyBundle,
    now: i64,
)
    requires
        v.wf(),
        v.enrolled(phone_number, candidate, device_uuid, device_name, platform, Some(bundle), now) is Ok,
    ensures
        ({
            let (w, e) = v.enrolled(
                phone_number,
                candidate,
                device_uuid,
                device_name,
                platform,
                Some(bundle),
                now,
            ).unwrap();
            &&& w.devices == v.devices.push(
                device_row(
                    e.device_id,
                    e.user_id,
                    device_uuid,
                    device_name,
                    platform,
                    DeviceType::Primary,
                    None,
                    bundle,
                    now,
                ),
            )
            &&& w.prekeys == v.prekeys + prekey_rows(e.device_id, bundle)
            &&& w.device_count(e.user_id) == v.device_count(e.user_id) + 1
            &&& w.prekey_count(e.device_id) == bundle.one_time_prekeys@.len()
            &&& v.prekey_count(e.device_id) == 0
            &&& w.users.len() == v.users.len() + if e.is_new_user {
                1nat
            } else {
                0nat
            }
            &&& w.sessions == v.sessions
        }),
{
    let (w, e) = v.enrolled(
        phone_number,
        candidate,
        device_uuid,
        device_name,
        platform,
        Some(bundle),
        now,
    ).unwrap();
    lemma_enrolled(v, phone_number, candidate, device_uuid, device_name, platform, bundle, now);
    let device = device_row(
        e.device_id,
        e.user_id,
        device_uuid,
        device_name,
        platform,
        DeviceType::Primary,
        None,
        bundle,
        now,
    );
    let rows = prekey_rows(e.device_id, bundle);
    let of_user = |d: devices::ModelView| d.user_id == e.user_id;
    let of_device = |p: one_time_prekeys::ModelView| p.device_id == e.device_id;
    assert(w.devices == v.devices.push(device));
    assert(w.prekeys == v.prekeys + rows);
    assert(w.devices.filter(of_user) == v.devices.filter(of_user).push(device)) by {
        reveal(Seq::filter);
        assert(w.devices.drop_last() == v.devices);
    }
    assert forall|i: int| 0 <= i < v.prekeys.len() implies !of_device(
        #[trigger] v.prekeys[i],
    ) by {
        assert(v.device_id_taken(v.prekeys[i].device_id));
    }
    lemma_filter_none(v.prekeys, of_device);
    lemma_filter_all(rows, of_device);
    Seq::filter_distributes_over_add(v.prekeys, rows, of_device);
}

/// Where no element meets a condition, none is kept.
proof fn lemma_filter_none<A>(s: Seq<A>, pred: spec_fn(A) -> bool)
    requires
        forall|i: int| 0 <= i < s.len() ==> !pred(#[trigger] s[i]),
    ensures
        s.filter(pred).len() == 0,
    decreases s.len(),
{
    reveal(Seq::filter);
    if s.len() > 0 {
        lemma_filter_none(s.drop_last(), pred);
    }
}

/// Where every element meets a condition, all are kept.
proof fn lemma_filter_all<A>(s: Seq<A>, pred: spec_fn(A) -> bool)
    requires
        forall|i: int| 0 <= i < s.len() ==> pred(#[trigger] s[i]),
    ensures
        s.filter(pred) == s,
    decreases s.len(),
{
    reveal(Seq::filter);
    if s.len() > 0 {
        lemma_filter_all(s.drop_last(), pred);
        assert(s.drop_last().push(s.last()) == s);
    }
}

/// Two enrolments under one phone number, the first of which creates the
/// account, report the same user; only the first reports a new user.
pub proof fn second_enrolment_finds_the_account(
    v: RegistryView,
    phone_number: Seq<char>,
    first_candidate: u128,
    first_uuid: u128,
    first_name: Option<Seq<char>>,
    first_bundle: KeyBundle,
    first_now: i64,
    second_candidate: u128,
    second_uuid: u128,
    second_name: Option<Seq<char>>,
    second_bundle: KeyBundle,
    second_now: i64,
    platform: i16,
)
    requires
        v.wf(),
        !v.phone_taken(phone_number),
        v.enrolled(
            phone_number,
            first_candidate,
            first_uuid,
            first_name,
            platform,
            Some(first_bundle),
            first_now,
        ) is Ok,
        v.enrolled(
            phone_number,
            first_candidate,
            first_uuid,
            first_name,
            platform,
            Some(first_bundle),
            first_now,
        ).unwrap().0.enrolled(
            phone_number,
            second_candidate,
            second_uuid,
            second_name,
            platform,
            Some(second_bundle),
            second_now,
        ) is Ok,
    ensures
        ({
            let (w, first) = v.enrolled(
                phone_number,
                first_candidate,
                first_uuid,
                first_name,
                platform,
                Some(first_bundle),
                first_now,
            ).unwrap();
            let (x, second) = w.enrolled(
                phone_number,
                second_candidate,
                second_uuid,
                second_name,
                platform,
                Some(second_bundle),
                second_now,
            ).unwrap();
            &&& first.is_new_user
            &&& !second.is_new_user
            &&& second.user_id == first.user_id
            &&& second.device_id != first.device_id
            &&& first_uuid != second_uuid
            &&& x.users.len() == v.users.len() + 1
        }),
{
    lemma_enrolled(
        v,
        phone_number,
        first_candidate,
        first_uuid,
        first_name,
        platform,
        first_bundle,
        first_now,
    );
    let (w, first) = v.enrolled(
        phone_number,
        first_candidate,
        first_uuid,
        first_name,
        platform,
        Some(first_bundle),
        first_now,
    ).unwrap();
    lemma_enrolled(
        w,
        phone_number,
        second_candidate,
        second_uuid,
        second_name,
        platform,
        second_bundle,
        second_now,
    );
}

/// Once a device is enrolled under a UUID, no enrolment under the same UUID
/// succeeds, whatever the phone number. With a bundle whose signature
/// verifies, and while device ids are left, it is refused as a conflict.
pub proof fn device_uuid_is_enrolled_once(
    v: RegistryView,
    device_uuid: u128,
    first_phone: Seq<char>,
    first_candidate: u128,
    first_name: Option<Seq<char>>,
    first_platform: i16,
    first_bundle: KeyBundle,
    first_now: i64,
    second_phone: Seq<char>,
    second_candidate: u128,
    second_name: Option<Seq<char>>,
    second_platform: i16,
    second_bundle: KeyBundle,
    second_now: i64,
)
    requires
        v.wf(),
        v.enrolled(
            first_phone,
            first_candidate,
            device_uuid,
            first_name,
            first_platform,
            Some(first_bundle),
            first_now,
        ) is Ok,
    ensures
        ({
            let w = v.enrolled(
                first_phone,
                first_candidate,
                device_uuid,
                first_name,
                first_platform,
                Some(first_bundle),
                first_now,
            ).unwrap().0;
            let second = w.enrolled(
                second_phone,
                second_candidate,
                device_uuid,
                second_name,
                second_platform,
                Some(second_bundle),
                second_now,
            );
            &&& second is Err
            &&& second_bundle.self_consistent() && w.next_device_id < i64::MAX ==> second == Err::<
                (RegistryView, Enrollment),
                CoreError,
            >(CoreError::ConflictError)
        }),
{
    lemma_enrolled(
        v,
        first_phone,
        first_candidate,
        device_uuid,
        first_name,
        first_platform,
        first_bundle,
        first_now,
    );
    let w = v.enrolled(
        first_phone,
        first_candidate,
        device_uuid,
        first_name,
        first_platform,
        Some(first_bundle),
        first_now,
    ).unwrap().0;
    if !w.phone_taken(second_phone) && !w.user_id_taken(second_candidate) {
        let u = RegistryView {
            users: w.users.push(user_row(second_candidate, second_phone, second_now)),
            ..w
        };
        assert(u.device_uuid_taken(device_uuid)) by {
            let i = choose|i: int|
                0 <= i < w.devices.len() && (#[trigger] w.devices[i]).device_uuid == device_uuid;
            assert(u.devices[i].device_uuid == device_uuid);
        }
    }
}

/// An approval keeps the constraints and leaves the session approved.
pub proof fn lemma_linked(
    v: RegistryView,
    session_id: u128,
    device_uuid: u128,
    device_name: Option<Seq<char>>,
    platform: i16,
    bundle: KeyBundle,
    now: i64,
)
    requires
        v.wf(),
        v.linked(session_id, device_uuid, device_name, platform, Some(bundle), now) is Ok,
    ensures
        ({
            let (w, device_id) = v.linked(
                session_id,
                device_uuid,
                device_name,
                platform,
                Some(bundle),
                now,
            ).unwrap();
            &&& w.wf()
            &&& device_id == v.next_device_id
            &&& w.devices.len() == v.devices.len() + 1
            &&& w.prekeys == v.prekeys + prekey_rows(device_id, bundle)
            &&& w.session_id_taken(session_id)
            &&& w.sessions[w.session_index(session_id)].status == 2
            &&& w.session_index(session_id) == v.session_index(session_id)
            &&& w.users == v.users
        }),
{
    let at = v.session_index(session_id);
    let session = v.sessions[at];
    assert(v.device_id_taken(session.primary_device_id));
    let primary = v.devices[v.device_index_of_id(session.primary_device_id)];
    assert(v.user_id_taken(primary.user_id));
    lemma_with_device(
        v,
        primary.user_id,
        device_uuid,
        device_name,
        platform,
        DeviceType::Linked,
        Some(primary.device_id),
        bundle,
        now,
    );
    let u = v.with_device(
        primary.user_id,
        device_uuid,
        device_name,
        platform,
        DeviceType::Linked,
        Some(primary.device_id),
        Some(bundle),
        now,
    ).unwrap();
    let row = session.approved(device_uuid, device_name, now);
    lemma_update_session(u, at, row);
    let w = RegistryView { sessions: u.sessions.update(at, row), ..u };
    assert(w.sessions[at].session_id == session_id);
    let found = w.session_index(session_id);
    if found < at {
        assert(w.sessions[found].session_id != w.sessions[at].session_id);
    } else if at < found {
        assert(w.sessions[at].session_id != w.sessions[found].session_id);
    }
}

/// A successful approval adds exactly one device, which is a linked device
/// of the account that opened the session, admitted by the device that
/// opened it, and exactly the one-time prekeys of the bundle, all tied to the
/// new device. It creates no account.
pub proof fn approval_adds_one_device_and_its_prekeys(
    v: RegistryView,
    session_id: u128,
    device_uuid: u128,
    device_name: Option<Seq<char>>,
    platform: i16,
    bundle: KeyBundle,
    now: i64,
)
    requires
        v.wf(),
        v.linked(session_id, device_uuid, device_name, platform, Some(bundle), now) is Ok,
    ensures
        ({
            let (w, device_id) = v.linked(
                session_id,
                device_uuid,
                device_name,
                platform,
                Some(bundle),
                now,
            ).unwrap();
            let primary = v.devices[v.device_index_of_id(
                v.sessions[v.session_index(session_id)].primary_device_id,
            )];
            &&& w.devices == v.devices.push(
                device_row(
                    device_id,
                    primary.user_id,
                    device_uuid,
                    device_name,
                    platform,
                    DeviceType::Linked,
                    Some(primary.device_id),
                    bundle,
                    now,
                ),
            )
            &&& w.devices.last().linked_at == Some(now)
            &&& w.prekeys == v.prekeys + prekey_rows(device_id, bundle)
            &&& w.prekey_count(device_id) == bundle.one_time_prekeys@.len()
            &&& v.prekey_count(device_id) == 0
            &&& w.users == v.users
            &&& w.sessions.len() == v.sessions.len()
        }),
{
    lemma_linked(v, session_id, device_uuid, device_name, platform, bundle, now);
    let device_id = v.next_device_id;
    let rows = prekey_rows(device_id, bundle);
    let of_device = |p: one_time_prekeys::ModelView| p.device_id == device_id;
    assert forall|i: int| 0 <= i < v.prekeys.len() implies !of_device(
        #[trigger] v.prekeys[i],
    ) by {
        assert(v.device_id_taken(v.prekeys[i].device_id));
    }
    lemma_filter_none(v.prekeys, of_device);
    lemma_filter_all(rows, of_device);
    Seq::filter_distributes_over_add(v.prekeys, rows, of_device);
}

/// A session is approved at most once: after an approval, every further
/// approval of the session is refused as not live, and so is every rejection.
pub proof fn session_is_approved_once(
    v: RegistryView,
    session_id: u128,
    first_uuid: u128,
    first_name: Option<Seq<char>>,
    first_bundle: KeyBundle,
    first_now: i64,
    second_uuid: u128,
    second_name: Option<Seq<char>>,
    second_bundle: KeyBundle,
    second_now: i64,
    platform: i16,
)
    requires
        v.wf(),
        v.linked(session_id, first_uuid, first_name, platform, Some(first_bundle), first_now) is Ok,
    ensures
        ({
            let w = v.linked(
                session_id,
                first_uuid,
                first_name,
                platform,
                Some(first_bundle),
                first_now,
            ).unwrap().0;
            &&& !w.session_live(session_id, second_now)
            &&& w.linked(session_id, second_uuid, second_name, platform, Some(second_bundle), second_now)
                == Err::<(RegistryView, i64), CoreError>(CoreError::InvalidSessionState)
            &&& w.rejected(session_id, second_now) == Err::<RegistryView, CoreError>(
                CoreError::InvalidSessionState,
            )
        }),
{
    lemma_linked(v, session_id, first_uuid, first_name, platform, first_bundle, first_now);
}

/// No session leaves a final status: a session that is stored as approved,
/// expired or rejected can be neither approved nor rejected, at any time.
pub proof fn final_status_is_kept(
    v: RegistryView,
    session_id: u128,
    device_uuid: u128,
    device_name: Option<Seq<char>>,
    platform: i16,
    bundle: KeyBundle,
    now: i64,
)
    requires
        v.session_id_taken(session_id),
        v.sessions[v.session_index(session_id)].status != 1,
    ensures
        v.linked(session_id, device_uuid, device_name, platform, Some(bundle), now) == Err::<
            (RegistryView, i64),
            CoreError,
        >(CoreError::InvalidSessionState),
        v.rejected(session_id, now) == Err::<RegistryView, CoreError>(CoreError::InvalidSessionState),
{
}

} // verus!
