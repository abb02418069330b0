//! Linking sessions: one attempt to add a secondary device to an account.
//!
//! A session is created pending and ends by approval, by rejection, or by
//! running out. Nothing sweeps sessions: whether one has run out is decided
//! from its expiry whenever it is read.

use vstd::prelude::*;
use vstd::std_specs::convert::FromSpecImpl;
use crate::clock::unix_now;
use crate::error::CoreError;

verus! {

/// Status of a device linking session.
#[derive(Debug, Clone, Copy, PartialEq, Eq, Structural)]
pub enum LinkingStatus {
    Pending,
    Approved,
    Expired,
    Rejected,
}

impl LinkingStatus {
    /// The status that a stored code stands for. Codes outside `1..=4` read as `Pending`.
    pub open spec fn of_code(v: i16) -> LinkingStatus {
        if v == 2 {
            LinkingStatus::Approved
        } else if v == 3 {
            LinkingStatus::Expired
        } else if v == 4 {
            LinkingStatus::Rejected
        } else {
            LinkingStatus::Pending
        }
    }

    /// The code under which a status is stored.
    pub open spec fn code_of(self) -> i16 {
        match self {
            LinkingStatus::Pending => 1,
            LinkingStatus::Approved => 2,
            LinkingStatus::Expired => 3,
            LinkingStatus::Rejected => 4,
        }
    }

    /// Once a session has left `Pending` it never changes again.
    pub open spec fn is_terminal(self) -> bool {
        self != LinkingStatus::Pending
    }
}

impl From<i16> for LinkingStatus {
    fn from(v: i16) -> (r: Self) {
        match v {
            1 => LinkingStatus::Pending,
            2 => LinkingStatus::Approved,
            3 => LinkingStatus::Expired,
            4 => LinkingStatus::Rejected,
            _ => LinkingStatus::Pending,
        }
    }
}

impl FromSpecImpl<i16> for LinkingStatus {
    open spec fn obeys_from_spec() -> bool {
        true
    }

    open spec fn from_spec(v: i16) -> LinkingStatus {
        LinkingStatus::of_code(v)
    }
}

impl From<LinkingStatus> for i16 {
    fn from(s: LinkingStatus) -> (r: Self) {
        match s {
            LinkingStatus::Pending => 1,
            LinkingStatus::Approved => 2,
            LinkingStatus::Expired => 3,
            LinkingStatus::Rejected => 4,
        }
    }
}

impl FromSpecImpl<LinkingStatus> for i16 {
    open spec fn obeys_from_spec() -> bool {
        true
    }

    open spec fn from_spec(s: LinkingStatus) -> i16 {
        s.code_of()
    }
}

/// Whether `v` is the stored code of a status.
pub open spec fn valid_code(v: i16) -> bool {
    1 <= v <= 4
}

/// One linking session.
#[derive(Debug, Clone, PartialEq, Eq)]
pub struct Model {
    pub session_id: u128,
    pub primary_device_id: i64,
    /// The single-use value that the scannable linking code carries.
    pub qr_code_token: String,
    /// 1 = pending, 2 = approved, 3 = expired, 4 = rejected.
    pub status: i16,
    pub new_device_uuid: Option<u128>,
    pub new_device_name: Option<String>,
    pub expires_at: i64,
    pub created_at: i64,
    pub approved_at: Option<i64>,
}

/// What a linking session holds, as mathematical values.
#[verifier::ext_equal]
pub struct ModelView {
    pub session_id: u128,
    pub primary_device_id: i64,
    pub qr_code_token: Seq<char>,
    pub status: i16,
    pub new_device_uuid: Option<u128>,
    pub new_device_name: Option<Seq<char>>,
    pub expires_at: i64,
    pub created_at: i64,
    pub approved_at: Option<i64>,
}

impl ModelView {
    /// Whether the session has run out at `now`.
    pub open spec fn expired_at(self, now: i64) -> bool {
        now >= self.expires_at
    }

    /// Whether a device can still be linked through the session at `now`:
    /// it is stored as pending and has not run out.
    pub open spec fn live_at(self, now: i64) -> bool {
        self.status == 1 && !self.expired_at(now)
    }

    /// The status that a reader sees at `now`: a session stored as pending
    /// that has run out is expired, whatever is stored.
    pub open spec fn status_at(self, now: i64) -> LinkingStatus {
        if self.status == 1 && self.expired_at(now) {
            LinkingStatus::Expired
        } else {
            LinkingStatus::of_code(self.status)
        }
    }

    /// The session after approval at `now` for the device `uuid`.
    pub open spec fn approved(self, uuid: u128, name: Option<Seq<char>>, now: i64) -> ModelView {
        ModelView {
            status: 2,
            new_device_uuid: Some(uuid),
            new_device_name: name,
            approved_at: Some(now),
            ..self
        }
    }

    /// The session after rejection.
    pub open spec fn rejected(self) -> ModelView {
        ModelView { status: 4, ..self }
    }
}

impl View for Model {
    type V = ModelView;

    open spec fn view(&self) -> ModelView {
        ModelView {
            session_id: self.session_id,
            primary_device_id: self.primary_device_id,
            qr_code_token: self.qr_code_token@,
            status: self.status,
            new_device_uuid: self.new_device_uuid,
            new_device_name: match self.new_device_name {
                Some(s) => Some(s@),
                None => None,
            },
            expires_at: self.expires_at,
            created_at: self.created_at,
            approved_at: self.approved_at,
        }
    }
}

impl Model {
    /// The status as stored, without regard to the expiry.
    pub fn linking_status(&self) -> (r: LinkingStatus)
        ensures
            r == LinkingStatus::of_code(self.status),
    {
        LinkingStatus::from(self.status)
    }

    /// Whether the session has run out at `now`.
    pub fn is_expired_at(&self, now: i64) -> (r: bool)
        ensures
            r == self@.expired_at(now),
    {
        now >= self.expires_at
    }

    /// Whether the session is live at `now`.
    pub fn is_pending_at(&self, now: i64) -> (r: bool)
        ensures
            r == self@.live_at(now),
    {
        self.status == 1 && !self.is_expired_at(now)
    }

    /// The status that a reader sees at `now`.
    pub fn status_at(&self, now: i64) -> (r: LinkingStatus)
        ensures
            r == self@.status_at(now),
    {
        if self.status == 1 && self.is_expired_at(now) {
            LinkingStatus::Expired
        } else {
            self.linking_status()
        }
    }

    /// Whether the session has run out by the system clock: the answer of
    /// `is_expired_at` for some reading of it.
    pub fn is_expired(&self) -> (r: bool)
        ensures
            exists|now: i64| now >= 0 && r == self@.expired_at(now),
    {
        let now = unix_now();
        self.is_expired_at(now)
    }

    /// Whether the session is live by the system clock: the answer of
    /// `is_pending_at` for some reading of it. A session that is not stored as
    /// pending is never live.
    pub fn is_pending(&self) -> (r: bool)
        ensures
            exists|now: i64| now >= 0 && r == self@.live_at(now),
            self.status != 1 ==> !r,
    {
        let now = unix_now();
        self.is_pending_at(now)
    }

    /// Approves the session at `now` for the device `uuid`. Only a live
    /// session can be approved; any other is left as it is.
    pub fn approve(&mut self, uuid: u128, name: Option<String>, now: i64) -> (r: Result<(), CoreError>)
        ensures
            old(self)@.live_at(now) ==> r is Ok && final(self)@ == old(self)@.approved(
                uuid,
                match name {
                    Some(s) => Some(s@),
                    None => None,
                },
                now,
            ),
            !old(self)@.live_at(now) ==> r == Err::<(), CoreError>(CoreError::InvalidSessionState)
                && *final(self) == *old(self),
    {
        if !self.is_pending_at(now) {
            return Err(CoreError::InvalidSessionState);
        }
        self.status = 2;
        self.new_device_uuid = Some(uuid);
        self.new_device_name = name;
        self.approved_at = Some(now);
        Ok(())
    }

    /// Rejects the session at `now`. Only a live session can be rejected; any
    /// other is left as it is.
    pub fn reject(&mut self, now: i64) -> (r: Result<(), CoreError>)
        ensures
            old(self)@.live_at(now) ==> r is Ok && final(self)@ == old(self)@.rejected(),
            !old(self)@.live_at(now) ==> r == Err::<(), CoreError>(CoreError::InvalidSessionState)
                && *final(self) == *old(self),
    {
        if !self.is_pending_at(now) {
            return Err(CoreError::InvalidSessionState);
        }
        self.status = 4;
        Ok(())
    }
}

} // verus!
