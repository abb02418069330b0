//! Devices: each belongs to one account and publishes one key bundle.

use vstd::prelude::*;
use crate::keys::verifies;

verus! {

/// Stored code of the platform given to a device when none is named.
pub const DEFAULT_PLATFORM: i16 = 1;

/// How a device came to its account.
#[derive(Debug, Clone, Copy, PartialEq, Eq, Structural)]
pub enum DeviceType {
    /// Enrolled by its owner through a code sent to the phone number.
    Primary,
    /// Admitted by a device that was already trusted.
    Linked,
}

impl DeviceType {
    /// The code under which a device type is stored.
    pub open spec fn code_of(self) -> i16 {
        match self {
            DeviceType::Primary => 1,
            DeviceType::Linked => 2,
        }
    }

    /// The code under which a device type is stored.
    pub fn code(self) -> (r: i16)
        ensures
            r == self.code_of(),
    {
        match self {
            DeviceType::Primary => 1,
            DeviceType::Linked => 2,
        }
    }
}

/// One device with the public half of its key bundle.
#[derive(Debug, Clone, PartialEq, Eq)]
pub struct Model {
    pub device_id: i64,
    pub user_id: u128,
    pub device_uuid: u128,
    pub device_name: Option<String>,
    pub platform: i16,
    pub identity_key_public: Vec<u8>,
    pub registration_id: i32,
    pub signed_prekey_id: i32,
    pub signed_prekey_public: Vec<u8>,
    pub signed_prekey_signature: Vec<u8>,
    pub last_seen_at: i64,
    pub created_at: i64,
    pub device_type: i16,
    pub is_active: bool,
    pub linked_at: Option<i64>,
    pub linked_by_device_id: Option<i64>,
}

/// What a device record holds, as mathematical values.
#[verifier::ext_equal]
pub struct ModelView {
    pub device_id: i64,
    pub user_id: u128,
    pub device_uuid: u128,
    pub device_name: Option<Seq<char>>,
    pub platform: i16,
    pub identity_key_public: Seq<u8>,
    pub registration_id: i32,
    pub signed_prekey_id: i32,
    pub signed_prekey_public: Seq<u8>,
    pub signed_prekey_signature: Seq<u8>,
    pub last_seen_at: i64,
    pub created_at: i64,
    pub device_type: i16,
    pub is_active: bool,
    pub linked_at: Option<i64>,
    pub linked_by_device_id: Option<i64>,
}

impl ModelView {
    /// Whether the signature stored over the signed prekey verifies under the
    /// stored identity key.
    pub open spec fn self_consistent(self) -> bool {
        verifies(self.identity_key_public, self.signed_prekey_public, self.signed_prekey_signature)
    }
}

impl View for Model {
    type V = ModelView;

    open spec fn view(&self) -> ModelView {
        ModelView {
            device_id: self.device_id,
            user_id: self.user_id,
            device_uuid: self.device_uuid,
            device_name: match self.device_name {
                Some(s) => Some(s@),
                None => None,
            },
            platform: self.platform,
            identity_key_public: self.identity_key_public@,
            registration_id: self.registration_id,
            signed_prekey_id: self.signed_prekey_id,
            signed_prekey_public: self.signed_prekey_public@,
            signed_prekey_signature: self.signed_prekey_signature@,
            last_seen_at: self.last_seen_at,
            created_at: self.created_at,
            device_type: self.device_type,
            is_active: self.is_active,
            linked_at: self.linked_at,
            linked_by_device_id: self.linked_by_device_id,
        }
    }
}

} // verus!
