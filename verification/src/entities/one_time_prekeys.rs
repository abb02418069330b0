//! One-time prekeys: single-use public keys, told apart by device and prekey id.

use vstd::prelude::*;

verus! {

/// One published one-time prekey.
#[derive(Debug, Clone, PartialEq, Eq)]
pub struct Model {
    pub device_id: i64,
    pub prekey_id: i32,
    pub public_key: Vec<u8>,
}

/// What a prekey record holds, as mathematical values.
#[verifier::ext_equal]
pub struct ModelView {
    pub device_id: i64,
    pub prekey_id: i32,
    pub public_key: Seq<u8>,
}

impl View for Model {
    type V = ModelView;

    open spec fn view(&self) -> ModelView {
        ModelView {
            device_id: self.device_id,
            prekey_id: self.prekey_id,
            public_key: self.public_key@,
        }
    }
}

} // verus!
