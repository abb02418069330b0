//! Accounts: one per phone number.

use vstd::prelude::*;

verus! {

/// One account.
#[derive(Debug, Clone, PartialEq, Eq)]
pub struct Model {
    pub user_id: u128,
    pub phone_number: String,
    /// SHA-256 of the phone number's bytes.
    pub phone_number_hash: Vec<u8>,
    pub display_name: Option<String>,
    pub is_deleted: bool,
    pub created_at: i64,
    pub updated_at: i64,
}

/// What an account record holds, as mathematical values.
#[verifier::ext_equal]
pub struct ModelView {
    pub user_id: u128,
    pub phone_number: Seq<char>,
    pub phone_number_hash: Seq<u8>,
    pub display_name: Option<Seq<char>>,
    pub is_deleted: bool,
    pub created_at: i64,
    pub updated_at: i64,
}

impl View for Model {
    type V = ModelView;

    open spec fn view(&self) -> ModelView {
        ModelView {
            user_id: self.user_id,
            phone_number: self.phone_number@,
            phone_number_hash: self.phone_number_hash@,
            display_name: match self.display_name {
                Some(s) => Some(s@),
                None => None,
            },
            is_deleted: self.is_deleted,
            created_at: self.created_at,
            updated_at: self.updated_at,
        }
    }
}

} // verus!
