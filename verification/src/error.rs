//! The failures that the operations of this crate report.

use vstd::prelude::*;
use vstd::string::*;

verus! {

/// Why an operation was refused or could not be completed.
#[derive(Debug, Clone, Copy, PartialEq, Eq, Structural)]
pub enum CoreError {
    /// No code is pending for the phone number, it has run out, or the candidate differs.
    InvalidOrExpiredOtp,
    /// No account exists for the phone number.
    UserNotFound,
    /// The account has no device with the given UUID.
    DeviceNotFound,
    /// No linking session carries the given token or id.
    LinkingSessionNotFound,
    /// The linking session is no longer pending, or has run out.
    InvalidSessionState,
    /// A unique value (phone number, device UUID, linking token, an id) is already taken.
    ConflictError,
    /// The randomness source or the signing operation failed.
    KeyGenerationError,
    /// A store could not serve the request; the caller may try again.
    StoreUnavailable,
    /// The unit of work was rolled back; the caller may try again.
    TransactionAborted,
}

impl CoreError {
    /// Whether trying the same request again can succeed.
    pub open spec fn retryable(self) -> bool {
        self == CoreError::StoreUnavailable || self == CoreError::TransactionAborted
    }

    /// Whether trying the same request again can succeed.
    pub fn is_retryable(&self) -> (r: bool)
        ensures
            r == self.retryable(),
    {
        match self {
            CoreError::StoreUnavailable => true,
            CoreError::TransactionAborted => true,
            _ => false,
        }
    }

    /// The text shown to a caller. A wrong code and a missing code read the same, so
    /// that the answer does not tell whether a phone number is known.
    pub open spec fn message_text(self) -> Seq<char> {
        match self {
            CoreError::InvalidOrExpiredOtp => "Invalid or expired OTP"@,
            CoreError::UserNotFound => "User not found"@,
            CoreError::DeviceNotFound => "Device not found"@,
            CoreError::LinkingSessionNotFound => "Linking session not found"@,
            CoreError::InvalidSessionState => "Invalid session state"@,
            CoreError::ConflictError => "Conflict"@,
            CoreError::KeyGenerationError => "Key generation failed"@,
            CoreError::StoreUnavailable => "Store unavailable"@,
            CoreError::TransactionAborted => "Transaction aborted"@,
        }
    }

    /// The text shown to a caller.
    pub fn message(&self) -> (r: String)
        ensures
            r@ == self.message_text(),
    {
        match self {
            CoreError::InvalidOrExpiredOtp => String::from_str("Invalid or expired OTP"),
            CoreError::UserNotFound => String::from_str("User not found"),
            CoreError::DeviceNotFound => String::from_str("Device not found"),
            CoreError::LinkingSessionNotFound => String::from_str("Linking session not found"),
            CoreError::InvalidSessionState => String::from_str("Invalid session state"),
            CoreError::ConflictError => String::from_str("Conflict"),
            CoreError::KeyGenerationError => String::from_str("Key generation failed"),
            CoreError::StoreUnavailable => String::from_str("Store unavailable"),
            CoreError::TransactionAborted => String::from_str("Transaction aborted"),
        }
    }
}

} // verus!
