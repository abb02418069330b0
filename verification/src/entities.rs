//! Plain data records of the account and device registry. Records refer to
//! each other by id only.

pub mod device_linking_sessions;
pub mod devices;
pub mod one_time_prekeys;
pub mod users;
