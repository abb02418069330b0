//! Identity and secure-session bootstrap for a multi-device encrypted
//! messaging service: who a user is, which device is theirs, and which
//! keys other devices fetch to open an encrypted channel to it.
//!
//! - `auth`: passcodes, the enrolment of a device, registration and login.
//! - `linking`: adding a device through one that is already trusted.
//! - `registry`: accounts, devices, prekeys and linking sessions, and the
//!   units of work on them.
//! - `keys`: the key bundle of a device.
//! - `token`: access and refresh tokens.
//! - `otp`: passcodes and the store in which they wait.
//! - `connection`, `websocket`: the devices that are connected right now.
//! - `flow`, `service`: the verification of a passcode for a service that
//!   keeps its records in stores of its own, and what it comes to there.
//! - `gateway`: the state on which `auth` and `linking` work.
//! - `entities`, `error`, `clock`, `ident`, `digest`, `entropy`, `text`:
//!   records, failures, and the few things taken from outside.

pub mod auth;
pub mod clock;
pub mod connection;
pub mod digest;
pub mod entities;
pub mod entropy;
pub mod error;
pub mod flow;
pub mod gateway;
pub mod ident;
pub mod keys;
pub mod linking;
pub mod otp;
pub mod registry;
pub mod service;
pub mod text;
pub mod token;
pub mod websocket;
