//! The state that the operations of this crate work on: the codes that
//! wait, the registry, the token issuer, and the settings of the deployment.

use vstd::prelude::*;
use crate::keys::KeyBundle;
use crate::keys::MAX_REGISTRATION_ID;
use crate::otp::CodeStore;
use crate::otp::PendingCodeView;
use crate::otp::DEFAULT_OTP_TTL;
use crate::registry::Registry;
use crate::registry::RegistryView;
use crate::token::TokenIssuer;

verus! {

/// Seconds for which a linking session is live unless the deployment says otherwise.
pub const DEFAULT_LINKING_TTL: u32 = 300;

/// One-time prekeys issued per device unless the deployment says otherwise.
pub const DEFAULT_PREKEY_BATCH: u32 = 100;

/// What a deployment chooses.
#[derive(Debug, Clone, Copy, PartialEq, Eq, Structural)]
pub struct Settings {
    /// Seconds for which a passcode waits.
    pub otp_ttl: u32,
    /// Seconds for which a linking session is live.
    pub linking_ttl: u32,
    /// How many one-time prekeys a new device gets.
    pub prekey_batch: u32,
    /// The id of the first one-time prekey of a new device.
    pub first_prekey_id: i32,
    /// The id of the signed prekey of a new device.
    pub signed_prekey_id: i32,
}

impl Settings {
    /// Whether key material is what the settings ask for: where there is a
    /// bundle, its signature verifies, it has a registration id in range and
    /// the signed prekey under the id that is set, and it holds as many
    /// one-time prekeys as a device gets, under the ids that are set.
    pub open spec fn asks_for(self, material: Option<KeyBundle>) -> bool {
        material matches Some(bundle) ==> {
            &&& bundle.self_consistent()
            &&& bundle.one_time_prekeys@.len() == self.prekey_batch
            &&& bundle.sequential_from(self.first_prekey_id)
            &&& bundle.signed_prekey.id == self.signed_prekey_id
            &&& 1 <= bundle.registration_id <= MAX_REGISTRATION_ID
        }
    }

    /// The usual settings: codes wait for 180 seconds,
    /// linking sessions live for 300, and a device gets 100 one-time prekeys
    /// under the ids 1 to 100 and its signed prekey under the id 1.
    pub fn standard() -> (r: Settings)
        ensures
            r == (Settings {
                otp_ttl: DEFAULT_OTP_TTL,
                linking_ttl: DEFAULT_LINKING_TTL,
                prekey_batch: DEFAULT_PREKEY_BATCH,
                first_prekey_id: 1,
                signed_prekey_id: 1,
            }),
    {
        Settings {
            otp_ttl: DEFAULT_OTP_TTL,
            linking_ttl: DEFAULT_LINKING_TTL,
            prekey_batch: DEFAULT_PREKEY_BATCH,
            first_prekey_id: 1,
            signed_prekey_id: 1,
        }
    }
}

/// The state of the service. Each part keeps its own constraints; the
/// operations pass the parts they need to each other.
pub struct Gateway {
    pub codes: CodeStore,
    pub registry: Registry,
    pub issuer: TokenIssuer,
    pub settings: Settings,
}

/// The state of the service as mathematical values.
#[verifier::ext_equal]
pub struct GatewayView {
    pub codes: Map<Seq<char>, PendingCodeView>,
    pub registry: RegistryView,
    pub secret: Seq<char>,
    pub settings: Settings,
}

impl View for Gateway {
    type V = GatewayView;

    open spec fn view(&self) -> GatewayView {
        GatewayView {
            codes: self.codes@,
            registry: self.registry@,
            secret: self.issuer.secret(),
            settings: self.settings,
        }
    }
}

impl Gateway {
    /// Whether both stores meet their constraints.
    pub open spec fn wf(&self) -> bool {
        self.codes.wf() && self.registry.wf()
    }

    /// The state of a service that has just started: no code waits, the
    /// registry is empty, and tokens are signed under `secret`.
    pub fn new(secret: String, settings: Settings) -> (r: Gateway)
        ensures
            r.wf(),
            r@.codes == Map::<Seq<char>, PendingCodeView>::empty(),
            r@.registry.users.len() == 0,
            r@.registry.devices.len() == 0,
            r@.registry.prekeys.len() == 0,
            r@.registry.sessions.len() == 0,
            r@.registry.next_device_id == 1,
            r@.secret == secret@,
            r@.settings == settings,
    {
        Gateway {
            codes: CodeStore::new(),
            registry: Registry::new(),
            issuer: TokenIssuer::new(secret),
            settings,
        }
    }
}

} // verus!
