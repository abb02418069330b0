//! The device-linking state machine: a trusted device opens a session, the
//! new device redeems the session's token, and the trusted device approves
//! or rejects.
//!
//! A session starts pending and ends approved, rejected or expired; none of
//! the three is ever left again. A session is live while it is pending and
//! its expiry has not come. Expiry is decided whenever a session is read.

use vstd::prelude::*;
use crate::auth::draw_bundle;
use crate::clock::deadline_after;
use crate::clock::unix_now;
use crate::entities::device_linking_sessions::LinkingStatus;
use crate::entities::devices::DEFAULT_PLATFORM;
use crate::error::CoreError;
use crate::gateway::Gateway;
use crate::gateway::GatewayView;
use crate::ident::fresh_uuid;
use crate::ident::uuid_text;
use crate::keys::KeyBundle;
use crate::registry::RegistryView;
use crate::text::text_of;

verus! {

/// What the opening of a linking session gives.
#[derive(Debug, Clone, PartialEq, Eq)]
pub struct LinkingSessionCreated {
    pub session_id: u128,
    /// The value that the scannable linking code carries.
    pub token: String,
    pub expires_at: i64,
}

/// What the redeeming of a token gives.
#[derive(Debug, Clone, Copy, PartialEq, Eq, Structural)]
pub struct LinkingSessionState {
    pub session_id: u128,
    pub status: LinkingStatus,
}

impl GatewayView {
    /// What the redeeming of a token at `now` gives, or why it fails. The
    /// status is the one seen at `now`, not the one stored.
    pub open spec fn redeemed(self, token: Seq<char>, now: i64) -> Result<
        LinkingSessionState,
        CoreError,
    > {
        if !self.registry.token_taken(token) {
            Err(CoreError::LinkingSessionNotFound)
        } else {
            let session = self.registry.sessions[self.registry.session_index_of_token(token)];
            Ok(LinkingSessionState { session_id: session.session_id, status: session.status_at(now) })
        }
    }

    /// What an approval does to the registry and the id of the device that
    /// it links, or why it fails. The device gets the usual platform.
    pub open spec fn approval(
        self,
        session_id: u128,
        device_uuid: u128,
        device_name: Option<Seq<char>>,
        material: Option<KeyBundle>,
        now: i64,
    ) -> Result<(RegistryView, i64), CoreError> {
        self.registry.linked(session_id, device_uuid, device_name, DEFAULT_PLATFORM, material, now)
    }
}

/// Whether the session of an id exists and is live at `now`.
pub fn session_is_live(gateway: &Gateway, session_id: u128, now: i64) -> (r: bool)
    requires
        gateway.wf(),
    ensures
        r == gateway@.registry.session_live(session_id, now),
{
    match gateway.registry.find_session(session_id) {
        Some(session) => session.is_pending_at(now),
        None => false,
    }
}

/// Opens a linking session for a device at `now`, under the given id and
/// token. Fails with `DeviceNotFound` where the device is unknown and with
/// `ConflictError` where the id or the token is taken; the registry is then
/// as it was.
pub fn create_linking_session_with(
    gateway: &mut Gateway,
    primary_device_id: i64,
    session_id: u128,
    token: String,
    now: i64,
) -> (r: Result<LinkingSessionCreated, CoreError>)
    requires
        old(gateway).wf(),
    ensures
        final(gateway).wf(),
        final(gateway)@.codes == old(gateway)@.codes,
        final(gateway)@.secret == old(gateway)@.secret,
        final(gateway)@.settings == old(gateway)@.settings,
        match old(gateway)@.registry.with_session(
            session_id,
            primary_device_id,
            token@,
            now,
            old(gateway)@.settings.linking_ttl,
        ) {
            Ok(registry) => final(gateway)@.registry == registry && (r matches Ok(created)
                && created.session_id == session_id && created.token@ == token@
                && created.expires_at == deadline_after(now, old(gateway)@.settings.linking_ttl)),
            Err(e) => final(gateway)@.registry == old(gateway)@.registry && r == Err::<
                LinkingSessionCreated,
                CoreError,
            >(e),
        },
{
    let ttl = gateway.settings.linking_ttl;
    gateway.registry.open_session(session_id, primary_device_id, token.clone(), now, ttl)?;
    let expires_at = crate::clock::deadline(now, ttl);
    Ok(LinkingSessionCreated { session_id, token, expires_at })
}

/// Opens a linking session for a device, under a fresh id and a fresh token.
///
/// The clock is read and the id and the token are drawn at random, so the
/// contract states what holds whatever they gave: the outcome is that of
/// `create_linking_session_with` for some id, some token and some second.
pub fn create_linking_session(gateway: &mut Gateway, primary_device_id: i64) -> (r: Result<
    LinkingSessionCreated,
    CoreError,
>)
    requires
        old(gateway).wf(),
    ensures
        final(gateway).wf(),
        final(gateway)@.codes == old(gateway)@.codes,
        final(gateway)@.secret == old(gateway)@.secret,
        final(gateway)@.settings == old(gateway)@.settings,
        exists|session_id: u128, token: Seq<char>, now: i64|
            now >= 0 && match #[trigger] old(gateway)@.registry.with_session(
                session_id,
                primary_device_id,
                token,
                now,
                old(gateway)@.settings.linking_ttl,
            ) {
                Ok(registry) => final(gateway)@.registry == registry && (r matches Ok(created)
                    && created.session_id == session_id && created.token@ == token
                    && created.expires_at == deadline_after(
                    now,
                    old(gateway)@.settings.linking_ttl,
                )),
                Err(e) => final(gateway)@.registry == old(gateway)@.registry && r == Err::<
                    LinkingSessionCreated,
                    CoreError,
                >(e),
            },
{
    let now = unix_now();
    let session_id = fresh_uuid();
    let token = uuid_text(fresh_uuid());
    let ghost before = gateway@;
    let ghost token_view = token@;
    let r = create_linking_session_with(gateway, primary_device_id, session_id, token, now);
    assert(before.registry.with_session(
        session_id,
        primary_device_id,
        token_view,
        now,
        before.settings.linking_ttl,
    ) is Ok || before.registry.with_session(
        session_id,
        primary_device_id,
        token_view,
        now,
        before.settings.linking_ttl,
    ) is Err);
    r
}

/// Redeems a token at `now`: reports the session that carries it and the
/// status of that session as seen at `now`. Nothing is changed.
pub fn redeem_linking_session_at(gateway: &Gateway, token: &str, now: i64) -> (r: Result<
    LinkingSessionState,
    CoreError,
>)
    requires
        gateway.wf(),
    ensures
        r == gateway@.redeemed(token@, now),
{
    match gateway.registry.find_session_by_token(token) {
        Some(session) => Ok(
            LinkingSessionState { session_id: session.session_id, status: session.status_at(now) },
        ),
        None => Err(CoreError::LinkingSessionNotFound),
    }
}

/// Redeems a token at the current second: the outcome of
/// `redeem_linking_session_at` for some reading of the clock.
pub fn redeem_linking_session(gateway: &Gateway, token: &str) -> (r: Result<
    LinkingSessionState,
    CoreError,
>)
    requires
        gateway.wf(),
    ensures
        exists|now: i64| now >= 0 && r == #[trigger] gateway@.redeemed(token@, now),
{
    let now = unix_now();
    redeem_linking_session_at(gateway, token, now)
}

/// Approves a linking session at `now` and links the new device, as one
/// unit. Nothing is drawn and no clock is read here: `material` is the key
/// bundle made for the new device, if one could be made. Where the approval
/// fails the registry is as it was.
pub fn approve_linking_session_with(
    gateway: &mut Gateway,
    session_id: u128,
    new_device_uuid: u128,
    new_device_name: Option<String>,
    material: Option<KeyBundle>,
    now: i64,
) -> (r: Result<i64, CoreError>)
    requires
        old(gateway).wf(),
    ensures
        final(gateway).wf(),
        final(gateway)@.codes == old(gateway)@.codes,
        final(gateway)@.secret == old(gateway)@.secret,
        final(gateway)@.settings == old(gateway)@.settings,
        match old(gateway)@.approval(
            session_id,
            new_device_uuid,
            text_of(new_device_name),
            material,
            now,
        ) {
            Ok((registry, device_id)) => final(gateway)@.registry == registry && r == Ok::<
                i64,
                CoreError,
            >(device_id),
            Err(e) => final(gateway)@.registry == old(gateway)@.registry && r == Err::<
                i64,
                CoreError,
            >(e),
        },
{
    gateway.registry.link_device(
        session_id,
        new_device_uuid,
        new_device_name,
        DEFAULT_PLATFORM,
        material.as_ref(),
        now,
    )
}

/// Approves a linking session and links the new device. Key material is
/// made only for a session that is live.
///
/// The clock is read and the key material is drawn at random, so the
/// contract states what holds whatever they gave: the outcome is that of
/// `approve_linking_session_with` for some bundle or none and some second.
pub fn approve_linking_session(
    gateway: &mut Gateway,
    session_id: u128,
    new_device_uuid: u128,
    new_device_name: Option<String>,
) -> (r: Result<i64, CoreError>)
    requires
        old(gateway).wf(),
    ensures
        final(gateway).wf(),
        final(gateway)@.codes == old(gateway)@.codes,
        final(gateway)@.secret == old(gateway)@.secret,
        final(gateway)@.settings == old(gateway)@.settings,
        exists|material: Option<KeyBundle>, now: i64|
            now >= 0 && old(gateway)@.settings.asks_for(material) && match #[trigger] old(
                gateway,
            )@.approval(
                session_id,
                new_device_uuid,
                text_of(new_device_name),
                material,
                now,
            ) {
                Ok((registry, device_id)) => final(gateway)@.registry == registry && r == Ok::<
                    i64,
                    CoreError,
                >(device_id),
                Err(e) => final(gateway)@.registry == old(gateway)@.registry && r == Err::<
                    i64,
                    CoreError,
                >(e),
            },
{
    let now = unix_now();
    let ghost before = gateway@;
    let ghost name = text_of(new_device_name);
    if !session_is_live(gateway, session_id, now) {
        assert(before.approval(session_id, new_device_uuid, name, None, now) == Err::<
            (RegistryView, i64),
            CoreError,
        >(CoreError::InvalidSessionState));
        return Err(CoreError::InvalidSessionState);
    }
    let material = draw_bundle(gateway);
    let r = approve_linking_session_with(
        gateway,
        session_id,
        new_device_uuid,
        new_device_name,
        material,
        now,
    );
    assert(before.approval(session_id, new_device_uuid, name, material, now) is Ok
        || before.approval(session_id, new_device_uuid, name, material, now) is Err);
    r
}

/// Rejects a linking session at `now`. No key material is made. Where the
/// session is not live the registry is as it was.
pub fn reject_linking_session_at(gateway: &mut Gateway, session_id: u128, now: i64) -> (r: Result<
    (),
    CoreError,
>)
    requires
        old(gateway).wf(),
    ensures
        final(gateway).wf(),
        final(gateway)@.codes == old(gateway)@.codes,
        final(gateway)@.secret == old(gateway)@.secret,
        final(gateway)@.settings == old(gateway)@.settings,
        match old(gateway)@.registry.rejected(session_id, now) {
            Ok(registry) => final(gateway)@.registry == registry && r is Ok,
            Err(e) => final(gateway)@.registry == old(gateway)@.registry && r == Err::<(), CoreError>(
                e,
            ),
        },
{
    gateway.registry.reject_session(session_id, now)
}

/// Rejects a linking session at the current second: the outcome of
/// `reject_linking_session_at` for some reading of the clock.
pub fn reject_linking_session(gateway: &mut Gateway, session_id: u128) -> (r: Result<(), CoreError>)
    requires
        old(gateway).wf(),
    ensures
        final(gateway).wf(),
        final(gateway)@.codes == old(gateway)@.codes,
        final(gateway)@.secret == old(gateway)@.secret,
        final(gateway)@.settings == old(gateway)@.settings,
        exists|now: i64|
            now >= 0 && match #[trigger] old(gateway)@.registry.rejected(session_id, now) {
                Ok(registry) => final(gateway)@.registry == registry && r is Ok,
                Err(e) => final(gateway)@.registry == old(gateway)@.registry && r == Err::<
                    (),
                    CoreError,
                >(e),
            },
{
    let now = unix_now();
    let ghost before = gateway@;
    let r = reject_linking_session_at(gateway, session_id, now);
    assert(before.registry.rejected(session_id, now) is Ok || before.registry.rejected(
        session_id,
        now,
    ) is Err);
    r
}

/// A session that is stored as pending and whose expiry has come is seen as
/// expired by whoever redeems its token, though nothing has touched what is
/// stored; it can be neither approved nor rejected.
pub proof fn expiry_needs_no_sweep(
    g: GatewayView,
    token: Seq<char>,
    now: i64,
    device_uuid: u128,
    device_name: Option<Seq<char>>,
    material: Option<KeyBundle>,
)
    requires
        g.registry.wf(),
        g.registry.token_taken(token),
        g.registry.sessions[g.registry.session_index_of_token(token)].status == 1,
        now >= g.registry.sessions[g.registry.session_index_of_token(token)].expires_at,
    ensures
        ({
            let session = g.registry.sessions[g.registry.session_index_of_token(token)];
            &&& g.redeemed(token, now) == Ok::<LinkingSessionState, CoreError>(
                LinkingSessionState {
                    session_id: session.session_id,
                    status: LinkingStatus::Expired,
                },
            )
            &&& g.approval(session.session_id, device_uuid, device_name, material, now) == Err::<
                (RegistryView, i64),
                CoreError,
            >(CoreError::InvalidSessionState)
            &&& g.registry.rejected(session.session_id, now) == Err::<RegistryView, CoreError>(
                CoreError::InvalidSessionState,
            )
        }),
{
    let at = g.registry.session_index_of_token(token);
    let session = g.registry.sessions[at];
    let found = g.registry.session_index(session.session_id);
    if found < at {
        assert(g.registry.sessions[found].session_id != g.registry.sessions[at].session_id);
    } else if at < found {
        assert(g.registry.sessions[at].session_id != g.registry.sessions[found].session_id);
    }
}

/// A session is live exactly where the status that a reader sees is pending.
pub proof fn live_means_seen_pending(
    session: crate::entities::device_linking_sessions::ModelView,
    now: i64,
)
    requires
        crate::entities::device_linking_sessions::valid_code(session.status),
    ensures
        session.live_at(now) <==> session.status_at(now) == LinkingStatus::Pending,
        session.status_at(now) == LinkingStatus::Expired ==> forall|later: i64|
            later >= now ==> #[trigger] session.status_at(later) == LinkingStatus::Expired,
{
}

} // verus!
