//! What a verification comes to when the service performs it faithfully.
//!
//! A flow decides and a service performs. Here the service is described as
//! the flow may expect it: a code store that hands out a code once and only
//! while it has not run out, and a record store that works on a copy inside
//! a unit of work, refuses what is already taken, and makes the copy the
//! truth on commit. Under that description a flow answers exactly as the
//! gateway does when it works on its own stores, and leaves the same
//! records behind.

use vstd::prelude::*;
use crate::entities::devices::DeviceType;
use crate::entities::devices::DEFAULT_PLATFORM;
use crate::error::CoreError;
use crate::flow::ActionKind;
use crate::flow::FlowEvent;
use crate::flow::Stage;
use crate::flow::VerificationFlow;
use crate::gateway::GatewayView;
use crate::keys::KeyBundle;
use crate::otp::PendingCodeView;
use crate::registry::device_row;
use crate::registry::distinct;
use crate::registry::prekey_rows;
use crate::registry::user_row;
use crate::registry::Enrollment;
use crate::registry::RegistryView;
use crate::text::text_of;

verus! {

/// The stores of a service: the codes that wait, the records as committed,
/// and the records as the open unit of work sees them.
#[verifier::ext_equal]
pub struct World {
    pub codes: Map<Seq<char>, PendingCodeView>,
    pub committed: RegistryView,
    pub working: RegistryView,
}

/// The stores of a service that are those of a gateway, with no unit of
/// work open.
pub open spec fn world_of(g: GatewayView) -> World {
    World { codes: g.codes, committed: g.registry, working: g.registry }
}

/// The device that a flow asks to insert, under the id that the store
/// gives it.
pub open spec fn device_of(flow: VerificationFlow, user_id: u128, device_id: i64, bundle: KeyBundle) -> crate::entities::devices::ModelView {
    device_row(
        device_id,
        user_id,
        flow.request.device_uuid,
        text_of(flow.request.device_name),
        DEFAULT_PLATFORM,
        DeviceType::Primary,
        None,
        bundle,
        flow.now,
    )
}

/// Whether `event` is the faithful report of what the flow, at its stage,
/// has asked for, and `next` the stores after it was done. `material` is the
/// key bundle that the service makes when asked, if it can make one.
pub open spec fn reports(
    flow: VerificationFlow,
    material: Option<KeyBundle>,
    world: World,
    event: FlowEvent,
    next: World,
) -> bool {
    let phone = flow.request.phone_number@;
    match flow.stage {
        Stage::TakingCode => {
            let waits = world.codes.contains_key(phone) && flow.now < world.codes[phone].expires_at;
            &&& next == World { codes: world.codes.remove(phone), ..world }
            &&& event matches FlowEvent::Code(stored)
            &&& match stored {
                Some(code) => waits && code@ == world.codes[phone].code,
                None => !waits,
            }
        },
        Stage::Beginning => {
            &&& event is Done
            &&& next == World { working: world.committed, ..world }
        },
        Stage::FindingUser => {
            &&& next == world
            &&& event matches FlowEvent::User(found)
            &&& match found {
                Some(user_id) => world.working.phone_taken(phone) && user_id
                    == world.working.users[world.working.user_index(phone)].user_id,
                None => !world.working.phone_taken(phone),
            }
        },
        Stage::InsertingUser => {
            if world.working.user_id_taken(flow.candidate) || world.working.phone_taken(phone) {
                event == FlowEvent::Failed(CoreError::ConflictError) && next == world
            } else {
                &&& event is Done
                &&& next == World {
                    working: RegistryView {
                        users: world.working.users.push(user_row(flow.candidate, phone, flow.now)),
                        ..world.working
                    },
                    ..world
                }
            }
        },
        Stage::MakingKeys { .. } => {
            &&& next == world
            &&& event matches FlowEvent::Keys(made)
            &&& made == material
        },
        Stage::InsertingDevice { user_id, .. } => {
            if world.working.next_device_id == i64::MAX {
                event == FlowEvent::Failed(CoreError::StoreUnavailable) && next == world
            } else if world.working.device_uuid_taken(flow.request.device_uuid) {
                event == FlowEvent::Failed(CoreError::ConflictError) && next == world
            } else {
                &&& event == FlowEvent::Device(world.working.next_device_id)
                &&& flow.bundle matches Some(bundle)
                &&& next == World {
                    working: RegistryView {
                        devices: world.working.devices.push(
                            device_of(flow, user_id, world.working.next_device_id, bundle),
                        ),
                        next_device_id: (world.working.next_device_id + 1) as i64,
                        ..world.working
                    },
                    ..world
                }
            }
        },
        Stage::InsertingPrekey { device_id, index, .. } => {
            &&& flow.bundle matches Some(bundle)
            &&& index < bundle.one_time_prekeys@.len()
            &&& {
                let row = prekey_rows(device_id, bundle)[index as int];
                if world.working.prekey_taken(device_id, row.prekey_id) {
                    event == FlowEvent::Failed(CoreError::ConflictError) && next == world
                } else {
                    &&& event is Done
                    &&& next == World {
                        working: RegistryView {
                            prekeys: world.working.prekeys.push(row),
                            ..world.working
                        },
                        ..world
                    }
                }
            }
        },
        Stage::Committing { .. } => {
            &&& event is Done
            &&& next == World { committed: world.working, ..world }
        },
        Stage::RollingBack { .. } => {
            &&& event is Done
            &&& next == World { working: world.committed, ..world }
        },
        Stage::Done => next == world,
    }
}

/// Whether the stores went through `worlds` while the service reported
/// `events` faithfully, one after the other, to a flow that started as `flow`.
pub open spec fn performed(
    flow: VerificationFlow,
    material: Option<KeyBundle>,
    events: Seq<FlowEvent>,
    worlds: Seq<World>,
) -> bool
    decreases events.len(),
{
    &&& worlds.len() == events.len() + 1
    &&& events.len() > 0 ==> {
        &&& performed(flow, material, events.drop_last(), worlds.drop_last())
        &&& reports(
            flow.reached(events.drop_last()),
            material,
            worlds[events.len() - 1],
            events.last(),
            worlds.last(),
        )
    }
}

/// What a flow answers on an event, if it answers: the enrolment that it
/// reports, or the failure.
pub open spec fn answer_on(flow: VerificationFlow, event: FlowEvent) -> Option<
    Result<Enrollment, CoreError>,
> {
    match flow.decision(event).kind {
        ActionKind::RespondOk => match flow.stage {
            Stage::Committing { user_id, is_new_user, device_id } => Some(
                Ok(Enrollment { user_id, device_id, is_new_user }),
            ),
            _ => None,
        },
        ActionKind::RespondErr(e) => Some(Err(e)),
        _ => None,
    }
}

/// The first answer that a flow gives while it is told the events.
pub open spec fn answer(flow: VerificationFlow, events: Seq<FlowEvent>) -> Option<
    Result<Enrollment, CoreError>,
>
    decreases events.len(),
{
    if events.len() == 0 {
        None
    } else {
        match answer(flow, events.drop_last()) {
            Some(given) => Some(given),
            None => answer_on(flow.reached(events.drop_last()), events.last()),
        }
    }
}

/// What the gateway would do with the request of a flow.
pub open spec fn target(g: GatewayView, flow: VerificationFlow, material: Option<KeyBundle>) -> Result<
    (RegistryView, Enrollment),
    CoreError,
> {
    g.verification(flow.request, flow.now, flow.candidate, material)
}

/// What the gateway would answer.
pub open spec fn target_answer(
    g: GatewayView,
    flow: VerificationFlow,
    material: Option<KeyBundle>,
) -> Result<Enrollment, CoreError> {
    match target(g, flow, material) {
        Ok((_, e)) => Ok(e),
        Err(e) => Err(e),
    }
}

/// The records that the gateway would leave behind.
pub open spec fn target_records(
    g: GatewayView,
    flow: VerificationFlow,
    material: Option<KeyBundle>,
) -> RegistryView {
    match target(g, flow, material) {
        Ok((registry, _)) => registry,
        Err(_) => g.registry,
    }
}

/// The records to which the device is added: those of the gateway, with the
/// new account where one is made.
pub open spec fn base(g: GatewayView, flow: VerificationFlow, is_new_user: bool) -> RegistryView {
    if is_new_user {
        RegistryView {
            users: g.registry.users.push(
                user_row(flow.candidate, flow.request.phone_number@, flow.now),
            ),
            ..g.registry
        }
    } else {
        g.registry
    }
}

/// Whether the code was accepted and the account is settled as a stage says.
pub open spec fn settled(g: GatewayView, flow: VerificationFlow, user_id: u128, is_new_user: bool) -> bool {
    let phone = flow.request.phone_number@;
    &&& g.code_accepted(phone, flow.request.otp@, flow.now)
    &&& if is_new_user {
        &&& !g.registry.phone_taken(phone)
        &&& !g.registry.user_id_taken(flow.candidate)
        &&& user_id == flow.candidate
    } else {
        &&& g.registry.phone_taken(phone)
        &&& user_id == g.registry.users[g.registry.user_index(phone)].user_id
    }
}

/// Whether the flow holds the bundle that the service made, and its
/// signature verifies.
pub open spec fn holds(flow: VerificationFlow, material: Option<KeyBundle>) -> bool {
    flow.bundle == material && (material matches Some(bundle) && bundle.self_consistent())
}

/// The records of the open unit of work once the device and the first
/// `count` of its one-time prekeys are in.
pub open spec fn partly(
    g: GatewayView,
    flow: VerificationFlow,
    user_id: u128,
    is_new_user: bool,
    bundle: KeyBundle,
    count: int,
) -> RegistryView {
    let before = base(g, flow, is_new_user);
    RegistryView {
        devices: before.devices.push(device_of(flow, user_id, before.next_device_id, bundle)),
        prekeys: before.prekeys + prekey_rows(before.next_device_id, bundle).subrange(0, count),
        next_device_id: (before.next_device_id + 1) as i64,
        ..before
    }
}

/// Whether the first `count` prekey ids of a bundle differ from each other.
pub open spec fn distinct_up_to(bundle: KeyBundle, count: int) -> bool {
    forall|a: int, b: int|
        0 <= a < b < count ==> (#[trigger] bundle.prekey_ids()[a]) != (
        #[trigger] bundle.prekey_ids()[b])
}

/// Whether a flow, the stores and the answer given so far are where a
/// faithful performance of the gateway's verification has them.
pub open spec fn on_course(
    g: GatewayView,
    flow: VerificationFlow,
    material: Option<KeyBundle>,
    world: World,
    given: Option<Result<Enrollment, CoreError>>,
) -> bool {
    let phone = flow.request.phone_number@;
    &&& world.codes == if flow.stage == Stage::TakingCode {
        g.codes
    } else {
        g.codes.remove(phone)
    }
    &&& flow.stage != Stage::Done ==> given is None && world.committed == g.registry
    &&& match flow.stage {
        Stage::TakingCode => true,
        Stage::Beginning => g.code_accepted(phone, flow.request.otp@, flow.now),
        Stage::FindingUser => g.code_accepted(phone, flow.request.otp@, flow.now) && world.working
            == g.registry,
        Stage::InsertingUser => g.code_accepted(phone, flow.request.otp@, flow.now)
            && world.working == g.registry && !g.registry.phone_taken(phone),
        Stage::MakingKeys { user_id, is_new_user } => settled(g, flow, user_id, is_new_user)
            && world.working == base(g, flow, is_new_user),
        Stage::InsertingDevice { user_id, is_new_user } => settled(g, flow, user_id, is_new_user)
            && world.working == base(g, flow, is_new_user) && holds(flow, material),
        Stage::InsertingPrekey { user_id, is_new_user, device_id, index } => {
            &&& settled(g, flow, user_id, is_new_user)
            &&& holds(flow, material)
            &&& g.registry.next_device_id < i64::MAX
            &&& !base(g, flow, is_new_user).device_uuid_taken(flow.request.device_uuid)
            &&& device_id == g.registry.next_device_id
            &&& index < flow.batch()
            &&& world.working == partly(g, flow, user_id, is_new_user, material.unwrap(), index as int)
            &&& distinct_up_to(material.unwrap(), index as int)
        },
        Stage::Committing { user_id, is_new_user, device_id } => {
            &&& target(g, flow, material) == Ok::<(RegistryView, Enrollment), CoreError>(
                (world.working, Enrollment { user_id, device_id, is_new_user }),
            )
        },
        Stage::RollingBack { error } => target(g, flow, material) == Err::<
            (RegistryView, Enrollment),
            CoreError,
        >(error),
        Stage::Done => given == Some(target_answer(g, flow, material)) && world.committed
            == target_records(g, flow, material),
    }
}

/// The answer given once a flow has decided on one more event.
pub open spec fn given_after(
    given: Option<Result<Enrollment, CoreError>>,
    flow: VerificationFlow,
    event: FlowEvent,
) -> Option<Result<Enrollment, CoreError>> {
    match given {
        Some(a) => Some(a),
        None => answer_on(flow, event),
    }
}

/// No prekey on record belongs to the device that comes next.
proof fn lemma_next_device_has_no_prekeys(v: RegistryView)
    requires
        v.wf(),
    ensures
        forall|k: int|
            0 <= k < v.prekeys.len() ==> (#[trigger] v.prekeys[k]).device_id != v.next_device_id,
{
    assert forall|k: int| 0 <= k < v.prekeys.len() implies (#[trigger] v.prekeys[k]).device_id
        != v.next_device_id by {
        assert(v.device_id_taken(v.prekeys[k].device_id));
    }
}

/// A faithful report keeps a flow and the stores on course.
proof fn lemma_faithful_step(
    g: GatewayView,
    flow: VerificationFlow,
    material: Option<KeyBundle>,
    world: World,
    given: Option<Result<Enrollment, CoreError>>,
    event: FlowEvent,
    next: World,
)
    requires
        g.registry.wf(),
        on_course(g, flow, material, world, given),
        reports(flow, material, world, event, next),
    ensures
        on_course(g, flow.after(event), material, next, given_after(given, flow, event)),
{
    let after = flow.after(event);
    let phone = flow.request.phone_number@;
    assert(target(g, after, material) == target(g, flow, material));
    match flow.stage {
        Stage::TakingCode => {},
        Stage::Beginning => {},
        Stage::FindingUser => {},
        Stage::InsertingUser => {},
        Stage::MakingKeys { user_id, is_new_user } => {},
        Stage::InsertingDevice { user_id, is_new_user } => {
            let before = base(g, flow, is_new_user);
            let bundle = material.unwrap();
            if before.next_device_id < i64::MAX && !before.device_uuid_taken(
                flow.request.device_uuid,
            ) {
                assert(prekey_rows(before.next_device_id, bundle).subrange(0, 0)
                    == Seq::<crate::entities::one_time_prekeys::ModelView>::empty());
                assert(before.prekeys + prekey_rows(before.next_device_id, bundle).subrange(0, 0)
                    == before.prekeys);
                assert(next.working == partly(g, flow, user_id, is_new_user, bundle, 0));
                if flow.batch() == 0 {
                    assert(distinct(bundle.prekey_ids()));
                    assert(prekey_rows(before.next_device_id, bundle) == prekey_rows(
                        before.next_device_id,
                        bundle,
                    ).subrange(0, 0));
                }
            }
        },
        Stage::InsertingPrekey { user_id, is_new_user, device_id, index } => {
            let before = base(g, flow, is_new_user);
            let bundle = material.unwrap();
            let rows = prekey_rows(device_id, bundle);
            let ids = bundle.prekey_ids();
            let row = rows[index as int];
            lemma_next_device_has_no_prekeys(g.registry);
            vstd::std_specs::vec::axiom_spec_len(&bundle.one_time_prekeys);
            assert(ids[index as int] == row.prekey_id);
            if world.working.prekey_taken(device_id, row.prekey_id) {
                let k = choose|k: int|
                    0 <= k < world.working.prekeys.len() && (
                    #[trigger] world.working.prekeys[k]).device_id == device_id
                        && world.working.prekeys[k].prekey_id == row.prekey_id;
                if k < before.prekeys.len() {
                    assert(world.working.prekeys[k] == g.registry.prekeys[k]);
                } else {
                    let a = k - before.prekeys.len();
                    assert(world.working.prekeys[k] == rows[a]);
                    assert(ids[a] == ids[index as int]);
                }
                assert(!distinct(ids));
            } else {
                assert(rows.subrange(0, index as int + 1) == rows.subrange(0, index as int).push(
                    row,
                ));
                assert(next.working == partly(
                    g,
                    flow,
                    user_id,
                    is_new_user,
                    bundle,
                    index as int + 1,
                ));
                assert forall|a: int, b: int| 0 <= a < b < index + 1 implies (#[trigger] ids[a]) != (
                #[trigger] ids[b]) by {
                    if b == index && ids[a] == ids[b] {
                        let k = before.prekeys.len() + a;
                        assert(world.working.prekeys[k] == rows[a]);
                        assert(world.working.prekey_taken(device_id, row.prekey_id));
                    }
                }
                if index + 1 == flow.batch() {
                    assert(rows.subrange(0, index as int + 1) == rows);
                    assert(distinct(ids));
                }
            }
        },
        Stage::Committing { user_id, is_new_user, device_id } => {},
        Stage::RollingBack { error } => {},
        Stage::Done => {},
    }
}

/// A flow that is performed faithfully from the stores of a gateway stays
/// on course.
proof fn lemma_faithful_run(
    g: GatewayView,
    flow: VerificationFlow,
    material: Option<KeyBundle>,
    events: Seq<FlowEvent>,
    worlds: Seq<World>,
)
    requires
        g.registry.wf(),
        flow.stage == Stage::TakingCode,
        performed(flow, material, events, worlds),
        worlds[0] == world_of(g),
    ensures
        on_course(g, flow.reached(events), material, worlds.last(), answer(flow, events)),
    decreases events.len(),
{
    if events.len() > 0 {
        let earlier = events.drop_last();
        assert(worlds.drop_last()[0] == worlds[0]);
        lemma_faithful_run(g, flow, material, earlier, worlds.drop_last());
        assert(worlds.drop_last().last() == worlds[events.len() - 1]);
        lemma_faithful_step(
            g,
            flow.reached(earlier),
            material,
            worlds[events.len() - 1],
            answer(flow, earlier),
            events.last(),
            worlds.last(),
        );
    }
}

/// A verification that a service performs faithfully comes to what the
/// gateway does on its own stores. Let a flow start on a request, and let
/// the service report faithfully whatever the flow asks for, beginning with
/// the stores of a gateway. Once the flow has answered, its answer is the
/// gateway's: the same enrolment, or the same failure. The records that are
/// committed are those that the gateway would leave, which on a failure are
/// the records as they were. The code that waited is gone.
pub proof fn faithful_service_does_what_the_gateway_does(
    g: GatewayView,
    flow: VerificationFlow,
    material: Option<KeyBundle>,
    events: Seq<FlowEvent>,
    worlds: Seq<World>,
)
    requires
        g.registry.wf(),
        flow.stage == Stage::TakingCode,
        performed(flow, material, events, worlds),
        worlds[0] == world_of(g),
        flow.reached(events).stage == Stage::Done,
    ensures
        answer(flow, events) == Some(target_answer(g, flow, material)),
        worlds.last().committed == target_records(g, flow, material),
        worlds.last().codes == g.codes.remove(flow.request.phone_number@),
        target(g, flow, material) is Err ==> worlds.last().committed == g.registry,
{
    lemma_faithful_run(g, flow, material, events, worlds);
    lemma_same_request(flow, events);
}

/// A flow keeps its request, its second and its candidate.
proof fn lemma_same_request(flow: VerificationFlow, events: Seq<FlowEvent>)
    ensures
        flow.reached(events).request == flow.request,
        flow.reached(events).now == flow.now,
        flow.reached(events).candidate == flow.candidate,
    decreases events.len(),
{
    if events.len() > 0 {
        lemma_same_request(flow, events.drop_last());
    }
}

} // verus!
