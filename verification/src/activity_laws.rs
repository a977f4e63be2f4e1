//! What holds of every event that is made up, whatever is drawn.

use vstd::prelude::*;

use crate::activity_log::{
    defguard_metadata, is_vpn_type, kind_pool, may_be_drafted, may_happen,
    pool_holds_each_kind_by_weight, user_agents, ActivityLogGeneratorConfig, EventKind,
};
use crate::clock::{Timestamp, FIRST_SECOND};
use crate::event::{
    ActivityLogModule, Device, EventDraft, EventMetadataView, EventSubjectView, EventType,
    GeneratedEventView, User, WireguardNetwork,
};

verus! {

/// An event at a VPN location names one of the locations there are, and where there are none there
/// is no such event.
pub proof fn vpn_events_need_a_location(
    user_devices: Seq<(User, Device)>,
    locations: Seq<WireguardNetwork>,
    now: Timestamp,
    span: int,
    draft: EventDraft,
)
    requires
        may_be_drafted(user_devices, locations, now, span, draft),
    ensures
        draft.generated@.module is Vpn <==> is_vpn_type(draft.generated@.event_type),
        draft.generated@.module is Vpn <==> draft.generated@.location is Some,
        draft.generated@.module is Vpn ==> exists|location: WireguardNetwork|
            #[trigger] locations.contains(location) && draft.generated@.location == Some(
                location.name@,
            ),
        locations.len() == 0 ==> draft.generated@.module is Defguard,
{
    let (pair, kind, offset) = choose|pair: (User, Device), kind: EventKind, offset: int|
        {
            &&& user_devices.contains(pair)
            &&& kind_pool(locations.len() > 0).contains(kind)
            &&& 0 <= offset < span
            &&& draft.timestamp == #[trigger] now.earlier_by(offset)
            &&& draft.user_id == pair.0.id
            &&& draft.username == pair.0.username
            &&& #[trigger] may_happen(kind, pair.0, pair.1, locations, draft.generated@)
        };
    pool_holds_each_kind_by_weight(locations.len() > 0, kind);
}

/// Events lie in the span of time before `now`, the moment itself included. Without a span of its
/// own, a log is spread over the last minute.
pub proof fn events_are_recent(
    user_devices: Seq<(User, Device)>,
    locations: Seq<WireguardNetwork>,
    now: Timestamp,
    config: ActivityLogGeneratorConfig,
    draft: EventDraft,
)
    requires
        now.is_valid(),
        FIRST_SECOND <= now.seconds - (config.span() - 1),
        may_be_drafted(user_devices, locations, now, config.span(), draft),
    ensures
        now.seconds - config.span() < draft.timestamp.seconds <= now.seconds,
        draft.timestamp.nanos == now.nanos,
        draft.timestamp.is_valid(),
        config.time_span_minutes <= 1 ==> now.seconds - draft.timestamp.seconds < 60,
{
}

/// Every event is of one of the prepared users, and an event at a VPN location is on the device
/// that this user is paired with.
pub proof fn events_are_of_prepared_users(
    user_devices: Seq<(User, Device)>,
    locations: Seq<WireguardNetwork>,
    now: Timestamp,
    span: int,
    draft: EventDraft,
)
    requires
        may_be_drafted(user_devices, locations, now, span, draft),
    ensures
        exists|pair: (User, Device)|
            {
                &&& #[trigger] user_devices.contains(pair)
                &&& draft.user_id == pair.0.id
                &&& draft.username == pair.0.username
                &&& match draft.generated@.metadata {
                    Some(EventMetadataView::VpnClient { device, .. }) => device == pair.1,
                    Some(EventMetadataView::VpnClientMfa { device, .. }) => device == pair.1,
                    _ => true,
                }
            },
{
    let (pair, kind, offset) = choose|pair: (User, Device), kind: EventKind, offset: int|
        {
            &&& user_devices.contains(pair)
            &&& kind_pool(locations.len() > 0).contains(kind)
            &&& 0 <= offset < span
            &&& draft.timestamp == #[trigger] now.earlier_by(offset)
            &&& draft.user_id == pair.0.id
            &&& draft.username == pair.0.username
            &&& #[trigger] may_happen(kind, pair.0, pair.1, locations, draft.generated@)
        };
    assert(user_devices.contains(pair));
}

/// The details recorded of an event say what its subject says, and an event on the server comes
/// from one of the known browsers.
pub proof fn details_follow_the_subject(
    kind: EventKind,
    user: User,
    device: Device,
    locations: Seq<WireguardNetwork>,
    generated: GeneratedEventView,
)
    requires
        may_happen(kind, user, device, locations, generated),
    ensures
        generated.event_type == kind.event_type(),
        generated.module == if kind.is_vpn() {
            ActivityLogModule::Vpn
        } else {
            ActivityLogModule::Defguard
        },
        match generated.subject {
            EventSubjectView::Defguard(subject) => {
                &&& generated.metadata == defguard_metadata(subject)
                &&& user_agents().contains(generated.device)
            },
            EventSubjectView::Vpn(_) => generated.metadata is Some,
        },
{
}

} // verus!
