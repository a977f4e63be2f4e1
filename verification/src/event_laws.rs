//! What made-up events tell, kind by kind.

use rand::rngs::ThreadRng;
use vstd::prelude::*;

use crate::activity_log::{
    build_event, build_kind_pool, build_vpn_event, defguard_event, draft_event,
    generate_activity_log, kind_pool, may_be_drafted, may_happen, may_happen_at, method_fits,
    pool_holds_each_kind_by_weight, span_seconds, user_agents, users_to_prepare, vpn_event,
    vpn_outcome, with_first_device, ActivityLogGeneratorConfig, Draw, EventKind,
};
use crate::clock::{Timestamp, FIRST_SECOND, MOST_MINUTES};
use crate::event::{
    ActivityLogEvent, ClientMFAMethod, DefguardEvent, Device, EventDraft, EventMetadata,
    EventSubject, EventType, GeneratedEvent, MFAMethod, User, VpnEvent, WireguardNetwork,
};
use crate::text::decimal_text;

verus! {

/// Whether events of this kind happen on the server rather than at a VPN location.
pub open spec fn on_server(kind: EventKind) -> bool {
    match kind {
        EventKind::Login | EventKind::Logout | EventKind::MfaLogin | EventKind::LoginFailed
        | EventKind::MfaLoginFailed | EventKind::RecoveryCodeUsed | EventKind::PasswordChanged
        | EventKind::MfaTotpEnabled | EventKind::MfaTotpDisabled | EventKind::MfaEmailEnabled
        | EventKind::MfaEmailDisabled => true,
        EventKind::VpnConnected | EventKind::VpnDisconnected | EventKind::VpnMfaConnected
        | EventKind::VpnMfaDisconnected | EventKind::VpnMfaSuccess => false,
    }
}

/// Whether `event` is recorded as `event_type`, tells of `told`, and has no details.
pub open spec fn is_plain(
    event: GeneratedEvent,
    event_type: EventType,
    told: DefguardEvent,
) -> bool {
    &&& event.event_type == event_type
    &&& event.subject == EventSubject::Defguard(told)
    &&& event.metadata is None
}

/// Whether `event` is a login with a second factor, recorded with the factor it tells of.
pub open spec fn is_mfa_login(event: GeneratedEvent, method: MFAMethod) -> bool {
    &&& event.event_type is UserMfaLogin
    &&& event.subject == EventSubject::Defguard(DefguardEvent::UserMfaLogin { mfa_method: method })
    &&& event.metadata == Some(EventMetadata::MfaLogin { mfa_method: method })
}

/// Whether `event` is a login of `username` that failed at the password, recorded with the message
/// it tells of.
pub open spec fn is_failed_login(event: GeneratedEvent, username: Seq<char>) -> bool {
    let expected = "Authentication for "@ + username + " failed: invalid password"@;
    &&& event.event_type is UserLoginFailed
    &&& event.subject matches EventSubject::Defguard(DefguardEvent::UserLoginFailed { message })
        && message@ == expected
    &&& event.metadata matches Some(EventMetadata::LoginFailed { message }) && message@ == expected
}

/// Whether `event` is a login that failed at the second factor, recorded with the factor and the
/// message it tells of: the one-time password or the mailed code.
pub open spec fn is_failed_mfa_login(event: GeneratedEvent, at_totp: bool) -> bool {
    let method = if at_totp {
        MFAMethod::OneTimePassword
    } else {
        MFAMethod::Email
    };
    let expected = if at_totp {
        "TOTP code verification failed"@
    } else {
        "Email code verification failed"@
    };
    &&& event.event_type is UserMfaLoginFailed
    &&& event.subject matches EventSubject::Defguard(
        DefguardEvent::UserMfaLoginFailed { mfa_method, message },
    ) && mfa_method == method && message@ == expected
    &&& event.metadata matches Some(EventMetadata::MfaLoginFailed { mfa_method, message })
        && mfa_method == method && message@ == expected
}

/// Whether `event` is what an event of this kind on the server, of `username`, is recorded as.
pub open spec fn is_server_event(
    event: GeneratedEvent,
    kind: EventKind,
    username: Seq<char>,
) -> bool {
    &&& event.module is Defguard
    &&& event.location is None
    &&& match kind {
        EventKind::Login => is_plain(event, EventType::UserLogin, DefguardEvent::UserLogin),
        EventKind::Logout => is_plain(event, EventType::UserLogout, DefguardEvent::UserLogout),
        EventKind::MfaLogin => {
            ||| is_mfa_login(event, MFAMethod::OneTimePassword)
            ||| is_mfa_login(event, MFAMethod::Webauthn)
            ||| is_mfa_login(event, MFAMethod::Email)
        },
        EventKind::LoginFailed => is_failed_login(event, username),
        EventKind::MfaLoginFailed => is_failed_mfa_login(event, true) || is_failed_mfa_login(
            event,
            false,
        ),
        EventKind::RecoveryCodeUsed => is_plain(
            event,
            EventType::RecoveryCodeUsed,
            DefguardEvent::RecoveryCodeUsed,
        ),
        EventKind::PasswordChanged => is_plain(
            event,
            EventType::PasswordChanged,
            DefguardEvent::PasswordChanged,
        ),
        EventKind::MfaTotpEnabled => is_plain(
            event,
            EventType::MfaTotpEnabled,
            DefguardEvent::MfaTotpEnabled,
        ),
        EventKind::MfaTotpDisabled => is_plain(
            event,
            EventType::MfaTotpDisabled,
            DefguardEvent::MfaTotpDisabled,
        ),
        EventKind::MfaEmailEnabled => is_plain(
            event,
            EventType::MfaEmailEnabled,
            DefguardEvent::MfaEmailEnabled,
        ),
        EventKind::MfaEmailDisabled => is_plain(
            event,
            EventType::MfaEmailDisabled,
            DefguardEvent::MfaEmailDisabled,
        ),
        _ => false,
    }
}

/// An event on the server tells what its kind says, of the user it was made up for, from the
/// browser it was made up with, and with the second factor that was drawn for it.
pub proof fn server_events_tell_what_happened(
    kind: EventKind,
    user: &User,
    user_agent: &str,
    draw: Draw,
    event: GeneratedEvent,
)
    requires
        on_server(kind),
        kind is MfaLogin ==> draw is Method,
        kind is MfaLoginFailed ==> draw is Failure,
        call_ensures(defguard_event, (kind, user, user_agent, draw), event),
    ensures
        is_server_event(event, kind, user.username@),
        event.device@ == user_agent@,
        kind is MfaLogin ==> is_mfa_login(event, draw->Method_0),
        kind is MfaLoginFailed ==> is_failed_mfa_login(event, draw->at_totp),
{
}

/// How a device is recorded at a VPN location: by its name and its own id.
pub open spec fn name_and_id(device: Device) -> Seq<char> {
    device.name@ + " (ID "@ + decimal_text(device.id as int) + ")"@
}

/// Whether `event` is recorded as `event_type` and tells of `told` at `location` on `device`, with
/// both as its details.
pub open spec fn is_at_location(
    event: GeneratedEvent,
    event_type: EventType,
    told: VpnEvent,
    location: WireguardNetwork,
    device: Device,
) -> bool {
    &&& event.module is Vpn
    &&& event.location is Some
    &&& event.location->0@ == location.name@
    &&& event.event_type == event_type
    &&& event.subject == EventSubject::Vpn(told)
    &&& event.metadata == Some(EventMetadata::VpnClient { location, device })
    &&& event.device@ == name_and_id(device)
}

/// Whether `event` is a second factor given with `method` at `location` on `device`, with all three
/// as its details.
pub open spec fn is_mfa_success(
    event: GeneratedEvent,
    location: WireguardNetwork,
    device: Device,
    method: ClientMFAMethod,
) -> bool {
    &&& event.module is Vpn
    &&& event.location is Some
    &&& event.location->0@ == location.name@
    &&& event.event_type is VpnClientMfaSuccess
    &&& event.subject == EventSubject::Vpn(VpnEvent::ClientMfaSuccess { location, device, method })
    &&& event.metadata == Some(EventMetadata::VpnClientMfa { location, device, method })
    &&& event.device@ == device.label@
}

/// Whether `event` is what an event of this kind at `location` on `device` is recorded as.
pub open spec fn is_vpn_event(
    event: GeneratedEvent,
    kind: EventKind,
    location: WireguardNetwork,
    device: Device,
) -> bool {
    match kind {
        EventKind::VpnConnected => is_at_location(
            event,
            EventType::VpnClientConnected,
            VpnEvent::ConnectedToLocation { location, device },
            location,
            device,
        ),
        EventKind::VpnDisconnected => is_at_location(
            event,
            EventType::VpnClientDisconnected,
            VpnEvent::DisconnectedFromLocation { location, device },
            location,
            device,
        ),
        EventKind::VpnMfaConnected => is_at_location(
            event,
            EventType::VpnClientMfaConnected,
            VpnEvent::MfaConnectedToLocation { location, device },
            location,
            device,
        ),
        EventKind::VpnMfaDisconnected => is_at_location(
            event,
            EventType::VpnClientMfaDisconnected,
            VpnEvent::MfaDisconnectedFromLocation { location, device },
            location,
            device,
        ),
        EventKind::VpnMfaSuccess => {
            ||| is_mfa_success(event, location, device, ClientMFAMethod::Totp)
            ||| is_mfa_success(event, location, device, ClientMFAMethod::Email)
            ||| is_mfa_success(event, location, device, ClientMFAMethod::Biometric)
            ||| is_mfa_success(event, location, device, ClientMFAMethod::MobileApprove)
        },
        _ => false,
    }
}

/// What events of this kind at a VPN location are recorded as.
pub open spec fn recorded_as(kind: EventKind, event_type: EventType) -> bool {
    match kind {
        EventKind::VpnConnected => event_type is VpnClientConnected,
        EventKind::VpnDisconnected => event_type is VpnClientDisconnected,
        EventKind::VpnMfaConnected => event_type is VpnClientMfaConnected,
        EventKind::VpnMfaDisconnected => event_type is VpnClientMfaDisconnected,
        EventKind::VpnMfaSuccess => event_type is VpnClientMfaSuccess,
        _ => false,
    }
}

proof fn lemma_vpn_event(
    kind: EventKind,
    event_type: EventType,
    location: WireguardNetwork,
    device: Device,
    method: Option<ClientMFAMethod>,
    event: GeneratedEvent,
)
    requires
        recorded_as(kind, event_type),
        event_type is VpnClientMfaSuccess <==> method is Some,
        event@ == vpn_outcome(event_type, location, device, method),
    ensures
        is_vpn_event(event, kind, location, device),
        method is Some ==> is_mfa_success(event, location, device, method->0),
{
}

/// An event at a VPN location names that location and that device, in the record, in what it tells
/// and in its details, and the second factor it was made up with. The device is recorded by its
/// name and its own id, or in full where a second factor was given.
pub proof fn vpn_events_tell_what_happened(
    kind: EventKind,
    event_type: EventType,
    location: &WireguardNetwork,
    device: &Device,
    method: Option<ClientMFAMethod>,
    event: GeneratedEvent,
)
    requires
        recorded_as(kind, event_type),
        event_type is VpnClientMfaSuccess <==> method is Some,
        call_ensures(vpn_event, (event_type, location, device, method), event),
    ensures
        is_vpn_event(event, kind, *location, *device),
        event.event_type == event_type,
        event_type is VpnClientMfaSuccess ==> is_mfa_success(event, *location, *device, method->0),
        !(event_type is VpnClientMfaSuccess) ==> event.device@ == device.name@ + " (ID "@
            + decimal_text(device.id as int) + ")"@,
{
    lemma_vpn_event(kind, event_type, *location, *device, method, event);
}

/// A device is recorded in the same way wherever and at whatever it connects or disconnects.
pub proof fn devices_are_recorded_alike(
    device: &Device,
    one_kind: EventKind,
    one_type: EventType,
    one_location: &WireguardNetwork,
    one: GeneratedEvent,
    other_kind: EventKind,
    other_type: EventType,
    other_location: &WireguardNetwork,
    other: GeneratedEvent,
)
    requires
        recorded_as(one_kind, one_type) && !(one_type is VpnClientMfaSuccess),
        recorded_as(other_kind, other_type) && !(other_type is VpnClientMfaSuccess),
        call_ensures(vpn_event, (one_type, one_location, device, None::<ClientMFAMethod>), one),
        call_ensures(
            vpn_event,
            (other_type, other_location, device, None::<ClientMFAMethod>),
            other,
        ),
    ensures
        one.device@ == other.device@,
{
    vpn_events_tell_what_happened(one_kind, one_type, one_location, device, None, one);
    vpn_events_tell_what_happened(other_kind, other_type, other_location, device, None, other);
}

/// Whether `event` is an event of this kind on `device` at one of `locations`.
pub open spec fn is_at_one_of(
    event: GeneratedEvent,
    kind: EventKind,
    locations: Seq<WireguardNetwork>,
    device: Device,
) -> bool {
    exists|location: WireguardNetwork|
        #[trigger] locations.contains(location) && is_vpn_event(event, kind, location, device)
}

proof fn lemma_at_one_of(
    kind: EventKind,
    event_type: EventType,
    locations: Seq<WireguardNetwork>,
    device: Device,
    event: GeneratedEvent,
)
    requires
        recorded_as(kind, event_type),
        may_happen_at(locations, device, event_type, event@),
    ensures
        is_at_one_of(event, kind, locations, device),
{
    let (location, method) = choose|location: WireguardNetwork, method: Option<ClientMFAMethod>|
        locations.contains(location) && method_fits(event_type, method) && event@
            == #[trigger] vpn_outcome(event_type, location, device, method);
    lemma_vpn_event(kind, event_type, location, device, method, event);
}

/// A made-up event at a VPN location is at one of the locations there are and on the device given.
pub proof fn made_up_vpn_events_are_at_a_location(
    device: &Device,
    locations: &Vec<WireguardNetwork>,
    kind: EventKind,
    event_type: EventType,
    event: GeneratedEvent,
)
    requires
        recorded_as(kind, event_type),
        exists|rng: &mut ThreadRng|
            #[trigger] call_ensures(build_vpn_event, (rng, device, locations, event_type), event),
    ensures
        is_at_one_of(event, kind, locations@, *device),
{
    lemma_at_one_of(kind, event_type, locations@, *device, event);
}

/// Whether `event` is an event of this kind, of `user` from one of the known browsers, or on
/// `device` at one of `locations`.
pub open spec fn is_event_of(
    event: GeneratedEvent,
    kind: EventKind,
    user: User,
    device: Device,
    locations: Seq<WireguardNetwork>,
) -> bool {
    if on_server(kind) {
        is_server_event(event, kind, user.username@) && user_agents().contains(event.device@)
    } else {
        is_at_one_of(event, kind, locations, device)
    }
}

proof fn lemma_event_of(
    kind: EventKind,
    user: User,
    device: Device,
    locations: Seq<WireguardNetwork>,
    event: GeneratedEvent,
)
    requires
        may_happen(kind, user, device, locations, event@),
    ensures
        is_event_of(event, kind, user, device, locations),
{
    if !on_server(kind) {
        lemma_at_one_of(kind, kind.event_type(), locations, device, event);
    }
}

/// A made-up event of a kind tells what the kind says, whatever is drawn: on the server of the user
/// given, at a VPN location of the device given.
pub proof fn made_up_events_are_of_their_kind(
    user: &User,
    device: &Device,
    locations: &Vec<WireguardNetwork>,
    kind: EventKind,
    event: GeneratedEvent,
)
    requires
        exists|rng: &mut ThreadRng|
            #[trigger] call_ensures(build_event, (rng, user, device, locations, kind), event),
    ensures
        is_event_of(event, kind, *user, *device, locations@),
{
    lemma_event_of(kind, *user, *device, locations@, event);
}

/// How often a kind is in the pool when there are locations.
pub open spec fn share(kind: EventKind) -> nat {
    match kind {
        EventKind::Login => 8,
        EventKind::Logout => 6,
        EventKind::MfaLogin => 6,
        EventKind::LoginFailed => 3,
        EventKind::MfaLoginFailed => 2,
        EventKind::RecoveryCodeUsed => 1,
        EventKind::PasswordChanged => 1,
        EventKind::MfaTotpEnabled => 1,
        EventKind::MfaTotpDisabled => 1,
        EventKind::MfaEmailEnabled => 1,
        EventKind::MfaEmailDisabled => 1,
        EventKind::VpnConnected => 8,
        EventKind::VpnDisconnected => 8,
        EventKind::VpnMfaConnected => 4,
        EventKind::VpnMfaDisconnected => 4,
        EventKind::VpnMfaSuccess => 3,
    }
}

/// Each kind is in the pool as often as its share says, and one that needs a VPN location is in it
/// only where there is one.
pub proof fn pool_holds_shares(vpn_available: bool, kind: EventKind, pool: Vec<EventKind>)
    requires
        call_ensures(build_kind_pool, (vpn_available,), pool),
    ensures
        vpn_available || on_server(kind) ==> pool@.to_multiset().count(kind) == share(kind),
        !vpn_available && !on_server(kind) ==> pool@.to_multiset().count(kind) == 0,
{
    pool_holds_each_kind_by_weight(vpn_available, kind);
}

/// As many users are prepared as were asked for, and one where none was.
pub proof fn somebody_is_prepared(config: &ActivityLogGeneratorConfig, count: usize)
    requires
        call_ensures(users_to_prepare, (config,), count),
    ensures
        config.num_users > 0 ==> count == config.num_users,
        config.num_users == 0 ==> count == 1,
{
}

/// A user is paired with the first of the devices.
pub proof fn users_get_their_first_device(user: User, devices: Vec<Device>, pair: (User, Device))
    requires
        devices@.len() > 0,
        call_ensures(with_first_device, (user, devices), pair),
    ensures
        pair.0 == user,
        pair.1 == devices@.first(),
{
}

/// Events are spread over as many minutes as were asked for, sixty seconds each, and over one
/// minute where fewer were.
pub proof fn spans_are_minutes(config: &ActivityLogGeneratorConfig, seconds: i64)
    requires
        config.time_span_minutes <= MOST_MINUTES,
        call_ensures(span_seconds, (config,), seconds),
    ensures
        config.time_span_minutes >= 1 ==> seconds == 60 * config.time_span_minutes,
        config.time_span_minutes < 1 ==> seconds == 60,
{
}

/// A draft is of the user given, tells of the event given, and is dated that many seconds before
/// the moment given.
pub proof fn drafts_are_dated(
    user: &User,
    now: Timestamp,
    offset: i64,
    event: GeneratedEvent,
    draft: EventDraft,
)
    requires
        now.is_valid(),
        0 <= offset,
        FIRST_SECOND <= now.seconds - offset,
        call_ensures(draft_event, (user, now, offset, event), draft),
    ensures
        draft.timestamp.seconds == now.seconds - offset,
        draft.timestamp.nanos == now.nanos,
        draft.user_id == user.id,
        draft.username@ == user.username@,
        draft.generated == event,
{
}

/// A record holds what its draft holds and the description it is completed with; it holds the
/// document where the draft has details, and it holds no address.
pub proof fn records_hold_their_draft(
    draft: EventDraft,
    description: Option<String>,
    metadata: Option<serde_json::Value>,
    event: ActivityLogEvent,
)
    requires
        call_ensures(EventDraft::complete, (draft, description, metadata), event),
    ensures
        event.timestamp == draft.timestamp,
        event.user_id == draft.user_id,
        event.username == draft.username,
        event.location == draft.generated.location,
        event.ip is None,
        event.event == draft.generated.event_type,
        event.module == draft.generated.module,
        event.device == draft.generated.device,
        event.description == description,
        draft.generated.metadata is Some ==> event.metadata == metadata,
        draft.generated.metadata is None ==> event.metadata is None,
{
}

/// Whether `draft` is of the user of `pair`, dated within the span before `now`, and tells of an
/// event of `kind`.
pub open spec fn is_draft_of(
    draft: EventDraft,
    pair: (User, Device),
    kind: EventKind,
    locations: Seq<WireguardNetwork>,
    now: Timestamp,
    config: ActivityLogGeneratorConfig,
) -> bool {
    &&& draft.user_id == pair.0.id
    &&& draft.username@ == pair.0.username@
    &&& is_event_of(draft.generated, kind, pair.0, pair.1, locations)
    &&& draft.timestamp.seconds <= now.seconds
    &&& config.time_span_minutes >= 1 ==> now.seconds - draft.timestamp.seconds < 60
        * config.time_span_minutes
    &&& config.time_span_minutes < 1 ==> now.seconds - draft.timestamp.seconds < 60
    &&& draft.timestamp.nanos == now.nanos
}

/// Whether `draft` is of somebody among `user_devices`.
pub open spec fn is_of_somebody(
    draft: EventDraft,
    user_devices: Seq<(User, Device)>,
    locations: Seq<WireguardNetwork>,
    now: Timestamp,
    config: ActivityLogGeneratorConfig,
) -> bool {
    exists|pair: (User, Device), kind: EventKind|
        #[trigger] user_devices.contains(pair) && #[trigger] is_draft_of(
            draft,
            pair,
            kind,
            locations,
            now,
            config,
        )
}

proof fn lemma_draft_of(
    user_devices: Seq<(User, Device)>,
    locations: Seq<WireguardNetwork>,
    now: Timestamp,
    config: ActivityLogGeneratorConfig,
    draft: EventDraft,
)
    requires
        now.is_valid(),
        FIRST_SECOND <= now.seconds - (config.span() - 1),
        may_be_drafted(user_devices, locations, now, config.span(), draft),
    ensures
        is_of_somebody(draft, user_devices, locations, now, config),
{
    let (pair, kind, offset) = choose|pair: (User, Device), kind: EventKind, offset: int|
        {
            &&& user_devices.contains(pair)
            &&& kind_pool(locations.len() > 0).contains(kind)
            &&& 0 <= offset < config.span()
            &&& draft.timestamp == #[trigger] now.earlier_by(offset)
            &&& draft.user_id == pair.0.id
            &&& draft.username == pair.0.username
            &&& #[trigger] may_happen(kind, pair.0, pair.1, locations, draft.generated@)
        };
    lemma_event_of(kind, pair.0, pair.1, locations, draft.generated);
    assert(user_devices.contains(pair) && is_draft_of(draft, pair, kind, locations, now, config));
}

/// A generated log has as many events as were asked for. Each is of one of the prepared users, with
/// their name and id in the record; it tells what its kind says of that user or, at one of the
/// locations, of the device that this user is paired with; and it is dated within the span asked
/// for.
pub proof fn logs_are_of_prepared_users(
    user_devices: &Vec<(User, Device)>,
    locations: &Vec<WireguardNetwork>,
    now: Timestamp,
    config: &ActivityLogGeneratorConfig,
    drafts: Vec<EventDraft>,
)
    requires
        config.num_events > 0 ==> now.is_valid() && FIRST_SECOND <= now.seconds - (config.span()
            - 1),
        exists|rng: &mut ThreadRng|
            #[trigger] call_ensures(
                generate_activity_log,
                (rng, user_devices, locations, now, config),
                drafts,
            ),
    ensures
        drafts@.len() == config.num_events,
        forall|i: int|
            0 <= i < drafts@.len() ==> is_of_somebody(
                #[trigger] drafts@[i],
                user_devices@,
                locations@,
                now,
                *config,
            ),
{
    assert forall|i: int| 0 <= i < drafts@.len() implies is_of_somebody(
        #[trigger] drafts@[i],
        user_devices@,
        locations@,
        now,
        *config,
    ) by {
        assert(may_be_drafted(user_devices@, locations@, now, config.span(), drafts@[i]));
        lemma_draft_of(user_devices@, locations@, now, *config, drafts@[i]);
    }
}

} // verus!
