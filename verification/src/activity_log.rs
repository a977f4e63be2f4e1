//! Filling the activity log with plausible events.
//!
//! Users and devices are prepared and events are stored outside; which events there are is decided
//! here, by chance. For every function that draws, another one says exactly what comes of a draw.

use rand::rngs::ThreadRng;
use vstd::prelude::*;

use crate::clock::{minutes_in_seconds, seconds_before, Timestamp, FIRST_SECOND, MOST_MINUTES};
use crate::event::{
    ActivityLogModule, ClientMFAMethod, DefguardEvent, DefguardEventView, Device, EventDraft,
    EventMetadata, EventMetadataView, EventSubject, EventSubjectView, EventType, GeneratedEvent,
    GeneratedEventView, MFAMethod, User, VpnEvent, WireguardNetwork,
};
use crate::random::{coin, number_in, pick, shuffle};
use crate::text::{decimal, decimal_text};

verus! {

pub const DEFAULT_NUM_EVENTS: usize = 20;

pub const DEFAULT_TIME_SPAN_MINUTES: i64 = 1;

pub const DEFAULT_NUM_USERS: usize = 10;

/// How much activity to make up.
#[derive(Debug)]
pub struct ActivityLogGeneratorConfig {
    pub num_events: usize,
    pub time_span_minutes: i64,
    pub num_users: usize,
}

impl Default for ActivityLogGeneratorConfig {
    fn default() -> (config: Self)
        ensures
            config.num_events == 20,
            config.time_span_minutes == 1,
            config.num_users == 10,
    {
        ActivityLogGeneratorConfig {
            num_events: DEFAULT_NUM_EVENTS,
            time_span_minutes: DEFAULT_TIME_SPAN_MINUTES,
            num_users: DEFAULT_NUM_USERS,
        }
    }
}

/// The kinds of events that are made up.
#[derive(Clone, Copy, Debug, PartialEq, Eq, Structural)]
pub enum EventKind {
    Login,
    Logout,
    MfaLogin,
    LoginFailed,
    MfaLoginFailed,
    RecoveryCodeUsed,
    PasswordChanged,
    MfaTotpEnabled,
    MfaTotpDisabled,
    MfaEmailEnabled,
    MfaEmailDisabled,
    VpnConnected,
    VpnDisconnected,
    VpnMfaConnected,
    VpnMfaDisconnected,
    VpnMfaSuccess,
}

impl EventKind {
    /// Whether events of this kind happen at a VPN location.
    pub open spec fn is_vpn(self) -> bool {
        match self {
            EventKind::VpnConnected | EventKind::VpnDisconnected | EventKind::VpnMfaConnected
            | EventKind::VpnMfaDisconnected | EventKind::VpnMfaSuccess => true,
            _ => false,
        }
    }

    /// What events of this kind are recorded as.
    pub open spec fn event_type(self) -> EventType {
        match self {
            EventKind::Login => EventType::UserLogin,
            EventKind::Logout => EventType::UserLogout,
            EventKind::MfaLogin => EventType::UserMfaLogin,
            EventKind::LoginFailed => EventType::UserLoginFailed,
            EventKind::MfaLoginFailed => EventType::UserMfaLoginFailed,
            EventKind::RecoveryCodeUsed => EventType::RecoveryCodeUsed,
            EventKind::PasswordChanged => EventType::PasswordChanged,
            EventKind::MfaTotpEnabled => EventType::MfaTotpEnabled,
            EventKind::MfaTotpDisabled => EventType::MfaTotpDisabled,
            EventKind::MfaEmailEnabled => EventType::MfaEmailEnabled,
            EventKind::MfaEmailDisabled => EventType::MfaEmailDisabled,
            EventKind::VpnConnected => EventType::VpnClientConnected,
            EventKind::VpnDisconnected => EventType::VpnClientDisconnected,
            EventKind::VpnMfaConnected => EventType::VpnClientMfaConnected,
            EventKind::VpnMfaDisconnected => EventType::VpnClientMfaDisconnected,
            EventKind::VpnMfaSuccess => EventType::VpnClientMfaSuccess,
        }
    }
}

/// The kinds that happen on the server, each with how often it is in the pool.
pub open spec fn server_weights() -> Seq<(EventKind, u8)> {
    seq![
        (EventKind::Login, 8u8),
        (EventKind::Logout, 6u8),
        (EventKind::MfaLogin, 6u8),
        (EventKind::LoginFailed, 3u8),
        (EventKind::MfaLoginFailed, 2u8),
        (EventKind::RecoveryCodeUsed, 1u8),
        (EventKind::PasswordChanged, 1u8),
        (EventKind::MfaTotpEnabled, 1u8),
        (EventKind::MfaTotpDisabled, 1u8),
        (EventKind::MfaEmailEnabled, 1u8),
        (EventKind::MfaEmailDisabled, 1u8),
    ]
}

/// The kinds that happen at a VPN location, each with how often it is in the pool.
pub open spec fn vpn_weights() -> Seq<(EventKind, u8)> {
    seq![
        (EventKind::VpnConnected, 8u8),
        (EventKind::VpnDisconnected, 8u8),
        (EventKind::VpnMfaConnected, 4u8),
        (EventKind::VpnMfaDisconnected, 4u8),
        (EventKind::VpnMfaSuccess, 3u8),
    ]
}

/// The kinds that can be drawn, each with how often it is in the pool.
pub open spec fn weights(vpn_available: bool) -> Seq<(EventKind, u8)> {
    if vpn_available {
        server_weights() + vpn_weights()
    } else {
        server_weights()
    }
}

/// Each kind as often as its weight says, in the order of the weights.
pub open spec fn expanded(weighted: Seq<(EventKind, u8)>) -> Seq<EventKind>
    decreases weighted.len(),
{
    if weighted.len() == 0 {
        Seq::empty()
    } else {
        expanded(weighted.drop_last()) + Seq::new(
            weighted.last().1 as nat,
            |i: int| weighted.last().0,
        )
    }
}

/// The pool that kinds are drawn from.
pub open spec fn kind_pool(vpn_available: bool) -> Seq<EventKind> {
    expanded(weights(vpn_available))
}

/// The pool that kinds are drawn from, in which a likelier kind is more often.
pub fn build_kind_pool(vpn_available: bool) -> (pool: Vec<EventKind>)
    ensures
        pool@ == kind_pool(vpn_available),
{
    let mut weighted: Vec<(EventKind, u8)> = vec![
        (EventKind::Login, 8),
        (EventKind::Logout, 6),
        (EventKind::MfaLogin, 6),
        (EventKind::LoginFailed, 3),
        (EventKind::MfaLoginFailed, 2),
        (EventKind::RecoveryCodeUsed, 1),
        (EventKind::PasswordChanged, 1),
        (EventKind::MfaTotpEnabled, 1),
        (EventKind::MfaTotpDisabled, 1),
        (EventKind::MfaEmailEnabled, 1),
        (EventKind::MfaEmailDisabled, 1),
    ];
    assert(weighted@ =~= server_weights());
    if vpn_available {
        let mut vpn: Vec<(EventKind, u8)> = vec![
            (EventKind::VpnConnected, 8),
            (EventKind::VpnDisconnected, 8),
            (EventKind::VpnMfaConnected, 4),
            (EventKind::VpnMfaDisconnected, 4),
            (EventKind::VpnMfaSuccess, 3),
        ];
        assert(vpn@ =~= vpn_weights());
        weighted.append(&mut vpn);
    }
    let mut pool: Vec<EventKind> = Vec::new();
    let mut i: usize = 0;
    while i < weighted.len()
        invariant
            i <= weighted@.len(),
            weighted@ == weights(vpn_available),
            pool@ == expanded(weighted@.take(i as int)),
        decreases weighted@.len() - i,
    {
        let (kind, weight) = weighted[i];
        let ghost before = pool@;
        let mut n: u8 = 0;
        while n < weight
            invariant
                n <= weight,
                pool@ == before + Seq::new(n as nat, |j: int| kind),
            decreases weight - n,
        {
            pool.push(kind);
            n += 1;
            assert(pool@ =~= before + Seq::new(n as nat, |j: int| kind));
        }
        let ghost next = weighted@.take(i + 1);
        assert(next.drop_last() =~= weighted@.take(i as int));
        assert(pool@ =~= expanded(next));
        i += 1;
    }
    assert(weighted@.take(i as int) =~= weighted@);
    pool
}

/// The browsers that events on the server come from.
pub open spec fn user_agents() -> Seq<Seq<char>> {
    seq![
        "Mozilla/5.0 (Windows NT 10.0; Win64; x64) AppleWebKit/537.36 (KHTML, like Gecko) Chrome/126.0.0.0 Safari/537.36"@,
        "Mozilla/5.0 (Macintosh; Intel Mac OS X 10_15_7) AppleWebKit/605.1.15 (KHTML, like Gecko) Version/17.5 Safari/605.1.15"@,
        "Mozilla/5.0 (X11; Linux x86_64; rv:127.0) Gecko/20100101 Firefox/127.0"@,
        "Mozilla/5.0 (iPhone; CPU iPhone OS 17_5 like Mac OS X) AppleWebKit/605.1.15 (KHTML, like Gecko) Version/17.5 Mobile/15E148 Safari/604.1"@,
        "Mozilla/5.0 (Linux; Android 14; Pixel 8) AppleWebKit/537.36 (KHTML, like Gecko) Chrome/126.0.0.0 Mobile Safari/537.36"@,
    ]
}

/// Draws a browser.
pub fn random_user_agent(rng: &mut ThreadRng) -> (agent: &'static str)
    ensures
        user_agents().contains(agent@),
{
    let agents: Vec<&'static str> = vec![
        "Mozilla/5.0 (Windows NT 10.0; Win64; x64) AppleWebKit/537.36 (KHTML, like Gecko) Chrome/126.0.0.0 Safari/537.36",
        "Mozilla/5.0 (Macintosh; Intel Mac OS X 10_15_7) AppleWebKit/605.1.15 (KHTML, like Gecko) Version/17.5 Safari/605.1.15",
        "Mozilla/5.0 (X11; Linux x86_64; rv:127.0) Gecko/20100101 Firefox/127.0",
        "Mozilla/5.0 (iPhone; CPU iPhone OS 17_5 like Mac OS X) AppleWebKit/605.1.15 (KHTML, like Gecko) Version/17.5 Mobile/15E148 Safari/604.1",
        "Mozilla/5.0 (Linux; Android 14; Pixel 8) AppleWebKit/537.36 (KHTML, like Gecko) Chrome/126.0.0.0 Mobile Safari/537.36",
    ];
    let agent = *pick(agents.as_slice(), rng).unwrap();
    proof {
        let i = choose|i: int| 0 <= i < agents@.len() && agents@[i] == agent;
        assert(user_agents()[i] == agents@[i]@);
    }
    agent
}

/// Draws a second factor of a login.
pub fn random_mfa_method(rng: &mut ThreadRng) -> (method: MFAMethod)
    ensures
        seq![MFAMethod::OneTimePassword, MFAMethod::Webauthn, MFAMethod::Email].contains(method),
{
    let methods: Vec<MFAMethod> = vec![
        MFAMethod::OneTimePassword,
        MFAMethod::Webauthn,
        MFAMethod::Email,
    ];
    assert(methods@ =~= seq![MFAMethod::OneTimePassword, MFAMethod::Webauthn, MFAMethod::Email]);
    *pick(methods.as_slice(), rng).unwrap()
}

/// Draws a second factor of a VPN connection.
pub fn random_client_mfa_method(rng: &mut ThreadRng) -> (method: ClientMFAMethod)
    ensures
        seq![
            ClientMFAMethod::Totp,
            ClientMFAMethod::Email,
            ClientMFAMethod::Biometric,
            ClientMFAMethod::MobileApprove,
        ].contains(method),
{
    let methods: Vec<ClientMFAMethod> = vec![
        ClientMFAMethod::Totp,
        ClientMFAMethod::Email,
        ClientMFAMethod::Biometric,
        ClientMFAMethod::MobileApprove,
    ];
    assert(methods@ =~= seq![
        ClientMFAMethod::Totp,
        ClientMFAMethod::Email,
        ClientMFAMethod::Biometric,
        ClientMFAMethod::MobileApprove,
    ]);
    *pick(methods.as_slice(), rng).unwrap()
}

/// What is drawn for an event on the server, besides the browser.
#[derive(Clone, Copy, Debug, PartialEq, Eq, Structural)]
pub enum Draw {
    /// Nothing.
    Nothing,
    /// The second factor of a login.
    Method(MFAMethod),
    /// Which second factor a login failed at: the one-time password or, otherwise, the mailed code.
    Failure { at_totp: bool },
}

/// Whether `draw` is what an event of this kind needs.
pub open spec fn draw_fits(kind: EventKind, draw: Draw) -> bool {
    match kind {
        EventKind::MfaLogin => draw is Method,
        EventKind::MfaLoginFailed => draw is Failure,
        _ => draw is Nothing,
    }
}

/// What is said of a login that failed at its password.
pub open spec fn login_failure(username: Seq<char>) -> Seq<char> {
    "Authentication for "@ + username + " failed: invalid password"@
}

/// What an event on the server tells of.
pub open spec fn defguard_subject(
    kind: EventKind,
    username: Seq<char>,
    draw: Draw,
) -> DefguardEventView
    recommends
        !kind.is_vpn(),
        draw_fits(kind, draw),
{
    match (kind, draw) {
        (EventKind::Logout, _) => DefguardEventView::UserLogout,
        (EventKind::MfaLogin, Draw::Method(mfa_method)) => DefguardEventView::UserMfaLogin {
            mfa_method,
        },
        (EventKind::LoginFailed, _) => DefguardEventView::UserLoginFailed {
            message: login_failure(username),
        },
        (EventKind::MfaLoginFailed, Draw::Failure { at_totp: true }) =>
            DefguardEventView::UserMfaLoginFailed {
            mfa_method: MFAMethod::OneTimePassword,
            message: "TOTP code verification failed"@,
        },
        (EventKind::MfaLoginFailed, Draw::Failure { at_totp: false }) =>
            DefguardEventView::UserMfaLoginFailed {
            mfa_method: MFAMethod::Email,
            message: "Email code verification failed"@,
        },
        (EventKind::RecoveryCodeUsed, _) => DefguardEventView::RecoveryCodeUsed,
        (EventKind::PasswordChanged, _) => DefguardEventView::PasswordChanged,
        (EventKind::MfaTotpEnabled, _) => DefguardEventView::MfaTotpEnabled,
        (EventKind::MfaTotpDisabled, _) => DefguardEventView::MfaTotpDisabled,
        (EventKind::MfaEmailEnabled, _) => DefguardEventView::MfaEmailEnabled,
        (EventKind::MfaEmailDisabled, _) => DefguardEventView::MfaEmailDisabled,
        _ => DefguardEventView::UserLogin,
    }
}

/// The details recorded of an event on the server.
pub open spec fn defguard_metadata(subject: DefguardEventView) -> Option<EventMetadataView> {
    match subject {
        DefguardEventView::UserMfaLogin { mfa_method } => Some(
            EventMetadataView::MfaLogin { mfa_method },
        ),
        DefguardEventView::UserLoginFailed { message } => Some(
            EventMetadataView::LoginFailed { message },
        ),
        DefguardEventView::UserMfaLoginFailed { mfa_method, message } => Some(
            EventMetadataView::MfaLoginFailed { mfa_method, message },
        ),
        _ => None,
    }
}

/// The event on the server that comes of a draw.
pub open spec fn defguard_outcome(
    kind: EventKind,
    username: Seq<char>,
    user_agent: Seq<char>,
    draw: Draw,
) -> GeneratedEventView {
    GeneratedEventView {
        module: ActivityLogModule::Defguard,
        event_type: kind.event_type(),
        subject: EventSubjectView::Defguard(defguard_subject(kind, username, draw)),
        metadata: defguard_metadata(defguard_subject(kind, username, draw)),
        location: None,
        device: user_agent,
    }
}

fn without_details(event_type: EventType, event: DefguardEvent, user_agent: &str) -> (generated:
    GeneratedEvent)
    ensures
        generated@ == (GeneratedEventView {
            module: ActivityLogModule::Defguard,
            event_type,
            subject: EventSubjectView::Defguard(event@),
            metadata: None,
            location: None,
            device: user_agent@,
        }),
{
    GeneratedEvent {
        module: ActivityLogModule::Defguard,
        event_type,
        subject: EventSubject::Defguard(event),
        metadata: None,
        location: None,
        device: user_agent.to_owned(),
    }
}

fn with_details(
    event_type: EventType,
    event: DefguardEvent,
    metadata: EventMetadata,
    user_agent: &str,
) -> (generated: GeneratedEvent)
    ensures
        generated@ == (GeneratedEventView {
            module: ActivityLogModule::Defguard,
            event_type,
            subject: EventSubjectView::Defguard(event@),
            metadata: Some(metadata@),
            location: None,
            device: user_agent@,
        }),
{
    GeneratedEvent {
        module: ActivityLogModule::Defguard,
        event_type,
        subject: EventSubject::Defguard(event),
        metadata: Some(metadata),
        location: None,
        device: user_agent.to_owned(),
    }
}

/// The event on the server that comes of a draw.
pub fn defguard_event(kind: EventKind, user: &User, user_agent: &str, draw: Draw) -> (generated:
    GeneratedEvent)
    requires
        !kind.is_vpn(),
        draw_fits(kind, draw),
    ensures
        generated@ == defguard_outcome(kind, user.username@, user_agent@, draw),
{
    match kind {
        EventKind::Login => without_details(
            EventType::UserLogin,
            DefguardEvent::UserLogin,
            user_agent,
        ),
        EventKind::Logout => without_details(
            EventType::UserLogout,
            DefguardEvent::UserLogout,
            user_agent,
        ),
        EventKind::MfaLogin => {
            let mfa_method = match draw {
                Draw::Method(method) => method,
                _ => MFAMethod::OneTimePassword,
            };
            with_details(
                EventType::UserMfaLogin,
                DefguardEvent::UserMfaLogin { mfa_method },
                EventMetadata::MfaLogin { mfa_method },
                user_agent,
            )
        },
        EventKind::LoginFailed => {
            let message = "Authentication for ".to_owned().concat(user.username.as_str()).concat(
                " failed: invalid password",
            );
            with_details(
                EventType::UserLoginFailed,
                DefguardEvent::UserLoginFailed { message: message.clone() },
                EventMetadata::LoginFailed { message },
                user_agent,
            )
        },
        EventKind::MfaLoginFailed => {
            let (mfa_method, message) = match draw {
                Draw::Failure { at_totp: true } => (
                    MFAMethod::OneTimePassword,
                    "TOTP code verification failed".to_owned(),
                ),
                _ => (MFAMethod::Email, "Email code verification failed".to_owned()),
            };
            with_details(
                EventType::UserMfaLoginFailed,
                DefguardEvent::UserMfaLoginFailed { mfa_method, message: message.clone() },
                EventMetadata::MfaLoginFailed { mfa_method, message },
                user_agent,
            )
        },
        EventKind::RecoveryCodeUsed => without_details(
            EventType::RecoveryCodeUsed,
            DefguardEvent::RecoveryCodeUsed,
            user_agent,
        ),
        EventKind::PasswordChanged => without_details(
            EventType::PasswordChanged,
            DefguardEvent::PasswordChanged,
            user_agent,
        ),
        EventKind::MfaTotpEnabled => without_details(
            EventType::MfaTotpEnabled,
            DefguardEvent::MfaTotpEnabled,
            user_agent,
        ),
        EventKind::MfaTotpDisabled => without_details(
            EventType::MfaTotpDisabled,
            DefguardEvent::MfaTotpDisabled,
            user_agent,
        ),
        EventKind::MfaEmailEnabled => without_details(
            EventType::MfaEmailEnabled,
            DefguardEvent::MfaEmailEnabled,
            user_agent,
        ),
        _ => without_details(
            EventType::MfaEmailDisabled,
            DefguardEvent::MfaEmailDisabled,
            user_agent,
        ),
    }
}

/// Whether events recorded as this happen at a VPN location.
pub open spec fn is_vpn_type(event_type: EventType) -> bool {
    match event_type {
        EventType::VpnClientConnected | EventType::VpnClientDisconnected
        | EventType::VpnClientMfaConnected | EventType::VpnClientMfaDisconnected
        | EventType::VpnClientMfaSuccess => true,
        _ => false,
    }
}

/// Whether `method` is what an event recorded as this needs: a second factor where one was given.
pub open spec fn method_fits(event_type: EventType, method: Option<ClientMFAMethod>) -> bool {
    event_type is VpnClientMfaSuccess <==> method is Some
}

/// What an event at a VPN location tells of.
pub open spec fn vpn_subject(
    event_type: EventType,
    location: WireguardNetwork,
    device: Device,
    method: Option<ClientMFAMethod>,
) -> VpnEvent
    recommends
        is_vpn_type(event_type),
        method_fits(event_type, method),
{
    match event_type {
        EventType::VpnClientConnected => VpnEvent::ConnectedToLocation { location, device },
        EventType::VpnClientDisconnected => VpnEvent::DisconnectedFromLocation { location, device },
        EventType::VpnClientMfaConnected => VpnEvent::MfaConnectedToLocation { location, device },
        EventType::VpnClientMfaDisconnected => VpnEvent::MfaDisconnectedFromLocation {
            location,
            device,
        },
        _ => VpnEvent::ClientMfaSuccess { location, device, method: method->0 },
    }
}

/// The event at a VPN location that comes of a draw.
pub open spec fn vpn_outcome(
    event_type: EventType,
    location: WireguardNetwork,
    device: Device,
    method: Option<ClientMFAMethod>,
) -> GeneratedEventView {
    GeneratedEventView {
        module: ActivityLogModule::Vpn,
        event_type,
        subject: EventSubjectView::Vpn(vpn_subject(event_type, location, device, method)),
        metadata: Some(
            match method {
                Some(method) => EventMetadataView::VpnClientMfa { location, device, method },
                None => EventMetadataView::VpnClient { location, device },
            },
        ),
        location: Some(location.name@),
        device: if event_type is VpnClientMfaSuccess {
            device.label@
        } else {
            device.name@ + " (ID "@ + decimal_text(device.id as int) + ")"@
        },
    }
}

/// The event at a VPN location that comes of a draw.
pub fn vpn_event(
    event_type: EventType,
    location: &WireguardNetwork,
    device: &Device,
    method: Option<ClientMFAMethod>,
) -> (generated: GeneratedEvent)
    requires
        is_vpn_type(event_type),
        method_fits(event_type, method),
    ensures
        generated@ == vpn_outcome(event_type, *location, *device, method),
{
    let location_name = Some(location.name.clone());
    let device_text = match event_type {
        EventType::VpnClientMfaSuccess => device.label.clone(),
        _ => device.name.clone().concat(" (ID ").concat(decimal(device.id).as_str()).concat(")"),
    };
    let (subject, metadata) = match (event_type, method) {
        (EventType::VpnClientConnected, _) => (
            VpnEvent::ConnectedToLocation { location: location.clone(), device: device.clone() },
            EventMetadata::VpnClient { location: location.clone(), device: device.clone() },
        ),
        (EventType::VpnClientDisconnected, _) => (
            VpnEvent::DisconnectedFromLocation {
                location: location.clone(),
                device: device.clone(),
            },
            EventMetadata::VpnClient { location: location.clone(), device: device.clone() },
        ),
        (EventType::VpnClientMfaConnected, _) => (
            VpnEvent::MfaConnectedToLocation { location: location.clone(), device: device.clone() },
            EventMetadata::VpnClient { location: location.clone(), device: device.clone() },
        ),
        (EventType::VpnClientMfaDisconnected, _) => (
            VpnEvent::MfaDisconnectedFromLocation {
                location: location.clone(),
                device: device.clone(),
            },
            EventMetadata::VpnClient { location: location.clone(), device: device.clone() },
        ),
        (_, method) => {
            let method = method.unwrap();
            (
                VpnEvent::ClientMfaSuccess {
                    location: location.clone(),
                    device: device.clone(),
                    method,
                },
                EventMetadata::VpnClientMfa {
                    location: location.clone(),
                    device: device.clone(),
                    method,
                },
            )
        },
    };
    GeneratedEvent {
        module: ActivityLogModule::Vpn,
        event_type,
        subject: EventSubject::Vpn(subject),
        metadata: Some(metadata),
        location: location_name,
        device: device_text,
    }
}

/// Whether `generated` can come of the draws for an event at one of `locations`.
pub open spec fn may_happen_at(
    locations: Seq<WireguardNetwork>,
    device: Device,
    event_type: EventType,
    generated: GeneratedEventView,
) -> bool {
    exists|location: WireguardNetwork, method: Option<ClientMFAMethod>|
        locations.contains(location) && method_fits(event_type, method) && generated
            == #[trigger] vpn_outcome(event_type, location, device, method)
}

/// Makes up an event at one of `locations`.
pub fn build_vpn_event(
    rng: &mut ThreadRng,
    device: &Device,
    locations: &Vec<WireguardNetwork>,
    event_type: EventType,
) -> (generated: GeneratedEvent)
    requires
        locations@.len() > 0,
        is_vpn_type(event_type),
    ensures
        may_happen_at(locations@, *device, event_type, generated@),
{
    let location = pick(locations.as_slice(), rng).unwrap();
    let method = match event_type {
        EventType::VpnClientMfaSuccess => Some(random_client_mfa_method(rng)),
        _ => None,
    };
    vpn_event(event_type, location, device, method)
}

/// Whether `generated` can come of the draws for an event of this kind.
pub open spec fn may_happen(
    kind: EventKind,
    user: User,
    device: Device,
    locations: Seq<WireguardNetwork>,
    generated: GeneratedEventView,
) -> bool {
    if kind.is_vpn() {
        may_happen_at(locations, device, kind.event_type(), generated)
    } else {
        exists|user_agent: Seq<char>, draw: Draw|
            user_agents().contains(user_agent) && draw_fits(kind, draw) && generated
                == #[trigger] defguard_outcome(kind, user.username@, user_agent, draw)
    }
}

/// Makes up an event of this kind.
pub fn build_event(
    rng: &mut ThreadRng,
    user: &User,
    device: &Device,
    locations: &Vec<WireguardNetwork>,
    kind: EventKind,
) -> (generated: GeneratedEvent)
    requires
        kind.is_vpn() ==> locations@.len() > 0,
    ensures
        may_happen(kind, *user, *device, locations@, generated@),
{
    let user_agent = random_user_agent(rng);
    match kind {
        EventKind::VpnConnected => build_vpn_event(
            rng,
            device,
            locations,
            EventType::VpnClientConnected,
        ),
        EventKind::VpnDisconnected => build_vpn_event(
            rng,
            device,
            locations,
            EventType::VpnClientDisconnected,
        ),
        EventKind::VpnMfaConnected => build_vpn_event(
            rng,
            device,
            locations,
            EventType::VpnClientMfaConnected,
        ),
        EventKind::VpnMfaDisconnected => build_vpn_event(
            rng,
            device,
            locations,
            EventType::VpnClientMfaDisconnected,
        ),
        EventKind::VpnMfaSuccess => build_vpn_event(
            rng,
            device,
            locations,
            EventType::VpnClientMfaSuccess,
        ),
        EventKind::MfaLogin => {
            let draw = Draw::Method(random_mfa_method(rng));
            defguard_event(kind, user, user_agent, draw)
        },
        EventKind::MfaLoginFailed => {
            let draw = Draw::Failure { at_totp: coin(rng) };
            defguard_event(kind, user, user_agent, draw)
        },
        _ => defguard_event(kind, user, user_agent, Draw::Nothing),
    }
}

/// How many users to prepare: at least one.
pub fn users_to_prepare(config: &ActivityLogGeneratorConfig) -> (count: usize)
    ensures
        count == if config.num_users == 0 {
            1
        } else {
            config.num_users
        },
{
    if config.num_users < 1 {
        1
    } else {
        config.num_users
    }
}

/// Puts users into an order that is left to chance. Nobody is lost and nobody added.
pub fn shuffle_users(rng: &mut ThreadRng, users: Vec<User>) -> (shuffled: Vec<User>)
    ensures
        shuffled@.to_multiset() == users@.to_multiset(),
{
    let mut users = users;
    shuffle(&mut users, rng);
    users
}

/// Pairs a user with the first of their devices.
pub fn with_first_device(user: User, devices: Vec<Device>) -> (pair: (User, Device))
    requires
        devices@.len() > 0,
    ensures
        pair == (user, devices@[0]),
{
    let mut devices = devices;
    (user, devices.swap_remove(0))
}

impl ActivityLogGeneratorConfig {
    /// The number of minutes that events are spread over: at least one.
    pub open spec fn minutes(self) -> int {
        if self.time_span_minutes < 1 {
            1
        } else {
            self.time_span_minutes as int
        }
    }

    /// The number of seconds that events are spread over.
    pub open spec fn span(self) -> int {
        self.minutes() * 60
    }
}

/// The number of seconds that events are spread over.
pub fn span_seconds(config: &ActivityLogGeneratorConfig) -> (seconds: i64)
    requires
        config.time_span_minutes <= MOST_MINUTES,
    ensures
        seconds == config.span(),
{
    let minutes = if config.time_span_minutes < 1 {
        1
    } else {
        config.time_span_minutes
    };
    let seconds = minutes_in_seconds(minutes);
    if seconds < 1 {
        1
    } else {
        seconds
    }
}

/// The draft that a pair of user and device gets, at `offset` seconds before `now`.
pub fn draft_event(user: &User, now: Timestamp, offset: i64, generated: GeneratedEvent) -> (draft:
    EventDraft)
    requires
        now.is_valid(),
        0 <= offset,
        FIRST_SECOND <= now.seconds - offset,
    ensures
        draft == (EventDraft {
            timestamp: now.earlier_by(offset as int),
            user_id: user.id,
            username: user.username,
            generated,
        }),
{
    EventDraft {
        timestamp: seconds_before(now, offset),
        user_id: user.id,
        username: user.username.clone(),
        generated,
    }
}

/// Whether `draft` can come of the draws for one event.
pub open spec fn may_be_drafted(
    user_devices: Seq<(User, Device)>,
    locations: Seq<WireguardNetwork>,
    now: Timestamp,
    span: int,
    draft: EventDraft,
) -> bool {
    exists|pair: (User, Device), kind: EventKind, offset: int|
        {
            &&& user_devices.contains(pair)
            &&& kind_pool(locations.len() > 0).contains(kind)
            &&& 0 <= offset < span
            &&& draft.timestamp == #[trigger] now.earlier_by(offset)
            &&& draft.user_id == pair.0.id
            &&& draft.username == pair.0.username
            &&& #[trigger] may_happen(kind, pair.0, pair.1, locations, draft.generated@)
        }
}

/// Makes up events of the users in `user_devices`, on the device each is paired with, at one of
/// `locations` where the kind of event calls for it, over the time before `now`.
pub fn generate_activity_log(
    rng: &mut ThreadRng,
    user_devices: &Vec<(User, Device)>,
    locations: &Vec<WireguardNetwork>,
    now: Timestamp,
    config: &ActivityLogGeneratorConfig,
) -> (drafts: Vec<EventDraft>)
    requires
        config.time_span_minutes <= MOST_MINUTES,
        config.num_events > 0 ==> {
            &&& user_devices@.len() > 0
            &&& now.is_valid()
            &&& FIRST_SECOND <= now.seconds - (config.span() - 1)
        },
    ensures
        drafts@.len() == config.num_events,
        forall|i: int|
            0 <= i < drafts@.len() ==> may_be_drafted(
                user_devices@,
                locations@,
                now,
                config.span(),
                #[trigger] drafts@[i],
            ),
{
    let vpn_available = !locations.is_empty();
    let pool = build_kind_pool(vpn_available);
    let span = span_seconds(config);
    proof {
        lemma_pool_kinds(vpn_available);
    }
    let mut drafts: Vec<EventDraft> = Vec::new();
    let mut i: usize = 0;
    while i < config.num_events
        invariant
            i <= config.num_events,
            config.num_events > 0 ==> user_devices@.len() > 0 && now.is_valid() && FIRST_SECOND
                <= now.seconds - (span - 1),
            span == config.span(),
            span >= 1,
            vpn_available == (locations@.len() > 0),
            pool@ == kind_pool(vpn_available),
            pool@.len() > 0,
            forall|kind: EventKind| #[trigger] pool@.contains(kind) && kind.is_vpn() ==> vpn_available,
            drafts@.len() == i,
            forall|j: int|
                0 <= j < drafts@.len() ==> may_be_drafted(
                    user_devices@,
                    locations@,
                    now,
                    config.span(),
                    #[trigger] drafts@[j],
                ),
        decreases config.num_events - i,
    {
        let pair = pick(user_devices.as_slice(), rng).unwrap();
        let kind = *pick(pool.as_slice(), rng).unwrap();
        let offset = number_in(0, span, rng);
        let generated = build_event(rng, &pair.0, &pair.1, locations, kind);
        let draft = draft_event(&pair.0, now, offset, generated);
        proof {
            let p = *pair;
            assert(draft.timestamp == now.earlier_by(offset as int));
            assert(may_happen(kind, p.0, p.1, locations@, draft.generated@));
            assert(may_be_drafted(user_devices@, locations@, now, config.span(), draft));
        }
        drafts.push(draft);
        i += 1;
    }
    drafts
}

/// How often `kind` is in the list.
spec fn total_weight(weighted: Seq<(EventKind, u8)>, kind: EventKind) -> nat
    decreases weighted.len(),
{
    if weighted.len() == 0 {
        0
    } else {
        total_weight(weighted.drop_last(), kind) + if weighted.last().0 == kind {
            weighted.last().1 as nat
        } else {
            0
        }
    }
}

proof fn lemma_count_repeated(kind: EventKind, n: nat, other: EventKind)
    ensures
        Seq::new(n, |i: int| kind).to_multiset().count(other) == if kind == other {
            n
        } else {
            0
        },
    decreases n,
{
    let s = Seq::new(n, |i: int| kind);
    s.to_multiset_ensures();
    if n > 0 {
        let shorter = Seq::new((n - 1) as nat, |i: int| kind);
        lemma_count_repeated(kind, (n - 1) as nat, other);
        shorter.to_multiset_ensures();
        assert(s =~= shorter.push(kind));
    } else {
        assert(s =~= Seq::empty());
    }
}

proof fn lemma_count_expanded(weighted: Seq<(EventKind, u8)>, kind: EventKind)
    ensures
        expanded(weighted).to_multiset().count(kind) == total_weight(weighted, kind),
    decreases weighted.len(),
{
    if weighted.len() == 0 {
        expanded(weighted).to_multiset_ensures();
    } else {
        let before = expanded(weighted.drop_last());
        let last = Seq::new(weighted.last().1 as nat, |i: int| weighted.last().0);
        lemma_count_expanded(weighted.drop_last(), kind);
        lemma_count_repeated(weighted.last().0, weighted.last().1 as nat, kind);
        vstd::seq_lib::lemma_multiset_commutative(before, last);
        assert((before + last).to_multiset().count(kind) == before.to_multiset().count(kind)
            + last.to_multiset().count(kind));
    }
}

proof fn lemma_total_of_push(weighted: Seq<(EventKind, u8)>, entry: (EventKind, u8), kind: EventKind)
    ensures
        total_weight(weighted.push(entry), kind) == total_weight(weighted, kind) + if entry.0
            == kind {
            entry.1 as nat
        } else {
            0
        },
{
    assert(weighted.push(entry).drop_last() =~= weighted);
}

proof fn lemma_total_of_sum(
    left: Seq<(EventKind, u8)>,
    right: Seq<(EventKind, u8)>,
    kind: EventKind,
)
    ensures
        total_weight(left + right, kind) == total_weight(left, kind) + total_weight(right, kind),
    decreases right.len(),
{
    if right.len() == 0 {
        assert(left + right =~= left);
    } else {
        lemma_total_of_sum(left, right.drop_last(), kind);
        assert((left + right).drop_last() =~= left + right.drop_last());
    }
}

/// How likely a kind is, as the number of places it has in the pool.
pub open spec fn weight(kind: EventKind) -> nat {
    match kind {
        EventKind::Login | EventKind::VpnConnected | EventKind::VpnDisconnected => 8,
        EventKind::Logout | EventKind::MfaLogin => 6,
        EventKind::VpnMfaConnected | EventKind::VpnMfaDisconnected => 4,
        EventKind::LoginFailed | EventKind::VpnMfaSuccess => 3,
        EventKind::MfaLoginFailed => 2,
        _ => 1,
    }
}

proof fn lemma_total_of_server_weights(kind: EventKind)
    ensures
        total_weight(server_weights(), kind) == if !kind.is_vpn() {
            weight(kind)
        } else {
            0
        },
{
    let w0 = Seq::<(EventKind, u8)>::empty();
    let w1 = w0.push((EventKind::Login, 8u8));
    lemma_total_of_push(w0, (EventKind::Login, 8u8), kind);
    let w2 = w1.push((EventKind::Logout, 6u8));
    lemma_total_of_push(w1, (EventKind::Logout, 6u8), kind);
    let w3 = w2.push((EventKind::MfaLogin, 6u8));
    lemma_total_of_push(w2, (EventKind::MfaLogin, 6u8), kind);
    let w4 = w3.push((EventKind::LoginFailed, 3u8));
    lemma_total_of_push(w3, (EventKind::LoginFailed, 3u8), kind);
    let w5 = w4.push((EventKind::MfaLoginFailed, 2u8));
    lemma_total_of_push(w4, (EventKind::MfaLoginFailed, 2u8), kind);
    let w6 = w5.push((EventKind::RecoveryCodeUsed, 1u8));
    lemma_total_of_push(w5, (EventKind::RecoveryCodeUsed, 1u8), kind);
    let w7 = w6.push((EventKind::PasswordChanged, 1u8));
    lemma_total_of_push(w6, (EventKind::PasswordChanged, 1u8), kind);
    let w8 = w7.push((EventKind::MfaTotpEnabled, 1u8));
    lemma_total_of_push(w7, (EventKind::MfaTotpEnabled, 1u8), kind);
    let w9 = w8.push((EventKind::MfaTotpDisabled, 1u8));
    lemma_total_of_push(w8, (EventKind::MfaTotpDisabled, 1u8), kind);
    let w10 = w9.push((EventKind::MfaEmailEnabled, 1u8));
    lemma_total_of_push(w9, (EventKind::MfaEmailEnabled, 1u8), kind);
    let w11 = w10.push((EventKind::MfaEmailDisabled, 1u8));
    lemma_total_of_push(w10, (EventKind::MfaEmailDisabled, 1u8), kind);
    assert(server_weights() =~= w11);
}

proof fn lemma_total_of_vpn_weights(kind: EventKind)
    ensures
        total_weight(vpn_weights(), kind) == if kind.is_vpn() {
            weight(kind)
        } else {
            0
        },
{
    let w0 = Seq::<(EventKind, u8)>::empty();
    let w1 = w0.push((EventKind::VpnConnected, 8u8));
    lemma_total_of_push(w0, (EventKind::VpnConnected, 8u8), kind);
    let w2 = w1.push((EventKind::VpnDisconnected, 8u8));
    lemma_total_of_push(w1, (EventKind::VpnDisconnected, 8u8), kind);
    let w3 = w2.push((EventKind::VpnMfaConnected, 4u8));
    lemma_total_of_push(w2, (EventKind::VpnMfaConnected, 4u8), kind);
    let w4 = w3.push((EventKind::VpnMfaDisconnected, 4u8));
    lemma_total_of_push(w3, (EventKind::VpnMfaDisconnected, 4u8), kind);
    let w5 = w4.push((EventKind::VpnMfaSuccess, 3u8));
    lemma_total_of_push(w4, (EventKind::VpnMfaSuccess, 3u8), kind);
    assert(vpn_weights() =~= w5);
}

/// Every kind is in the pool exactly as often as its weight says; kinds that need a VPN location
/// are in it only where there is one.
pub proof fn pool_holds_each_kind_by_weight(vpn_available: bool, kind: EventKind)
    ensures
        kind_pool(vpn_available).to_multiset().count(kind) == if kind.is_vpn() && !vpn_available {
            0
        } else {
            weight(kind)
        },
        kind_pool(vpn_available).contains(kind) <==> (kind.is_vpn() ==> vpn_available),
{
    lemma_count_expanded(weights(vpn_available), kind);
    lemma_total_of_sum(server_weights(), vpn_weights(), kind);
    lemma_total_of_server_weights(kind);
    lemma_total_of_vpn_weights(kind);
    let pool = kind_pool(vpn_available);
    pool.to_multiset_ensures();
}

proof fn lemma_pool_kinds(vpn_available: bool)
    ensures
        kind_pool(vpn_available).len() > 0,
        forall|kind: EventKind|
            #[trigger] kind_pool(vpn_available).contains(kind) && kind.is_vpn() ==> vpn_available,
{
    pool_holds_each_kind_by_weight(vpn_available, EventKind::Login);
    assert forall|kind: EventKind|
        #[trigger] kind_pool(vpn_available).contains(kind) && kind.is_vpn() implies vpn_available by {
        pool_holds_each_kind_by_weight(vpn_available, kind);
    }
}

} // verus!
