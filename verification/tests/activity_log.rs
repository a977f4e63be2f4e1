use defguard_admin::activity_log::{
    build_event, build_kind_pool, build_vpn_event, defguard_event, draft_event,
    generate_activity_log, random_client_mfa_method, random_mfa_method, random_user_agent,
    shuffle_users, span_seconds, users_to_prepare, vpn_event, with_first_device,
    ActivityLogGeneratorConfig, Draw, EventKind,
};
use defguard_admin::clock::{Timestamp, FIRST_SECOND, LAST_SECOND, MOST_MINUTES};
use defguard_admin::event::{
    ActivityLogModule, ClientMFAMethod, DefguardEvent, Device, EventDraft, EventMetadata,
    EventSubject, EventType, GeneratedEvent, MFAMethod, User, VpnEvent, WireguardNetwork,
};
use defguard_admin::text::decimal;

const AGENTS: [&str; 5] = [
    "Mozilla/5.0 (Windows NT 10.0; Win64; x64) AppleWebKit/537.36 (KHTML, like Gecko) \
     Chrome/126.0.0.0 Safari/537.36",
    "Mozilla/5.0 (Macintosh; Intel Mac OS X 10_15_7) AppleWebKit/605.1.15 (KHTML, like Gecko) \
     Version/17.5 Safari/605.1.15",
    "Mozilla/5.0 (X11; Linux x86_64; rv:127.0) Gecko/20100101 Firefox/127.0",
    "Mozilla/5.0 (iPhone; CPU iPhone OS 17_5 like Mac OS X) AppleWebKit/605.1.15 (KHTML, like \
     Gecko) Version/17.5 Mobile/15E148 Safari/604.1",
    "Mozilla/5.0 (Linux; Android 14; Pixel 8) AppleWebKit/537.36 (KHTML, like Gecko) \
     Chrome/126.0.0.0 Mobile Safari/537.36",
];

fn user(id: i64) -> User {
    User { id, username: format!("user{id}") }
}

fn device(id: i64) -> Device {
    Device { id, name: format!("laptop{id}"), label: format!("[device {id}]") }
}

fn location(id: i64) -> WireguardNetwork {
    WireguardNetwork { id, name: format!("office{id}") }
}

fn pairs() -> Vec<(User, Device)> {
    (1..=4).map(|id| (user(id), device(10 * id))).collect()
}

fn now() -> Timestamp {
    Timestamp { seconds: 1_700_000_000, nanos: 123_456_789 }
}

fn config(num_events: usize, time_span_minutes: i64) -> ActivityLogGeneratorConfig {
    ActivityLogGeneratorConfig { num_events, time_span_minutes, num_users: 3 }
}

fn count(pool: &[EventKind], kind: EventKind) -> usize {
    pool.iter().filter(|k| **k == kind).count()
}

#[test]
fn default_config() {
    let config = ActivityLogGeneratorConfig::default();
    assert_eq!(config.num_events, 20);
    assert_eq!(config.time_span_minutes, 1);
    assert_eq!(config.num_users, 10);
}

#[test]
fn pool_without_locations_has_no_vpn_kinds() {
    let pool = build_kind_pool(false);
    assert_eq!(pool.len(), 31);
    assert_eq!(count(&pool, EventKind::Login), 8);
    assert_eq!(count(&pool, EventKind::Logout), 6);
    assert_eq!(count(&pool, EventKind::MfaLogin), 6);
    assert_eq!(count(&pool, EventKind::LoginFailed), 3);
    assert_eq!(count(&pool, EventKind::MfaLoginFailed), 2);
    assert_eq!(count(&pool, EventKind::RecoveryCodeUsed), 1);
    assert_eq!(count(&pool, EventKind::VpnConnected), 0);
    assert_eq!(count(&pool, EventKind::VpnMfaSuccess), 0);
}

#[test]
fn pool_with_locations_has_vpn_kinds() {
    let pool = build_kind_pool(true);
    assert_eq!(pool.len(), 58);
    assert_eq!(pool[..31], build_kind_pool(false)[..]);
    assert_eq!(count(&pool, EventKind::VpnConnected), 8);
    assert_eq!(count(&pool, EventKind::VpnDisconnected), 8);
    assert_eq!(count(&pool, EventKind::VpnMfaConnected), 4);
    assert_eq!(count(&pool, EventKind::VpnMfaDisconnected), 4);
    assert_eq!(count(&pool, EventKind::VpnMfaSuccess), 3);
}

#[test]
fn draws_come_from_their_lists() {
    let mut rng = rand::thread_rng();
    let mut seen_agents = std::collections::HashSet::new();
    let mut seen_methods = vec![];
    let mut seen_client_methods = vec![];
    for _ in 0..500 {
        seen_agents.insert(random_user_agent(&mut rng));
        let method = random_mfa_method(&mut rng);
        if !seen_methods.contains(&method) {
            seen_methods.push(method);
        }
        let method = random_client_mfa_method(&mut rng);
        if !seen_client_methods.contains(&method) {
            seen_client_methods.push(method);
        }
    }
    assert_eq!(seen_agents, AGENTS.into_iter().collect());
    assert_eq!(seen_methods.len(), 3);
    assert_eq!(seen_client_methods.len(), 4);
}

#[test]
fn plain_events_on_the_server() {
    let cases = [
        (EventKind::Login, EventType::UserLogin, DefguardEvent::UserLogin),
        (EventKind::Logout, EventType::UserLogout, DefguardEvent::UserLogout),
        (EventKind::RecoveryCodeUsed, EventType::RecoveryCodeUsed, DefguardEvent::RecoveryCodeUsed),
        (EventKind::PasswordChanged, EventType::PasswordChanged, DefguardEvent::PasswordChanged),
        (EventKind::MfaTotpEnabled, EventType::MfaTotpEnabled, DefguardEvent::MfaTotpEnabled),
        (EventKind::MfaTotpDisabled, EventType::MfaTotpDisabled, DefguardEvent::MfaTotpDisabled),
        (EventKind::MfaEmailEnabled, EventType::MfaEmailEnabled, DefguardEvent::MfaEmailEnabled),
        (EventKind::MfaEmailDisabled, EventType::MfaEmailDisabled, DefguardEvent::MfaEmailDisabled),
    ];
    for (kind, event_type, event) in cases {
        assert_eq!(
            defguard_event(kind, &user(1), "browser", Draw::Nothing),
            GeneratedEvent {
                module: ActivityLogModule::Defguard,
                event_type,
                subject: EventSubject::Defguard(event),
                metadata: None,
                location: None,
                device: "browser".to_string(),
            }
        );
    }
}

#[test]
fn events_on_the_server_with_details() {
    let made = defguard_event(
        EventKind::MfaLogin,
        &user(1),
        "browser",
        Draw::Method(MFAMethod::Webauthn),
    );
    assert_eq!(made.event_type, EventType::UserMfaLogin);
    assert_eq!(made.metadata, Some(EventMetadata::MfaLogin { mfa_method: MFAMethod::Webauthn }));
    assert_eq!(
        made.subject,
        EventSubject::Defguard(DefguardEvent::UserMfaLogin { mfa_method: MFAMethod::Webauthn })
    );

    let made = defguard_event(EventKind::LoginFailed, &user(1), "browser", Draw::Nothing);
    let message = "Authentication for user1 failed: invalid password".to_string();
    assert_eq!(made.event_type, EventType::UserLoginFailed);
    assert_eq!(made.metadata, Some(EventMetadata::LoginFailed { message: message.clone() }));
    assert_eq!(
        made.subject,
        EventSubject::Defguard(DefguardEvent::UserLoginFailed { message })
    );

    for (at_totp, mfa_method, message) in [
        (true, MFAMethod::OneTimePassword, "TOTP code verification failed".to_string()),
        (false, MFAMethod::Email, "Email code verification failed".to_string()),
    ] {
        let made = defguard_event(
            EventKind::MfaLoginFailed,
            &user(1),
            "browser",
            Draw::Failure { at_totp },
        );
        assert_eq!(made.event_type, EventType::UserMfaLoginFailed);
        assert_eq!(
            made.metadata,
            Some(EventMetadata::MfaLoginFailed { mfa_method, message: message.clone() })
        );
        assert_eq!(
            made.subject,
            EventSubject::Defguard(DefguardEvent::UserMfaLoginFailed { mfa_method, message })
        );
    }
}

#[test]
fn events_at_a_location() {
    let (l, d) = (location(3), device(-42));
    let made = vpn_event(EventType::VpnClientConnected, &l, &d, None);
    assert_eq!(
        made,
        GeneratedEvent {
            module: ActivityLogModule::Vpn,
            event_type: EventType::VpnClientConnected,
            subject: EventSubject::Vpn(VpnEvent::ConnectedToLocation {
                location: location(3),
                device: device(-42),
            }),
            metadata: Some(EventMetadata::VpnClient { location: location(3), device: device(-42) }),
            location: Some("office3".to_string()),
            device: "laptop-42 (ID -42)".to_string(),
        }
    );
    let subject = |event_type| vpn_event(event_type, &l, &d, None).subject;
    assert_eq!(
        subject(EventType::VpnClientDisconnected),
        EventSubject::Vpn(VpnEvent::DisconnectedFromLocation {
            location: location(3),
            device: device(-42),
        })
    );
    assert_eq!(
        subject(EventType::VpnClientMfaConnected),
        EventSubject::Vpn(VpnEvent::MfaConnectedToLocation {
            location: location(3),
            device: device(-42),
        })
    );
    assert_eq!(
        subject(EventType::VpnClientMfaDisconnected),
        EventSubject::Vpn(VpnEvent::MfaDisconnectedFromLocation {
            location: location(3),
            device: device(-42),
        })
    );
    let made = vpn_event(
        EventType::VpnClientMfaSuccess,
        &l,
        &d,
        Some(ClientMFAMethod::Biometric),
    );
    assert_eq!(made.device, "[device -42]");
    assert_eq!(
        made.subject,
        EventSubject::Vpn(VpnEvent::ClientMfaSuccess {
            location: location(3),
            device: device(-42),
            method: ClientMFAMethod::Biometric,
        })
    );
    assert_eq!(
        made.metadata,
        Some(EventMetadata::VpnClientMfa {
            location: location(3),
            device: device(-42),
            method: ClientMFAMethod::Biometric,
        })
    );
}

#[test]
fn drawn_events_fit_their_kind() {
    let mut rng = rand::thread_rng();
    let locations = vec![location(1), location(2)];
    let mut seen_locations = std::collections::HashSet::new();
    let mut seen_failures = std::collections::HashSet::new();
    for _ in 0..300 {
        let made = build_vpn_event(&mut rng, &device(5), &locations, EventType::VpnClientConnected);
        assert_eq!(made.event_type, EventType::VpnClientConnected);
        assert_eq!(made.device, "laptop5 (ID 5)");
        seen_locations.insert(made.location.unwrap());
        let made = build_event(
            &mut rng,
            &user(1),
            &device(5),
            &locations,
            EventKind::MfaLoginFailed,
        );
        assert!(AGENTS.contains(&made.device.as_str()));
        match made.metadata {
            Some(EventMetadata::MfaLoginFailed { message, .. }) => {
                seen_failures.insert(message);
            }
            other => panic!("unexpected details {other:?}"),
        }
    }
    assert_eq!(seen_locations.len(), 2);
    assert_eq!(seen_failures.len(), 2);
    let made = build_event(&mut rng, &user(1), &device(5), &vec![], EventKind::Login);
    assert_eq!(made.event_type, EventType::UserLogin);
}

#[test]
fn numbers_are_written_in_decimal() {
    for n in [0, 7, 10, 99, 100, 12345, -1, -10, i64::MAX, i64::MIN] {
        assert_eq!(decimal(n), n.to_string());
    }
}

#[test]
fn at_least_one_user_is_prepared() {
    let users = |num_users| {
        users_to_prepare(&ActivityLogGeneratorConfig {
            num_users,
            ..ActivityLogGeneratorConfig::default()
        })
    };
    assert_eq!(users(0), 1);
    assert_eq!(users(1), 1);
    assert_eq!(users(25), 25);
}

#[test]
fn shuffling_keeps_everybody() {
    let mut rng = rand::thread_rng();
    let users = || (0..50).map(user).collect::<Vec<User>>();
    let shuffled = shuffle_users(&mut rng, users());
    assert_ne!(shuffled, users());
    let mut ids: Vec<i64> = shuffled.iter().map(|u| u.id).collect();
    ids.sort();
    assert_eq!(ids, (0..50).collect::<Vec<i64>>());
}

#[test]
fn first_device_is_taken() {
    let pair = with_first_device(user(1), vec![device(7), device(8), device(9)]);
    assert_eq!(pair, (user(1), device(7)));
}

#[test]
fn spans_are_at_least_a_minute() {
    assert_eq!(span_seconds(&config(1, 1)), 60);
    assert_eq!(span_seconds(&config(1, 90)), 5400);
    assert_eq!(span_seconds(&config(1, 0)), 60);
    assert_eq!(span_seconds(&config(1, -5)), 60);
    assert_eq!(span_seconds(&config(1, i64::MIN)), 60);
    assert_eq!(span_seconds(&config(1, MOST_MINUTES)), MOST_MINUTES * 60);
}

fn login() -> GeneratedEvent {
    defguard_event(EventKind::Login, &user(1), "browser", Draw::Nothing)
}

#[test]
fn drafts_go_back_in_time() {
    let draft = draft_event(&user(6), now(), 59, login());
    assert_eq!(
        draft,
        EventDraft {
            timestamp: Timestamp { seconds: 1_699_999_941, nanos: 123_456_789 },
            user_id: 6,
            username: "user6".to_string(),
            generated: login(),
        }
    );
}

#[test]
fn drafts_reach_the_ends_of_the_calendar() {
    let last = Timestamp { seconds: LAST_SECOND, nanos: 999_999_999 };
    assert_eq!(draft_event(&user(1), last, 0, login()).timestamp, last);
    let first = Timestamp { seconds: FIRST_SECOND, nanos: 0 };
    assert_eq!(draft_event(&user(1), first, 0, login()).timestamp, first);
    let draft = draft_event(&user(1), last, LAST_SECOND - FIRST_SECOND, login());
    assert_eq!(draft.timestamp, Timestamp { seconds: FIRST_SECOND, nanos: 999_999_999 });
    assert!(chrono::DateTime::from_timestamp(FIRST_SECOND - 1, 0).is_none());
    assert!(chrono::DateTime::from_timestamp(LAST_SECOND + 1, 0).is_none());
}

#[test]
fn log_without_locations_has_no_vpn_events() {
    let mut rng = rand::thread_rng();
    let drafts = generate_activity_log(&mut rng, &pairs(), &vec![], now(), &config(400, 1));
    assert_eq!(drafts.len(), 400);
    for draft in &drafts {
        assert_eq!(draft.generated.module, ActivityLogModule::Defguard);
        assert_eq!(draft.generated.location, None);
    }
}

#[test]
fn log_is_of_prepared_users_over_the_span() {
    let mut rng = rand::thread_rng();
    let locations = vec![location(1), location(2), location(3)];
    let pairs = pairs();
    let drafts = generate_activity_log(&mut rng, &pairs, &locations, now(), &config(1000, 2));
    assert_eq!(drafts.len(), 1000);
    let mut seen_seconds = std::collections::HashSet::new();
    let mut seen_users = std::collections::HashSet::new();
    let mut vpn_events = 0;
    for draft in &drafts {
        let age = now().seconds - draft.timestamp.seconds;
        assert!((0..120).contains(&age));
        assert_eq!(draft.timestamp.nanos, now().nanos);
        seen_seconds.insert(age);
        seen_users.insert(draft.user_id);
        let pair = pairs.iter().find(|p| p.0.id == draft.user_id).unwrap();
        assert_eq!(draft.username, pair.0.username);
        if draft.generated.module == ActivityLogModule::Vpn {
            vpn_events += 1;
            let name = draft.generated.location.clone().unwrap();
            assert!(locations.iter().any(|l| l.name == name));
            match &draft.generated.metadata {
                Some(EventMetadata::VpnClient { device, .. }) => {
                    assert_eq!(device, &pair.1);
                }
                Some(EventMetadata::VpnClientMfa { device, .. }) => {
                    assert_eq!(device, &pair.1);
                }
                other => panic!("unexpected details {other:?}"),
            }
        }
    }
    assert!(seen_seconds.len() > 60);
    assert_eq!(seen_users.len(), 4);
    assert!(vpn_events > 0 && vpn_events < 1000);
}

#[test]
fn log_of_no_events_needs_nobody() {
    let mut rng = rand::thread_rng();
    let drafts = generate_activity_log(&mut rng, &vec![], &vec![], now(), &config(0, 1));
    assert!(drafts.is_empty());
}

#[test]
fn drafts_are_completed() {
    let document = serde_json::Value::String("details".to_string());
    let draft = draft_event(&user(2), now(), 0, login());
    let event = draft.complete(Some("logged in".to_string()), Some(document.clone()));
    assert_eq!(event.timestamp, now());
    assert_eq!(event.user_id, 2);
    assert_eq!(event.username, "user2");
    assert_eq!(event.location, None);
    assert_eq!(event.ip, None);
    assert_eq!(event.event, EventType::UserLogin);
    assert_eq!(event.module, ActivityLogModule::Defguard);
    assert_eq!(event.device, "browser");
    assert_eq!(event.description, Some("logged in".to_string()));
    assert_eq!(event.metadata, None);

    let made = vpn_event(EventType::VpnClientDisconnected, &location(1), &device(4), None);
    let event = draft_event(&user(2), now(), 0, made).complete(None, Some(document.clone()));
    assert_eq!(event.metadata, Some(document));
    assert_eq!(event.location, Some("office1".to_string()));
    assert_eq!(event.description, None);
}
