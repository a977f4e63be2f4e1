use defguard_admin::response::{ApiResponse, StatusCode, WebError};
use defguard_admin::save::{
    advance, patch_settings, set_default_branding, update_settings, ApiEventType, PublicSettings,
    SaveAction, SaveFlow, SaveKind, SaveReply, SaveStep,
};
use defguard_admin::settings::{
    get_settings, get_settings_essentials, LdapSyncStatus, Settings, SettingsEssentials,
    SettingsPatch, SmtpSettings,
};

fn sample() -> Settings {
    Settings {
        instance_name: "Example".to_string(),
        main_logo_url: String::new(),
        nav_logo_url: "/custom.svg".to_string(),
        uuid: 7,
        secret_key: Some("key".to_string()),
        license: Some("LICENSE".to_string()),
        smtp: SmtpSettings {
            password: Some("mail-password".to_string()),
            oauth_client_secret: Some("mail-secret".to_string()),
            oauth_refresh_token: Some("mail-token".to_string()),
        },
        ldap_enabled: true,
        ldap_sync_enabled: false,
        ldap_is_authoritative: false,
        ldap_sync_status: LdapSyncStatus::InSync,
        ldap_sync_groups: vec!["staff".to_string(), "admins".to_string()],
        ldap_url: None,
        ldap_bind_username: None,
        ldap_bind_password: None,
        ldap_username_attr: Some("uid".to_string()),
        ldap_user_search_base: Some("ou=users,dc=example,dc=org".to_string()),
        ldap_user_obj_class: Some("inetOrgPerson".to_string()),
        ldap_member_attr: Some("memberUid".to_string()),
        ldap_groupname_attr: Some("cn".to_string()),
        ldap_group_obj_class: Some("groupOfNames".to_string()),
        ldap_group_member_attr: Some("member".to_string()),
        ldap_group_search_base: Some("ou=groups,dc=example,dc=org".to_string()),
    }
}

type Answer = Result<ApiResponse<Settings>, WebError<&'static str>>;

/// What the world outside does with the actions of a save.
struct Outside {
    valid: Result<(), &'static str>,
    locked_fields_differ: bool,
    store: Result<(), &'static str>,
    license: Result<(), &'static str>,
    smtp_toggled: bool,
    public_settings: Option<PublicSettings>,
    delivered: bool,
    emit: Result<(), &'static str>,
}

fn all_well() -> Outside {
    Outside {
        valid: Ok(()),
        locked_fields_differ: false,
        store: Ok(()),
        license: Ok(()),
        smtp_toggled: false,
        public_settings: None,
        delivered: true,
        emit: Ok(()),
    }
}

fn reply(outside: &Outside, action: &SaveAction) -> SaveReply<&'static str> {
    match action {
        SaveAction::Validate(_) => SaveReply::Validated(outside.valid),
        SaveAction::CompareLockedFields { .. } => {
            SaveReply::LockedFieldsDiffer(outside.locked_fields_differ)
        }
        SaveAction::Store(_) => SaveReply::Stored(outside.store),
        SaveAction::UpdateCachedLicense(_) => SaveReply::LicenseUpdated(outside.license),
        SaveAction::CheckSmtp { .. } => {
            SaveReply::SmtpConfigured { before: false, after: outside.smtp_toggled }
        }
        SaveAction::LoadEnterpriseSettings => {
            SaveReply::EnterpriseSettings(outside.public_settings)
        }
        SaveAction::BroadcastPublicSettings(_) => {
            SaveReply::Broadcast { delivered: outside.delivered }
        }
        SaveAction::EmitEvent(_) => SaveReply::EventEmitted(outside.emit),
    }
}

fn run(start: SaveStep<&'static str>, outside: &Outside) -> (Vec<SaveAction>, Answer) {
    let mut actions = Vec::new();
    let mut step = start;
    loop {
        match step {
            SaveStep::Perform(flow, action) => {
                let answer = reply(outside, &action);
                actions.push(action);
                step = advance(flow, answer);
            }
            SaveStep::Respond(answer) => return (actions, answer),
        }
    }
}

fn stored(actions: &[SaveAction]) -> Vec<&Settings> {
    actions
        .iter()
        .filter_map(|action| match action {
            SaveAction::Store(settings) => Some(settings),
            _ => None,
        })
        .collect()
}

#[test]
fn test_demo_edit_locked_setting_blocked() {
    let patch = SettingsPatch {
        license: Some(Some("SOME-NEW-LICENSE-KEY".to_string())),
        ..SettingsPatch::default()
    };
    let (actions, answer) = run(patch_settings(sample(), patch, true), &all_well());
    assert_eq!(answer, Err(WebError::Forbidden("This setting is read-only in demo mode")));
    assert!(stored(&actions).is_empty());
    assert_eq!(actions.len(), 2);
}

#[test]
fn test_demo_ldap_bind_password_not_stored() {
    let patch = SettingsPatch {
        ldap_url: Some(Some("ldap://192.0.2.1:389".to_string())),
        ldap_bind_username: Some(Some("cn=admin,dc=example,dc=org".to_string())),
        ldap_bind_password: Some(Some("super-secret-real-password".to_string())),
        ..SettingsPatch::default()
    };
    let (actions, answer) = run(patch_settings(sample(), patch, true), &all_well());
    let response = answer.unwrap();
    assert_eq!(response.status, StatusCode::Success);
    let kept = stored(&actions);
    assert_eq!(kept.len(), 1);

    let response = get_settings(Some(kept[0].clone()), true);
    assert_eq!(response.status, StatusCode::Success);
    let settings = response.json.unwrap();
    assert_ne!(settings.ldap_bind_password, Some("super-secret-real-password".to_string()));
    assert_eq!(settings.ldap_bind_password, Some("SECRET".to_string()));
    assert_eq!(settings.ldap_url, Some("ldap://192.0.2.1:389".to_string()));
}

#[test]
fn test_demo_settings_secrets_redacted() {
    let response = get_settings(Some(sample()), true);
    assert_eq!(response.status, StatusCode::Success);
    let settings = response.json.unwrap();
    assert!(settings.secret_key.is_none());
    assert!(settings.license.is_none());
    assert!(settings.smtp.password.is_none());
    assert!(settings.smtp.oauth_client_secret.is_none());
    assert!(settings.smtp.oauth_refresh_token.is_none());
    assert_eq!(settings.instance_name, "Example");
}

#[test]
fn settings_are_shown_whole_outside_demo_mode() {
    let settings = get_settings(Some(sample()), false).json.unwrap();
    let expected = Settings {
        main_logo_url: "/svg/logo-defguard-white.svg".to_string(),
        ..sample()
    };
    assert_eq!(settings, expected);
}

#[test]
fn missing_settings_are_answered_without_a_document() {
    let response = get_settings(None, true);
    assert_eq!(response, ApiResponse { json: None, status: StatusCode::Success });
}

#[test]
fn essentials_get_default_logos() {
    let response = get_settings_essentials(SettingsEssentials {
        nav_logo_url: String::new(),
        main_logo_url: "/own.svg".to_string(),
    });
    assert_eq!(response.status, StatusCode::Success);
    let essentials = response.json.unwrap();
    assert_eq!(essentials.nav_logo_url, "/svg/defguard-nav-logo.svg");
    assert_eq!(essentials.main_logo_url, "/own.svg");
}

#[test]
fn empty_patch_is_saved_as_is() {
    let (actions, answer) =
        run(patch_settings(sample(), SettingsPatch::default(), false), &all_well());
    assert_eq!(answer, Ok(ApiResponse::default()));
    assert_eq!(
        actions,
        vec![
            SaveAction::Validate(sample()),
            SaveAction::Store(sample()),
            SaveAction::CheckSmtp { before: sample(), after: sample() },
            SaveAction::EmitEvent(ApiEventType::SettingsUpdatedPartial {
                before: sample(),
                after: sample(),
            }),
        ]
    );
}

#[test]
fn patch_replaces_every_field_it_holds() {
    let patch = SettingsPatch {
        instance_name: Some("Other".to_string()),
        main_logo_url: Some("/m.svg".to_string()),
        nav_logo_url: Some("/n.svg".to_string()),
        uuid: Some(8),
        secret_key: Some(None),
        license: Some(None),
        smtp: Some(SmtpSettings {
            password: None,
            oauth_client_secret: None,
            oauth_refresh_token: None,
        }),
        ldap_enabled: Some(false),
        ldap_sync_enabled: Some(true),
        ldap_is_authoritative: Some(true),
        ldap_sync_status: Some(LdapSyncStatus::InSync),
        ldap_sync_groups: Some(vec![]),
        ldap_url: Some(Some("a".to_string())),
        ldap_bind_username: Some(Some("b".to_string())),
        ldap_bind_password: Some(Some("c".to_string())),
        ldap_username_attr: Some(Some("d".to_string())),
        ldap_user_search_base: Some(Some("e".to_string())),
        ldap_user_obj_class: Some(Some("f".to_string())),
        ldap_member_attr: Some(Some("g".to_string())),
        ldap_groupname_attr: Some(Some("h".to_string())),
        ldap_group_obj_class: Some(Some("i".to_string())),
        ldap_group_member_attr: Some(Some("j".to_string())),
        ldap_group_search_base: Some(Some("k".to_string())),
    };
    let mut settings = sample();
    settings.apply(patch);
    let expected = Settings {
        instance_name: "Other".to_string(),
        main_logo_url: "/m.svg".to_string(),
        nav_logo_url: "/n.svg".to_string(),
        uuid: 8,
        secret_key: None,
        license: None,
        smtp: SmtpSettings {
            password: None,
            oauth_client_secret: None,
            oauth_refresh_token: None,
        },
        ldap_enabled: false,
        ldap_sync_enabled: true,
        ldap_is_authoritative: true,
        ldap_sync_status: LdapSyncStatus::InSync,
        ldap_sync_groups: vec![],
        ldap_url: Some("a".to_string()),
        ldap_bind_username: Some("b".to_string()),
        ldap_bind_password: Some("c".to_string()),
        ldap_username_attr: Some("d".to_string()),
        ldap_user_search_base: Some("e".to_string()),
        ldap_user_obj_class: Some("f".to_string()),
        ldap_member_attr: Some("g".to_string()),
        ldap_groupname_attr: Some("h".to_string()),
        ldap_group_obj_class: Some("i".to_string()),
        ldap_group_member_attr: Some("j".to_string()),
        ldap_group_search_base: Some("k".to_string()),
    };
    assert_eq!(settings, expected);
}

fn status_after(patch: SettingsPatch) -> LdapSyncStatus {
    let mut settings = sample();
    settings.apply_with_sync_status(patch);
    settings.ldap_sync_status
}

#[test]
fn patch_marks_the_directory_out_of_step() {
    let groups = vec!["staff".to_string(), "admins".to_string()];
    let none = SettingsPatch::default;
    assert_eq!(status_after(none()), LdapSyncStatus::InSync);
    assert_eq!(
        status_after(SettingsPatch { ldap_enabled: Some(true), ..none() }),
        LdapSyncStatus::InSync
    );
    assert_eq!(
        status_after(SettingsPatch { ldap_enabled: Some(false), ..none() }),
        LdapSyncStatus::OutOfSync
    );
    assert_eq!(
        status_after(SettingsPatch { ldap_is_authoritative: Some(false), ..none() }),
        LdapSyncStatus::InSync
    );
    assert_eq!(
        status_after(SettingsPatch { ldap_is_authoritative: Some(true), ..none() }),
        LdapSyncStatus::OutOfSync
    );
    assert_eq!(
        status_after(SettingsPatch { ldap_sync_groups: Some(groups.clone()), ..none() }),
        LdapSyncStatus::InSync
    );
    let reversed = vec![groups[1].clone(), groups[0].clone()];
    assert_eq!(
        status_after(SettingsPatch { ldap_sync_groups: Some(reversed), ..none() }),
        LdapSyncStatus::OutOfSync
    );
    assert_eq!(
        status_after(SettingsPatch {
            ldap_sync_groups: Some(vec![]),
            ldap_sync_status: Some(LdapSyncStatus::InSync),
            ..none()
        }),
        LdapSyncStatus::InSync
    );
}

#[test]
fn update_keeps_the_identity_and_caches_the_license() {
    let mut data = sample();
    data.uuid = 99;
    data.instance_name = "New".to_string();
    data.license = None;
    let (actions, answer) = run(update_settings(data, sample(), false), &all_well());
    assert_eq!(answer, Ok(ApiResponse::default()));
    let mut after = sample();
    after.instance_name = "New".to_string();
    after.license = None;
    assert_eq!(
        actions,
        vec![
            SaveAction::Validate(after.clone()),
            SaveAction::Store(after.clone()),
            SaveAction::UpdateCachedLicense(None),
            SaveAction::CheckSmtp { before: sample(), after: after.clone() },
            SaveAction::EmitEvent(ApiEventType::SettingsUpdated { before: sample(), after }),
        ]
    );
}

#[test]
fn patched_license_is_cached() {
    let patch = SettingsPatch {
        license: Some(Some("SECOND".to_string())),
        ..SettingsPatch::default()
    };
    let (actions, _) = run(patch_settings(sample(), patch, false), &all_well());
    assert_eq!(actions[2], SaveAction::UpdateCachedLicense(Some("SECOND".to_string())));
}

#[test]
fn demo_update_with_another_license_is_refused() {
    let mut data = sample();
    data.license = Some("OTHER".to_string());
    let (actions, answer) = run(update_settings(data, sample(), true), &all_well());
    assert_eq!(answer, Err(WebError::Forbidden("This setting is read-only in demo mode")));
    assert!(stored(&actions).is_empty());
}

#[test]
fn demo_refuses_what_else_is_locked() {
    let outside = Outside { locked_fields_differ: true, ..all_well() };
    let patch =
        SettingsPatch { instance_name: Some("X".to_string()), ..SettingsPatch::default() };
    let (actions, answer) = run(patch_settings(sample(), patch, true), &outside);
    assert_eq!(answer, Err(WebError::Forbidden("This setting is read-only in demo mode")));
    assert!(stored(&actions).is_empty());
}

#[test]
fn demo_update_drops_the_bind_password() {
    let mut data = sample();
    data.ldap_bind_password = Some("real".to_string());
    let (actions, answer) = run(update_settings(data, sample(), true), &all_well());
    assert_eq!(answer, Ok(ApiResponse::default()));
    assert_eq!(stored(&actions)[0].ldap_bind_password, Some("SECRET".to_string()));
    let (actions, _) = run(update_settings(sample(), sample(), true), &all_well());
    assert_eq!(stored(&actions)[0].ldap_bind_password, None);
}

#[test]
fn password_is_stored_outside_demo_mode() {
    let patch = SettingsPatch {
        ldap_bind_password: Some(Some("real".to_string())),
        ..SettingsPatch::default()
    };
    let (actions, _) = run(patch_settings(sample(), patch, false), &all_well());
    assert_eq!(stored(&actions)[0].ldap_bind_password, Some("real".to_string()));
}

#[test]
fn invalid_settings_are_not_stored() {
    let outside = Outside { valid: Err("bad address"), ..all_well() };
    let (actions, answer) = run(update_settings(sample(), sample(), true), &outside);
    assert_eq!(answer, Err(WebError::Outside("bad address")));
    assert_eq!(actions.len(), 1);
}

#[test]
fn failures_end_the_save() {
    let outside = Outside { store: Err("disk"), ..all_well() };
    let (actions, answer) = run(update_settings(sample(), sample(), false), &outside);
    assert_eq!(answer, Err(WebError::Outside("disk")));
    assert_eq!(actions.len(), 2);

    let outside = Outside { license: Err("license"), ..all_well() };
    let (actions, answer) = run(update_settings(sample(), sample(), false), &outside);
    assert_eq!(answer, Err(WebError::Outside("license")));
    assert_eq!(actions.len(), 3);

    let outside = Outside { emit: Err("queue"), ..all_well() };
    let (actions, answer) = run(update_settings(sample(), sample(), false), &outside);
    assert_eq!(answer, Err(WebError::Outside("queue")));
    assert_eq!(actions.len(), 5);
}

#[test]
fn proxies_are_told_when_mail_is_toggled() {
    let shown = PublicSettings { display_password_reset: true, display_download_step: false };
    for delivered in [true, false] {
        let outside = Outside {
            smtp_toggled: true,
            public_settings: Some(shown),
            delivered,
            ..all_well()
        };
        let (actions, answer) = run(update_settings(sample(), sample(), false), &outside);
        assert_eq!(answer, Ok(ApiResponse::default()));
        assert_eq!(actions.len(), 7);
        assert_eq!(actions[4], SaveAction::LoadEnterpriseSettings);
        assert_eq!(actions[5], SaveAction::BroadcastPublicSettings(shown));
    }
    let outside = Outside { smtp_toggled: true, public_settings: None, ..all_well() };
    let (actions, answer) = run(update_settings(sample(), sample(), false), &outside);
    assert_eq!(answer, Ok(ApiResponse::default()));
    assert_eq!(actions.len(), 6);
    assert!(matches!(actions[5], SaveAction::EmitEvent(_)));
}

#[test]
fn longest_save_does_eight_things() {
    let outside = Outside {
        smtp_toggled: true,
        public_settings: Some(PublicSettings {
            display_password_reset: false,
            display_download_step: true,
        }),
        ..all_well()
    };
    let (actions, answer) = run(update_settings(sample(), sample(), true), &outside);
    assert_eq!(answer, Ok(ApiResponse::default()));
    assert_eq!(actions.len(), 8);
}

#[test]
fn default_branding_is_restored() {
    let (actions, answer) = run(set_default_branding(Some(sample())), &all_well());
    let branded = Settings {
        instance_name: "Defguard".to_string(),
        nav_logo_url: "/svg/defguard-nav-logo.svg".to_string(),
        main_logo_url: "/svg/logo-defguard-white.svg".to_string(),
        ..sample()
    };
    assert_eq!(
        actions,
        vec![
            SaveAction::Store(branded.clone()),
            SaveAction::EmitEvent(ApiEventType::SettingsDefaultBrandingRestored),
        ]
    );
    assert_eq!(
        answer,
        Ok(ApiResponse { json: Some(branded.clone()), status: StatusCode::Success })
    );
    assert_eq!(get_settings(Some(branded.clone()), false).json, Some(branded));
}

#[test]
fn branding_without_settings_cannot_be_restored() {
    let (actions, answer) = run(set_default_branding(None), &all_well());
    assert!(actions.is_empty());
    assert_eq!(answer, Err(WebError::DbError("Cannot restore settings".to_string())));
}

#[test]
fn a_save_keeps_what_it_was_started_with() {
    let start: SaveStep<&'static str> = patch_settings(sample(), SettingsPatch::default(), true);
    let flow: SaveFlow = match start {
        SaveStep::Perform(flow, _) => flow,
        SaveStep::Respond(_) => panic!("a patch starts with something to do"),
    };
    assert_eq!(flow.kind, SaveKind::Patch);
    assert_eq!(flow.before, sample());
    assert_eq!(flow.license, None);
}

#[test]
fn license_is_locked() {
    let mut other = sample();
    assert!(!sample().demo_locked_fields_differ(&other, false));
    assert!(sample().demo_locked_fields_differ(&other, true));
    other.license = None;
    assert!(sample().demo_locked_fields_differ(&other, false));
    assert!(other.demo_locked_fields_differ(&sample(), false));
    assert!(!other.demo_locked_fields_differ(&other.clone(), false));
}

#[test]
fn showing_twice_is_showing_once() {
    for is_demo_mode in [true, false] {
        let once = get_settings(Some(sample()), is_demo_mode).json.unwrap();
        let twice = get_settings(Some(once.clone()), is_demo_mode).json.unwrap();
        assert_eq!(once, twice);
    }
}

#[test]
fn patching_twice_is_patching_once() {
    let patch = || SettingsPatch {
        ldap_is_authoritative: Some(true),
        ldap_sync_groups: Some(vec!["guests".to_string()]),
        instance_name: Some("Twice".to_string()),
        ..SettingsPatch::default()
    };
    let mut once = sample();
    once.apply_with_sync_status(patch());
    let mut twice = once.clone();
    twice.apply_with_sync_status(patch());
    assert_eq!(once, twice);
    assert_eq!(once.ldap_sync_status, LdapSyncStatus::OutOfSync);
    assert_eq!(once.uuid, sample().uuid);
}

#[test]
fn demo_saves_keep_license_and_hide_the_password() {
    let mut current = sample();
    current.ldap_bind_password = Some("SECRET".to_string());
    let patch = SettingsPatch {
        license: Some(Some("LICENSE".to_string())),
        ldap_bind_password: Some(Some("typed".to_string())),
        ..SettingsPatch::default()
    };
    let saves = [
        update_settings(current.clone(), current.clone(), true),
        patch_settings(current.clone(), patch, true),
        set_default_branding(Some(current.clone())),
    ];
    for start in saves {
        let (actions, answer) = run(start, &all_well());
        assert!(answer.is_ok());
        let kept = stored(&actions);
        assert_eq!(kept.len(), 1);
        assert_eq!(kept[0].license, Some("LICENSE".to_string()));
        assert_eq!(kept[0].ldap_bind_password, Some("SECRET".to_string()));
        assert_eq!(kept[0].uuid, 7);
    }
}

#[test]
fn saved_settings_are_read_back() {
    let mut data = sample();
    data.nav_logo_url = String::new();
    data.instance_name = "Read me".to_string();
    let (actions, _) = run(update_settings(data.clone(), sample(), false), &all_well());
    let shown = get_settings(Some(stored(&actions)[0].clone()), false).json.unwrap();
    let expected = Settings {
        nav_logo_url: "/svg/defguard-nav-logo.svg".to_string(),
        main_logo_url: "/svg/logo-defguard-white.svg".to_string(),
        ..data
    };
    assert_eq!(shown, expected);
}
