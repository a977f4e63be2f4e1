use defguard_admin::ldap::{
    advance_ldap, demo_ldap_dry_run_result, ldap_dry_run, test_ldap_settings,
    test_submitted_ldap_settings, Authority, LdapAction, LdapDryRunAction, LdapDryRunResult,
    LdapPhase, LdapReply, LdapStep,
};
use defguard_admin::response::{ApiResponse, StatusCode};
use defguard_admin::settings::{LdapSyncStatus, Settings, SmtpSettings};

fn settings(ldap_is_authoritative: bool) -> Settings {
    Settings {
        instance_name: "Example".to_string(),
        main_logo_url: String::new(),
        nav_logo_url: String::new(),
        uuid: 1,
        secret_key: None,
        license: None,
        smtp: SmtpSettings {
            password: None,
            oauth_client_secret: None,
            oauth_refresh_token: None,
        },
        ldap_enabled: true,
        ldap_sync_enabled: true,
        ldap_is_authoritative,
        ldap_sync_status: LdapSyncStatus::OutOfSync,
        ldap_sync_groups: vec![],
        ldap_url: Some("ldap://192.0.2.1:389".to_string()),
        ldap_bind_username: Some("cn=admin,dc=example,dc=org".to_string()),
        ldap_bind_password: Some("secret".to_string()),
        ldap_username_attr: None,
        ldap_user_search_base: None,
        ldap_user_obj_class: None,
        ldap_member_attr: None,
        ldap_groupname_attr: None,
        ldap_group_obj_class: None,
        ldap_group_member_attr: None,
        ldap_group_search_base: None,
    }
}

fn ok() -> LdapStep {
    LdapStep::Respond(ApiResponse::with_status(StatusCode::Success))
}

fn refused() -> LdapStep {
    LdapStep::Respond(ApiResponse::with_status(StatusCode::BadRequest))
}

fn demo_answer() -> LdapStep {
    LdapStep::Respond(ApiResponse::json(demo_ldap_dry_run_result(), StatusCode::Success))
}

#[test]
fn demo_preview_is_made_up() {
    let result = demo_ldap_dry_run_result();
    let summary = |users: &[defguard_admin::ldap::LdapDryRunUser]| -> Vec<String> {
        users
            .iter()
            .map(|u| {
                format!("{} {} {} {} {:?}", u.username, u.email, u.first_name, u.last_name, u.action)
            })
            .collect()
    };
    assert_eq!(
        summary(&result.defguard),
        vec![
            "j.smith j.smith@example.com John Smith Add",
            "a.johnson a.johnson@example.com Anna Johnson Add",
            "p.brown p.brown@example.com Peter Brown Remove",
        ]
    );
    assert_eq!(
        summary(&result.ldap),
        vec![
            "m.davis m.davis@example.com Maria Davis Add",
            "t.wilson t.wilson@example.com Thomas Wilson Remove",
            "k.miller k.miller@example.com Kate Miller Remove",
        ]
    );
    assert_eq!(result.ldap[0].action, LdapDryRunAction::Add);
}

#[test]
fn demo_never_connects() {
    assert_eq!(test_ldap_settings(true), ok());
    assert_eq!(test_submitted_ldap_settings(settings(true), true), demo_answer());
    assert_eq!(ldap_dry_run(settings(true), true), demo_answer());
}

#[test]
fn connection_tests_report_the_connection() {
    assert_eq!(
        test_ldap_settings(false),
        LdapStep::Perform(LdapPhase::Testing, LdapAction::Connect)
    );
    assert_eq!(
        test_submitted_ldap_settings(settings(false), false),
        LdapStep::Perform(LdapPhase::Testing, LdapAction::ConnectWith(settings(false)))
    );
    assert_eq!(advance_ldap(LdapPhase::Testing, LdapReply::Connected(true)), ok());
    assert_eq!(advance_ldap(LdapPhase::Testing, LdapReply::Connected(false)), refused());
}

#[test]
fn preview_runs_under_the_authority_of_the_settings() {
    for (authoritative, authority) in [(true, Authority::LDAP), (false, Authority::Defguard)] {
        assert_eq!(
            ldap_dry_run(settings(authoritative), false),
            LdapStep::Perform(
                LdapPhase::Connecting(authority),
                LdapAction::ConnectWith(settings(authoritative))
            )
        );
        assert_eq!(
            advance_ldap(LdapPhase::Connecting(authority), LdapReply::Connected(true)),
            LdapStep::Perform(LdapPhase::Previewing, LdapAction::DryRun(authority))
        );
        assert_eq!(
            advance_ldap(LdapPhase::Connecting(authority), LdapReply::Connected(false)),
            refused()
        );
    }
}

#[test]
fn preview_is_handed_on() {
    let empty = || LdapDryRunResult { defguard: vec![], ldap: vec![] };
    assert_eq!(
        advance_ldap(LdapPhase::Previewing, LdapReply::Previewed(Some(empty()))),
        LdapStep::Respond(ApiResponse::json(empty(), StatusCode::Success))
    );
    assert_eq!(advance_ldap(LdapPhase::Previewing, LdapReply::Previewed(None)), refused());
}
