//! The settings of an instance, the patches that change them, and what an administrator gets to
//! see of them.

use vstd::prelude::*;

use crate::response::{ApiResponse, StatusCode};
use crate::text::{copy_text, copy_texts, same_text, same_texts};

verus! {

/// Logo of the navigation bar when none was chosen.
pub const DEFAULT_NAV_LOGO_URL: &'static str = "/svg/defguard-nav-logo.svg";

/// Logo of the login page when none was chosen.
pub const DEFAULT_MAIN_LOGO_URL: &'static str = "/svg/logo-defguard-white.svg";

/// Name of an instance whose branding was reset.
pub const DEFAULT_INSTANCE_NAME: &'static str = "Defguard";

/// What is kept in place of a password on a demo instance.
pub const PASSWORD_PLACEHOLDER: &'static str = "SECRET";

/// Whether local users and directory users agree.
#[derive(Clone, Copy, Debug, PartialEq, Eq, Structural)]
pub enum LdapSyncStatus {
    InSync,
    OutOfSync,
}

/// Secrets of the outgoing mail server.
#[derive(Debug, PartialEq, Eq)]
pub struct SmtpSettings {
    pub password: Option<String>,
    pub oauth_client_secret: Option<String>,
    pub oauth_refresh_token: Option<String>,
}

/// The contents of [`SmtpSettings`].
#[verifier::ext_equal]
pub struct SmtpSettingsView {
    pub password: Option<Seq<char>>,
    pub oauth_client_secret: Option<Seq<char>>,
    pub oauth_refresh_token: Option<Seq<char>>,
}

impl View for SmtpSettings {
    type V = SmtpSettingsView;

    open spec fn view(&self) -> SmtpSettingsView {
        SmtpSettingsView {
            password: self.password.deep_view(),
            oauth_client_secret: self.oauth_client_secret.deep_view(),
            oauth_refresh_token: self.oauth_refresh_token.deep_view(),
        }
    }
}

impl Clone for SmtpSettings {
    fn clone(&self) -> (copy: Self)
        ensures
            copy@ == self@,
    {
        SmtpSettings {
            password: copy_text(&self.password),
            oauth_client_secret: copy_text(&self.oauth_client_secret),
            oauth_refresh_token: copy_text(&self.oauth_refresh_token),
        }
    }
}

/// The settings held here: those that the rules of this library read or write, and the rest of what
/// describes the directory.
#[derive(Debug, PartialEq, Eq)]
pub struct Settings {
    /// Name under which the instance presents itself.
    pub instance_name: String,
    /// Logo of the login page; empty when none was chosen.
    pub main_logo_url: String,
    /// Logo of the navigation bar; empty when none was chosen.
    pub nav_logo_url: String,
    /// Identity of the instance.
    pub uuid: u128,
    /// Key that signs sessions.
    pub secret_key: Option<String>,
    /// License key.
    pub license: Option<String>,
    /// Secrets of the outgoing mail server.
    pub smtp: SmtpSettings,
    /// Whether the directory is in use.
    pub ldap_enabled: bool,
    /// Whether users are kept in step with the directory.
    pub ldap_sync_enabled: bool,
    /// Whether the directory wins over local data.
    pub ldap_is_authoritative: bool,
    /// Whether a full synchronisation is due.
    pub ldap_sync_status: LdapSyncStatus,
    /// Groups whose members are synchronised.
    pub ldap_sync_groups: Vec<String>,
    /// Address of the directory server.
    pub ldap_url: Option<String>,
    /// Account used to search the directory.
    pub ldap_bind_username: Option<String>,
    /// Password of that account.
    pub ldap_bind_password: Option<String>,
    /// Attribute holding a user's name.
    pub ldap_username_attr: Option<String>,
    /// Where users are searched.
    pub ldap_user_search_base: Option<String>,
    /// Object class of users.
    pub ldap_user_obj_class: Option<String>,
    /// Attribute of a user that lists groups.
    pub ldap_member_attr: Option<String>,
    /// Attribute holding a group's name.
    pub ldap_groupname_attr: Option<String>,
    /// Object class of groups.
    pub ldap_group_obj_class: Option<String>,
    /// Attribute of a group that lists members.
    pub ldap_group_member_attr: Option<String>,
    /// Where groups are searched.
    pub ldap_group_search_base: Option<String>,
}

/// The contents of [`Settings`].
#[verifier::ext_equal]
pub struct SettingsView {
    pub instance_name: Seq<char>,
    pub main_logo_url: Seq<char>,
    pub nav_logo_url: Seq<char>,
    pub uuid: u128,
    pub secret_key: Option<Seq<char>>,
    pub license: Option<Seq<char>>,
    pub smtp: SmtpSettingsView,
    pub ldap_enabled: bool,
    pub ldap_sync_enabled: bool,
    pub ldap_is_authoritative: bool,
    pub ldap_sync_status: LdapSyncStatus,
    pub ldap_sync_groups: Seq<Seq<char>>,
    pub ldap_url: Option<Seq<char>>,
    pub ldap_bind_username: Option<Seq<char>>,
    pub ldap_bind_password: Option<Seq<char>>,
    pub ldap_username_attr: Option<Seq<char>>,
    pub ldap_user_search_base: Option<Seq<char>>,
    pub ldap_user_obj_class: Option<Seq<char>>,
    pub ldap_member_attr: Option<Seq<char>>,
    pub ldap_groupname_attr: Option<Seq<char>>,
    pub ldap_group_obj_class: Option<Seq<char>>,
    pub ldap_group_member_attr: Option<Seq<char>>,
    pub ldap_group_search_base: Option<Seq<char>>,
}

impl View for Settings {
    type V = SettingsView;

    open spec fn view(&self) -> SettingsView {
        SettingsView {
            instance_name: self.instance_name@,
            main_logo_url: self.main_logo_url@,
            nav_logo_url: self.nav_logo_url@,
            uuid: self.uuid,
            secret_key: self.secret_key.deep_view(),
            license: self.license.deep_view(),
            smtp: self.smtp@,
            ldap_enabled: self.ldap_enabled,
            ldap_sync_enabled: self.ldap_sync_enabled,
            ldap_is_authoritative: self.ldap_is_authoritative,
            ldap_sync_status: self.ldap_sync_status,
            ldap_sync_groups: self.ldap_sync_groups.deep_view(),
            ldap_url: self.ldap_url.deep_view(),
            ldap_bind_username: self.ldap_bind_username.deep_view(),
            ldap_bind_password: self.ldap_bind_password.deep_view(),
            ldap_username_attr: self.ldap_username_attr.deep_view(),
            ldap_user_search_base: self.ldap_user_search_base.deep_view(),
            ldap_user_obj_class: self.ldap_user_obj_class.deep_view(),
            ldap_member_attr: self.ldap_member_attr.deep_view(),
            ldap_groupname_attr: self.ldap_groupname_attr.deep_view(),
            ldap_group_obj_class: self.ldap_group_obj_class.deep_view(),
            ldap_group_member_attr: self.ldap_group_member_attr.deep_view(),
            ldap_group_search_base: self.ldap_group_search_base.deep_view(),
        }
    }
}

impl Clone for Settings {
    fn clone(&self) -> (copy: Self)
        ensures
            copy@ == self@,
    {
        Settings {
            instance_name: self.instance_name.clone(),
            main_logo_url: self.main_logo_url.clone(),
            nav_logo_url: self.nav_logo_url.clone(),
            uuid: self.uuid,
            secret_key: copy_text(&self.secret_key),
            license: copy_text(&self.license),
            smtp: self.smtp.clone(),
            ldap_enabled: self.ldap_enabled,
            ldap_sync_enabled: self.ldap_sync_enabled,
            ldap_is_authoritative: self.ldap_is_authoritative,
            ldap_sync_status: self.ldap_sync_status,
            ldap_sync_groups: copy_texts(&self.ldap_sync_groups),
            ldap_url: copy_text(&self.ldap_url),
            ldap_bind_username: copy_text(&self.ldap_bind_username),
            ldap_bind_password: copy_text(&self.ldap_bind_password),
            ldap_username_attr: copy_text(&self.ldap_username_attr),
            ldap_user_search_base: copy_text(&self.ldap_user_search_base),
            ldap_user_obj_class: copy_text(&self.ldap_user_obj_class),
            ldap_member_attr: copy_text(&self.ldap_member_attr),
            ldap_groupname_attr: copy_text(&self.ldap_groupname_attr),
            ldap_group_obj_class: copy_text(&self.ldap_group_obj_class),
            ldap_group_member_attr: copy_text(&self.ldap_group_member_attr),
            ldap_group_search_base: copy_text(&self.ldap_group_search_base),
        }
    }
}

/// A change of settings: a field that holds a value replaces the setting of that name.
#[derive(Debug, PartialEq, Eq)]
pub struct SettingsPatch {
    pub instance_name: Option<String>,
    pub main_logo_url: Option<String>,
    pub nav_logo_url: Option<String>,
    pub uuid: Option<u128>,
    pub secret_key: Option<Option<String>>,
    pub license: Option<Option<String>>,
    pub smtp: Option<SmtpSettings>,
    pub ldap_enabled: Option<bool>,
    pub ldap_sync_enabled: Option<bool>,
    pub ldap_is_authoritative: Option<bool>,
    pub ldap_sync_status: Option<LdapSyncStatus>,
    pub ldap_sync_groups: Option<Vec<String>>,
    pub ldap_url: Option<Option<String>>,
    pub ldap_bind_username: Option<Option<String>>,
    pub ldap_bind_password: Option<Option<String>>,
    pub ldap_username_attr: Option<Option<String>>,
    pub ldap_user_search_base: Option<Option<String>>,
    pub ldap_user_obj_class: Option<Option<String>>,
    pub ldap_member_attr: Option<Option<String>>,
    pub ldap_groupname_attr: Option<Option<String>>,
    pub ldap_group_obj_class: Option<Option<String>>,
    pub ldap_group_member_attr: Option<Option<String>>,
    pub ldap_group_search_base: Option<Option<String>>,
}

/// The contents of [`SettingsPatch`].
#[verifier::ext_equal]
pub struct SettingsPatchView {
    pub instance_name: Option<Seq<char>>,
    pub main_logo_url: Option<Seq<char>>,
    pub nav_logo_url: Option<Seq<char>>,
    pub uuid: Option<u128>,
    pub secret_key: Option<Option<Seq<char>>>,
    pub license: Option<Option<Seq<char>>>,
    pub smtp: Option<SmtpSettingsView>,
    pub ldap_enabled: Option<bool>,
    pub ldap_sync_enabled: Option<bool>,
    pub ldap_is_authoritative: Option<bool>,
    pub ldap_sync_status: Option<LdapSyncStatus>,
    pub ldap_sync_groups: Option<Seq<Seq<char>>>,
    pub ldap_url: Option<Option<Seq<char>>>,
    pub ldap_bind_username: Option<Option<Seq<char>>>,
    pub ldap_bind_password: Option<Option<Seq<char>>>,
    pub ldap_username_attr: Option<Option<Seq<char>>>,
    pub ldap_user_search_base: Option<Option<Seq<char>>>,
    pub ldap_user_obj_class: Option<Option<Seq<char>>>,
    pub ldap_member_attr: Option<Option<Seq<char>>>,
    pub ldap_groupname_attr: Option<Option<Seq<char>>>,
    pub ldap_group_obj_class: Option<Option<Seq<char>>>,
    pub ldap_group_member_attr: Option<Option<Seq<char>>>,
    pub ldap_group_search_base: Option<Option<Seq<char>>>,
}

impl View for SettingsPatch {
    type V = SettingsPatchView;

    open spec fn view(&self) -> SettingsPatchView {
        SettingsPatchView {
            instance_name: self.instance_name.deep_view(),
            main_logo_url: self.main_logo_url.deep_view(),
            nav_logo_url: self.nav_logo_url.deep_view(),
            uuid: self.uuid,
            secret_key: self.secret_key.deep_view(),
            license: self.license.deep_view(),
            smtp: match self.smtp {
                Some(smtp) => Some(smtp@),
                None => None,
            },
            ldap_enabled: self.ldap_enabled,
            ldap_sync_enabled: self.ldap_sync_enabled,
            ldap_is_authoritative: self.ldap_is_authoritative,
            ldap_sync_status: self.ldap_sync_status,
            ldap_sync_groups: self.ldap_sync_groups.deep_view(),
            ldap_url: self.ldap_url.deep_view(),
            ldap_bind_username: self.ldap_bind_username.deep_view(),
            ldap_bind_password: self.ldap_bind_password.deep_view(),
            ldap_username_attr: self.ldap_username_attr.deep_view(),
            ldap_user_search_base: self.ldap_user_search_base.deep_view(),
            ldap_user_obj_class: self.ldap_user_obj_class.deep_view(),
            ldap_member_attr: self.ldap_member_attr.deep_view(),
            ldap_groupname_attr: self.ldap_groupname_attr.deep_view(),
            ldap_group_obj_class: self.ldap_group_obj_class.deep_view(),
            ldap_group_member_attr: self.ldap_group_member_attr.deep_view(),
            ldap_group_search_base: self.ldap_group_search_base.deep_view(),
        }
    }
}

impl SettingsPatchView {
    /// The patch that changes nothing.
    pub open spec fn empty() -> SettingsPatchView {
        SettingsPatchView {
            instance_name: None,
            main_logo_url: None,
            nav_logo_url: None,
            uuid: None,
            secret_key: None,
            license: None,
            smtp: None,
            ldap_enabled: None,
            ldap_sync_enabled: None,
            ldap_is_authoritative: None,
            ldap_sync_status: None,
            ldap_sync_groups: None,
            ldap_url: None,
            ldap_bind_username: None,
            ldap_bind_password: None,
            ldap_username_attr: None,
            ldap_user_search_base: None,
            ldap_user_obj_class: None,
            ldap_member_attr: None,
            ldap_groupname_attr: None,
            ldap_group_obj_class: None,
            ldap_group_member_attr: None,
            ldap_group_search_base: None,
        }
    }
}

impl Default for SettingsPatch {
    fn default() -> (patch: Self)
        ensures
            patch@ == SettingsPatchView::empty(),
    {
        SettingsPatch {
            instance_name: None,
            main_logo_url: None,
            nav_logo_url: None,
            uuid: None,
            secret_key: None,
            license: None,
            smtp: None,
            ldap_enabled: None,
            ldap_sync_enabled: None,
            ldap_is_authoritative: None,
            ldap_sync_status: None,
            ldap_sync_groups: None,
            ldap_url: None,
            ldap_bind_username: None,
            ldap_bind_password: None,
            ldap_username_attr: None,
            ldap_user_search_base: None,
            ldap_user_obj_class: None,
            ldap_member_attr: None,
            ldap_groupname_attr: None,
            ldap_group_obj_class: None,
            ldap_group_member_attr: None,
            ldap_group_search_base: None,
        }
    }
}

/// `change` where there is one, `current` otherwise.
pub open spec fn replaced<T>(current: T, change: Option<T>) -> T {
    match change {
        Some(value) => value,
        None => current,
    }
}

/// Puts `change`, where there is one, in the place of `current`.
fn replace<T>(current: &mut T, change: Option<T>)
    ensures
        *final(current) == replaced(*old(current), change),
{
    if let Some(value) = change {
        *current = value;
    }
}

/// What is left of a logo address once an empty one has been filled in.
pub open spec fn logo_or(url: Seq<char>, default_url: Seq<char>) -> Seq<char> {
    if url.len() == 0 {
        default_url
    } else {
        url
    }
}

impl SettingsView {
    /// These settings with every value of `patch` put in its place.
    pub open spec fn patched(self, patch: SettingsPatchView) -> SettingsView {
        SettingsView {
            instance_name: replaced(self.instance_name, patch.instance_name),
            main_logo_url: replaced(self.main_logo_url, patch.main_logo_url),
            nav_logo_url: replaced(self.nav_logo_url, patch.nav_logo_url),
            uuid: replaced(self.uuid, patch.uuid),
            secret_key: replaced(self.secret_key, patch.secret_key),
            license: replaced(self.license, patch.license),
            smtp: replaced(self.smtp, patch.smtp),
            ldap_enabled: replaced(self.ldap_enabled, patch.ldap_enabled),
            ldap_sync_enabled: replaced(self.ldap_sync_enabled, patch.ldap_sync_enabled),
            ldap_is_authoritative: replaced(self.ldap_is_authoritative, patch.ldap_is_authoritative),
            ldap_sync_status: replaced(self.ldap_sync_status, patch.ldap_sync_status),
            ldap_sync_groups: replaced(self.ldap_sync_groups, patch.ldap_sync_groups),
            ldap_url: replaced(self.ldap_url, patch.ldap_url),
            ldap_bind_username: replaced(self.ldap_bind_username, patch.ldap_bind_username),
            ldap_bind_password: replaced(self.ldap_bind_password, patch.ldap_bind_password),
            ldap_username_attr: replaced(self.ldap_username_attr, patch.ldap_username_attr),
            ldap_user_search_base: replaced(self.ldap_user_search_base, patch.ldap_user_search_base),
            ldap_user_obj_class: replaced(self.ldap_user_obj_class, patch.ldap_user_obj_class),
            ldap_member_attr: replaced(self.ldap_member_attr, patch.ldap_member_attr),
            ldap_groupname_attr: replaced(self.ldap_groupname_attr, patch.ldap_groupname_attr),
            ldap_group_obj_class: replaced(self.ldap_group_obj_class, patch.ldap_group_obj_class),
            ldap_group_member_attr: replaced(self.ldap_group_member_attr, patch.ldap_group_member_attr),
            ldap_group_search_base: replaced(self.ldap_group_search_base, patch.ldap_group_search_base),
        }
    }

    /// Whether `patch` leaves the directory and the local users possibly disagreeing: it turns the
    /// directory off, changes which side is authoritative, or changes the synchronised groups.
    pub open spec fn patch_breaks_sync(self, patch: SettingsPatchView) -> bool {
        ||| patch.ldap_enabled == Some(false)
        ||| patch.ldap_is_authoritative == Some(!self.ldap_is_authoritative)
        ||| patch.ldap_sync_groups is Some && patch.ldap_sync_groups != Some(self.ldap_sync_groups)
    }

    /// These settings with `patch` put in place, the synchronisation status set back first where
    /// the patch calls for it. A status that the patch itself carries wins.
    pub open spec fn after_patch(self, patch: SettingsPatchView) -> SettingsView {
        let base = if self.patch_breaks_sync(patch) {
            SettingsView { ldap_sync_status: LdapSyncStatus::OutOfSync, ..self }
        } else {
            self
        };
        base.patched(patch)
    }

    /// These settings with empty logo addresses filled in.
    pub open spec fn with_logos(self) -> SettingsView {
        SettingsView {
            nav_logo_url: logo_or(self.nav_logo_url, DEFAULT_NAV_LOGO_URL@),
            main_logo_url: logo_or(self.main_logo_url, DEFAULT_MAIN_LOGO_URL@),
            ..self
        }
    }

    /// These settings without the secrets that a demo instance keeps to itself.
    pub open spec fn redacted(self) -> SettingsView {
        SettingsView {
            secret_key: None,
            license: None,
            smtp: SmtpSettingsView {
                password: None,
                oauth_client_secret: None,
                oauth_refresh_token: None,
            },
            ..self
        }
    }

    /// These settings as an administrator gets to see them.
    pub open spec fn shown(self, is_demo_mode: bool) -> SettingsView {
        if is_demo_mode {
            self.with_logos().redacted()
        } else {
            self.with_logos()
        }
    }

    /// These settings with a directory password replaced by the placeholder.
    pub open spec fn without_bind_password(self) -> SettingsView {
        SettingsView {
            ldap_bind_password: match self.ldap_bind_password {
                Some(_) => Some(PASSWORD_PLACEHOLDER@),
                None => None,
            },
            ..self
        }
    }

    /// Whether anything that a demo instance locks differs between the two: the license, or one of
    /// the locked settings that are not held here, of which `others_differ` tells.
    pub open spec fn locked_fields_differ(self, other: SettingsView, others_differ: bool) -> bool {
        others_differ || self.license != other.license
    }

    /// These settings with name and logos set back.
    pub open spec fn with_default_branding(self) -> SettingsView {
        SettingsView {
            instance_name: DEFAULT_INSTANCE_NAME@,
            nav_logo_url: DEFAULT_NAV_LOGO_URL@,
            main_logo_url: DEFAULT_MAIN_LOGO_URL@,
            ..self
        }
    }
}

impl Settings {
    /// Puts every value of `patch` in its place.
    pub fn apply(&mut self, patch: SettingsPatch)
        ensures
            final(self)@ == old(self)@.patched(patch@),
    {
        replace(&mut self.instance_name, patch.instance_name);
        replace(&mut self.main_logo_url, patch.main_logo_url);
        replace(&mut self.nav_logo_url, patch.nav_logo_url);
        replace(&mut self.uuid, patch.uuid);
        replace(&mut self.secret_key, patch.secret_key);
        replace(&mut self.license, patch.license);
        replace(&mut self.smtp, patch.smtp);
        replace(&mut self.ldap_enabled, patch.ldap_enabled);
        replace(&mut self.ldap_sync_enabled, patch.ldap_sync_enabled);
        replace(&mut self.ldap_is_authoritative, patch.ldap_is_authoritative);
        replace(&mut self.ldap_sync_status, patch.ldap_sync_status);
        replace(&mut self.ldap_sync_groups, patch.ldap_sync_groups);
        replace(&mut self.ldap_url, patch.ldap_url);
        replace(&mut self.ldap_bind_username, patch.ldap_bind_username);
        replace(&mut self.ldap_bind_password, patch.ldap_bind_password);
        replace(&mut self.ldap_username_attr, patch.ldap_username_attr);
        replace(&mut self.ldap_user_search_base, patch.ldap_user_search_base);
        replace(&mut self.ldap_user_obj_class, patch.ldap_user_obj_class);
        replace(&mut self.ldap_member_attr, patch.ldap_member_attr);
        replace(&mut self.ldap_groupname_attr, patch.ldap_groupname_attr);
        replace(&mut self.ldap_group_obj_class, patch.ldap_group_obj_class);
        replace(&mut self.ldap_group_member_attr, patch.ldap_group_member_attr);
        replace(&mut self.ldap_group_search_base, patch.ldap_group_search_base);
    }

    /// Puts `patch` in place and, where it touches what synchronisation depends on, marks the
    /// directory as out of step.
    pub fn apply_with_sync_status(&mut self, patch: SettingsPatch)
        ensures
            final(self)@ == old(self)@.after_patch(patch@),
    {
        if let Some(ldap_enabled) = patch.ldap_enabled {
            if !ldap_enabled {
                self.ldap_sync_status = LdapSyncStatus::OutOfSync;
            }
        }
        if let Some(ldap_authority) = patch.ldap_is_authoritative {
            if self.ldap_is_authoritative != ldap_authority {
                self.ldap_sync_status = LdapSyncStatus::OutOfSync;
            }
        }
        if let Some(ldap_sync_groups) = &patch.ldap_sync_groups {
            if !same_texts(&self.ldap_sync_groups, ldap_sync_groups) {
                self.ldap_sync_status = LdapSyncStatus::OutOfSync;
            }
        }
        self.apply(patch);
    }

    /// Whether anything that a demo instance locks differs between the two: the license, or one of
    /// the locked settings that are not held here, of which `others_differ` tells.
    pub fn demo_locked_fields_differ(&self, other: &Settings, others_differ: bool) -> (differ: bool)
        ensures
            differ == self@.locked_fields_differ(other@, others_differ),
    {
        others_differ || !same_text(&self.license, &other.license)
    }

    /// Replaces a directory password by the placeholder.
    pub fn drop_bind_password(&mut self)
        ensures
            final(self)@ == old(self)@.without_bind_password(),
    {
        if self.ldap_bind_password.is_some() {
            self.ldap_bind_password = Some(PASSWORD_PLACEHOLDER.to_owned());
        }
    }

    /// Sets name and logos back.
    pub fn reset_branding(&mut self)
        ensures
            final(self)@ == old(self)@.with_default_branding(),
    {
        self.instance_name = DEFAULT_INSTANCE_NAME.to_owned();
        self.nav_logo_url = DEFAULT_NAV_LOGO_URL.to_owned();
        self.main_logo_url = DEFAULT_MAIN_LOGO_URL.to_owned();
    }
}

/// The answer to a request for the settings that are stored, if any are.
pub fn get_settings(stored: Option<Settings>, is_demo_mode: bool) -> (response: ApiResponse<
    Settings,
>)
    ensures
        response@.status == StatusCode::Success,
        response@.json == match stored {
            Some(settings) => Some(settings@.shown(is_demo_mode)),
            None => None,
        },
{
    if let Some(mut settings) = stored {
        if settings.nav_logo_url.as_str().is_empty() {
            settings.nav_logo_url = DEFAULT_NAV_LOGO_URL.to_owned();
        }
        if settings.main_logo_url.as_str().is_empty() {
            settings.main_logo_url = DEFAULT_MAIN_LOGO_URL.to_owned();
        }
        if is_demo_mode {
            settings.secret_key = None;
            settings.license = None;
            settings.smtp.password = None;
            settings.smtp.oauth_client_secret = None;
            settings.smtp.oauth_refresh_token = None;
        }
        return ApiResponse::json(settings, StatusCode::Success);
    }
    ApiResponse::default()
}

/// The part of the settings that anyone may read.
#[derive(Debug, PartialEq, Eq)]
pub struct SettingsEssentials {
    pub nav_logo_url: String,
    pub main_logo_url: String,
}

/// The contents of [`SettingsEssentials`].
#[verifier::ext_equal]
pub struct SettingsEssentialsView {
    pub nav_logo_url: Seq<char>,
    pub main_logo_url: Seq<char>,
}

impl View for SettingsEssentials {
    type V = SettingsEssentialsView;

    open spec fn view(&self) -> SettingsEssentialsView {
        SettingsEssentialsView {
            nav_logo_url: self.nav_logo_url@,
            main_logo_url: self.main_logo_url@,
        }
    }
}

impl SettingsEssentialsView {
    /// These settings with empty logo addresses filled in.
    pub open spec fn with_logos(self) -> SettingsEssentialsView {
        SettingsEssentialsView {
            nav_logo_url: logo_or(self.nav_logo_url, DEFAULT_NAV_LOGO_URL@),
            main_logo_url: logo_or(self.main_logo_url, DEFAULT_MAIN_LOGO_URL@),
        }
    }
}

/// The answer to a request for the essential settings.
pub fn get_settings_essentials(stored: SettingsEssentials) -> (response: ApiResponse<
    SettingsEssentials,
>)
    ensures
        response@.status == StatusCode::Success,
        response@.json == Some(stored@.with_logos()),
{
    let mut settings = stored;
    if settings.nav_logo_url.as_str().is_empty() {
        settings.nav_logo_url = DEFAULT_NAV_LOGO_URL.to_owned();
    }
    if settings.main_logo_url.as_str().is_empty() {
        settings.main_logo_url = DEFAULT_MAIN_LOGO_URL.to_owned();
    }
    ApiResponse::json(settings, StatusCode::Success)
}

} // verus!
