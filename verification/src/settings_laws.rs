//! What holds of all settings, whatever they are.

use vstd::prelude::*;

use crate::response::ApiResponse;
use crate::settings::{
    get_settings, get_settings_essentials, LdapSyncStatus, Settings, SettingsEssentials,
    SettingsEssentialsView, SettingsPatch, SettingsPatchView, SettingsView, SmtpSettings,
    SmtpSettingsView, DEFAULT_INSTANCE_NAME, DEFAULT_MAIN_LOGO_URL, DEFAULT_NAV_LOGO_URL,
    PASSWORD_PLACEHOLDER,
};

verus! {

/// A patch that holds nothing changes nothing.
pub proof fn empty_patch_changes_nothing(settings: SettingsView)
    ensures
        settings.patched(SettingsPatchView::empty()) == settings,
        settings.after_patch(SettingsPatchView::empty()) == settings,
{
}

/// Patching again with the same patch changes nothing more.
pub proof fn patching_twice_is_patching_once(settings: SettingsView, patch: SettingsPatchView)
    ensures
        settings.patched(patch).patched(patch) == settings.patched(patch),
        settings.after_patch(patch).after_patch(patch) == settings.after_patch(patch),
{
}

/// A patch that turns the directory off, changes which side is authoritative or changes the
/// synchronised groups leaves the directory out of step; any other patch leaves the status alone.
/// This is so unless the patch itself says what the status is to be.
pub proof fn patch_decides_sync_status(settings: SettingsView, patch: SettingsPatchView)
    requires
        patch.ldap_sync_status is None,
    ensures
        settings.after_patch(patch).ldap_sync_status == if settings.patch_breaks_sync(patch) {
            LdapSyncStatus::OutOfSync
        } else {
            settings.ldap_sync_status
        },
{
}

/// Apart from the synchronisation status, the status rule has no say in what a patch does.
pub proof fn sync_status_is_all_that_is_added(settings: SettingsView, patch: SettingsPatchView)
    ensures
        settings.after_patch(patch) == (SettingsView {
            ldap_sync_status: settings.after_patch(patch).ldap_sync_status,
            ..settings.patched(patch)
        }),
{
}

/// A demo instance shows no key, no license and no secret of the mail server, whatever is stored.
pub proof fn demo_shows_no_secrets(settings: SettingsView)
    ensures
        settings.shown(true).secret_key is None,
        settings.shown(true).license is None,
        settings.shown(true).smtp.password is None,
        settings.shown(true).smtp.oauth_client_secret is None,
        settings.shown(true).smtp.oauth_refresh_token is None,
        settings.shown(true) == (SettingsView {
            secret_key: None,
            license: None,
            smtp: SmtpSettingsView {
                password: None,
                oauth_client_secret: None,
                oauth_refresh_token: None,
            },
            ..settings.shown(false)
        }),
{
}

/// Logos are always shown, and shown in the same way to everyone.
pub proof fn logos_are_always_shown(settings: SettingsView, is_demo_mode: bool)
    ensures
        settings.shown(is_demo_mode).nav_logo_url.len() > 0,
        settings.shown(is_demo_mode).main_logo_url.len() > 0,
        (SettingsEssentialsView {
            nav_logo_url: settings.nav_logo_url,
            main_logo_url: settings.main_logo_url,
        }).with_logos() == (SettingsEssentialsView {
            nav_logo_url: settings.shown(is_demo_mode).nav_logo_url,
            main_logo_url: settings.shown(is_demo_mode).main_logo_url,
        }),
{
    reveal_strlit("/svg/defguard-nav-logo.svg");
    reveal_strlit("/svg/logo-defguard-white.svg");
}

/// Showing what was shown changes nothing.
pub proof fn showing_twice_is_showing_once(settings: SettingsView, is_demo_mode: bool)
    ensures
        settings.shown(is_demo_mode).shown(is_demo_mode) == settings.shown(is_demo_mode),
{
    reveal_strlit("/svg/defguard-nav-logo.svg");
    reveal_strlit("/svg/logo-defguard-white.svg");
}

/// Outside a demo instance, settings with logos of their own are shown just as they are stored.
pub proof fn settings_read_as_stored(settings: SettingsView)
    requires
        settings.nav_logo_url.len() > 0,
        settings.main_logo_url.len() > 0,
    ensures
        settings.shown(false) == settings,
{
}

/// Once branding has been reset, the default name and logos are shown, and a second reset changes
/// nothing.
pub proof fn reset_branding_is_shown(settings: SettingsView, is_demo_mode: bool)
    ensures
        settings.with_default_branding().shown(is_demo_mode).instance_name == DEFAULT_INSTANCE_NAME@,
        settings.with_default_branding().shown(is_demo_mode).nav_logo_url == DEFAULT_NAV_LOGO_URL@,
        settings.with_default_branding().shown(is_demo_mode).main_logo_url
            == DEFAULT_MAIN_LOGO_URL@,
        settings.with_default_branding().with_default_branding()
            == settings.with_default_branding(),
{
}

/// Replacing a directory password leaves no trace of it: settings that differ in the password alone
/// cannot be told apart afterwards.
pub proof fn placeholder_hides_the_password(
    settings: SettingsView,
    one: Seq<char>,
    other: Seq<char>,
)
    ensures
        (SettingsView { ldap_bind_password: Some(one), ..settings }).without_bind_password() == (
        SettingsView { ldap_bind_password: Some(other), ..settings }).without_bind_password(),
        (SettingsView {
            ldap_bind_password: Some(one),
            ..settings
        }).without_bind_password().ldap_bind_password == Some(PASSWORD_PLACEHOLDER@),
{
}

/// What a settings document says, field by field, is what its contents say.
pub proof fn contents_of_settings(settings: Settings, smtp: SmtpSettings)
    ensures
        settings@.instance_name == settings.instance_name@,
        settings@.main_logo_url == settings.main_logo_url@,
        settings@.nav_logo_url == settings.nav_logo_url@,
        settings@.uuid == settings.uuid,
        settings@.secret_key == settings.secret_key.deep_view(),
        settings@.license == settings.license.deep_view(),
        settings@.smtp == settings.smtp@,
        settings@.ldap_enabled == settings.ldap_enabled,
        settings@.ldap_sync_enabled == settings.ldap_sync_enabled,
        settings@.ldap_is_authoritative == settings.ldap_is_authoritative,
        settings@.ldap_sync_status == settings.ldap_sync_status,
        settings@.ldap_sync_groups == settings.ldap_sync_groups.deep_view(),
        settings@.ldap_url == settings.ldap_url.deep_view(),
        settings@.ldap_bind_username == settings.ldap_bind_username.deep_view(),
        settings@.ldap_bind_password == settings.ldap_bind_password.deep_view(),
        settings@.ldap_username_attr == settings.ldap_username_attr.deep_view(),
        settings@.ldap_user_search_base == settings.ldap_user_search_base.deep_view(),
        settings@.ldap_user_obj_class == settings.ldap_user_obj_class.deep_view(),
        settings@.ldap_member_attr == settings.ldap_member_attr.deep_view(),
        settings@.ldap_groupname_attr == settings.ldap_groupname_attr.deep_view(),
        settings@.ldap_group_obj_class == settings.ldap_group_obj_class.deep_view(),
        settings@.ldap_group_member_attr == settings.ldap_group_member_attr.deep_view(),
        settings@.ldap_group_search_base == settings.ldap_group_search_base.deep_view(),
        smtp@.password == smtp.password.deep_view(),
        smtp@.oauth_client_secret == smtp.oauth_client_secret.deep_view(),
        smtp@.oauth_refresh_token == smtp.oauth_refresh_token.deep_view(),
{
}

/// What a patch says, field by field, is what its contents say.
pub proof fn contents_of_patches(patch: SettingsPatch)
    ensures
        patch@.instance_name == patch.instance_name.deep_view(),
        patch@.main_logo_url == patch.main_logo_url.deep_view(),
        patch@.nav_logo_url == patch.nav_logo_url.deep_view(),
        patch@.uuid == patch.uuid,
        patch@.secret_key == patch.secret_key.deep_view(),
        patch@.license == patch.license.deep_view(),
        patch.smtp is None <==> patch@.smtp is None,
        patch.smtp is Some ==> patch@.smtp == Some(patch.smtp->0@),
        patch@.ldap_enabled == patch.ldap_enabled,
        patch@.ldap_sync_enabled == patch.ldap_sync_enabled,
        patch@.ldap_is_authoritative == patch.ldap_is_authoritative,
        patch@.ldap_sync_status == patch.ldap_sync_status,
        patch@.ldap_sync_groups == patch.ldap_sync_groups.deep_view(),
        patch@.ldap_url == patch.ldap_url.deep_view(),
        patch@.ldap_bind_username == patch.ldap_bind_username.deep_view(),
        patch@.ldap_bind_password == patch.ldap_bind_password.deep_view(),
        patch@.ldap_username_attr == patch.ldap_username_attr.deep_view(),
        patch@.ldap_user_search_base == patch.ldap_user_search_base.deep_view(),
        patch@.ldap_user_obj_class == patch.ldap_user_obj_class.deep_view(),
        patch@.ldap_member_attr == patch.ldap_member_attr.deep_view(),
        patch@.ldap_groupname_attr == patch.ldap_groupname_attr.deep_view(),
        patch@.ldap_group_obj_class == patch.ldap_group_obj_class.deep_view(),
        patch@.ldap_group_member_attr == patch.ldap_group_member_attr.deep_view(),
        patch@.ldap_group_search_base == patch.ldap_group_search_base.deep_view(),
{
}

/// Whether a setting that was `before` is `after` what a patch says of it: the value the patch
/// holds, and the setting as it was where the patch holds none.
pub open spec fn lands<T>(change: Option<T>, before: T, after: T) -> bool {
    &&& change is Some ==> after == change->0
    &&& change is None ==> after == before
}

/// Applying a patch gives every setting that the patch holds the value it holds, and leaves every
/// other setting as it was.
pub proof fn patch_lands_in_every_field(patch: SettingsPatch)
    ensures
        forall|settings: &mut Settings|
            #[trigger] call_ensures(Settings::apply, (settings, patch), ()) ==> {
                &&& lands(
                    patch.instance_name.deep_view(),
                    settings.instance_name@,
                    final(settings).instance_name@,
                )
                &&& lands(
                    patch.main_logo_url.deep_view(),
                    settings.main_logo_url@,
                    final(settings).main_logo_url@,
                )
                &&& lands(
                    patch.nav_logo_url.deep_view(),
                    settings.nav_logo_url@,
                    final(settings).nav_logo_url@,
                )
                &&& lands(patch.uuid, settings.uuid, final(settings).uuid)
                &&& lands(
                    patch.secret_key.deep_view(),
                    settings.secret_key.deep_view(),
                    final(settings).secret_key.deep_view(),
                )
                &&& lands(
                    patch.license.deep_view(),
                    settings.license.deep_view(),
                    final(settings).license.deep_view(),
                )
                &&& lands(patch@.smtp, settings.smtp@, final(settings).smtp@)
                &&& lands(patch.ldap_enabled, settings.ldap_enabled, final(settings).ldap_enabled)
                &&& lands(
                    patch.ldap_sync_enabled,
                    settings.ldap_sync_enabled,
                    final(settings).ldap_sync_enabled,
                )
                &&& lands(
                    patch.ldap_is_authoritative,
                    settings.ldap_is_authoritative,
                    final(settings).ldap_is_authoritative,
                )
                &&& lands(
                    patch.ldap_sync_status,
                    settings.ldap_sync_status,
                    final(settings).ldap_sync_status,
                )
                &&& lands(
                    patch.ldap_sync_groups.deep_view(),
                    settings.ldap_sync_groups.deep_view(),
                    final(settings).ldap_sync_groups.deep_view(),
                )
                &&& lands(
                    patch.ldap_url.deep_view(),
                    settings.ldap_url.deep_view(),
                    final(settings).ldap_url.deep_view(),
                )
                &&& lands(
                    patch.ldap_bind_username.deep_view(),
                    settings.ldap_bind_username.deep_view(),
                    final(settings).ldap_bind_username.deep_view(),
                )
                &&& lands(
                    patch.ldap_bind_password.deep_view(),
                    settings.ldap_bind_password.deep_view(),
                    final(settings).ldap_bind_password.deep_view(),
                )
                &&& lands(
                    patch.ldap_username_attr.deep_view(),
                    settings.ldap_username_attr.deep_view(),
                    final(settings).ldap_username_attr.deep_view(),
                )
                &&& lands(
                    patch.ldap_user_search_base.deep_view(),
                    settings.ldap_user_search_base.deep_view(),
                    final(settings).ldap_user_search_base.deep_view(),
                )
                &&& lands(
                    patch.ldap_user_obj_class.deep_view(),
                    settings.ldap_user_obj_class.deep_view(),
                    final(settings).ldap_user_obj_class.deep_view(),
                )
                &&& lands(
                    patch.ldap_member_attr.deep_view(),
                    settings.ldap_member_attr.deep_view(),
                    final(settings).ldap_member_attr.deep_view(),
                )
                &&& lands(
                    patch.ldap_groupname_attr.deep_view(),
                    settings.ldap_groupname_attr.deep_view(),
                    final(settings).ldap_groupname_attr.deep_view(),
                )
                &&& lands(
                    patch.ldap_group_obj_class.deep_view(),
                    settings.ldap_group_obj_class.deep_view(),
                    final(settings).ldap_group_obj_class.deep_view(),
                )
                &&& lands(
                    patch.ldap_group_member_attr.deep_view(),
                    settings.ldap_group_member_attr.deep_view(),
                    final(settings).ldap_group_member_attr.deep_view(),
                )
                &&& lands(
                    patch.ldap_group_search_base.deep_view(),
                    settings.ldap_group_search_base.deep_view(),
                    final(settings).ldap_group_search_base.deep_view(),
                )
            },
{
}

/// Applying a patch together with the rule on the synchronisation status does the same to every
/// setting but that status.
pub proof fn patch_with_status_lands_in_every_field(patch: SettingsPatch)
    ensures
        forall|settings: &mut Settings|
            #[trigger] call_ensures(Settings::apply_with_sync_status, (settings, patch), ()) ==> {
                &&& lands(
                    patch.instance_name.deep_view(),
                    settings.instance_name@,
                    final(settings).instance_name@,
                )
                &&& lands(
                    patch.main_logo_url.deep_view(),
                    settings.main_logo_url@,
                    final(settings).main_logo_url@,
                )
                &&& lands(
                    patch.nav_logo_url.deep_view(),
                    settings.nav_logo_url@,
                    final(settings).nav_logo_url@,
                )
                &&& lands(patch.uuid, settings.uuid, final(settings).uuid)
                &&& lands(
                    patch.secret_key.deep_view(),
                    settings.secret_key.deep_view(),
                    final(settings).secret_key.deep_view(),
                )
                &&& lands(
                    patch.license.deep_view(),
                    settings.license.deep_view(),
                    final(settings).license.deep_view(),
                )
                &&& lands(patch@.smtp, settings.smtp@, final(settings).smtp@)
                &&& lands(patch.ldap_enabled, settings.ldap_enabled, final(settings).ldap_enabled)
                &&& lands(
                    patch.ldap_sync_enabled,
                    settings.ldap_sync_enabled,
                    final(settings).ldap_sync_enabled,
                )
                &&& lands(
                    patch.ldap_is_authoritative,
                    settings.ldap_is_authoritative,
                    final(settings).ldap_is_authoritative,
                )
                &&& lands(
                    patch.ldap_sync_groups.deep_view(),
                    settings.ldap_sync_groups.deep_view(),
                    final(settings).ldap_sync_groups.deep_view(),
                )
                &&& lands(
                    patch.ldap_url.deep_view(),
                    settings.ldap_url.deep_view(),
                    final(settings).ldap_url.deep_view(),
                )
                &&& lands(
                    patch.ldap_bind_username.deep_view(),
                    settings.ldap_bind_username.deep_view(),
                    final(settings).ldap_bind_username.deep_view(),
                )
                &&& lands(
                    patch.ldap_bind_password.deep_view(),
                    settings.ldap_bind_password.deep_view(),
                    final(settings).ldap_bind_password.deep_view(),
                )
                &&& lands(
                    patch.ldap_username_attr.deep_view(),
                    settings.ldap_username_attr.deep_view(),
                    final(settings).ldap_username_attr.deep_view(),
                )
                &&& lands(
                    patch.ldap_user_search_base.deep_view(),
                    settings.ldap_user_search_base.deep_view(),
                    final(settings).ldap_user_search_base.deep_view(),
                )
                &&& lands(
                    patch.ldap_user_obj_class.deep_view(),
                    settings.ldap_user_obj_class.deep_view(),
                    final(settings).ldap_user_obj_class.deep_view(),
                )
                &&& lands(
                    patch.ldap_member_attr.deep_view(),
                    settings.ldap_member_attr.deep_view(),
                    final(settings).ldap_member_attr.deep_view(),
                )
                &&& lands(
                    patch.ldap_groupname_attr.deep_view(),
                    settings.ldap_groupname_attr.deep_view(),
                    final(settings).ldap_groupname_attr.deep_view(),
                )
                &&& lands(
                    patch.ldap_group_obj_class.deep_view(),
                    settings.ldap_group_obj_class.deep_view(),
                    final(settings).ldap_group_obj_class.deep_view(),
                )
                &&& lands(
                    patch.ldap_group_member_attr.deep_view(),
                    settings.ldap_group_member_attr.deep_view(),
                    final(settings).ldap_group_member_attr.deep_view(),
                )
                &&& lands(
                    patch.ldap_group_search_base.deep_view(),
                    settings.ldap_group_search_base.deep_view(),
                    final(settings).ldap_group_search_base.deep_view(),
                )
            },
{
}

/// Of settings that a patch is put into, each is what the patch says of it; the synchronisation
/// status is so unless the patch touches what synchronisation depends on.
pub proof fn patched_settings_hold_the_patch(settings: SettingsView, patch: SettingsPatchView)
    ensures
        lands(
            patch.ldap_sync_status,
            settings.ldap_sync_status,
            settings.patched(patch).ldap_sync_status,
        ),
        lands(patch.instance_name, settings.instance_name, settings.patched(patch).instance_name),
        lands(patch.main_logo_url, settings.main_logo_url, settings.patched(patch).main_logo_url),
        lands(patch.nav_logo_url, settings.nav_logo_url, settings.patched(patch).nav_logo_url),
        lands(patch.uuid, settings.uuid, settings.patched(patch).uuid),
        lands(patch.secret_key, settings.secret_key, settings.patched(patch).secret_key),
        lands(patch.license, settings.license, settings.patched(patch).license),
        lands(patch.smtp, settings.smtp, settings.patched(patch).smtp),
        lands(patch.ldap_enabled, settings.ldap_enabled, settings.patched(patch).ldap_enabled),
        lands(
            patch.ldap_sync_enabled,
            settings.ldap_sync_enabled,
            settings.patched(patch).ldap_sync_enabled,
        ),
        lands(
            patch.ldap_is_authoritative,
            settings.ldap_is_authoritative,
            settings.patched(patch).ldap_is_authoritative,
        ),
        lands(
            patch.ldap_sync_groups,
            settings.ldap_sync_groups,
            settings.patched(patch).ldap_sync_groups,
        ),
        lands(patch.ldap_url, settings.ldap_url, settings.patched(patch).ldap_url),
        lands(
            patch.ldap_bind_username,
            settings.ldap_bind_username,
            settings.patched(patch).ldap_bind_username,
        ),
        lands(
            patch.ldap_bind_password,
            settings.ldap_bind_password,
            settings.patched(patch).ldap_bind_password,
        ),
        lands(
            patch.ldap_username_attr,
            settings.ldap_username_attr,
            settings.patched(patch).ldap_username_attr,
        ),
        lands(
            patch.ldap_user_search_base,
            settings.ldap_user_search_base,
            settings.patched(patch).ldap_user_search_base,
        ),
        lands(
            patch.ldap_user_obj_class,
            settings.ldap_user_obj_class,
            settings.patched(patch).ldap_user_obj_class,
        ),
        lands(
            patch.ldap_member_attr,
            settings.ldap_member_attr,
            settings.patched(patch).ldap_member_attr,
        ),
        lands(
            patch.ldap_groupname_attr,
            settings.ldap_groupname_attr,
            settings.patched(patch).ldap_groupname_attr,
        ),
        lands(
            patch.ldap_group_obj_class,
            settings.ldap_group_obj_class,
            settings.patched(patch).ldap_group_obj_class,
        ),
        lands(
            patch.ldap_group_member_attr,
            settings.ldap_group_member_attr,
            settings.patched(patch).ldap_group_member_attr,
        ),
        lands(
            patch.ldap_group_search_base,
            settings.ldap_group_search_base,
            settings.patched(patch).ldap_group_search_base,
        ),
        lands(
            patch.instance_name,
            settings.instance_name,
            settings.after_patch(patch).instance_name,
        ),
        lands(
            patch.main_logo_url,
            settings.main_logo_url,
            settings.after_patch(patch).main_logo_url,
        ),
        lands(patch.nav_logo_url, settings.nav_logo_url, settings.after_patch(patch).nav_logo_url),
        lands(patch.uuid, settings.uuid, settings.after_patch(patch).uuid),
        lands(patch.secret_key, settings.secret_key, settings.after_patch(patch).secret_key),
        lands(patch.license, settings.license, settings.after_patch(patch).license),
        lands(patch.smtp, settings.smtp, settings.after_patch(patch).smtp),
        lands(patch.ldap_enabled, settings.ldap_enabled, settings.after_patch(patch).ldap_enabled),
        lands(
            patch.ldap_sync_enabled,
            settings.ldap_sync_enabled,
            settings.after_patch(patch).ldap_sync_enabled,
        ),
        lands(
            patch.ldap_is_authoritative,
            settings.ldap_is_authoritative,
            settings.after_patch(patch).ldap_is_authoritative,
        ),
        lands(
            patch.ldap_sync_groups,
            settings.ldap_sync_groups,
            settings.after_patch(patch).ldap_sync_groups,
        ),
        lands(patch.ldap_url, settings.ldap_url, settings.after_patch(patch).ldap_url),
        lands(
            patch.ldap_bind_username,
            settings.ldap_bind_username,
            settings.after_patch(patch).ldap_bind_username,
        ),
        lands(
            patch.ldap_bind_password,
            settings.ldap_bind_password,
            settings.after_patch(patch).ldap_bind_password,
        ),
        lands(
            patch.ldap_username_attr,
            settings.ldap_username_attr,
            settings.after_patch(patch).ldap_username_attr,
        ),
        lands(
            patch.ldap_user_search_base,
            settings.ldap_user_search_base,
            settings.after_patch(patch).ldap_user_search_base,
        ),
        lands(
            patch.ldap_user_obj_class,
            settings.ldap_user_obj_class,
            settings.after_patch(patch).ldap_user_obj_class,
        ),
        lands(
            patch.ldap_member_attr,
            settings.ldap_member_attr,
            settings.after_patch(patch).ldap_member_attr,
        ),
        lands(
            patch.ldap_groupname_attr,
            settings.ldap_groupname_attr,
            settings.after_patch(patch).ldap_groupname_attr,
        ),
        lands(
            patch.ldap_group_obj_class,
            settings.ldap_group_obj_class,
            settings.after_patch(patch).ldap_group_obj_class,
        ),
        lands(
            patch.ldap_group_member_attr,
            settings.ldap_group_member_attr,
            settings.after_patch(patch).ldap_group_member_attr,
        ),
        lands(
            patch.ldap_group_search_base,
            settings.ldap_group_search_base,
            settings.after_patch(patch).ldap_group_search_base,
        ),
{
}

/// The status after a patch is the one that the patch holds, if it holds one. Otherwise a patch
/// that turns the directory off, that says the other side is authoritative, or that lists other
/// groups than before leaves the directory out of step, and no other patch touches the status.
pub proof fn status_follows_the_patch(patch: SettingsPatch)
    ensures
        forall|settings: &mut Settings|
            #[trigger] call_ensures(Settings::apply_with_sync_status, (settings, patch), ()) ==> {
                let turned_off = patch.ldap_enabled == Some(false);
                let other_side = patch.ldap_is_authoritative is Some
                    && patch.ldap_is_authoritative->0 != settings.ldap_is_authoritative;
                let other_groups = patch.ldap_sync_groups is Some
                    && patch.ldap_sync_groups->0.deep_view()
                    != settings.ldap_sync_groups.deep_view();
                &&& patch.ldap_sync_status is Some ==> final(settings).ldap_sync_status
                    == patch.ldap_sync_status->0
                &&& patch.ldap_sync_status is None && (turned_off || other_side || other_groups)
                    ==> final(settings).ldap_sync_status is OutOfSync
                &&& patch.ldap_sync_status is None && !turned_off && !other_side && !other_groups
                    ==> final(settings).ldap_sync_status == settings.ldap_sync_status
            },
{
}

/// Resetting the branding sets the name and the two logos and leaves everything else as it was.
pub proof fn reset_touches_nothing_but_branding()
    ensures
        forall|settings: &mut Settings|
            #[trigger] call_ensures(Settings::reset_branding, (settings,), ()) ==> final(settings)@
                == (SettingsView {
                instance_name: "Defguard"@,
                nav_logo_url: "/svg/defguard-nav-logo.svg"@,
                main_logo_url: "/svg/logo-defguard-white.svg"@,
                ..settings@
            }),
{
}

/// Default branding is a name and two logos; nothing else belongs to it.
pub proof fn branding_is_name_and_logos(settings: SettingsView)
    ensures
        settings.with_default_branding() == (SettingsView {
            instance_name: "Defguard"@,
            nav_logo_url: "/svg/defguard-nav-logo.svg"@,
            main_logo_url: "/svg/logo-defguard-white.svg"@,
            ..settings
        }),
{
}

/// Hiding the directory password touches that password alone: where there is one it becomes the
/// placeholder, and where there is none there is none afterwards.
pub proof fn hiding_touches_nothing_but_the_password()
    ensures
        forall|settings: &mut Settings|
            #[trigger] call_ensures(Settings::drop_bind_password, (settings,), ()) ==> {
                &&& final(settings)@ == (SettingsView {
                    ldap_bind_password: final(settings)@.ldap_bind_password,
                    ..settings@
                })
                &&& settings.ldap_bind_password is None ==> final(settings).ldap_bind_password
                    is None
                &&& settings.ldap_bind_password is Some ==> final(settings).ldap_bind_password
                    is Some && final(settings).ldap_bind_password->0@ == "SECRET"@
            },
{
}

/// The license is locked: two settings whose licenses differ differ in what is locked, and two with
/// the same license do so only where something else that is locked differs.
pub proof fn the_license_is_locked(
    settings: &Settings,
    other: &Settings,
    others_differ: bool,
    differ: bool,
)
    requires
        call_ensures(Settings::demo_locked_fields_differ, (settings, other, others_differ), differ),
    ensures
        settings.license.deep_view() != other.license.deep_view() ==> differ,
        settings.license.deep_view() == other.license.deep_view() ==> differ == others_differ,
        settings@.locked_fields_differ(other@, others_differ) == differ,
{
}

/// A request for the settings is answered well with the settings that are stored: a logo that was
/// not chosen is filled in with its default, a demo instance leaves out its key, its license and
/// the secrets of the mail server, and everything else is as it is stored. Where nothing is stored
/// there is no document.
pub proof fn settings_are_answered(
    stored: Option<Settings>,
    is_demo_mode: bool,
    response: ApiResponse<Settings>,
)
    requires
        call_ensures(get_settings, (stored, is_demo_mode), response),
    ensures
        response.status is Success,
        response.json is None <==> stored is None,
        stored is Some ==> {
            let before = stored->0@;
            let answer = response.json->0@;
            &&& answer == (SettingsView {
                nav_logo_url: answer.nav_logo_url,
                main_logo_url: answer.main_logo_url,
                secret_key: answer.secret_key,
                license: answer.license,
                smtp: answer.smtp,
                ..before
            })
            &&& before.nav_logo_url.len() > 0 ==> answer.nav_logo_url == before.nav_logo_url
            &&& before.nav_logo_url.len() == 0 ==> answer.nav_logo_url
                == "/svg/defguard-nav-logo.svg"@
            &&& before.main_logo_url.len() > 0 ==> answer.main_logo_url == before.main_logo_url
            &&& before.main_logo_url.len() == 0 ==> answer.main_logo_url
                == "/svg/logo-defguard-white.svg"@
            &&& !is_demo_mode ==> answer.secret_key == before.secret_key && answer.license
                == before.license && answer.smtp == before.smtp
            &&& is_demo_mode ==> answer.secret_key is None && answer.license is None
                && answer.smtp.password is None && answer.smtp.oauth_client_secret is None
                && answer.smtp.oauth_refresh_token is None
        },
{
}

/// A request for the essential settings is answered well, with the logos that are stored and the
/// default in the place of one that was not chosen.
pub proof fn essentials_are_answered(
    stored: SettingsEssentials,
    response: ApiResponse<SettingsEssentials>,
)
    requires
        call_ensures(get_settings_essentials, (stored,), response),
    ensures
        response.status is Success,
        response.json is Some,
        stored.nav_logo_url@.len() > 0 ==> response.json->0.nav_logo_url@ == stored.nav_logo_url@,
        stored.nav_logo_url@.len() == 0 ==> response.json->0.nav_logo_url@
            == "/svg/defguard-nav-logo.svg"@,
        stored.main_logo_url@.len() > 0 ==> response.json->0.main_logo_url@
            == stored.main_logo_url@,
        stored.main_logo_url@.len() == 0 ==> response.json->0.main_logo_url@
            == "/svg/logo-defguard-white.svg"@,
{
}

} // verus!
