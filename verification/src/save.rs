//! Saving settings, one step at a time.
//!
//! A save needs several things done outside: the new settings validated and stored, the cached
//! license refreshed, connected proxies told, an event emitted. [`update_settings`],
//! [`patch_settings`] and [`set_default_branding`] start a save; each step names one thing to do,
//! and [`advance`] takes what came of it to the next step, until there is an answer to send.

use vstd::prelude::*;

use crate::response::{ApiResponse, ApiResponseView, StatusCode, WebError, WebErrorView};
use crate::settings::{Settings, SettingsPatch, SettingsPatchView, SettingsView};
use crate::text::copy_text;

verus! {

/// Answer to an attempt to change what a demo instance locks.
pub const READ_ONLY_IN_DEMO: &'static str = "This setting is read-only in demo mode";

/// Answer to a reset of branding where no settings are stored.
pub const CANNOT_RESTORE: &'static str = "Cannot restore settings";

/// Which request a save answers.
#[derive(Clone, Copy, Debug, PartialEq, Eq, Structural)]
pub enum SaveKind {
    /// All settings are replaced.
    Update,
    /// Some settings are replaced.
    Patch,
    /// Name and logos are set back.
    DefaultBranding,
}

/// What a save waits for.
#[derive(Clone, Copy, Debug, PartialEq, Eq, Structural)]
pub enum Phase {
    Validating,
    CheckingLocks,
    Storing,
    UpdatingLicense,
    CheckingSmtp,
    LoadingEnterpriseSettings,
    Broadcasting,
    Emitting,
}

/// A save under way.
#[derive(Debug, PartialEq, Eq)]
pub struct SaveFlow {
    pub kind: SaveKind,
    pub is_demo_mode: bool,
    /// The settings before the save.
    pub before: Settings,
    /// The settings to be saved.
    pub after: Settings,
    /// The license to cache, where the request says one.
    pub license: Option<Option<String>>,
    pub phase: Phase,
}

/// The contents of a [`SaveFlow`].
#[verifier::ext_equal]
pub struct SaveFlowView {
    pub kind: SaveKind,
    pub is_demo_mode: bool,
    pub before: SettingsView,
    pub after: SettingsView,
    pub license: Option<Option<Seq<char>>>,
    pub phase: Phase,
}

impl View for SaveFlow {
    type V = SaveFlowView;

    open spec fn view(&self) -> SaveFlowView {
        SaveFlowView {
            kind: self.kind,
            is_demo_mode: self.is_demo_mode,
            before: self.before@,
            after: self.after@,
            license: self.license.deep_view(),
            phase: self.phase,
        }
    }
}

/// What the activity log is told of a save.
#[derive(Debug, PartialEq, Eq)]
pub enum ApiEventType {
    SettingsUpdated { before: Settings, after: Settings },
    SettingsUpdatedPartial { before: Settings, after: Settings },
    SettingsDefaultBrandingRestored,
}

/// The contents of an [`ApiEventType`].
pub enum ApiEventTypeView {
    SettingsUpdated { before: SettingsView, after: SettingsView },
    SettingsUpdatedPartial { before: SettingsView, after: SettingsView },
    SettingsDefaultBrandingRestored,
}

impl View for ApiEventType {
    type V = ApiEventTypeView;

    open spec fn view(&self) -> ApiEventTypeView {
        match self {
            ApiEventType::SettingsUpdated { before, after } => ApiEventTypeView::SettingsUpdated {
                before: before@,
                after: after@,
            },
            ApiEventType::SettingsUpdatedPartial { before, after } =>
                ApiEventTypeView::SettingsUpdatedPartial { before: before@, after: after@ },
            ApiEventType::SettingsDefaultBrandingRestored =>
                ApiEventTypeView::SettingsDefaultBrandingRestored,
        }
    }
}

/// What every connected proxy shows its visitors.
#[derive(Clone, Copy, Debug, PartialEq, Eq, Structural)]
pub struct PublicSettings {
    pub display_password_reset: bool,
    pub display_download_step: bool,
}

/// One thing to do outside.
#[derive(Debug, PartialEq, Eq)]
pub enum SaveAction {
    /// Check that the settings are consistent.
    Validate(Settings),
    /// Compare those locked fields, other than the license, that this library does not hold.
    CompareLockedFields { before: Settings, after: Settings },
    /// Store the settings and make them current.
    Store(Settings),
    /// Cache this license, or none.
    UpdateCachedLicense(Option<String>),
    /// Find out for both whether mail can be sent.
    CheckSmtp { before: Settings, after: Settings },
    /// Read what proxies are to show.
    LoadEnterpriseSettings,
    /// Tell every connected proxy what to show.
    BroadcastPublicSettings(PublicSettings),
    /// Put this into the activity log.
    EmitEvent(ApiEventType),
}

/// The contents of a [`SaveAction`].
pub enum SaveActionView {
    Validate(SettingsView),
    CompareLockedFields { before: SettingsView, after: SettingsView },
    Store(SettingsView),
    UpdateCachedLicense(Option<Seq<char>>),
    CheckSmtp { before: SettingsView, after: SettingsView },
    LoadEnterpriseSettings,
    BroadcastPublicSettings(PublicSettings),
    EmitEvent(ApiEventTypeView),
}

impl View for SaveAction {
    type V = SaveActionView;

    open spec fn view(&self) -> SaveActionView {
        match self {
            SaveAction::Validate(settings) => SaveActionView::Validate(settings@),
            SaveAction::CompareLockedFields { before, after } =>
                SaveActionView::CompareLockedFields { before: before@, after: after@ },
            SaveAction::Store(settings) => SaveActionView::Store(settings@),
            SaveAction::UpdateCachedLicense(license) => SaveActionView::UpdateCachedLicense(
                license.deep_view(),
            ),
            SaveAction::CheckSmtp { before, after } => SaveActionView::CheckSmtp {
                before: before@,
                after: after@,
            },
            SaveAction::LoadEnterpriseSettings => SaveActionView::LoadEnterpriseSettings,
            SaveAction::BroadcastPublicSettings(shown) => SaveActionView::BroadcastPublicSettings(
                *shown,
            ),
            SaveAction::EmitEvent(event) => SaveActionView::EmitEvent(event@),
        }
    }
}

/// What came of the thing that was done.
#[derive(Debug, PartialEq, Eq)]
pub enum SaveReply<E> {
    Validated(Result<(), E>),
    LockedFieldsDiffer(bool),
    Stored(Result<(), E>),
    LicenseUpdated(Result<(), E>),
    /// Whether mail can be sent with the settings before and after.
    SmtpConfigured { before: bool, after: bool },
    /// What proxies are to show, if it could be read.
    EnterpriseSettings(Option<PublicSettings>),
    /// Whether the proxies could be told.
    Broadcast { delivered: bool },
    EventEmitted(Result<(), E>),
}

/// What a save comes to next.
#[derive(Debug, PartialEq, Eq)]
pub enum SaveStep<E> {
    /// Do this, and go on with what came of it.
    Perform(SaveFlow, SaveAction),
    /// The save is over; this is the answer.
    Respond(Result<ApiResponse<Settings>, WebError<E>>),
}

/// The contents of a [`SaveStep`].
pub enum SaveStepView<E> {
    Perform(SaveFlowView, SaveActionView),
    Respond(Result<ApiResponseView<SettingsView>, WebErrorView<E>>),
}

impl<E> View for SaveStep<E> {
    type V = SaveStepView<E>;

    open spec fn view(&self) -> SaveStepView<E> {
        match self {
            SaveStep::Perform(flow, action) => SaveStepView::Perform(flow@, action@),
            SaveStep::Respond(Ok(response)) => SaveStepView::Respond(Ok(response@)),
            SaveStep::Respond(Err(error)) => SaveStepView::Respond(Err(error@)),
        }
    }
}

/// Whether `reply` is the kind of reply that a save in `phase` waits for.
pub open spec fn reply_fits<E>(phase: Phase, reply: SaveReply<E>) -> bool {
    match phase {
        Phase::Validating => reply is Validated,
        Phase::CheckingLocks => reply is LockedFieldsDiffer,
        Phase::Storing => reply is Stored,
        Phase::UpdatingLicense => reply is LicenseUpdated,
        Phase::CheckingSmtp => reply is SmtpConfigured,
        Phase::LoadingEnterpriseSettings => reply is EnterpriseSettings,
        Phase::Broadcasting => reply is Broadcast,
        Phase::Emitting => reply is EventEmitted,
    }
}

impl SaveFlowView {
    pub open spec fn in_phase(self, phase: Phase) -> SaveFlowView {
        SaveFlowView { phase, ..self }
    }

    /// The event that tells of this save.
    pub open spec fn event(self) -> ApiEventTypeView {
        match self.kind {
            SaveKind::Update => ApiEventTypeView::SettingsUpdated {
                before: self.before,
                after: self.after,
            },
            SaveKind::Patch => ApiEventTypeView::SettingsUpdatedPartial {
                before: self.before,
                after: self.after,
            },
            SaveKind::DefaultBranding => ApiEventTypeView::SettingsDefaultBrandingRestored,
        }
    }

    /// The answer to a save that went well.
    pub open spec fn response(self) -> ApiResponseView<SettingsView> {
        ApiResponseView {
            json: if self.kind is DefaultBranding {
                Some(self.after)
            } else {
                None
            },
            status: StatusCode::Success,
        }
    }

    /// Storing, with what is to be stored.
    pub open spec fn to_store<E>(self) -> SaveStepView<E> {
        SaveStepView::Perform(self.in_phase(Phase::Storing), SaveActionView::Store(self.after))
    }

    /// Emitting the event.
    pub open spec fn to_emit<E>(self) -> SaveStepView<E> {
        SaveStepView::Perform(
            self.in_phase(Phase::Emitting),
            SaveActionView::EmitEvent(self.event()),
        )
    }

    /// What follows once the cached license is as it should be: proxies are concerned unless only
    /// branding changed.
    pub open spec fn to_smtp<E>(self) -> SaveStepView<E> {
        if self.kind is DefaultBranding {
            self.to_emit()
        } else {
            SaveStepView::Perform(
                self.in_phase(Phase::CheckingSmtp),
                SaveActionView::CheckSmtp { before: self.before, after: self.after },
            )
        }
    }

    /// What follows once the settings are stored.
    pub open spec fn to_license<E>(self) -> SaveStepView<E> {
        match self.license {
            Some(license) => SaveStepView::Perform(
                self.in_phase(Phase::UpdatingLicense),
                SaveActionView::UpdateCachedLicense(license),
            ),
            None => self.to_smtp(),
        }
    }

    /// What follows once the settings are known to be valid.
    pub open spec fn to_locks<E>(self) -> SaveStepView<E> {
        if self.is_demo_mode {
            SaveStepView::Perform(
                self.in_phase(Phase::CheckingLocks),
                SaveActionView::CompareLockedFields { before: self.before, after: self.after },
            )
        } else {
            self.to_store()
        }
    }

    /// What this save comes to when `reply` comes in.
    pub open spec fn next<E>(self, reply: SaveReply<E>) -> SaveStepView<E>
        recommends
            reply_fits(self.phase, reply),
    {
        match reply {
            SaveReply::Validated(Err(error)) | SaveReply::Stored(Err(error))
            | SaveReply::LicenseUpdated(Err(error)) | SaveReply::EventEmitted(Err(error)) =>
                SaveStepView::Respond(Err(WebErrorView::Outside(error))),
            SaveReply::Validated(Ok(_)) => self.to_locks(),
            SaveReply::LockedFieldsDiffer(others) => if self.after.locked_fields_differ(
                self.before,
                others,
            ) {
                SaveStepView::Respond(Err(WebErrorView::Forbidden(READ_ONLY_IN_DEMO@)))
            } else {
                SaveFlowView { after: self.after.without_bind_password(), ..self }.to_store()
            },
            SaveReply::Stored(Ok(_)) => self.to_license(),
            SaveReply::LicenseUpdated(Ok(_)) => self.to_smtp(),
            SaveReply::SmtpConfigured { before, after } => if before != after {
                SaveStepView::Perform(
                    self.in_phase(Phase::LoadingEnterpriseSettings),
                    SaveActionView::LoadEnterpriseSettings,
                )
            } else {
                self.to_emit()
            },
            SaveReply::EnterpriseSettings(Some(shown)) => SaveStepView::Perform(
                self.in_phase(Phase::Broadcasting),
                SaveActionView::BroadcastPublicSettings(shown),
            ),
            SaveReply::EnterpriseSettings(None) => self.to_emit(),
            SaveReply::Broadcast { .. } => self.to_emit(),
            SaveReply::EventEmitted(Ok(_)) => SaveStepView::Respond(Ok(self.response())),
        }
    }
}

impl SaveFlow {
    fn validate<E>(self) -> (step: SaveStep<E>)
        requires
            self.phase == Phase::Validating,
        ensures
            step@ == SaveStepView::<E>::Perform(self@, SaveActionView::Validate(self@.after)),
    {
        let action = SaveAction::Validate(self.after.clone());
        SaveStep::Perform(self, action)
    }

    fn store<E>(self) -> (step: SaveStep<E>)
        ensures
            step@ == self@.to_store::<E>(),
    {
        let action = SaveAction::Store(self.after.clone());
        SaveStep::Perform(SaveFlow { phase: Phase::Storing, ..self }, action)
    }

    fn check_locks<E>(self) -> (step: SaveStep<E>)
        ensures
            step@ == self@.to_locks::<E>(),
    {
        if self.is_demo_mode {
            let action = SaveAction::CompareLockedFields {
                before: self.before.clone(),
                after: self.after.clone(),
            };
            SaveStep::Perform(SaveFlow { phase: Phase::CheckingLocks, ..self }, action)
        } else {
            self.store()
        }
    }

    fn update_license<E>(self) -> (step: SaveStep<E>)
        ensures
            step@ == self@.to_license::<E>(),
    {
        match &self.license {
            Some(license) => {
                let action = SaveAction::UpdateCachedLicense(copy_text(license));
                SaveStep::Perform(SaveFlow { phase: Phase::UpdatingLicense, ..self }, action)
            },
            None => self.check_smtp(),
        }
    }

    fn check_smtp<E>(self) -> (step: SaveStep<E>)
        ensures
            step@ == self@.to_smtp::<E>(),
    {
        match self.kind {
            SaveKind::DefaultBranding => self.emit(),
            _ => {
                let action = SaveAction::CheckSmtp {
                    before: self.before.clone(),
                    after: self.after.clone(),
                };
                SaveStep::Perform(SaveFlow { phase: Phase::CheckingSmtp, ..self }, action)
            },
        }
    }

    fn emit<E>(self) -> (step: SaveStep<E>)
        ensures
            step@ == self@.to_emit::<E>(),
    {
        let event = match self.kind {
            SaveKind::Update => ApiEventType::SettingsUpdated {
                before: self.before.clone(),
                after: self.after.clone(),
            },
            SaveKind::Patch => ApiEventType::SettingsUpdatedPartial {
                before: self.before.clone(),
                after: self.after.clone(),
            },
            SaveKind::DefaultBranding => ApiEventType::SettingsDefaultBrandingRestored,
        };
        SaveStep::Perform(SaveFlow { phase: Phase::Emitting, ..self }, SaveAction::EmitEvent(event))
    }
}

/// Takes a save to its next step with the reply to the action of the step before.
pub fn advance<E>(flow: SaveFlow, reply: SaveReply<E>) -> (step: SaveStep<E>)
    requires
        reply_fits(flow.phase, reply),
    ensures
        step@ == flow@.next(reply),
{
    match reply {
        SaveReply::Validated(Err(error)) => SaveStep::Respond(Err(WebError::Outside(error))),
        SaveReply::Validated(Ok(_)) => flow.check_locks(),
        SaveReply::LockedFieldsDiffer(others) => {
            if flow.after.demo_locked_fields_differ(&flow.before, others) {
                return SaveStep::Respond(Err(WebError::Forbidden(READ_ONLY_IN_DEMO)));
            }
            let mut flow = flow;
            flow.after.drop_bind_password();
            flow.store()
        },
        SaveReply::Stored(Err(error)) => SaveStep::Respond(Err(WebError::Outside(error))),
        SaveReply::Stored(Ok(_)) => flow.update_license(),
        SaveReply::LicenseUpdated(Err(error)) => SaveStep::Respond(Err(WebError::Outside(error))),
        SaveReply::LicenseUpdated(Ok(_)) => flow.check_smtp(),
        SaveReply::SmtpConfigured { before, after } => {
            if before != after {
                SaveStep::Perform(
                    SaveFlow { phase: Phase::LoadingEnterpriseSettings, ..flow },
                    SaveAction::LoadEnterpriseSettings,
                )
            } else {
                flow.emit()
            }
        },
        SaveReply::EnterpriseSettings(Some(shown)) => SaveStep::Perform(
            SaveFlow { phase: Phase::Broadcasting, ..flow },
            SaveAction::BroadcastPublicSettings(shown),
        ),
        SaveReply::EnterpriseSettings(None) => flow.emit(),
        SaveReply::Broadcast { .. } => flow.emit(),
        SaveReply::EventEmitted(Err(error)) => SaveStep::Respond(Err(WebError::Outside(error))),
        SaveReply::EventEmitted(Ok(_)) => match flow.kind {
            SaveKind::DefaultBranding => SaveStep::Respond(
                Ok(ApiResponse::json(flow.after, StatusCode::Success)),
            ),
            _ => SaveStep::Respond(Ok(ApiResponse::default())),
        },
    }
}

/// The save that replaces `before` by `data`; the identity of the instance stays.
pub open spec fn update_flow(
    data: SettingsView,
    before: SettingsView,
    is_demo_mode: bool,
) -> SaveFlowView {
    SaveFlowView {
        kind: SaveKind::Update,
        is_demo_mode,
        before,
        after: SettingsView { uuid: before.uuid, ..data },
        license: Some(data.license),
        phase: Phase::Validating,
    }
}

/// Starts to replace the current settings by `data`.
pub fn update_settings<E>(data: Settings, before: Settings, is_demo_mode: bool) -> (step: SaveStep<
    E,
>)
    ensures
        step@ == {
            let flow = update_flow(data@, before@, is_demo_mode);
            SaveStepView::<E>::Perform(flow, SaveActionView::Validate(flow.after))
        },
{
    let license = copy_text(&data.license);
    let mut after = data;
    after.uuid = before.uuid;
    SaveFlow {
        kind: SaveKind::Update,
        is_demo_mode,
        before,
        after,
        license: Some(license),
        phase: Phase::Validating,
    }.validate()
}

/// The save that changes `current` by `patch`.
pub open spec fn patch_flow(
    current: SettingsView,
    patch: SettingsPatchView,
    is_demo_mode: bool,
) -> SaveFlowView {
    SaveFlowView {
        kind: SaveKind::Patch,
        is_demo_mode,
        before: current,
        after: current.after_patch(patch),
        license: patch.license,
        phase: Phase::Validating,
    }
}

/// Starts to change the current settings by `patch`.
pub fn patch_settings<E>(current: Settings, patch: SettingsPatch, is_demo_mode: bool) -> (step:
    SaveStep<E>)
    ensures
        step@ == {
            let flow = patch_flow(current@, patch@, is_demo_mode);
            SaveStepView::<E>::Perform(flow, SaveActionView::Validate(flow.after))
        },
{
    let before = current.clone();
    let license = match &patch.license {
        Some(license) => Some(copy_text(license)),
        None => None,
    };
    let mut after = current;
    after.apply_with_sync_status(patch);
    SaveFlow {
        kind: SaveKind::Patch,
        is_demo_mode,
        before,
        after,
        license,
        phase: Phase::Validating,
    }.validate()
}

/// The save that sets name and logos of `stored` back. Nothing about it depends on whether the
/// instance is a demo, so it is treated as if it were none.
pub open spec fn branding_flow(stored: SettingsView) -> SaveFlowView {
    SaveFlowView {
        kind: SaveKind::DefaultBranding,
        is_demo_mode: false,
        before: stored,
        after: stored.with_default_branding(),
        license: None,
        phase: Phase::Storing,
    }
}

/// Starts to set name and logos of the stored settings back; fails where none are stored.
pub fn set_default_branding<E>(stored: Option<Settings>) -> (step: SaveStep<E>)
    ensures
        step@ == match stored {
            Some(settings) => branding_flow(settings@).to_store::<E>(),
            None => SaveStepView::<E>::Respond(Err(WebErrorView::DbError(CANNOT_RESTORE@))),
        },
{
    match stored {
        Some(settings) => {
            let before = settings.clone();
            let mut after = settings;
            after.reset_branding();
            SaveFlow {
                kind: SaveKind::DefaultBranding,
                is_demo_mode: false,
                before,
                after,
                license: None,
                phase: Phase::Storing,
            }.store()
        },
        None => SaveStep::Respond(Err(WebError::DbError(CANNOT_RESTORE.to_owned()))),
    }
}

} // verus!
