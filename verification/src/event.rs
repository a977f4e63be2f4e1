//! What the activity log records: who did what, on which device, at which location.

use vstd::prelude::*;

use crate::clock::Timestamp;

verus! {

/// Identity of a stored record.
pub type Id = i64;

/// A user, as far as events tell of them.
#[derive(Debug, PartialEq, Eq)]
pub struct User {
    pub id: Id,
    pub username: String,
}

/// A device of a user, as far as events tell of it.
#[derive(Debug, PartialEq, Eq)]
pub struct Device {
    pub id: Id,
    pub name: String,
    /// The device written out as text.
    pub label: String,
}

impl Clone for Device {
    fn clone(&self) -> (copy: Self)
        ensures
            copy == *self,
    {
        Device { id: self.id, name: self.name.clone(), label: self.label.clone() }
    }
}

/// A VPN location, as far as events tell of it.
#[derive(Debug, PartialEq, Eq)]
pub struct WireguardNetwork {
    pub id: Id,
    pub name: String,
}

impl Clone for WireguardNetwork {
    fn clone(&self) -> (copy: Self)
        ensures
            copy == *self,
    {
        WireguardNetwork { id: self.id, name: self.name.clone() }
    }
}

/// Second factors of a login.
#[derive(Clone, Copy, Debug, PartialEq, Eq, Structural)]
pub enum MFAMethod {
    OneTimePassword,
    Webauthn,
    Email,
}

/// Second factors of a VPN connection.
#[derive(Clone, Copy, Debug, PartialEq, Eq, Structural)]
pub enum ClientMFAMethod {
    Totp,
    Email,
    Biometric,
    MobileApprove,
}

/// The part of the system that an event comes from.
#[derive(Clone, Copy, Debug, PartialEq, Eq, Structural)]
pub enum ActivityLogModule {
    Defguard,
    Vpn,
}

/// What an event is recorded as.
#[derive(Clone, Copy, Debug, PartialEq, Eq, Structural)]
pub enum EventType {
    UserLogin,
    UserLogout,
    UserMfaLogin,
    UserLoginFailed,
    UserMfaLoginFailed,
    RecoveryCodeUsed,
    PasswordChanged,
    MfaTotpEnabled,
    MfaTotpDisabled,
    MfaEmailEnabled,
    MfaEmailDisabled,
    VpnClientConnected,
    VpnClientDisconnected,
    VpnClientMfaConnected,
    VpnClientMfaDisconnected,
    VpnClientMfaSuccess,
}

/// Something that happened on the server, as its description is made from it.
#[derive(Debug, PartialEq, Eq)]
pub enum DefguardEvent {
    UserLogin,
    UserLogout,
    UserMfaLogin { mfa_method: MFAMethod },
    UserLoginFailed { message: String },
    UserMfaLoginFailed { mfa_method: MFAMethod, message: String },
    RecoveryCodeUsed,
    PasswordChanged,
    MfaTotpEnabled,
    MfaTotpDisabled,
    MfaEmailEnabled,
    MfaEmailDisabled,
}

/// The contents of a [`DefguardEvent`].
pub enum DefguardEventView {
    UserLogin,
    UserLogout,
    UserMfaLogin { mfa_method: MFAMethod },
    UserLoginFailed { message: Seq<char> },
    UserMfaLoginFailed { mfa_method: MFAMethod, message: Seq<char> },
    RecoveryCodeUsed,
    PasswordChanged,
    MfaTotpEnabled,
    MfaTotpDisabled,
    MfaEmailEnabled,
    MfaEmailDisabled,
}

impl View for DefguardEvent {
    type V = DefguardEventView;

    open spec fn view(&self) -> DefguardEventView {
        match self {
            DefguardEvent::UserLogin => DefguardEventView::UserLogin,
            DefguardEvent::UserLogout => DefguardEventView::UserLogout,
            DefguardEvent::UserMfaLogin { mfa_method } => DefguardEventView::UserMfaLogin {
                mfa_method: *mfa_method,
            },
            DefguardEvent::UserLoginFailed { message } => DefguardEventView::UserLoginFailed {
                message: message@,
            },
            DefguardEvent::UserMfaLoginFailed { mfa_method, message } =>
                DefguardEventView::UserMfaLoginFailed { mfa_method: *mfa_method, message: message@ },
            DefguardEvent::RecoveryCodeUsed => DefguardEventView::RecoveryCodeUsed,
            DefguardEvent::PasswordChanged => DefguardEventView::PasswordChanged,
            DefguardEvent::MfaTotpEnabled => DefguardEventView::MfaTotpEnabled,
            DefguardEvent::MfaTotpDisabled => DefguardEventView::MfaTotpDisabled,
            DefguardEvent::MfaEmailEnabled => DefguardEventView::MfaEmailEnabled,
            DefguardEvent::MfaEmailDisabled => DefguardEventView::MfaEmailDisabled,
        }
    }
}

/// Something that happened at a VPN location, as its description is made from it.
#[derive(Debug, PartialEq, Eq)]
pub enum VpnEvent {
    ConnectedToLocation { location: WireguardNetwork, device: Device },
    DisconnectedFromLocation { location: WireguardNetwork, device: Device },
    MfaConnectedToLocation { location: WireguardNetwork, device: Device },
    MfaDisconnectedFromLocation { location: WireguardNetwork, device: Device },
    ClientMfaSuccess { location: WireguardNetwork, device: Device, method: ClientMFAMethod },
}

/// What an event tells of, for a description to be made of it.
#[derive(Debug, PartialEq, Eq)]
pub enum EventSubject {
    Defguard(DefguardEvent),
    Vpn(VpnEvent),
}

/// The contents of an [`EventSubject`].
pub enum EventSubjectView {
    Defguard(DefguardEventView),
    Vpn(VpnEvent),
}

impl View for EventSubject {
    type V = EventSubjectView;

    open spec fn view(&self) -> EventSubjectView {
        match self {
            EventSubject::Defguard(event) => EventSubjectView::Defguard(event@),
            EventSubject::Vpn(event) => EventSubjectView::Vpn(*event),
        }
    }
}

/// Details recorded along with an event, to be written out as a JSON document.
#[derive(Debug, PartialEq, Eq)]
pub enum EventMetadata {
    MfaLogin { mfa_method: MFAMethod },
    LoginFailed { message: String },
    MfaLoginFailed { mfa_method: MFAMethod, message: String },
    VpnClient { location: WireguardNetwork, device: Device },
    VpnClientMfa { location: WireguardNetwork, device: Device, method: ClientMFAMethod },
}

/// The contents of an [`EventMetadata`].
pub enum EventMetadataView {
    MfaLogin { mfa_method: MFAMethod },
    LoginFailed { message: Seq<char> },
    MfaLoginFailed { mfa_method: MFAMethod, message: Seq<char> },
    VpnClient { location: WireguardNetwork, device: Device },
    VpnClientMfa { location: WireguardNetwork, device: Device, method: ClientMFAMethod },
}

impl View for EventMetadata {
    type V = EventMetadataView;

    open spec fn view(&self) -> EventMetadataView {
        match self {
            EventMetadata::MfaLogin { mfa_method } => EventMetadataView::MfaLogin {
                mfa_method: *mfa_method,
            },
            EventMetadata::LoginFailed { message } => EventMetadataView::LoginFailed {
                message: message@,
            },
            EventMetadata::MfaLoginFailed { mfa_method, message } =>
                EventMetadataView::MfaLoginFailed { mfa_method: *mfa_method, message: message@ },
            EventMetadata::VpnClient { location, device } => EventMetadataView::VpnClient {
                location: *location,
                device: *device,
            },
            EventMetadata::VpnClientMfa { location, device, method } =>
                EventMetadataView::VpnClientMfa {
                location: *location,
                device: *device,
                method: *method,
            },
        }
    }
}

/// An event that has been made up, apart from who it happened to and when.
#[derive(Debug, PartialEq, Eq)]
pub struct GeneratedEvent {
    pub module: ActivityLogModule,
    pub event_type: EventType,
    pub subject: EventSubject,
    pub metadata: Option<EventMetadata>,
    /// Name of the VPN location.
    pub location: Option<String>,
    /// The browser or the device.
    pub device: String,
}

/// The contents of a [`GeneratedEvent`].
#[verifier::ext_equal]
pub struct GeneratedEventView {
    pub module: ActivityLogModule,
    pub event_type: EventType,
    pub subject: EventSubjectView,
    pub metadata: Option<EventMetadataView>,
    pub location: Option<Seq<char>>,
    pub device: Seq<char>,
}

impl View for GeneratedEvent {
    type V = GeneratedEventView;

    open spec fn view(&self) -> GeneratedEventView {
        GeneratedEventView {
            module: self.module,
            event_type: self.event_type,
            subject: self.subject@,
            metadata: match self.metadata {
                Some(metadata) => Some(metadata@),
                None => None,
            },
            location: self.location.deep_view(),
            device: self.device@,
        }
    }
}

/// An event that lacks only its description and its written-out details.
#[derive(Debug, PartialEq, Eq)]
pub struct EventDraft {
    pub timestamp: Timestamp,
    pub user_id: Id,
    pub username: String,
    pub generated: GeneratedEvent,
}

/// A JSON document of `serde_json`, carried through as it is.
#[verifier::external_type_specification]
#[verifier::external_body]
pub struct ExValue(serde_json::Value);

/// A record of the activity log, not stored yet.
#[derive(Debug, PartialEq)]
pub struct ActivityLogEvent {
    pub timestamp: Timestamp,
    pub user_id: Id,
    pub username: String,
    pub location: Option<String>,
    pub ip: Option<String>,
    pub event: EventType,
    pub module: ActivityLogModule,
    pub device: String,
    pub description: Option<String>,
    pub metadata: Option<serde_json::Value>,
}

impl EventDraft {
    /// The record that this draft becomes with the description made of its subject and the document
    /// made of its details. A draft without details becomes a record without a document.
    pub fn complete(self, description: Option<String>, metadata: Option<serde_json::Value>) -> (event:
        ActivityLogEvent)
        ensures
            event == (ActivityLogEvent {
                timestamp: self.timestamp,
                user_id: self.user_id,
                username: self.username,
                location: self.generated.location,
                ip: None,
                event: self.generated.event_type,
                module: self.generated.module,
                device: self.generated.device,
                description,
                metadata: if self.generated.metadata is Some {
                    metadata
                } else {
                    None
                },
            }),
    {
        let metadata = match self.generated.metadata {
            Some(_) => metadata,
            None => None,
        };
        ActivityLogEvent {
            timestamp: self.timestamp,
            user_id: self.user_id,
            username: self.username,
            location: self.generated.location,
            ip: None,
            event: self.generated.event_type,
            module: self.generated.module,
            device: self.generated.device,
            description,
            metadata,
        }
    }
}

} // verus!
