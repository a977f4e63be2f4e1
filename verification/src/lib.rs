//! The decisions behind two administrative features of a VPN server: reading and changing its
//! settings (with the restrictions of a public demo instance), and filling its activity log with
//! plausible events.
//!
//! Nothing here talks to a database, a directory server or a client. What has to be done outside
//! is handed out as a value, and what came of it is handed back in.

pub mod activity_laws;
pub mod activity_log;
pub mod clock;
pub mod event;
pub mod event_laws;
pub mod ldap;
pub mod ldap_laws;
pub mod random;
pub mod response;
pub mod save;
pub mod save_laws;
pub mod save_runs;
pub mod settings;
pub mod settings_laws;
pub mod text;
