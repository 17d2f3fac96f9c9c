//! The request/response payload shapes. Each is a plain record composing
//! bounded-length identifiers, identity tokens, enumerated vocabulary
//! members and primitive fields; a payload can only be assembled once every
//! embedded identifier has passed its own validating constructor, and no
//! inter-field consistency check applies beyond that.

pub mod authorize;
pub mod boot_notification;
pub mod cancel_reservation;
pub mod change_availability;
pub mod clear_cache;
pub mod clear_charging_profile;
pub mod data_transfer;
pub mod diagnostics_status_notification;
pub mod firmware_status_notification;
pub mod get_composite_schedule;
pub mod get_configuration;
