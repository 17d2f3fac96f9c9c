//! Core value types: validation errors, bounded-length identifiers, the
//! identity token, authorization records, enumerated vocabularies, and the
//! record types embedded in message payloads.

pub mod authorization;
pub mod bounded;
pub mod charging_profile;
pub mod charging_schedule;
pub mod charging_schedule_period;
pub mod configuration;
pub mod datetime;
pub mod enumerations;
pub mod id_token;
pub mod meter_values;
pub mod validation;
