//! Message vocabulary and field-level validation for an OCPP 1.6 style
//! charge-point protocol: length-bounded string types, the case-insensitive
//! identity-token equality rule, authorization records, enumerated status
//! vocabularies, and the request/response payload shapes that compose them.

pub mod messages;
pub mod types;

pub use types::validation::ValidationError;
