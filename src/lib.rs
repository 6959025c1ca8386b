//! Data delivery for a feature-flag client: classifying HTTP outcomes,
//! conditional snapshot fetches with a one-entry cache, and bounded-retry
//! delivery of event batches.

pub mod event_sender;
pub mod feature_requester;
pub mod feature_requester_builders;
pub mod headers;
pub mod http_status;
