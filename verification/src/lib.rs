//! A newsletter subscription library: subscriber sign-up, confirmation-token
//! issuance and lookup, the unconfirmed-to-confirmed lifecycle, and the
//! construction of the outbound transactional-email request that delivers a
//! confirmation link.

pub mod domain;
pub mod email_client;
pub mod form;
pub mod helpers;
pub mod secret;
pub mod store;
pub mod subscriptions;
pub mod subscriptions_confirm;
pub mod telemetry;
pub mod text;
pub mod token;
