//! Verified core of a service-booking and shop server: request validation,
//! role-based access decisions, bearer-token handling, token whitelist
//! bookkeeping, payment decisions, order numbering and appointment slot
//! planning. Database, Redis and HTTP plumbing live outside this crate.

pub mod error;
pub mod text;
pub mod ids;
pub mod time;
pub mod schedule;
pub mod validation;
pub mod auth;
pub mod guard;
pub mod tokens;
pub mod passwords;
pub mod reports;
pub mod paging;
pub mod users;
pub mod events;
pub mod orders;
pub mod payments;
pub mod catalog;
pub mod ordering;
