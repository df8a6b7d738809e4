//! The decisions of the HTTP handlers, apart from the I/O they perform.
pub mod login;
pub mod subscriptions;
pub mod subscriptions_confirm;
