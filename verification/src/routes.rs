//! One module per endpoint of the service.

pub mod admin;
pub mod health_check;
pub mod login;
pub mod subscriptions;
pub mod subscriptions_confirm;
