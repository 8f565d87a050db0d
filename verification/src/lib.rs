//! Connector abstraction layer of a payment router: one unified payment,
//! refund and webhook model, mapped to and from the wire formats of the
//! payment processors behind it.

pub mod errors;
pub mod types;
pub mod json;
pub mod form;
pub mod services;
pub mod api;
pub mod crypto;
pub mod utils;
pub mod payment_methods;
pub mod connector;
pub mod db;
