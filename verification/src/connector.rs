//! The connectors, one module each.

pub mod adyen;
pub mod bambora;
