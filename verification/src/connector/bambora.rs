//! The Bambora connector.

pub mod transformers;
