//! Connector adapter between the router's payment model and the Bluesnap
//! wire model.

pub mod enums;
pub mod errors;
pub mod laws;
pub mod transformers;
pub mod types;
pub mod wire;
