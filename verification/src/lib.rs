//! Bundle-oriented extension to a blockchain JSON-RPC service: atomic,
//! ordered submission of multiple transactions and chained, non-committing
//! simulation, with a deterministic bundle identifier derived from the
//! member signatures.

pub mod bundle_id;
pub mod encoding;
pub mod endpoint;
pub mod errors;
pub mod signature;
pub mod simulate;
pub mod submit;
