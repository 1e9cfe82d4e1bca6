//! A synchronization engine for game modifications distributed through a
//! remote workshop catalog and a packaging/delivery service.
//!
//! The library holds the decision logic: the registry of games and installed
//! mods, the staleness policy, the polling state machine for package
//! preparation, the exact texts sent to the remote services and written to
//! disk, and the plan each install must follow. Callers perform the actual
//! network and filesystem work and feed the results back as events.

pub mod batch;
pub mod engine;
pub mod errors;
pub mod fetch;
pub mod install;
pub mod manifest;
pub mod protocol;
pub mod registry;
pub mod text;
