//! Capture-to-storage pipeline: trigger gating, frame encoding, optional
//! encryption at rest with vault-backed key custody, and a persistent,
//! timestamp-indexed blob store.

pub mod capture;
pub mod codec;
pub mod crypto;
pub mod keys;
pub mod settings;
pub mod store;
