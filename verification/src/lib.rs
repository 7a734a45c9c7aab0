//! Host-side bridge between the operator's editable JSON marketplace
//! index and the canonical model that the on-OS decoder reads: flag
//! parsing, JSON-to-index projection and back, operator key handling
//! and the decisions that the `encode`, `sign`, `verify` and
//! `sign-release` steps take.

pub mod abi;
pub mod args;
pub mod commands;
pub mod error;
pub mod hexcodec;
pub mod json;
pub mod keys;
pub mod release_signing;
pub mod schema;
pub mod text;
