//! Read-only status queries on an open cryptsetup device: runtime state,
//! cipher, identity, geometry and verity / integrity parameters, with every
//! raw engine answer translated into typed values and typed errors.

pub mod err;
pub mod format;
pub mod status;
pub mod text;
