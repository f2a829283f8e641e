//! Verified model of the DID registry pallets.
pub mod did;
pub mod did_laws;
pub mod keys;
pub mod primitives;
pub mod storage;
pub mod template;
pub mod template_laws;
