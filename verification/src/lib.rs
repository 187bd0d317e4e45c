//! A signing envelope for results computed inside a trusted-execution enclave.

pub mod clock;
pub mod codec;
pub mod envelope;
pub mod error;
pub mod identity;
pub mod intent;
pub mod random;
pub mod scope;
pub mod signer;
