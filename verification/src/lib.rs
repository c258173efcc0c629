//! A minimal on-chain instruction handler that forwards a caller-supplied
//! text memo, together with a list of extra signer accounts, to the external
//! memo-recording program through one cross-program invocation.
//!
//! The library holds the verified core: validating the two declared accounts
//! and building the downstream call description. The surrounding runtime
//! glue that performs the invocation converts to and from these types.

pub mod account;
pub mod relay;
