//! Multisignature custody core: a state-transition library that gates a pooled
//! balance behind a positional quorum of signer addresses, supports rotating
//! that quorum, and tracks per-depositor contributions.
//!
//! The library holds only the authorization and accounting logic; storage,
//! signature verification and the actual value transfer are left to the
//! surrounding runtime, which hands the handlers plain values (addresses and
//! is-signer flags) and commits or aborts their effects atomically.

pub mod laws;
pub mod ops;
pub mod state;

pub use ops::create_vault;
pub use ops::deposit;
pub use ops::rotate_signers;
pub use ops::withdraw;
pub use state::Addr;
pub use state::CustomError;
pub use state::DepositAccount;
pub use state::Vault;
pub use state::VaultModel;
pub use state::Witness;
