//! Data model of the vault: addresses, witnesses, the vault record, the
//! per-depositor ledger record, and the error taxonomy.

use vstd::prelude::*;

verus! {

/// Number of signer slots in a vault record. Slots at or beyond the active
/// count hold the sentinel address.
pub const SIGNER_SLOTS: u64 = 8;

/// A 256-bit account address, held as two 128-bit words.
#[derive(Clone, Copy, PartialEq, Eq, Structural, Debug)]
pub struct Addr {
    pub hi: u128,
    pub lo: u128,
}

/// The sentinel address (all zero) that fills inactive signer slots.
pub open spec fn sentinel() -> Addr {
    Addr { hi: 0, lo: 0 }
}

impl Addr {
    /// The sentinel address as an executable value.
    pub fn sentinel() -> (a: Addr)
        ensures
            a == sentinel(),
    {
        Addr { hi: 0, lo: 0 }
    }
}

/// One entry of the trailing witness list of an operation: an address plus the
/// runtime's verdict on whether the caller proved control of it.
#[derive(Clone, Copy, PartialEq, Eq, Structural, Debug)]
pub struct Witness {
    pub addr: Addr,
    pub signed: bool,
}

/// The record governing a pool of custody value and its controlling signer set.
///
/// `signers` always holds exactly `SIGNER_SLOTS` entries; the first `count`
/// are the active quorum, the rest hold the sentinel.
#[derive(Debug)]
pub struct Vault {
    pub id: u64,
    pub signers: Vec<Addr>,
    pub count: u64,
    pub balance: u64,
}

/// Mathematical model of a vault record.
#[verifier::ext_equal]
pub struct VaultModel {
    pub id: u64,
    pub signers: Seq<Addr>,
    pub count: u64,
    pub balance: u64,
}

impl VaultModel {
    /// Well-formedness: exactly `SIGNER_SLOTS` slots, an active count within
    /// them, and the sentinel in every inactive slot.
    pub open spec fn wf(self) -> bool {
        &&& self.signers.len() == SIGNER_SLOTS
        &&& self.count <= SIGNER_SLOTS
        &&& forall|i: int| self.count <= i < SIGNER_SLOTS ==> self.signers[i] == sentinel()
    }
}

impl View for Vault {
    type V = VaultModel;

    open spec fn view(&self) -> VaultModel {
        VaultModel {
            id: self.id,
            signers: self.signers@,
            count: self.count,
            balance: self.balance,
        }
    }
}

/// Per-depositor accounting entry: cumulative units deposited by `owner` into
/// the vault stored at address `vault`. Purely observational; withdrawal never
/// reads it.
#[derive(Clone, Copy, PartialEq, Eq, Structural, Debug)]
pub struct DepositAccount {
    pub owner: Addr,
    pub vault: Addr,
    pub amount: u64,
}

/// The error taxonomy of the core. Any error aborts the whole operation with
/// no state change.
#[derive(Clone, Copy, PartialEq, Eq, Structural, Debug)]
pub enum CustomError {
    /// Supplied counts or list lengths disagree with the declared or stored
    /// signer count.
    WrongSignerCount,
    /// A required witness lacks valid proof of control.
    MissingSignature,
    /// A required witness's address does not positionally match the stored
    /// signer.
    WrongSigner,
    /// Withdrawal amount exceeds the tracked vault balance.
    InsufficientBalance,
    /// A balance accumulation would exceed the representable range.
    Overflow,
}

} // verus!
