//! System-level laws: a model of whole operation sequences over a vault and
//! its deposit ledger, and the proof that the core neither creates nor
//! destroys value.

use vstd::prelude::*;

use crate::ops::deposit_result;
use crate::ops::rotate_next;
use crate::ops::rotate_result;
use crate::ops::withdraw_next;
use crate::ops::withdraw_result;
use crate::state::Addr;
use crate::state::SIGNER_SLOTS;
use crate::state::VaultModel;
use crate::state::Witness;

verus! {

/// One operation submitted against an existing vault. Creation is not an
/// `Op`: a sequence starts from the freshly created vault.
pub enum Op {
    Rotate { new_count: u64, witnesses: Seq<Witness> },
    Deposit { owner: Addr, amount: u64 },
    Withdraw { amount: u64, witnesses: Seq<Witness> },
}

/// The state an operation sequence runs over: the vault record together with
/// the deposit ledger, one cumulative entry per depositor address.
#[verifier::ext_equal]
pub struct SystemModel {
    pub vault: VaultModel,
    pub ledger: Map<Addr, u64>,
}

/// The cumulative amount the ledger records for `owner`; an absent entry
/// stands for a record not yet created, which accumulates from zero.
pub open spec fn ledger_amount(ledger: Map<Addr, u64>, owner: Addr) -> u64 {
    if ledger.dom().contains(owner) {
        ledger[owner]
    } else {
        0
    }
}

/// The shape every submitted operation has: a rotation fits the slot
/// capacity, and a withdrawal carries one witness per active signer slot.
/// These mirror the preconditions of the handlers.
pub open spec fn op_valid(s: SystemModel, op: Op) -> bool {
    match op {
        Op::Rotate { new_count, .. } => new_count <= SIGNER_SLOTS,
        Op::Deposit { .. } => true,
        Op::Withdraw { witnesses, .. } => witnesses.len() == s.vault.count,
    }
}

/// Whether the operation succeeds in state `s`, exactly as the handlers'
/// contracts say.
pub open spec fn op_ok(s: SystemModel, op: Op) -> bool {
    match op {
        Op::Rotate { new_count, witnesses } => rotate_result(s.vault, new_count, witnesses) is Ok,
        Op::Deposit { owner, amount } => deposit_result(
            s.vault.balance,
            ledger_amount(s.ledger, owner),
            amount,
        ) is Ok,
        Op::Withdraw { amount, witnesses } => withdraw_result(s.vault, amount, witnesses) is Ok,
    }
}

/// The state after one operation: the transition of the matching handler on
/// success, the same state on any failure.
pub open spec fn step(s: SystemModel, op: Op) -> SystemModel {
    match op {
        Op::Rotate { new_count, witnesses } => SystemModel {
            vault: rotate_next(s.vault, new_count, witnesses),
            ..s
        },
        Op::Deposit { owner, amount } => {
            if op_ok(s, op) {
                SystemModel {
                    vault: VaultModel {
                        balance: (s.vault.balance + amount) as u64,
                        ..s.vault
                    },
                    ledger: s.ledger.insert(owner, (ledger_amount(s.ledger, owner) + amount) as u64),
                }
            } else {
                s
            }
        },
        Op::Withdraw { amount, witnesses } => SystemModel {
            vault: withdraw_next(s.vault, amount, witnesses),
            ..s
        },
    }
}

/// The state after a whole operation sequence, applied in order.
pub open spec fn run(s: SystemModel, ops: Seq<Op>) -> SystemModel
    decreases ops.len(),
{
    if ops.len() == 0 {
        s
    } else {
        run(step(s, ops[0]), ops.skip(1))
    }
}

/// Total amount of the deposits in `ops` that succeed when the sequence runs
/// from state `s`.
pub open spec fn deposited(s: SystemModel, ops: Seq<Op>) -> int
    decreases ops.len(),
{
    if ops.len() == 0 {
        0
    } else {
        let head: int = match ops[0] {
            Op::Deposit { amount, .. } => if op_ok(s, ops[0]) {
                amount as int
            } else {
                0
            },
            _ => 0,
        };
        head + deposited(step(s, ops[0]), ops.skip(1))
    }
}

/// Total amount of the withdrawals in `ops` that succeed when the sequence
/// runs from state `s`.
pub open spec fn withdrawn(s: SystemModel, ops: Seq<Op>) -> int
    decreases ops.len(),
{
    if ops.len() == 0 {
        0
    } else {
        let head: int = match ops[0] {
            Op::Withdraw { amount, .. } => if op_ok(s, ops[0]) {
                amount as int
            } else {
                0
            },
            _ => 0,
        };
        head + withdrawn(step(s, ops[0]), ops.skip(1))
    }
}

/// No value is created or destroyed by the core itself: across any operation
/// sequence, the tracked vault balance changes by exactly the total of the
/// successful deposits minus the total of the successful withdrawals.
pub proof fn lemma_balance_conservation(s: SystemModel, ops: Seq<Op>)
    ensures
        run(s, ops).vault.balance + withdrawn(s, ops) == s.vault.balance + deposited(s, ops),
    decreases ops.len(),
{
    if ops.len() > 0 {
        lemma_balance_conservation(step(s, ops[0]), ops.skip(1));
    }
}

/// Every operation of the sequence has the shape the handlers ask for, each
/// judged in the state it actually runs in.
pub open spec fn ops_valid(s: SystemModel, ops: Seq<Op>) -> bool
    decreases ops.len(),
{
    ops.len() == 0 || (op_valid(s, ops[0]) && ops_valid(step(s, ops[0]), ops.skip(1)))
}

/// Validity never asks more than the handlers' preconditions, and under it
/// every operation leaves a well-formed vault: the slot capacity and the
/// sentinel fill of inactive slots are invariants of the whole system.
pub proof fn lemma_wf_preserved(s: SystemModel, op: Op)
    requires
        s.vault.wf(),
        op_valid(s, op),
    ensures
        step(s, op).vault.wf(),
{
}

/// Well-formedness is an invariant of whole runs: a vault that starts well
/// formed stays so across any valid operation sequence.
pub proof fn lemma_run_wf(s: SystemModel, ops: Seq<Op>)
    requires
        s.vault.wf(),
        ops_valid(s, ops),
    ensures
        run(s, ops).vault.wf(),
    decreases ops.len(),
{
    if ops.len() > 0 {
        lemma_wf_preserved(s, ops[0]);
        lemma_run_wf(step(s, ops[0]), ops.skip(1));
    }
}

} // verus!
