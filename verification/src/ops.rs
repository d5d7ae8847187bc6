//! The four operation handlers — vault creation, signer rotation, deposit and
//! withdrawal — and the spec functions that state exactly what each returns
//! and how it changes the records it touches.

use vstd::prelude::*;

use crate::state::Addr;
use crate::state::CustomError;
use crate::state::DepositAccount;
use crate::state::SIGNER_SLOTS;
use crate::state::Vault;
use crate::state::VaultModel;
use crate::state::Witness;
use crate::state::sentinel;

verus! {

/// Whether witness `w` satisfies the slot whose stored signer is `expected`:
/// the caller proved control of `w.addr`, and the address matches positionally.
pub open spec fn witness_approves(expected: Addr, w: Witness) -> bool {
    w.signed && w.addr == expected
}

/// The slots in `[lo, hi)` are all approved: the walk in `quorum_check` gets
/// from `lo` to `hi` without a fault.
pub open spec fn span_approved(signers: Seq<Addr>, ws: Seq<Witness>, lo: int, hi: int) -> bool {
    forall|j: int| lo <= j < hi ==> witness_approves(signers[j], #[trigger] ws[j])
}

/// Every active slot `i` in `[0, count)` is approved by witness `i`:
/// positional, unanimous quorum.
pub open spec fn quorum_approved(signers: Seq<Addr>, count: int, ws: Seq<Witness>) -> bool {
    span_approved(signers, ws, 0, count)
}

/// The in-order positional quorum walk, starting at slot `i`: at the first
/// faulty slot an unsigned witness yields `MissingSignature` and a mismatched
/// address yields `WrongSigner`; if all of `[i, count)` approve, `Ok`.
pub open spec fn quorum_check(
    signers: Seq<Addr>,
    ws: Seq<Witness>,
    i: int,
    count: int,
) -> Result<(), CustomError>
    decreases count - i,
{
    if i >= count {
        Ok(())
    } else if !ws[i].signed {
        Err(CustomError::MissingSignature)
    } else if ws[i].addr != signers[i] {
        Err(CustomError::WrongSigner)
    } else {
        quorum_check(signers, ws, i + 1, count)
    }
}

/// The walk succeeds exactly when every active slot is approved; its verdict
/// never depends on where it starts, as long as the slots before the start
/// are approved.
pub proof fn lemma_quorum_check_ok(signers: Seq<Addr>, ws: Seq<Witness>, i: int, count: int)
    requires
        0 <= i <= count,
    ensures
        quorum_check(signers, ws, i, count) is Ok <==> span_approved(signers, ws, i, count),
    decreases count - i,
{
    if i < count {
        lemma_quorum_check_ok(signers, ws, i + 1, count);
    }
}

/// The error taxonomy of the walk, resolved in order: the walk reports
/// `MissingSignature` exactly when the first faulty slot holds an unsigned
/// witness, and `WrongSigner` exactly when it holds a signed witness whose
/// address does not match the stored signer there — even one that is a valid
/// signer of some other slot.
pub proof fn lemma_quorum_check_err(signers: Seq<Addr>, ws: Seq<Witness>, i: int, count: int)
    requires
        0 <= i <= count,
    ensures
        quorum_check(signers, ws, i, count) == Err::<(), CustomError>(
            CustomError::MissingSignature,
        ) <==> exists|j: int|
            i <= j < count && span_approved(signers, ws, i, j) && !(#[trigger] ws[j]).signed,
        quorum_check(signers, ws, i, count) == Err::<(), CustomError>(
            CustomError::WrongSigner,
        ) <==> exists|j: int|
            i <= j < count && span_approved(signers, ws, i, j) && (#[trigger] ws[j]).signed
                && ws[j].addr != signers[j],
    decreases count - i,
{
    if i < count {
        lemma_quorum_check_err(signers, ws, i + 1, count);
        if witness_approves(signers[i], ws[i]) {
            assert forall|j: int|
                i <= j < count && span_approved(signers, ws, i, j) implies span_approved(
                signers,
                ws,
                i + 1,
                j,
            ) by {}
            assert forall|j: int|
                i + 1 <= j < count && span_approved(signers, ws, i + 1, j) implies span_approved(
                signers,
                ws,
                i,
                j,
            ) by {}
        } else {
            assert(span_approved(signers, ws, i, i));
        }
    }
}

/// The vault record that a successful creation writes: the given id and count,
/// the candidate addresses in the first `count` slots, the sentinel in the
/// rest, and a zero balance.
pub open spec fn created_vault(id: u64, count: u64, addrs: Seq<Addr>) -> VaultModel {
    VaultModel {
        id,
        signers: Seq::new(SIGNER_SLOTS as nat, |i: int| if i < count { addrs[i] } else { sentinel() }),
        count,
        balance: 0,
    }
}

/// Create a vault: fails with `WrongSignerCount` when the desired count is
/// zero, exceeds the slot capacity, or disagrees with the length of the
/// candidate list; otherwise returns the fresh record. No signature is
/// required from the named signers.
pub fn create_vault(id: u64, count: u64, signer_addrs: &Vec<Addr>) -> (r: Result<
    Vault,
    CustomError,
>)
    ensures
        r is Err <==> (count == 0 || count > SIGNER_SLOTS || signer_addrs@.len() != count),
        r matches Err(e) ==> e == CustomError::WrongSignerCount,
        r matches Ok(v) ==> v@ == created_vault(id, count, signer_addrs@) && v@.wf(),
{
    if count == 0 || count > SIGNER_SLOTS || signer_addrs.len() != count as usize {
        return Err(CustomError::WrongSignerCount);
    }
    let n: usize = count as usize;
    let mut signers: Vec<Addr> = Vec::new();
    let mut i: usize = 0;
    while i < n
        invariant
            i <= n,
            n == count,
            count <= SIGNER_SLOTS,
            signer_addrs@.len() == count,
            signers@.len() == i,
            forall|j: int| 0 <= j < i ==> signers@[j] == signer_addrs@[j],
        decreases n - i,
    {
        signers.push(signer_addrs[i]);
        i += 1;
    }
    while signers.len() < SIGNER_SLOTS as usize
        invariant
            n == count,
            count <= SIGNER_SLOTS,
            signer_addrs@.len() == count,
            count <= signers@.len() <= SIGNER_SLOTS,
            forall|j: int| 0 <= j < count ==> signers@[j] == signer_addrs@[j],
            forall|j: int| count <= j < signers@.len() ==> signers@[j] == sentinel(),
        decreases SIGNER_SLOTS - signers@.len(),
    {
        signers.push(Addr::sentinel());
    }
    let v = Vault { id, signers, count, balance: 0 };
    proof {
        assert(v@.signers =~= created_vault(id, count, signer_addrs@).signers);
        assert(v@ =~= created_vault(id, count, signer_addrs@));
    }
    Ok(v)
}

/// Verdict of a rotation: the witness list must hold exactly the current
/// count of existing-signer entries followed by the incoming addresses, and
/// the existing entries must pass the in-order positional quorum walk.
pub open spec fn rotate_result(v: VaultModel, new_count: u64, ws: Seq<Witness>) -> Result<
    (),
    CustomError,
> {
    if ws.len() != v.count + new_count {
        Err(CustomError::WrongSignerCount)
    } else {
        quorum_check(v.signers, ws, 0, v.count as int)
    }
}

/// The vault after a successful rotation: the `new_count` trailing witness
/// addresses fill the first slots, the sentinel fills the rest, and id and
/// balance are untouched.
pub open spec fn rotated_vault(v: VaultModel, new_count: u64, ws: Seq<Witness>) -> VaultModel {
    VaultModel {
        signers: Seq::new(
            SIGNER_SLOTS as nat,
            |i: int| if i < new_count { ws[v.count + i].addr } else { sentinel() },
        ),
        count: new_count,
        ..v
    }
}

/// The vault after a rotation attempt: rotated on success, unchanged on any
/// validation failure.
pub open spec fn rotate_next(v: VaultModel, new_count: u64, ws: Seq<Witness>) -> VaultModel {
    if rotate_result(v, new_count, ws) is Ok {
        rotated_vault(v, new_count, ws)
    } else {
        v
    }
}

/// Replace the active signer set, authorized by unanimous positional approval
/// of the current one. The first `count` witnesses must be the stored signers
/// in stored order, each with proof of control; the remaining `new_count`
/// witness addresses become the new signer set.
pub fn rotate_signers(vault: &mut Vault, new_count: u64, witnesses: &Vec<Witness>) -> (r: Result<
    (),
    CustomError,
>)
    requires
        old(vault)@.wf(),
        new_count <= SIGNER_SLOTS,
    ensures
        final(vault)@.wf(),
        r == rotate_result(old(vault)@, new_count, witnesses@),
        final(vault)@ == rotate_next(old(vault)@, new_count, witnesses@),
        r is Err ==> final(vault)@ == old(vault)@,
        r is Ok <==> witnesses@.len() == old(vault)@.count + new_count && quorum_approved(
            old(vault)@.signers,
            old(vault)@.count as int,
            witnesses@,
        ),
{
    let count: u64 = vault.count;
    if witnesses.len() != (count + new_count) as usize {
        return Err(CustomError::WrongSignerCount);
    }
    let mut i: usize = 0;
    while i < count as usize
        invariant
            *vault == *old(vault),
            old(vault)@.wf(),
            count == old(vault)@.count,
            witnesses@.len() == count + new_count,
            i <= count,
            quorum_check(vault@.signers, witnesses@, i as int, count as int) == quorum_check(
                vault@.signers,
                witnesses@,
                0,
                count as int,
            ),
        decreases count - i,
    {
        let w = witnesses[i];
        if !w.signed {
            return Err(CustomError::MissingSignature);
        }
        if w.addr != vault.signers[i] {
            return Err(CustomError::WrongSigner);
        }
        i += 1;
    }
    let mut j: usize = 0;
    while j < SIGNER_SLOTS as usize
        invariant
            j <= SIGNER_SLOTS,
            vault@.signers.len() == SIGNER_SLOTS,
            vault.id == old(vault).id,
            vault.count == old(vault).count,
            vault.balance == old(vault).balance,
            forall|k: int| 0 <= k < j ==> vault@.signers[k] == sentinel(),
        decreases SIGNER_SLOTS - j,
    {
        vault.signers.set(j, Addr::sentinel());
        j += 1;
    }
    let mut k: usize = 0;
    while k < new_count as usize
        invariant
            k <= new_count,
            new_count <= SIGNER_SLOTS,
            count <= SIGNER_SLOTS,
            count == old(vault)@.count,
            count + new_count <= witnesses@.len(),
            vault@.signers.len() == SIGNER_SLOTS,
            vault.id == old(vault).id,
            vault.count == old(vault).count,
            vault.balance == old(vault).balance,
            forall|m: int| 0 <= m < k ==> vault@.signers[m] == witnesses@[count + m].addr,
            forall|m: int| k <= m < SIGNER_SLOTS ==> vault@.signers[m] == sentinel(),
        decreases new_count - k,
    {
        let w = witnesses[count as usize + k];
        vault.signers.set(k, w.addr);
        k += 1;
    }
    vault.count = new_count;
    proof {
        lemma_quorum_check_ok(old(vault)@.signers, witnesses@, 0, count as int);
        assert(vault@.signers =~= rotated_vault(old(vault)@, new_count, witnesses@).signers);
        assert(vault@ =~= rotated_vault(old(vault)@, new_count, witnesses@));
    }
    Ok(())
}

/// Verdict of a deposit: it fails with `Overflow` when accumulating `amount`
/// into the vault balance or into the depositor's ledger entry would exceed
/// the representable range, and succeeds otherwise. No signature is involved.
pub open spec fn deposit_result(balance: u64, prior: u64, amount: u64) -> Result<
    (),
    CustomError,
> {
    if balance + amount > u64::MAX || prior + amount > u64::MAX {
        Err(CustomError::Overflow)
    } else {
        Ok(())
    }
}

/// Accumulate a deposit: add `amount` to the vault's tracked balance and to
/// the caller's ledger entry, and (re)write the entry's owner and vault
/// fields. Any caller may deposit into any vault; the surrounding runtime has
/// already moved the native units into the custody sub-account and aborts the
/// whole operation if this accounting step fails.
pub fn deposit(
    vault: &mut Vault,
    account: &mut DepositAccount,
    owner: Addr,
    vault_addr: Addr,
    amount: u64,
) -> (r: Result<(), CustomError>)
    ensures
        r == deposit_result(old(vault)@.balance, old(account).amount, amount),
        r is Ok ==> final(vault)@ == (VaultModel {
            balance: (old(vault)@.balance + amount) as u64,
            ..old(vault)@
        }),
        r is Ok ==> *final(account) == (DepositAccount {
            owner,
            vault: vault_addr,
            amount: (old(account).amount + amount) as u64,
        }),
        r is Err ==> final(vault)@ == old(vault)@ && *final(account) == *old(account),
        final(vault)@.wf() == old(vault)@.wf(),
{
    if amount > u64::MAX - vault.balance {
        return Err(CustomError::Overflow);
    }
    if amount > u64::MAX - account.amount {
        return Err(CustomError::Overflow);
    }
    vault.balance = vault.balance + amount;
    account.amount = account.amount + amount;
    account.owner = owner;
    account.vault = vault_addr;
    Ok(())
}

/// Verdict of a withdrawal: `InsufficientBalance` when the amount exceeds the
/// tracked balance — checked before any signature — and otherwise the verdict
/// of the in-order positional quorum walk over all active signers.
pub open spec fn withdraw_result(v: VaultModel, amount: u64, ws: Seq<Witness>) -> Result<
    (),
    CustomError,
> {
    if amount > v.balance {
        Err(CustomError::InsufficientBalance)
    } else {
        quorum_check(v.signers, ws, 0, v.count as int)
    }
}

/// The vault after a withdrawal attempt: the tracked balance drops by the
/// amount on success; nothing changes on failure.
pub open spec fn withdraw_next(v: VaultModel, amount: u64, ws: Seq<Witness>) -> VaultModel {
    if withdraw_result(v, amount, ws) is Ok {
        VaultModel { balance: (v.balance - amount) as u64, ..v }
    } else {
        v
    }
}

/// Release `amount` from the vault, authorized by unanimous positional
/// approval of all currently active signers. The recipient is whoever the
/// surrounding runtime pays out to; it is never checked against the deposit
/// ledger. The witness list holds one entry per active signer slot.
pub fn withdraw(vault: &mut Vault, amount: u64, witnesses: &Vec<Witness>) -> (r: Result<
    (),
    CustomError,
>)
    requires
        old(vault)@.wf(),
        witnesses@.len() == old(vault)@.count,
    ensures
        final(vault)@.wf(),
        r == withdraw_result(old(vault)@, amount, witnesses@),
        final(vault)@ == withdraw_next(old(vault)@, amount, witnesses@),
        r is Err ==> final(vault)@ == old(vault)@,
        r is Ok <==> amount <= old(vault)@.balance && quorum_approved(
            old(vault)@.signers,
            old(vault)@.count as int,
            witnesses@,
        ),
{
    if amount > vault.balance {
        return Err(CustomError::InsufficientBalance);
    }
    let count: u64 = vault.count;
    let mut i: usize = 0;
    while i < count as usize
        invariant
            *vault == *old(vault),
            old(vault)@.wf(),
            count == old(vault)@.count,
            witnesses@.len() == count,
            i <= count,
            amount <= vault.balance,
            quorum_check(vault@.signers, witnesses@, i as int, count as int) == quorum_check(
                vault@.signers,
                witnesses@,
                0,
                count as int,
            ),
        decreases count - i,
    {
        let w = witnesses[i];
        if !w.signed {
            return Err(CustomError::MissingSignature);
        }
        if w.addr != vault.signers[i] {
            return Err(CustomError::WrongSigner);
        }
        i += 1;
    }
    vault.balance = vault.balance - amount;
    proof {
        lemma_quorum_check_ok(old(vault)@.signers, witnesses@, 0, count as int);
        assert(vault@ =~= withdraw_next(old(vault)@, amount, witnesses@));
    }
    Ok(())
}

} // verus!
