use game_multisig_vault::create_vault;
use game_multisig_vault::deposit;
use game_multisig_vault::rotate_signers;
use game_multisig_vault::withdraw;
use game_multisig_vault::Addr;
use game_multisig_vault::CustomError;
use game_multisig_vault::DepositAccount;
use game_multisig_vault::Vault;
use game_multisig_vault::Witness;

fn addr(n: u128) -> Addr {
    Addr { hi: n, lo: n.wrapping_mul(31) }
}

fn zero_addr() -> Addr {
    Addr { hi: 0, lo: 0 }
}

fn signed(a: Addr) -> Witness {
    Witness { addr: a, signed: true }
}

fn unsigned(a: Addr) -> Witness {
    Witness { addr: a, signed: false }
}

fn fresh_account(owner: Addr, vault: Addr) -> DepositAccount {
    DepositAccount {
        owner,
        vault,
        amount: 0,
    }
}

fn two_signer_vault() -> Vault {
    create_vault(1, 2, &vec![addr(10), addr(20)]).unwrap()
}

#[test]
fn create_vault_rejects_zero_count() {
    let r = create_vault(1, 0, &vec![]);
    assert_eq!(r.unwrap_err(), CustomError::WrongSignerCount);
}

#[test]
fn create_vault_rejects_count_over_capacity() {
    let nine: Vec<Addr> = (1..=9).map(|n| addr(n)).collect();
    let r = create_vault(1, 9, &nine);
    assert_eq!(r.unwrap_err(), CustomError::WrongSignerCount);
}

#[test]
fn create_vault_rejects_list_length_mismatch() {
    let r = create_vault(1, 2, &vec![addr(10)]);
    assert_eq!(r.unwrap_err(), CustomError::WrongSignerCount);
}

#[test]
fn create_vault_fills_slots_and_sentinel() {
    let v = create_vault(1, 2, &vec![addr(10), addr(20)]).unwrap();
    assert_eq!(v.id, 1);
    assert_eq!(v.count, 2);
    assert_eq!(v.balance, 0);
    assert_eq!(v.signers.len(), 8);
    assert_eq!(v.signers[0], addr(10));
    assert_eq!(v.signers[1], addr(20));
    for i in 2..8 {
        assert_eq!(v.signers[i], zero_addr());
    }
}

#[test]
fn rotate_rejects_wrong_witness_count() {
    let mut v = two_signer_vault();
    // one existing-signer entry is missing: 2 current + 1 incoming needs 3
    let r = rotate_signers(&mut v, 1, &vec![signed(addr(10)), unsigned(addr(30))]);
    assert_eq!(r.unwrap_err(), CustomError::WrongSignerCount);
    assert_eq!(v.count, 2);
    assert_eq!(v.signers[0], addr(10));
}

#[test]
fn rotate_rejects_missing_signature() {
    let mut v = two_signer_vault();
    let ws = vec![signed(addr(10)), unsigned(addr(20)), unsigned(addr(30))];
    let r = rotate_signers(&mut v, 1, &ws);
    assert_eq!(r.unwrap_err(), CustomError::MissingSignature);
    assert_eq!(v.count, 2);
    assert_eq!(v.signers[0], addr(10));
    assert_eq!(v.signers[1], addr(20));
}

#[test]
fn rotate_rejects_right_signer_in_wrong_slot() {
    let mut v = two_signer_vault();
    // both stored signers approve, but in swapped positions
    let ws = vec![signed(addr(20)), signed(addr(10)), unsigned(addr(30))];
    let r = rotate_signers(&mut v, 1, &ws);
    assert_eq!(r.unwrap_err(), CustomError::WrongSigner);
    assert_eq!(v.count, 2);
    assert_eq!(v.signers[0], addr(10));
    assert_eq!(v.signers[1], addr(20));
}

#[test]
fn rotate_shrinks_signer_set() {
    let mut v = two_signer_vault();
    let ws = vec![signed(addr(10)), signed(addr(20)), unsigned(addr(30))];
    let r = rotate_signers(&mut v, 1, &ws);
    assert!(r.is_ok());
    assert_eq!(v.count, 1);
    assert_eq!(v.signers[0], addr(30));
    for i in 1..8 {
        assert_eq!(v.signers[i], zero_addr());
    }
}

#[test]
fn rotate_grows_signer_set() {
    let mut v = create_vault(1, 1, &vec![addr(10)]).unwrap();
    let ws = vec![signed(addr(10)), unsigned(addr(40)), unsigned(addr(50))];
    let r = rotate_signers(&mut v, 2, &ws);
    assert!(r.is_ok());
    assert_eq!(v.count, 2);
    assert_eq!(v.signers[0], addr(40));
    assert_eq!(v.signers[1], addr(50));
    assert_eq!(v.signers[2], zero_addr());
}

#[test]
fn deposit_needs_no_signature_and_accumulates() {
    let mut v = two_signer_vault();
    let owner = addr(99);
    let vault_addr = addr(7);
    let mut acct = fresh_account(owner, vault_addr);
    assert!(deposit(&mut v, &mut acct, owner, vault_addr, 5).is_ok());
    assert!(deposit(&mut v, &mut acct, owner, vault_addr, 3).is_ok());
    assert_eq!(acct.amount, 8);
    assert_eq!(acct.owner, owner);
    assert_eq!(acct.vault, vault_addr);
    assert_eq!(v.balance, 8);
    // signer state is untouched
    assert_eq!(v.count, 2);
    assert_eq!(v.signers[0], addr(10));
}

#[test]
fn deposit_rejects_vault_balance_overflow() {
    let mut v = two_signer_vault();
    let owner = addr(99);
    let vault_addr = addr(7);
    let mut acct = fresh_account(owner, vault_addr);
    assert!(deposit(&mut v, &mut acct, owner, vault_addr, u64::MAX).is_ok());
    let r = deposit(&mut v, &mut acct, owner, vault_addr, 1);
    assert_eq!(r.unwrap_err(), CustomError::Overflow);
    assert_eq!(v.balance, u64::MAX);
    assert_eq!(acct.amount, u64::MAX);
}

#[test]
fn deposit_rejects_ledger_overflow() {
    let mut v = two_signer_vault();
    let vault_addr = addr(7);
    let rich = addr(98);
    let mut rich_acct = DepositAccount {
        owner: rich,
        vault: vault_addr,
        amount: u64::MAX - 2,
    };
    // the vault balance has room, the ledger entry does not
    let r = deposit(&mut v, &mut rich_acct, rich, vault_addr, 5);
    assert_eq!(r.unwrap_err(), CustomError::Overflow);
    assert_eq!(v.balance, 0);
    assert_eq!(rich_acct.amount, u64::MAX - 2);
}

#[test]
fn withdraw_checks_balance_before_signatures() {
    let mut v = two_signer_vault();
    // both witnesses are wrong AND the balance is short: the balance verdict wins
    let ws = vec![unsigned(addr(30)), unsigned(addr(40))];
    let r = withdraw(&mut v, 1, &ws);
    assert_eq!(r.unwrap_err(), CustomError::InsufficientBalance);
    assert_eq!(v.balance, 0);
}

#[test]
fn withdraw_rejects_missing_signature() {
    let mut v = two_signer_vault();
    let owner = addr(99);
    let vault_addr = addr(7);
    let mut acct = fresh_account(owner, vault_addr);
    assert!(deposit(&mut v, &mut acct, owner, vault_addr, 10).is_ok());
    let ws = vec![signed(addr(10)), unsigned(addr(20))];
    let r = withdraw(&mut v, 10, &ws);
    assert_eq!(r.unwrap_err(), CustomError::MissingSignature);
    assert_eq!(v.balance, 10);
}

#[test]
fn withdraw_rejects_right_signer_in_wrong_slot() {
    let mut v = two_signer_vault();
    let owner = addr(99);
    let vault_addr = addr(7);
    let mut acct = fresh_account(owner, vault_addr);
    assert!(deposit(&mut v, &mut acct, owner, vault_addr, 10).is_ok());
    let ws = vec![signed(addr(20)), signed(addr(10))];
    let r = withdraw(&mut v, 10, &ws);
    assert_eq!(r.unwrap_err(), CustomError::WrongSigner);
    assert_eq!(v.balance, 10);
}

#[test]
fn end_to_end_deposit_then_drain() {
    let mut v = create_vault(1, 2, &vec![addr(10), addr(20)]).unwrap();
    let owner = addr(99);
    let vault_addr = addr(7);
    let mut acct = fresh_account(owner, vault_addr);
    assert!(deposit(&mut v, &mut acct, owner, vault_addr, 10).is_ok());
    assert_eq!(v.balance, 10);
    let ws = vec![signed(addr(10)), signed(addr(20))];
    assert!(withdraw(&mut v, 10, &ws).is_ok());
    assert_eq!(v.balance, 0);
    let r = withdraw(&mut v, 1, &ws);
    assert_eq!(r.unwrap_err(), CustomError::InsufficientBalance);
    assert_eq!(v.balance, 0);
    assert_eq!(v.count, 2);
    assert_eq!(v.signers[0], addr(10));
    assert_eq!(v.signers[1], addr(20));
}

#[test]
fn quorum_reports_first_fault_in_order() {
    // slot 0 is unsigned and slot 1 mismatched: the walk reports the
    // earlier fault
    let mut v = two_signer_vault();
    let owner = addr(99);
    let vault_addr = addr(7);
    let mut acct = fresh_account(owner, vault_addr);
    assert!(deposit(&mut v, &mut acct, owner, vault_addr, 10).is_ok());
    let ws = vec![unsigned(addr(10)), signed(addr(30))];
    let r = withdraw(&mut v, 10, &ws);
    assert_eq!(r.unwrap_err(), CustomError::MissingSignature);
}

#[test]
fn balance_tracks_successful_flows_only() {
    let mut v = two_signer_vault();
    let owner = addr(99);
    let vault_addr = addr(7);
    let mut acct = fresh_account(owner, vault_addr);
    let good = vec![signed(addr(10)), signed(addr(20))];
    let bad = vec![unsigned(addr(10)), unsigned(addr(20))];
    assert!(deposit(&mut v, &mut acct, owner, vault_addr, 7).is_ok());
    assert!(withdraw(&mut v, 2, &good).is_ok());
    assert!(withdraw(&mut v, 100, &good).is_err()); // insufficient, no effect
    assert!(withdraw(&mut v, 1, &bad).is_err()); // unsigned, no effect
    assert!(rotate_signers(&mut v, 1, &vec![signed(addr(10)), unsigned(addr(20)), unsigned(addr(30))]).is_err());
    assert!(deposit(&mut v, &mut acct, owner, vault_addr, 3).is_ok());
    // deposited 10 in total, withdrew 2 in total
    assert_eq!(v.balance, 8);
    assert_eq!(acct.amount, 10);
}

#[test]
fn rotate_to_zero_leaves_quorum_empty() {
    // rotating to an empty signer set is accepted, and afterwards a withdrawal
    // needs no witness at all
    let mut v = two_signer_vault();
    let owner = addr(99);
    let vault_addr = addr(7);
    let mut acct = fresh_account(owner, vault_addr);
    assert!(deposit(&mut v, &mut acct, owner, vault_addr, 4).is_ok());
    let ws = vec![signed(addr(10)), signed(addr(20))];
    assert!(rotate_signers(&mut v, 0, &ws).is_ok());
    assert_eq!(v.count, 0);
    for i in 0..8 {
        assert_eq!(v.signers[i], zero_addr());
    }
    assert!(withdraw(&mut v, 4, &vec![]).is_ok());
    assert_eq!(v.balance, 0);
}
