use splitdacheck::address::{derive_address, derive_vault_address, id_le_bytes, Address};
use splitdacheck::check::{CheckError, Payment, Status, TokenAccount, Vault};
use splitdacheck::ledger::Ledger;

fn addr(b: u8) -> Address {
    Address::new([b; 32])
}

fn program() -> Address {
    addr(200)
}

fn asset_x() -> Address {
    addr(10)
}

fn authority() -> Address {
    addr(1)
}

fn account(address: u8, owner: Address, asset_id: Address, amount: u64) -> TokenAccount {
    TokenAccount { address: addr(address), owner, asset_id, amount }
}

fn payer(amount: u64) -> TokenAccount {
    account(50, addr(2), asset_x(), amount)
}

fn recipient(amount: u64) -> TokenAccount {
    account(51, authority(), asset_x(), amount)
}

fn ledger_with(id: u64, total: u64) -> Ledger {
    let mut l = Ledger::new(program());
    l.create_check(id, total, asset_x(), authority()).unwrap();
    l
}

fn vault_balance(l: &Ledger, id: u64) -> u64 {
    l.record(id).unwrap().vault.balance
}

#[test]
fn scenario_partial_then_full_payment_settles() {
    let mut l = ledger_with(1, 100);
    let mut p = payer(1000);
    let mut r = recipient(0);
    assert_eq!(l.submit_payment(1, &mut p, &mut r, 40), Ok(Payment::Accepted { paid: 40 }));
    assert_eq!(l.get(1).unwrap().paid, 40);
    assert_eq!(l.record(1).unwrap().status, Status::Open);
    assert_eq!(vault_balance(&l, 1), 40);
    assert_eq!(p.amount, 960);
    assert_eq!(r.amount, 0);

    assert_eq!(l.submit_payment(1, &mut p, &mut r, 60), Ok(Payment::Settled { released: 100 }));
    let rec = l.record(1).unwrap();
    assert_eq!(rec.check.paid, 100);
    assert_eq!(rec.status, Status::Settled);
    assert_eq!(rec.vault.balance, 0);
    assert!(!rec.vault.open);
    assert_eq!(rec.released, 100);
    assert_eq!(r.amount, 100);
    assert_eq!(p.amount, 900);
    assert_eq!(l.get(1).unwrap_err(), CheckError::NotFound);
}

#[test]
fn scenario_overpayment_is_refused() {
    let mut l = ledger_with(2, 50);
    let mut p = payer(1000);
    let mut r = recipient(0);
    assert_eq!(l.submit_payment(2, &mut p, &mut r, 60), Err(CheckError::Overflow));
    assert_eq!(l.get(2).unwrap().paid, 0);
    assert_eq!(vault_balance(&l, 2), 0);
    assert_eq!(p.amount, 1000);
    assert_eq!(r.amount, 0);
}

#[test]
fn scenario_delete_with_payments_is_refused() {
    let mut l = ledger_with(3, 100);
    let mut p = payer(1000);
    let mut r = recipient(0);
    l.submit_payment(3, &mut p, &mut r, 10).unwrap();
    assert_eq!(l.delete(3, &authority()), Err(CheckError::CannotDeleteActiveCheck));
    assert_eq!(l.get(3).unwrap().paid, 10);
    assert_eq!(vault_balance(&l, 3), 10);
}

#[test]
fn scenario_zero_amount_is_refused() {
    let mut l = ledger_with(4, 100);
    let mut p = payer(1000);
    let mut r = recipient(0);
    assert_eq!(l.submit_payment(4, &mut p, &mut r, 0), Err(CheckError::InvalidAmount));
    assert_eq!(p.amount, 1000);
}

#[test]
fn conservation_over_several_payments() {
    let mut l = ledger_with(5, 100);
    let mut p = payer(1000);
    let mut r = recipient(7);
    let amounts = [10u64, 25, 5, 30];
    let mut sum = 0u64;
    for a in amounts {
        l.submit_payment(5, &mut p, &mut r, a).unwrap();
        sum += a;
        let rec = l.record(5).unwrap();
        assert_eq!(rec.check.paid, sum);
        assert_eq!(rec.vault.balance + rec.released, sum);
        assert_eq!(p.amount + rec.vault.balance + r.amount, 1000 + 7);
    }
    l.submit_payment(5, &mut p, &mut r, 30).unwrap();
    let rec = l.record(5).unwrap();
    assert_eq!(rec.vault.balance + rec.released, 100);
    assert_eq!(p.amount + rec.vault.balance + r.amount, 1000 + 7);
    assert_eq!(r.amount, 107);
}

#[test]
fn settled_check_refuses_further_payments() {
    let mut l = ledger_with(6, 30);
    let mut p = payer(1000);
    let mut r = recipient(0);
    assert_eq!(l.submit_payment(6, &mut p, &mut r, 30), Ok(Payment::Settled { released: 30 }));
    assert_eq!(l.submit_payment(6, &mut p, &mut r, 1), Err(CheckError::ClosedCheck));
    assert_eq!(l.submit_payment(6, &mut p, &mut r, 30), Err(CheckError::ClosedCheck));
    assert_eq!(r.amount, 30);
    assert_eq!(p.amount, 970);
}

#[test]
fn finalize_on_settlement_twice_is_noop() {
    let mut l = ledger_with(7, 20);
    let mut p = payer(1000);
    let mut r = recipient(0);
    assert_eq!(l.finalize_on_settlement(7), Err(CheckError::CannotDeleteActiveCheck));
    l.submit_payment(7, &mut p, &mut r, 20).unwrap();
    assert_eq!(l.finalize_on_settlement(7), Ok(true));
    assert_eq!(l.finalize_on_settlement(7), Ok(false));
    assert!(l.record(7).unwrap().reclaimed);
    assert_eq!(l.finalize_on_withdrawal(7), Err(CheckError::CannotDeleteActiveCheck));
    assert_eq!(l.finalize_on_settlement(77), Ok(false));
    assert_eq!(l.finalize_on_settlement(77), Ok(false));
}

#[test]
fn withdrawal_before_payment_then_finalize() {
    let mut l = ledger_with(8, 20);
    assert_eq!(l.delete(8, &addr(9)), Err(CheckError::Unauthorized));
    assert_eq!(l.delete(8, &authority()), Ok(()));
    assert!(l.record(8).is_none());
    assert_eq!(l.get(8).unwrap_err(), CheckError::NotFound);
    assert_eq!(l.delete(8, &authority()), Err(CheckError::NotFound));
    assert_eq!(l.finalize_on_withdrawal(8), Ok(false));
    assert_eq!(l.finalize_on_withdrawal(8), Ok(false));
    let mut p = payer(1000);
    let mut r = recipient(0);
    assert_eq!(l.submit_payment(8, &mut p, &mut r, 5), Err(CheckError::NotFound));
    assert_eq!(p.amount, 1000);
}

#[test]
fn withdrawal_frees_the_identifier() {
    let mut l = ledger_with(15, 20);
    let first = l.create_check(16, 5, asset_x(), authority()).unwrap();
    assert_eq!(l.delete(16, &authority()), Ok(()));
    let again = l.create_check(16, 70, addr(11), addr(4)).unwrap();
    assert_eq!(again.total, 70);
    assert_eq!(again.paid, 0);
    assert_eq!(again.vault.bytes, first.vault.bytes);
    assert_eq!(again.authority.bytes, addr(4).bytes);
    let rec = l.record(16).unwrap();
    assert_eq!(rec.status, Status::Open);
    assert_eq!(rec.vault.balance, 0);
    assert_eq!(l.get(15).unwrap().total, 20);
}

#[test]
fn delete_of_settled_check_is_refused_as_active() {
    let mut l = ledger_with(17, 25);
    let mut p = payer(1000);
    let mut r = recipient(0);
    l.submit_payment(17, &mut p, &mut r, 25).unwrap();
    assert_eq!(l.delete(17, &authority()), Err(CheckError::CannotDeleteActiveCheck));
    assert_eq!(l.delete(17, &addr(9)), Err(CheckError::Unauthorized));
    assert_eq!(l.record(17).unwrap().status, Status::Settled);
}

#[test]
fn payer_errors_come_before_overpayment() {
    let mut l = ledger_with(18, 50);
    let mut r = recipient(0);
    let mut other_asset = account(52, addr(2), addr(11), 1000);
    assert_eq!(l.submit_payment(18, &mut other_asset, &mut r, 60), Err(CheckError::AssetMismatch));
    let mut short = payer(55);
    assert_eq!(l.submit_payment(18, &mut short, &mut r, 60), Err(CheckError::InsufficientBalance));
    let mut enough = payer(60);
    assert_eq!(l.submit_payment(18, &mut enough, &mut r, 60), Err(CheckError::Overflow));
    assert_eq!(l.get(18).unwrap().paid, 0);
    assert_eq!(enough.amount, 60);
}

#[test]
fn anyone_may_pay_in_full() {
    let mut l = ledger_with(19, 40);
    let mut p = account(56, addr(77), asset_x(), 40);
    let mut r = recipient(3);
    assert_eq!(l.submit_payment(19, &mut p, &mut r, 40), Ok(Payment::Settled { released: 40 }));
    assert_eq!(r.amount, 43);
    assert_eq!(p.amount, 0);
}

#[test]
fn create_check_errors() {
    let mut l = ledger_with(9, 20);
    assert_eq!(l.create_check(9, 40, asset_x(), authority()).unwrap_err(), CheckError::AlreadyExists);
    assert_eq!(l.get(9).unwrap().total, 20);
    assert_eq!(l.create_check(10, 0, asset_x(), authority()).unwrap_err(), CheckError::InvalidAmount);
    assert_eq!(l.record(10).is_none(), true);
}

#[test]
fn create_check_fields() {
    let mut l = Ledger::new(program());
    let c = l.create_check(11, 500, asset_x(), authority()).unwrap();
    assert_eq!(c.id, 11);
    assert_eq!(c.total, 500);
    assert_eq!(c.paid, 0);
    assert_eq!(c.authority.bytes, authority().bytes);
    assert_eq!(c.asset_id.bytes, asset_x().bytes);
    let at = derive_address(&program(), 11).unwrap();
    let vault_at = derive_vault_address(&program(), &at.address).unwrap();
    assert_eq!(c.check_bump, at.bump);
    assert_eq!(c.vault.bytes, vault_at.address.bytes);
    assert_eq!(c.vault_bump, vault_at.bump);
    let rec = l.record(11).unwrap();
    assert_eq!(rec.vault.owner.bytes, at.address.bytes);
    assert_eq!(rec.vault.balance, 0);
    assert!(rec.vault.open);
}

#[test]
fn payment_errors() {
    let mut l = ledger_with(12, 100);
    let mut p = payer(30);
    let mut r = recipient(0);
    assert_eq!(l.submit_payment(99, &mut p, &mut r, 5), Err(CheckError::NotFound));
    assert_eq!(l.submit_payment(12, &mut p, &mut r, 31), Err(CheckError::InsufficientBalance));
    let mut other_asset = account(52, addr(2), addr(11), 1000);
    assert_eq!(l.submit_payment(12, &mut other_asset, &mut r, 5), Err(CheckError::AssetMismatch));
    let mut stranger = account(53, addr(3), asset_x(), 0);
    assert_eq!(l.submit_payment(12, &mut p, &mut stranger, 5), Err(CheckError::Unauthorized));
    let mut wrong_kind = account(54, authority(), addr(11), 0);
    assert_eq!(l.submit_payment(12, &mut p, &mut wrong_kind, 5), Err(CheckError::AssetMismatch));
    assert_eq!(l.get(12).unwrap().paid, 0);
    assert_eq!(p.amount, 30);
}

#[test]
fn settlement_that_would_overflow_recipient_is_refused() {
    let mut l = ledger_with(13, 10);
    let mut p = payer(1000);
    let mut r = recipient(u64::MAX - 5);
    assert_eq!(l.submit_payment(13, &mut p, &mut r, 10), Err(CheckError::Overflow));
    assert_eq!(l.get(13).unwrap().paid, 0);
    assert_eq!(p.amount, 1000);
    assert_eq!(r.amount, u64::MAX - 5);
}

#[test]
fn largest_total_settles() {
    let mut l = ledger_with(14, u64::MAX);
    let mut p = payer(u64::MAX);
    let mut r = recipient(0);
    assert_eq!(l.submit_payment(14, &mut p, &mut r, u64::MAX - 1), Ok(Payment::Accepted { paid: u64::MAX - 1 }));
    let mut second = account(57, addr(5), asset_x(), 2);
    assert_eq!(l.submit_payment(14, &mut second, &mut r, 2), Err(CheckError::Overflow));
    assert_eq!(second.amount, 2);
    assert_eq!(l.submit_payment(14, &mut p, &mut r, 1), Ok(Payment::Settled { released: u64::MAX }));
    assert_eq!(r.amount, u64::MAX);
    assert_eq!(p.amount, 0);
}

#[test]
fn derivation_is_deterministic_and_distinct() {
    let a = derive_address(&program(), 42).unwrap();
    let b = derive_address(&program(), 42).unwrap();
    assert_eq!(a.address.bytes, b.address.bytes);
    assert_eq!(a.bump, b.bump);
    let mut seen: Vec<[u8; 32]> = Vec::new();
    let mut id: u64 = 0x9e37_79b9_7f4a_7c15;
    for _ in 0..200 {
        id = id.wrapping_mul(6364136223846793005).wrapping_add(1442695040888963407);
        let d = derive_address(&program(), id).unwrap();
        assert!(!seen.contains(&d.address.bytes));
        seen.push(d.address.bytes);
    }
}

#[test]
fn derivation_depends_on_program_and_tag() {
    let a = derive_address(&program(), 42).unwrap();
    let other = derive_address(&addr(201), 42).unwrap();
    assert_ne!(a.address.bytes, other.address.bytes);
    assert_ne!(a.address.bytes, program().bytes);
    let v = derive_vault_address(&program(), &a.address).unwrap();
    assert_ne!(v.address.bytes, a.address.bytes);
    assert_ne!(v.address.bytes, program().bytes);
}

#[test]
fn id_bytes_are_little_endian() {
    assert_eq!(id_le_bytes(0x0102030405060708), [8, 7, 6, 5, 4, 3, 2, 1]);
    assert_eq!(id_le_bytes(0), [0; 8]);
}

#[test]
fn address_equality() {
    assert!(addr(3).same_as(&addr(3)));
    let mut b = [3u8; 32];
    b[31] = 4;
    assert!(!addr(3).same_as(&Address::new(b)));
}

#[test]
fn vault_custody_rules() {
    let owner = addr(60);
    let mut v = Vault::open(addr(61), owner, asset_x());
    let mut from = payer(100);
    assert_eq!(v.deposit(&mut from, 40), Ok(()));
    assert_eq!(v.balance, 40);
    assert_eq!(from.amount, 60);
    let mut to = recipient(0);
    assert_eq!(v.withdraw(10, &mut to, &addr(62)), Err(CheckError::Unauthorized));
    let mut wrong = account(55, authority(), addr(11), 0);
    assert_eq!(v.withdraw(10, &mut wrong, &owner), Err(CheckError::AssetMismatch));
    assert_eq!(v.withdraw(41, &mut to, &owner), Err(CheckError::InsufficientBalance));
    assert_eq!(v.close(&owner), Err(CheckError::NotEmpty));
    assert_eq!(v.withdraw(40, &mut to, &owner), Ok(()));
    assert_eq!(to.amount, 40);
    assert_eq!(v.close(&addr(62)), Err(CheckError::Unauthorized));
    assert_eq!(v.close(&owner), Ok(()));
    assert!(!v.open);
}
