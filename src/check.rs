//! A payment request, its vault, and the payment state machine over them.
use crate::address::{Address, Derivation};
use vstd::prelude::*;

verus! {

/// The ways an operation on the ledger can fail.
#[derive(Clone, Copy, Debug, PartialEq, Eq, Structural)]
pub enum CheckError {
    NotFound,
    AlreadyExists,
    Unauthorized,
    InvalidAmount,
    InsufficientBalance,
    AssetMismatch,
    Overflow,
    ClosedCheck,
    CannotDeleteActiveCheck,
    NotEmpty,
    /// No off-curve address exists for the seeds of a check or a vault.
    InvalidSeeds,
}

/// Where a check stands in its lifetime.
#[derive(Clone, Copy, Debug, PartialEq, Eq, Structural)]
pub enum Status {
    /// Accepting payments: `paid < total`.
    Open,
    /// Fully paid and released to the authority; terminal.
    Settled,
    /// Withdrawn by its authority before any payment; terminal.
    Withdrawn,
}

/// A holding of one fungible asset: whose it is, which asset, and how much.
#[derive(Clone, Copy, Debug)]
pub struct TokenAccount {
    pub address: Address,
    pub owner: Address,
    pub asset_id: Address,
    pub amount: u64,
}

/// A payment request.
#[derive(Clone, Copy, Debug)]
pub struct Check {
    /// The principal who is owed the total and who may withdraw the check.
    pub authority: Address,
    pub id: u64,
    /// The address of the check's vault.
    pub vault: Address,
    /// The amount owed; fixed at creation.
    pub total: u64,
    /// The amount received so far.
    pub paid: u64,
    /// The asset the check is denominated in.
    pub asset_id: Address,
    pub check_bump: u8,
    pub vault_bump: u8,
}

/// The custody account of one check.
#[derive(Clone, Copy, Debug)]
pub struct Vault {
    pub address: Address,
    /// The address of the owning check: the only signer for outbound transfers.
    pub owner: Address,
    pub asset_id: Address,
    pub balance: u64,
    pub open: bool,
}

/// A check together with its vault and its lifecycle state.
#[derive(Clone, Copy, Debug)]
pub struct Record {
    pub check: Check,
    pub vault: Vault,
    pub status: Status,
    /// What has been released from the vault to the authority.
    pub released: u64,
    /// Whether the allocation behind a terminated check has been reclaimed.
    pub reclaimed: bool,
}

/// What an accepted payment did.
#[derive(Clone, Copy, Debug, PartialEq, Eq, Structural)]
pub enum Payment {
    /// The deposit was taken into the vault; the check stays open.
    Accepted { paid: u64 },
    /// The deposit completed the check: `released` left the vault for the
    /// authority and the vault was closed.
    Settled { released: u64 },
}


/// Why `amount` cannot move from `from` into the vault `v`.
pub open spec fn deposit_error(v: Vault, from: TokenAccount, amount: u64) -> Option<CheckError> {
    if from.asset_id@ != v.asset_id@ {
        Some(CheckError::AssetMismatch)
    } else if from.amount < amount {
        Some(CheckError::InsufficientBalance)
    } else if v.balance + amount > u64::MAX {
        Some(CheckError::Overflow)
    } else {
        None
    }
}

/// Why `amount` cannot leave the vault `v` for `to` under the signature of
/// `signer`.
pub open spec fn withdraw_error(v: Vault, to: TokenAccount, amount: u64, signer: Address) -> Option<CheckError> {
    if signer@ != v.owner@ {
        Some(CheckError::Unauthorized)
    } else if to.asset_id@ != v.asset_id@ {
        Some(CheckError::AssetMismatch)
    } else if v.balance < amount {
        Some(CheckError::InsufficientBalance)
    } else if to.amount + amount > u64::MAX {
        Some(CheckError::Overflow)
    } else {
        None
    }
}

/// Why the vault `v` cannot be closed under the signature of `signer`.
pub open spec fn close_error(v: Vault, signer: Address) -> Option<CheckError> {
    if signer@ != v.owner@ {
        Some(CheckError::Unauthorized)
    } else if v.balance != 0 {
        Some(CheckError::NotEmpty)
    } else {
        None
    }
}

impl Vault {
    /// An empty, open vault at `address`, owned by the check at `owner`,
    /// holding only `asset_id`.
    pub fn open(address: Address, owner: Address, asset_id: Address) -> (v: Vault)
        ensures
            v == (Vault { address, owner, asset_id, balance: 0, open: true }),
    {
        Vault { address, owner, asset_id, balance: 0, open: true }
    }

    /// Moves `amount` from `from` into the vault.
    pub fn deposit(&mut self, from: &mut TokenAccount, amount: u64) -> (r: Result<(), CheckError>)
        ensures
            match deposit_error(*old(self), *old(from), amount) {
                Some(e) => r == Err::<(), CheckError>(e) && *final(self) == *old(self) && *final(from)
                    == *old(from),
                None => {
                    &&& r is Ok
                    &&& *final(self) == (Vault { balance: (old(self).balance + amount) as u64, ..*old(self) })
                    &&& *final(from) == (TokenAccount { amount: (old(from).amount - amount) as u64, ..*old(from) })
                },
            },
    {
        if !from.asset_id.same_as(&self.asset_id) {
            return Err(CheckError::AssetMismatch);
        }
        if from.amount < amount {
            return Err(CheckError::InsufficientBalance);
        }
        if self.balance > u64::MAX - amount {
            return Err(CheckError::Overflow);
        }
        from.amount = from.amount - amount;
        self.balance = self.balance + amount;
        Ok(())
    }

    /// Moves `amount` out of the vault into `to`; only the owning check can
    /// sign for it.
    pub fn withdraw(&mut self, amount: u64, to: &mut TokenAccount, signer: &Address) -> (r: Result<(), CheckError>)
        ensures
            match withdraw_error(*old(self), *old(to), amount, *signer) {
                Some(e) => r == Err::<(), CheckError>(e) && *final(self) == *old(self) && *final(to)
                    == *old(to),
                None => {
                    &&& r is Ok
                    &&& *final(self) == (Vault { balance: (old(self).balance - amount) as u64, ..*old(self) })
                    &&& *final(to) == (TokenAccount { amount: (old(to).amount + amount) as u64, ..*old(to) })
                },
            },
    {
        if !signer.same_as(&self.owner) {
            return Err(CheckError::Unauthorized);
        }
        if !to.asset_id.same_as(&self.asset_id) {
            return Err(CheckError::AssetMismatch);
        }
        if self.balance < amount {
            return Err(CheckError::InsufficientBalance);
        }
        if to.amount > u64::MAX - amount {
            return Err(CheckError::Overflow);
        }
        self.balance = self.balance - amount;
        to.amount = to.amount + amount;
        Ok(())
    }

    /// Closes the vault; only an empty vault can be closed, and only the
    /// owning check can sign for it.
    pub fn close(&mut self, signer: &Address) -> (r: Result<(), CheckError>)
        ensures
            match close_error(*old(self), *signer) {
                Some(e) => r == Err::<(), CheckError>(e) && *final(self) == *old(self),
                None => r is Ok && *final(self) == (Vault { open: false, ..*old(self) }),
            },
    {
        if !signer.same_as(&self.owner) {
            return Err(CheckError::Unauthorized);
        }
        if self.balance != 0 {
            return Err(CheckError::NotEmpty);
        }
        self.open = false;
        Ok(())
    }
}

impl Record {
    /// The record's invariant: funds are conserved and the status agrees
    /// with `paid`, the vault and what was released.
    pub open spec fn wf(&self) -> bool {
        &&& self.check.total > 0
        &&& self.check.paid <= self.check.total
        &&& self.vault.balance + self.released == self.check.paid
        &&& self.vault.asset_id@ == self.check.asset_id@
        &&& self.vault.address@ == self.check.vault@
        &&& match self.status {
            Status::Open => {
                &&& self.check.paid < self.check.total
                &&& self.vault.open
                &&& self.released == 0
                &&& !self.reclaimed
            },
            Status::Settled => {
                &&& self.check.paid == self.check.total
                &&& !self.vault.open
                &&& self.vault.balance == 0
            },
            Status::Withdrawn => {
                &&& self.check.paid == 0
                &&& !self.vault.open
                &&& self.vault.balance == 0
            },
        }
    }
}

/// Whether the check of `r` takes a deposit of `amount`, leaving the
/// accounts aside.
pub open spec fn record_accepts(r: Record, amount: u64) -> bool {
    &&& amount > 0
    &&& r.status == Status::Open
    &&& r.check.paid + amount <= r.check.total
}

/// Whether a deposit of `amount` completes the check of `r`.
pub open spec fn completes(r: Record, amount: u64) -> bool {
    r.check.paid + amount == r.check.total
}

/// Why a deposit of `amount` from `payer`, with `recipient` as the account
/// that receives the settlement, is refused; `None` when it is accepted.
pub open spec fn payment_error(
    r: Record,
    payer: TokenAccount,
    recipient: TokenAccount,
    amount: u64,
) -> Option<CheckError> {
    if amount == 0 {
        Some(CheckError::InvalidAmount)
    } else if r.status != Status::Open {
        Some(CheckError::ClosedCheck)
    } else if payer.asset_id@ != r.check.asset_id@ {
        Some(CheckError::AssetMismatch)
    } else if payer.amount < amount {
        Some(CheckError::InsufficientBalance)
    } else if r.check.paid + amount > r.check.total {
        Some(CheckError::Overflow)
    } else if recipient.owner@ != r.check.authority@ {
        Some(CheckError::Unauthorized)
    } else if recipient.asset_id@ != r.check.asset_id@ {
        Some(CheckError::AssetMismatch)
    } else if completes(r, amount) && recipient.amount + r.check.total > u64::MAX {
        Some(CheckError::Overflow)
    } else {
        None
    }
}

/// The record after an accepted deposit of `amount`.
pub open spec fn after_payment(r: Record, amount: u64) -> Record {
    let paid = (r.check.paid + amount) as u64;
    let check = Check { paid, ..r.check };
    if paid == r.check.total {
        Record {
            check,
            vault: Vault { balance: 0, open: false, ..r.vault },
            status: Status::Settled,
            released: paid,
            ..r
        }
    } else {
        Record { check, vault: Vault { balance: (r.vault.balance + amount) as u64, ..r.vault }, ..r }
    }
}

/// The payer's account after a deposit of `amount`.
pub open spec fn after_debit(payer: TokenAccount, amount: u64) -> TokenAccount {
    TokenAccount { amount: (payer.amount - amount) as u64, ..payer }
}

/// The recipient's account after a deposit of `amount` into `r`: credited
/// with the total when the deposit completes the check.
pub open spec fn after_release(r: Record, recipient: TokenAccount, amount: u64) -> TokenAccount {
    if completes(r, amount) {
        TokenAccount { amount: (recipient.amount + r.check.total) as u64, ..recipient }
    } else {
        recipient
    }
}

/// What an accepted deposit of `amount` into `r` reports.
pub open spec fn payment_outcome(r: Record, amount: u64) -> Payment {
    if completes(r, amount) {
        Payment::Settled { released: r.check.total }
    } else {
        Payment::Accepted { paid: (r.check.paid + amount) as u64 }
    }
}

impl Record {
    /// Takes a deposit of `amount` from `payer` into the vault and, when it
    /// completes the check, releases the vault to `recipient` and closes it.
    /// On failure nothing changes.
    pub fn pay(&mut self, payer: &mut TokenAccount, recipient: &mut TokenAccount, amount: u64) -> (r: Result<Payment, CheckError>)
        requires
            old(self).wf(),
        ensures
            final(self).wf(),
            match payment_error(*old(self), *old(payer), *old(recipient), amount) {
                Some(e) => {
                    &&& r == Err::<Payment, CheckError>(e)
                    &&& *final(self) == *old(self)
                    &&& *final(payer) == *old(payer)
                    &&& *final(recipient) == *old(recipient)
                },
                None => {
                    &&& r == Ok::<Payment, CheckError>(payment_outcome(*old(self), amount))
                    &&& *final(self) == after_payment(*old(self), amount)
                    &&& *final(payer) == after_debit(*old(payer), amount)
                    &&& *final(recipient) == after_release(*old(self), *old(recipient), amount)
                },
            },
    {
        if amount == 0 {
            return Err(CheckError::InvalidAmount);
        }
        if self.status != Status::Open {
            return Err(CheckError::ClosedCheck);
        }
        if !payer.asset_id.same_as(&self.check.asset_id) {
            return Err(CheckError::AssetMismatch);
        }
        if payer.amount < amount {
            return Err(CheckError::InsufficientBalance);
        }
        if amount > self.check.total - self.check.paid {
            return Err(CheckError::Overflow);
        }
        if !recipient.owner.same_as(&self.check.authority) {
            return Err(CheckError::Unauthorized);
        }
        if !recipient.asset_id.same_as(&self.check.asset_id) {
            return Err(CheckError::AssetMismatch);
        }
        let paid = self.check.paid + amount;
        let completes = paid == self.check.total;
        if completes && recipient.amount > u64::MAX - self.check.total {
            return Err(CheckError::Overflow);
        }
        let deposited = self.vault.deposit(payer, amount);
        assert(deposited is Ok);
        self.check.paid = paid;
        if completes {
            // The vault's owner is this check: settlement signs for itself.
            let signer = self.vault.owner;
            let released = self.vault.balance;
            let withdrawn = self.vault.withdraw(released, recipient, &signer);
            assert(withdrawn is Ok);
            let closed = self.vault.close(&signer);
            assert(closed is Ok);
            self.released = released;
            self.status = Status::Settled;
            Ok(Payment::Settled { released })
        } else {
            Ok(Payment::Accepted { paid })
        }
    }
}

/// The record of a check just created: open, nothing paid, an empty vault
/// owned by the check's derived address.
pub open spec fn new_record(
    id: u64,
    total: u64,
    asset_id: Address,
    authority: Address,
    check_at: Derivation,
    vault_at: Derivation,
) -> Record {
    Record {
        check: Check {
            authority,
            id,
            vault: vault_at.address,
            total,
            paid: 0,
            asset_id,
            check_bump: check_at.bump,
            vault_bump: vault_at.bump,
        },
        vault: Vault {
            address: vault_at.address,
            owner: check_at.address,
            asset_id,
            balance: 0,
            open: true,
        },
        status: Status::Open,
        released: 0,
        reclaimed: false,
    }
}

/// Why `caller` cannot withdraw the check of `r`.
pub open spec fn delete_error(r: Record, caller: Address) -> Option<CheckError> {
    if caller@ != r.check.authority@ {
        Some(CheckError::Unauthorized)
    } else if r.check.paid > 0 {
        Some(CheckError::CannotDeleteActiveCheck)
    } else if r.status != Status::Open {
        Some(CheckError::ClosedCheck)
    } else {
        None
    }
}

/// The record after its authority withdrew it: the vault closed.
pub open spec fn after_delete(r: Record) -> Record {
    Record { vault: Vault { open: false, ..r.vault }, status: Status::Withdrawn, ..r }
}

/// The record once the allocation behind it has been reclaimed.
pub open spec fn after_reclaim(r: Record) -> Record {
    Record { reclaimed: true, ..r }
}

impl Record {
    /// Creates the record of a new check of `total` in `asset_id`, owed to
    /// `authority`, at the addresses `check_at` and `vault_at`.
    pub fn create(
        id: u64,
        total: u64,
        asset_id: Address,
        authority: Address,
        check_at: Derivation,
        vault_at: Derivation,
    ) -> (r: Record)
        requires
            total > 0,
        ensures
            r == new_record(id, total, asset_id, authority, check_at, vault_at),
            r.wf(),
    {
        Record {
            check: Check {
                authority,
                id,
                vault: vault_at.address,
                total,
                paid: 0,
                asset_id,
                check_bump: check_at.bump,
                vault_bump: vault_at.bump,
            },
            vault: Vault::open(vault_at.address, check_at.address, asset_id),
            status: Status::Open,
            released: 0,
            reclaimed: false,
        }
    }

    /// Withdraws the check on its authority's request, before any payment:
    /// the empty vault is closed. On failure nothing changes.
    pub fn delete(&mut self, caller: &Address) -> (r: Result<(), CheckError>)
        requires
            old(self).wf(),
        ensures
            final(self).wf(),
            match delete_error(*old(self), *caller) {
                Some(e) => r == Err::<(), CheckError>(e) && *final(self) == *old(self),
                None => r is Ok && *final(self) == after_delete(*old(self)),
            },
    {
        if !caller.same_as(&self.check.authority) {
            return Err(CheckError::Unauthorized);
        }
        if self.check.paid > 0 {
            return Err(CheckError::CannotDeleteActiveCheck);
        }
        if self.status != Status::Open {
            return Err(CheckError::ClosedCheck);
        }
        let signer = self.vault.owner;
        let closed = self.vault.close(&signer);
        assert(closed is Ok);
        self.status = Status::Withdrawn;
        Ok(())
    }

    /// Reclaims the allocation behind a terminated check; returns whether
    /// there was anything left to reclaim.
    pub fn reclaim(&mut self) -> (r: bool)
        requires
            old(self).wf(),
            old(self).status != Status::Open,
        ensures
            final(self).wf(),
            r == !old(self).reclaimed,
            *final(self) == after_reclaim(*old(self)),
    {
        let fresh = !self.reclaimed;
        self.reclaimed = true;
        fresh
    }
}

} // verus!
