//! The ledger: every check by its identifier, and the operations on it.
use crate::address::{check_address, derive_address, derive_vault_address, vault_address, Address, Derivation};
use crate::check::{
    after_debit, after_payment, after_reclaim, after_release, delete_error,
    new_record, payment_error, payment_outcome, Check, CheckError, Payment, Record, Status,
    TokenAccount,
};
use std::collections::HashMap;
use vstd::prelude::*;

verus! {

broadcast use vstd::std_specs::hash::group_hash_axioms;

/// The checks of one deployment of the program `program_id`, keyed by id.
///
/// A settled check keeps its record, so that its identifier stays taken and
/// later payments to it are refused as closed. A withdrawn check is removed,
/// which frees its identifier.
pub struct Ledger {
    program_id: Address,
    records: HashMap<u64, Record>,
}

impl View for Ledger {
    type V = Map<u64, Record>;

    closed spec fn view(&self) -> Map<u64, Record> {
        self.records@
    }
}

/// Whether `c` and `v` are the derivations that `program` yields for the
/// check `id`.
pub open spec fn derived_for(program: Seq<u8>, id: u64, c: Derivation, v: Derivation) -> bool {
    &&& check_address(program, id) == Some((c.address@, c.bump))
    &&& vault_address(program, c.address@) == Some((v.address@, v.bump))
}

impl Ledger {
    /// The address of the program the ledger belongs to.
    pub closed spec fn program(&self) -> Seq<u8> {
        self.program_id@
    }

    /// Every record is well formed and filed under its own identifier.
    pub closed spec fn wf(&self) -> bool {
        forall|id: u64| #[trigger]
            self.records@.contains_key(id) ==> self.records@[id].wf() && self.records@[id].check.id
                == id
    }

    /// Every check in a well-formed ledger keeps its invariant: in
    /// particular, its vault's balance plus what it released equals `paid`.
    pub proof fn records_are_well_formed(&self, id: u64)
        requires
            self.wf(),
            self@.contains_key(id),
        ensures
            self@[id].wf(),
            self@[id].check.id == id,
    {
    }

    /// An empty ledger for the program at `program_id`.
    pub fn new(program_id: Address) -> (l: Ledger)
        ensures
            l.wf(),
            l@ == Map::<u64, Record>::empty(),
            l.program() == program_id@,
    {
        Ledger { program_id, records: HashMap::new() }
    }

    pub fn program_id(&self) -> (r: Address)
        ensures
            r@ == self.program(),
    {
        self.program_id
    }

    /// The record of `id`, whatever its status.
    pub fn record(&self, id: u64) -> (r: Option<Record>)
        ensures
            r == (if self@.contains_key(id) {
                Some(self@[id])
            } else {
                None
            }),
    {
        match self.records.get(&id) {
            Some(rec) => Some(*rec),
            None => None,
        }
    }

    /// The open check `id`.
    pub fn get(&self, id: u64) -> (r: Result<Check, CheckError>)
        ensures
            r == (if self@.contains_key(id) && self@[id].status == Status::Open {
                Ok::<Check, CheckError>(self@[id].check)
            } else {
                Err::<Check, CheckError>(CheckError::NotFound)
            }),
    {
        match self.records.get(&id) {
            Some(rec) => {
                if rec.status == Status::Open {
                    Ok(rec.check)
                } else {
                    Err(CheckError::NotFound)
                }
            },
            None => Err(CheckError::NotFound),
        }
    }

    /// Creates the check `id` of `total` in `asset_id`, owed to `authority`,
    /// with an empty vault at the address derived from the check's own.
    pub fn create_check(&mut self, id: u64, total: u64, asset_id: Address, authority: Address) -> (r:
        Result<Check, CheckError>)
        requires
            old(self).wf(),
        ensures
            final(self).wf(),
            final(self).program() == old(self).program(),
            old(self)@.contains_key(id) ==> r == Err::<Check, CheckError>(CheckError::AlreadyExists),
            !old(self)@.contains_key(id) && total == 0 ==> r == Err::<Check, CheckError>(
                CheckError::InvalidAmount,
            ),
            !old(self)@.contains_key(id) && total > 0 ==> match check_address(old(self).program(), id) {
                None => r == Err::<Check, CheckError>(CheckError::InvalidSeeds),
                Some((at, _)) => match vault_address(old(self).program(), at) {
                    None => r == Err::<Check, CheckError>(CheckError::InvalidSeeds),
                    Some(_) => r is Ok,
                },
            },
            r is Err ==> final(self)@ == old(self)@,
            r is Ok ==> exists|c: Derivation, v: Derivation|
                {
                    &&& derived_for(old(self).program(), id, c, v)
                    &&& final(self)@ == old(self)@.insert(
                        id,
                        new_record(id, total, asset_id, authority, c, v),
                    )
                    &&& r == Ok::<Check, CheckError>(
                        new_record(id, total, asset_id, authority, c, v).check,
                    )
                },
    {
        if self.records.contains_key(&id) {
            return Err(CheckError::AlreadyExists);
        }
        if total == 0 {
            return Err(CheckError::InvalidAmount);
        }
        let check_at = match derive_address(&self.program_id, id) {
            Some(d) => d,
            None => return Err(CheckError::InvalidSeeds),
        };
        let vault_at = match derive_vault_address(&self.program_id, &check_at.address) {
            Some(d) => d,
            None => return Err(CheckError::InvalidSeeds),
        };
        let rec = Record::create(id, total, asset_id, authority, check_at, vault_at);
        self.records.insert(id, rec);
        assert(derived_for(old(self).program(), id, check_at, vault_at));
        Ok(rec.check)
    }

    /// Takes a deposit of `amount` from `payer` into the vault of check `id`;
    /// when that completes the check, its vault is released to `recipient`
    /// and closed. Anyone may pay. On failure nothing changes.
    pub fn submit_payment(
        &mut self,
        id: u64,
        payer: &mut TokenAccount,
        recipient: &mut TokenAccount,
        amount: u64,
    ) -> (r: Result<Payment, CheckError>)
        requires
            old(self).wf(),
        ensures
            final(self).wf(),
            final(self).program() == old(self).program(),
            !old(self)@.contains_key(id) ==> {
                &&& r == Err::<Payment, CheckError>(CheckError::NotFound)
                &&& final(self)@ == old(self)@
                &&& *final(payer) == *old(payer)
                &&& *final(recipient) == *old(recipient)
            },
            old(self)@.contains_key(id) ==> match payment_error(
                old(self)@[id],
                *old(payer),
                *old(recipient),
                amount,
            ) {
                Some(e) => {
                    &&& r == Err::<Payment, CheckError>(e)
                    &&& final(self)@ == old(self)@
                    &&& *final(payer) == *old(payer)
                    &&& *final(recipient) == *old(recipient)
                },
                None => {
                    &&& r == Ok::<Payment, CheckError>(payment_outcome(old(self)@[id], amount))
                    &&& final(self)@ == old(self)@.insert(id, after_payment(old(self)@[id], amount))
                    &&& *final(payer) == after_debit(*old(payer), amount)
                    &&& *final(recipient) == after_release(old(self)@[id], *old(recipient), amount)
                },
            },
    {
        let mut rec = match self.records.get(&id) {
            Some(rec) => *rec,
            None => return Err(CheckError::NotFound),
        };
        let r = rec.pay(payer, recipient, amount);
        if r.is_ok() {
            self.records.insert(id, rec);
        }
        r
    }

    /// Withdraws the unpaid check `id` on its authority's request: its vault
    /// is closed and its record removed. On failure nothing changes.
    pub fn delete(&mut self, id: u64, caller: &Address) -> (r: Result<(), CheckError>)
        requires
            old(self).wf(),
        ensures
            final(self).wf(),
            final(self).program() == old(self).program(),
            !old(self)@.contains_key(id) ==> r == Err::<(), CheckError>(CheckError::NotFound)
                && final(self)@ == old(self)@,
            old(self)@.contains_key(id) ==> match delete_error(old(self)@[id], *caller) {
                Some(e) => r == Err::<(), CheckError>(e) && final(self)@ == old(self)@,
                None => r is Ok && final(self)@ == old(self)@.remove(id),
            },
    {
        let mut rec = match self.records.get(&id) {
            Some(rec) => *rec,
            None => return Err(CheckError::NotFound),
        };
        let r = rec.delete(caller);
        if r.is_ok() {
            self.records.remove(&id);
        }
        r
    }

    fn finalize(&mut self, id: u64, terminal: Status) -> (r: Result<bool, CheckError>)
        requires
            old(self).wf(),
            terminal != Status::Open,
        ensures
            final(self).wf(),
            final(self).program() == old(self).program(),
            finalize_result(old(self)@, final(self)@, id, terminal, r),
    {
        let mut rec = match self.records.get(&id) {
            Some(rec) => *rec,
            None => return Ok(false),
        };
        if rec.status != terminal {
            return Err(CheckError::CannotDeleteActiveCheck);
        }
        let fresh = rec.reclaim();
        self.records.insert(id, rec);
        Ok(fresh)
    }

    /// Reclaims the allocation behind the settled check `id`. Returns whether
    /// anything was left to reclaim: a second call is a no-op.
    pub fn finalize_on_settlement(&mut self, id: u64) -> (r: Result<bool, CheckError>)
        requires
            old(self).wf(),
        ensures
            final(self).wf(),
            final(self).program() == old(self).program(),
            finalize_result(old(self)@, final(self)@, id, Status::Settled, r),
    {
        self.finalize(id, Status::Settled)
    }

    /// Reclaims the allocation behind the withdrawn check `id`. Withdrawal
    /// already removes the record, so there is nothing left to reclaim once
    /// the identifier is free; a check still held is refused.
    pub fn finalize_on_withdrawal(&mut self, id: u64) -> (r: Result<bool, CheckError>)
        requires
            old(self).wf(),
        ensures
            final(self).wf(),
            final(self).program() == old(self).program(),
            finalize_result(old(self)@, final(self)@, id, Status::Withdrawn, r),
    {
        self.finalize(id, Status::Withdrawn)
    }
}

/// How finalizing the check `id` in the state `terminal` takes `before` to
/// `after` with the result `r`: a check in that state is marked reclaimed,
/// reporting whether it was not yet; an absent one leaves nothing to do; a
/// check in another state is refused.
pub open spec fn finalize_result(
    before: Map<u64, Record>,
    after: Map<u64, Record>,
    id: u64,
    terminal: Status,
    r: Result<bool, CheckError>,
) -> bool {
    if before.contains_key(id) && before[id].status == terminal {
        &&& r == Ok::<bool, CheckError>(!before[id].reclaimed)
        &&& after == before.insert(id, after_reclaim(before[id]))
    } else if before.contains_key(id) {
        &&& r == Err::<bool, CheckError>(CheckError::CannotDeleteActiveCheck)
        &&& after == before
    } else {
        &&& r == Ok::<bool, CheckError>(false)
        &&& after == before
    }
}

} // verus!
