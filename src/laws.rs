//! Laws of the payment state machine over sequences of operations.
use crate::check::{
    after_debit, after_payment, after_reclaim, after_release, payment_error, record_accepts, CheckError, Record, Status,
    TokenAccount,
};
use crate::ledger::finalize_result;
use vstd::prelude::*;

verus! {

/// The sum of `amounts`.
pub open spec fn sum(amounts: Seq<u64>) -> int
    decreases amounts.len(),
{
    if amounts.len() == 0 {
        0
    } else {
        sum(amounts.drop_last()) + amounts.last()
    }
}

/// The record after the deposits `amounts`, in order.
pub open spec fn apply_payments(r: Record, amounts: Seq<u64>) -> Record
    decreases amounts.len(),
{
    if amounts.len() == 0 {
        r
    } else {
        after_payment(apply_payments(r, amounts.drop_last()), amounts.last())
    }
}

/// Whether each of the deposits `amounts`, in order, is taken by the check.
pub open spec fn all_accepted(r: Record, amounts: Seq<u64>) -> bool
    decreases amounts.len(),
{
    if amounts.len() == 0 {
        true
    } else {
        all_accepted(r, amounts.drop_last()) && record_accepts(
            apply_payments(r, amounts.drop_last()),
            amounts.last(),
        )
    }
}

/// A deposit that passes every check is one the check's record takes.
pub proof fn accepted_payment_is_taken(
    r: Record,
    payer: TokenAccount,
    recipient: TokenAccount,
    amount: u64,
)
    requires
        payment_error(r, payer, recipient, amount) is None,
    ensures
        record_accepts(r, amount),
{
}

/// A deposit the record takes keeps the record well formed, adds its amount
/// to `paid`, and settles the check exactly when `paid` reaches `total`,
/// releasing the whole total.
pub proof fn payment_step(r: Record, amount: u64)
    requires
        r.wf(),
        record_accepts(r, amount),
    ensures
        after_payment(r, amount).wf(),
        after_payment(r, amount).check.paid == r.check.paid + amount,
        after_payment(r, amount).check.total == r.check.total,
        (after_payment(r, amount).status == Status::Settled) == (r.check.paid + amount
            == r.check.total),
        after_payment(r, amount).released == (if r.check.paid + amount == r.check.total {
            r.check.total
        } else {
            0
        }),
{
}

/// Conservation: after any sequence of accepted deposits, `paid` has grown
/// by their sum, and what the vault holds plus what it released equals
/// `paid`.
pub proof fn payments_conserve_funds(r: Record, amounts: Seq<u64>)
    requires
        r.wf(),
        all_accepted(r, amounts),
    ensures
        apply_payments(r, amounts).wf(),
        apply_payments(r, amounts).check.paid == r.check.paid + sum(amounts),
        apply_payments(r, amounts).check.total == r.check.total,
        apply_payments(r, amounts).vault.balance + apply_payments(r, amounts).released
            == apply_payments(r, amounts).check.paid,
    decreases amounts.len(),
{
    if amounts.len() > 0 {
        payments_conserve_funds(r, amounts.drop_last());
        payment_step(apply_payments(r, amounts.drop_last()), amounts.last());
    }
}

/// An accepted deposit moves funds without creating or losing any: what the
/// payer, the vault and the recipient hold together is unchanged, and the
/// vault's balance plus what it released still equals `paid`.
pub proof fn payment_moves_funds_without_loss(
    r: Record,
    payer: TokenAccount,
    recipient: TokenAccount,
    amount: u64,
)
    requires
        r.wf(),
        payment_error(r, payer, recipient, amount) is None,
    ensures
        after_debit(payer, amount).amount + after_payment(r, amount).vault.balance + after_release(
            r,
            recipient,
            amount,
        ).amount == payer.amount + r.vault.balance + recipient.amount,
        after_payment(r, amount).vault.balance + after_payment(r, amount).released
            == after_payment(r, amount).check.paid,
{
}

/// No overpayment: on an open check, a deposit that the payer's funds cover
/// but that would take `paid` above `total` is refused with `Overflow` (and a
/// refused deposit changes nothing).
pub proof fn overpayment_is_refused(
    r: Record,
    payer: TokenAccount,
    recipient: TokenAccount,
    amount: u64,
)
    requires
        r.wf(),
        r.status == Status::Open,
        payer.asset_id@ == r.check.asset_id@,
        payer.amount >= amount,
        r.check.paid + amount > r.check.total,
    ensures
        payment_error(r, payer, recipient, amount) == Some(CheckError::Overflow),
{
}

/// A settled check refuses every further deposit as closed.
pub proof fn settled_check_is_closed(
    r: Record,
    payer: TokenAccount,
    recipient: TokenAccount,
    amount: u64,
)
    requires
        r.status == Status::Settled,
        amount > 0,
    ensures
        payment_error(r, payer, recipient, amount) == Some(CheckError::ClosedCheck),
{
}

/// Exactly-once settlement: over any sequence of accepted deposits on an
/// open check, every deposit but the last leaves the check open; the check
/// ends settled exactly when `paid` has reached `total`, and what was
/// released is then the total, once, and nothing otherwise.
pub proof fn settlement_happens_once(r: Record, amounts: Seq<u64>)
    requires
        r.wf(),
        r.status == Status::Open,
        all_accepted(r, amounts),
    ensures
        forall|i: int|
            0 <= i < amounts.len() - 1 ==> #[trigger] apply_payments(r, amounts.take(i + 1)).status
                == Status::Open,
        (apply_payments(r, amounts).status == Status::Settled) == (apply_payments(
            r,
            amounts,
        ).check.paid == r.check.total),
        apply_payments(r, amounts).released == (if apply_payments(r, amounts).status
            == Status::Settled {
            r.check.total
        } else {
            0
        }),
    decreases amounts.len(),
{
    payments_conserve_funds(r, amounts);
    if amounts.len() > 0 {
        let prefix = amounts.drop_last();
        settlement_happens_once(r, prefix);
        payments_conserve_funds(r, prefix);
        payment_step(apply_payments(r, prefix), amounts.last());
        assert forall|i: int| 0 <= i < amounts.len() - 1 implies #[trigger] apply_payments(
            r,
            amounts.take(i + 1),
        ).status == Status::Open by {
            assert(amounts.take(i + 1) =~= prefix.take(i + 1));
            if i < prefix.len() - 1 {
            } else {
                assert(prefix.take(i + 1) =~= prefix);
            }
        }
    }
}

/// Idempotent finalize: once finalizing a check has succeeded, finalizing it
/// again succeeds, reports nothing left to reclaim, and changes nothing; this
/// holds as well where the check is absent.
pub proof fn finalize_twice_is_noop(
    m0: Map<u64, Record>,
    m1: Map<u64, Record>,
    m2: Map<u64, Record>,
    id: u64,
    terminal: Status,
    r1: Result<bool, CheckError>,
    r2: Result<bool, CheckError>,
)
    requires
        finalize_result(m0, m1, id, terminal, r1),
        finalize_result(m1, m2, id, terminal, r2),
        r1 is Ok,
    ensures
        r2 == Ok::<bool, CheckError>(false),
        m2 == m1,
{
    if m0.contains_key(id) {
        assert(after_reclaim(after_reclaim(m0[id])) == after_reclaim(m0[id]));
        assert(m1.insert(id, after_reclaim(m1[id])) =~= m1);
    }
}

} // verus!
