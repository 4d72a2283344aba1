use vstd::prelude::*;

use crate::channel::{
    created, lamports_of, lock_decision, locked, paid, pay_decision, withdraw_decision, LockSol,
    PayAmount, PaymentChannel, WithdrawLocked,
};
use crate::errors::CollateralPayErrors;
use crate::keys::Pubkey;
use crate::transfers::NativeTransfer;

verus! {

/// One operation requested on an existing channel.
#[derive(Clone, Copy, Debug)]
pub enum Request {
    Lock(LockSol, u64),
    Pay(PayAmount, u64),
    Withdraw(WithdrawLocked),
}

/// The channel after one request, applied all-or-nothing: a refused request,
/// or one whose arithmetic would overflow, leaves the channel as it was.
pub open spec fn apply(c: PaymentChannel, req: Request) -> PaymentChannel {
    match req {
        Request::Lock(acc, amount) => match lock_decision(acc, c, amount) {
            Ok(Some(t)) => if lamports_of(amount) <= u64::MAX {
                locked(c, t)
            } else {
                c
            },
            _ => c,
        },
        Request::Pay(acc, amount) => match pay_decision(acc, c, amount) {
            Ok(_) => if c.amount_paid + amount <= u64::MAX {
                paid(c, amount)
            } else {
                c
            },
            Err(_) => c,
        },
        Request::Withdraw(_) => c,
    }
}

/// The channel after a sequence of requests, in order.
pub open spec fn apply_all(c: PaymentChannel, reqs: Seq<Request>) -> PaymentChannel
    decreases reqs.len(),
{
    if reqs.len() == 0 {
        c
    } else {
        apply(apply_all(c, reqs.drop_last()), reqs.last())
    }
}

/// Every request keeps a well-formed channel well-formed.
pub proof fn lemma_apply_keeps_wf(c: PaymentChannel, req: Request)
    requires
        c.wf(),
    ensures
        apply(c, req).wf(),
{
}

/// Any sequence of requests keeps a well-formed channel well-formed.
pub proof fn lemma_apply_all_keeps_wf(c: PaymentChannel, reqs: Seq<Request>)
    requires
        c.wf(),
    ensures
        apply_all(c, reqs).wf(),
    decreases reqs.len(),
{
    if reqs.len() > 0 {
        lemma_apply_all_keeps_wf(c, reqs.drop_last());
        lemma_apply_keeps_wf(apply_all(c, reqs.drop_last()), reqs.last());
    }
}

/// Whatever requests follow the creation of a channel, its collateral is
/// never withdrawable before its price is paid.
pub proof fn lemma_withdrawable_only_when_paid(
    buyer: Pubkey,
    item_value: u64,
    receiver: Pubkey,
    receiver_usdc_account: Pubkey,
    vault_pda: Pubkey,
    vault_bump: u8,
    unix_timestamp: i64,
    reqs: Seq<Request>,
)
    ensures
        ({
            let c = apply_all(
                created(buyer, item_value, receiver, receiver_usdc_account, vault_pda, vault_bump, unix_timestamp),
                reqs,
            );
            c.can_withdraw ==> c.payment_done
        }),
{
    lemma_apply_all_keeps_wf(
        created(buyer, item_value, receiver, receiver_usdc_account, vault_pda, vault_bump, unix_timestamp),
        reqs,
    );
}

/// An installment that takes the total past the item's value still goes
/// through, and leaves the channel unpaid and its collateral locked.
pub proof fn lemma_overpayment_leaves_channel_open(c: PaymentChannel, amount: u64)
    requires
        c.wf(),
        !c.payment_done,
        c.amount_paid + amount > c.item_value,
        c.amount_paid + amount <= u64::MAX,
    ensures
        paid(c, amount).amount_paid == c.amount_paid + amount,
        paid(c, amount).amount_paid > c.item_value,
        !paid(c, amount).payment_done,
        !paid(c, amount).can_withdraw,
{
}

/// Once collateral is locked, a second lock on the same channel is refused
/// with `SolAlreadyLocked` and leaves the locked amount as it was.
pub proof fn lemma_second_lock_refused(acc: LockSol, c: PaymentChannel, first: u64, second: u64, t: NativeTransfer)
    requires
        lock_decision(acc, c, first) == Ok::<Option<NativeTransfer>, CollateralPayErrors>(Some(t)),
    ensures
        lock_decision(acc, locked(c, t), second) == Err::<Option<NativeTransfer>, CollateralPayErrors>(
            CollateralPayErrors::SolAlreadyLocked,
        ),
        apply(locked(c, t), Request::Lock(acc, second)) == locked(c, t),
        locked(c, t).locked_sol_amount == t.lamports,
{
}

/// On a paid channel an installment is refused with `PaymentAlreadyDone` and
/// the total paid stays as it was.
pub proof fn lemma_pay_after_done_refused(acc: PayAmount, c: PaymentChannel, amount: u64)
    requires
        c.payment_done,
        acc.matches(c),
    ensures
        pay_decision(acc, c, amount) == Err::<crate::transfers::TokenTransfer, CollateralPayErrors>(
            CollateralPayErrors::PaymentAlreadyDone,
        ),
        apply(c, Request::Pay(acc, amount)).amount_paid == c.amount_paid,
{
}

/// Before the price is paid, a withdrawal is refused with
/// `CannotWithdrawUnlessPayed`.
pub proof fn lemma_withdraw_before_paid_refused(acc: WithdrawLocked, c: PaymentChannel)
    requires
        !c.can_withdraw,
        acc.matches(c),
    ensures
        withdraw_decision(acc, c) == Err::<crate::transfers::VaultTransfer, CollateralPayErrors>(
            CollateralPayErrors::CannotWithdrawUnlessPayed,
        ),
{
}

} // verus!
