use vstd::prelude::*;

use crate::errors::CollateralPayErrors;
use crate::keys::Pubkey;
use crate::transfers::{NativeTransfer, TokenTransfer, VaultTransfer};

verus! {

/// Native-value smallest units in one whole native unit.
pub const LAMPORTS_PER_SOL: u64 = 1_000_000_000;

/// One escrow record for a single buyer-receiver deal.
#[derive(Clone, Copy, Debug, PartialEq, Eq)]
pub struct PaymentChannel {
    pub buyer: Pubkey,
    pub receiver: Pubkey,
    pub vault_pda: Pubkey,
    pub vault_bump: u8,
    pub receiver_usdc_account: Pubkey,
    pub locked_sol_amount: u64,
    pub sol_locked: bool,
    pub item_value: u64,
    pub amount_paid: u64,
    pub payment_due: u128,
    pub payment_done: bool,
    pub can_withdraw: bool,
}

/// The account presented when a channel is created.
#[derive(Clone, Copy, Debug, PartialEq, Eq)]
pub struct CreateChannel {
    /// The signer who funds the record and becomes its buyer.
    pub buyer: Pubkey,
}

/// The accounts presented when collateral is locked.
#[derive(Clone, Copy, Debug, PartialEq, Eq)]
pub struct LockSol {
    /// The signer, who must be the channel's buyer.
    pub buyer: Pubkey,
    /// The vault, which must be the channel's vault.
    pub vault_pda: Pubkey,
    /// The program that owns the channel record.
    pub channel_owner: Pubkey,
    /// The program that runs the operation.
    pub program_id: Pubkey,
}

/// The accounts presented when an installment is paid.
#[derive(Clone, Copy, Debug, PartialEq, Eq)]
pub struct PayAmount {
    /// The buyer's token account the installment comes from.
    pub buyer: Pubkey,
    /// The token account paid into, which must be the channel's receiver account.
    pub seller: Pubkey,
    /// The signer that authorises the token transfer.
    pub authority: Pubkey,
}

/// The accounts presented when the collateral is withdrawn.
#[derive(Clone, Copy, Debug, PartialEq, Eq)]
pub struct WithdrawLocked {
    /// The signer, who must be the channel's buyer.
    pub buyer: Pubkey,
    /// The vault, which must be the channel's vault.
    pub vault_pda: Pubkey,
}

impl PaymentChannel {
    /// What holds of every channel that the operations can produce.
    pub open spec fn wf(self) -> bool {
        &&& self.can_withdraw == self.payment_done
        &&& self.payment_done ==> self.amount_paid == self.item_value
        &&& !self.sol_locked ==> self.locked_sol_amount == 0
    }
}

impl LockSol {
    pub open spec fn matches(self, c: PaymentChannel) -> bool {
        self.buyer.same_as(c.buyer) && self.vault_pda.same_as(c.vault_pda)
    }

    /// Whether a lock request gets as far as moving funds.
    pub open spec fn reaches_transfer(self, c: PaymentChannel) -> bool {
        self.matches(c) && self.channel_owner.same_as(self.program_id) && !c.payment_done
            && !c.sol_locked
    }
}

impl PayAmount {
    pub open spec fn matches(self, c: PaymentChannel) -> bool {
        self.seller.same_as(c.receiver_usdc_account)
    }
}

impl WithdrawLocked {
    pub open spec fn matches(self, c: PaymentChannel) -> bool {
        self.buyer.same_as(c.buyer) && self.vault_pda.same_as(c.vault_pda)
    }
}

/// The channel as created by `buyer`.
pub open spec fn created(
    buyer: Pubkey,
    item_value: u64,
    receiver: Pubkey,
    receiver_usdc_account: Pubkey,
    vault_pda: Pubkey,
    vault_bump: u8,
    unix_timestamp: i64,
) -> PaymentChannel {
    PaymentChannel {
        buyer,
        receiver,
        vault_pda,
        vault_bump,
        receiver_usdc_account,
        locked_sol_amount: 0,
        sol_locked: false,
        item_value,
        amount_paid: 0,
        payment_due: unix_timestamp as u128,
        payment_done: false,
        can_withdraw: false,
    }
}

/// The collateral in smallest units for `amount` whole units.
pub open spec fn lamports_of(amount: u64) -> int {
    amount * LAMPORTS_PER_SOL
}

/// The decision on a lock request: an error, no effect at all (`None`, the
/// channel record belongs to another program), or the transfer into the vault.
pub open spec fn lock_decision(acc: LockSol, c: PaymentChannel, amount: u64) -> Result<
    Option<NativeTransfer>,
    CollateralPayErrors,
> {
    if !acc.matches(c) {
        Err(CollateralPayErrors::Unauthorized)
    } else if !acc.channel_owner.same_as(acc.program_id) {
        Ok(None)
    } else if c.payment_done {
        Err(CollateralPayErrors::PaymentAlreadyDone)
    } else if c.sol_locked {
        Err(CollateralPayErrors::SolAlreadyLocked)
    } else {
        Ok(Some(NativeTransfer { from: c.buyer, to: c.vault_pda, lamports: lamports_of(amount) as u64 }))
    }
}

/// The channel once the transfer into the vault went through.
pub open spec fn locked(c: PaymentChannel, t: NativeTransfer) -> PaymentChannel {
    PaymentChannel { locked_sol_amount: t.lamports, sol_locked: true, ..c }
}

/// The decision on an installment: an error, or the token transfer to make.
pub open spec fn pay_decision(acc: PayAmount, c: PaymentChannel, amount: u64) -> Result<
    TokenTransfer,
    CollateralPayErrors,
> {
    if !acc.matches(c) {
        Err(CollateralPayErrors::Unauthorized)
    } else if c.payment_done {
        Err(CollateralPayErrors::PaymentAlreadyDone)
    } else {
        Ok(TokenTransfer { from: acc.buyer, to: acc.seller, authority: acc.authority, amount })
    }
}

/// The channel once an installment of `amount` went through: the total grows,
/// and the price counts as paid only when the total meets it exactly.
pub open spec fn paid(c: PaymentChannel, amount: u64) -> PaymentChannel {
    let total = (c.amount_paid + amount) as u64;
    PaymentChannel {
        amount_paid: total,
        payment_done: c.payment_done || total == c.item_value,
        can_withdraw: c.can_withdraw || total == c.item_value,
        ..c
    }
}

/// The decision on a withdrawal: an error, or the whole locked amount moved
/// from the vault back to the buyer under the vault's seeds.
pub open spec fn withdraw_decision(acc: WithdrawLocked, c: PaymentChannel) -> Result<
    VaultTransfer,
    CollateralPayErrors,
> {
    if !acc.matches(c) {
        Err(CollateralPayErrors::Unauthorized)
    } else if !c.can_withdraw {
        Err(CollateralPayErrors::CannotWithdrawUnlessPayed)
    } else {
        Ok(
            VaultTransfer {
                transfer: NativeTransfer { from: c.vault_pda, to: c.buyer, lamports: c.locked_sol_amount },
                seed_owner: c.buyer,
                bump: c.vault_bump,
            },
        )
    }
}

/// Opens a channel for the buyer who signed, with nothing locked or paid yet;
/// `unix_timestamp` is the current time, kept as the channel's creation time.
pub fn create_channel(
    ctx: &CreateChannel,
    item_value: u64,
    receiver: Pubkey,
    receiver_usdc_account: Pubkey,
    vault_pda: Pubkey,
    vault_bump: u8,
    unix_timestamp: i64,
) -> (r: PaymentChannel)
    ensures
        r == created(ctx.buyer, item_value, receiver, receiver_usdc_account, vault_pda, vault_bump, unix_timestamp),
        r.wf(),
{
    PaymentChannel {
        buyer: ctx.buyer,
        receiver,
        vault_pda,
        vault_bump,
        receiver_usdc_account,
        locked_sol_amount: 0,
        sol_locked: false,
        item_value,
        amount_paid: 0,
        payment_due: unix_timestamp as u128,
        payment_done: false,
        can_withdraw: false,
    }
}

/// Decides a request to lock `amount` whole units of collateral. The accounts
/// must match the channel; a record owned by another program is left alone
/// without error; a paid channel, or one with collateral already, refuses.
/// Otherwise the result is the transfer from the buyer to the vault, to be
/// followed by `record_lock` once it went through.
pub fn lock_sol(ctx: &LockSol, channel: &PaymentChannel, amount: u64) -> (r: Result<
    Option<NativeTransfer>,
    CollateralPayErrors,
>)
    requires
        ctx.reaches_transfer(*channel) ==> lamports_of(amount) <= u64::MAX,
    ensures
        r == lock_decision(*ctx, *channel, amount),
{
    if !(ctx.buyer.equals(&channel.buyer) && ctx.vault_pda.equals(&channel.vault_pda)) {
        return Err(CollateralPayErrors::Unauthorized);
    }
    if !ctx.channel_owner.equals(&ctx.program_id) {
        return Ok(None);
    }
    if channel.payment_done {
        return Err(CollateralPayErrors::PaymentAlreadyDone);
    }
    if channel.sol_locked {
        return Err(CollateralPayErrors::SolAlreadyLocked);
    }
    Ok(Some(NativeTransfer { from: channel.buyer, to: channel.vault_pda, lamports: amount * LAMPORTS_PER_SOL }))
}

/// Records that the collateral transfer decided by `lock_sol` went through.
pub fn record_lock(channel: &mut PaymentChannel, transfer: &NativeTransfer)
    ensures
        *final(channel) == locked(*old(channel), *transfer),
        old(channel).wf() ==> final(channel).wf(),
{
    channel.locked_sol_amount = transfer.lamports;
    channel.sol_locked = true;
}

/// Decides an installment of `amount` token units. The target must be the
/// channel's receiver account, and a paid channel refuses. Otherwise the
/// result is the token transfer, to be followed by `record_payment` once it
/// went through.
pub fn pay_amount(ctx: &PayAmount, channel: &PaymentChannel, amount: u64) -> (r: Result<
    TokenTransfer,
    CollateralPayErrors,
>)
    ensures
        r == pay_decision(*ctx, *channel, amount),
{
    if !ctx.seller.equals(&channel.receiver_usdc_account) {
        return Err(CollateralPayErrors::Unauthorized);
    }
    if channel.payment_done {
        return Err(CollateralPayErrors::PaymentAlreadyDone);
    }
    Ok(TokenTransfer { from: ctx.buyer, to: ctx.seller, authority: ctx.authority, amount })
}

/// Records that an installment of `amount` went through: the total paid
/// grows by `amount`, and if it now equals the item's value exactly the
/// channel is paid and its collateral may be withdrawn.
pub fn record_payment(channel: &mut PaymentChannel, amount: u64)
    requires
        !old(channel).payment_done,
        old(channel).amount_paid + amount <= u64::MAX,
    ensures
        *final(channel) == paid(*old(channel), amount),
        final(channel).amount_paid == old(channel).amount_paid + amount,
        final(channel).payment_done == (final(channel).amount_paid == old(channel).item_value),
        old(channel).wf() ==> final(channel).wf(),
{
    channel.amount_paid = channel.amount_paid + amount;
    if channel.amount_paid == channel.item_value {
        channel.payment_done = true;
        channel.can_withdraw = true;
    }
}

/// Decides a withdrawal of the collateral. The accounts must match the
/// channel and the price must be paid; the result is then the transfer of
/// the whole locked amount from the vault back to the buyer. The channel
/// itself does not change.
pub fn withdraw_locked(ctx: &WithdrawLocked, channel: &PaymentChannel) -> (r: Result<
    VaultTransfer,
    CollateralPayErrors,
>)
    ensures
        r == withdraw_decision(*ctx, *channel),
{
    if !(ctx.buyer.equals(&channel.buyer) && ctx.vault_pda.equals(&channel.vault_pda)) {
        return Err(CollateralPayErrors::Unauthorized);
    }
    if !channel.can_withdraw {
        return Err(CollateralPayErrors::CannotWithdrawUnlessPayed);
    }
    Ok(
        VaultTransfer {
            transfer: NativeTransfer { from: channel.vault_pda, to: channel.buyer, lamports: channel.locked_sol_amount },
            seed_owner: channel.buyer,
            bump: channel.vault_bump,
        },
    )
}

} // verus!
