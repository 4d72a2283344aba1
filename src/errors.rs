use vstd::prelude::*;

verus! {

/// Why an operation on a payment channel was refused.
#[derive(Clone, Copy, Debug, PartialEq, Eq, Structural)]
pub enum CollateralPayErrors {
    /// The price is already paid in full: the channel takes no more collateral
    /// or installments, and a new channel is needed for a new deal.
    PaymentAlreadyDone,
    /// Collateral was locked on this channel before.
    SolAlreadyLocked,
    /// The collateral is only released once the price is paid in full.
    CannotWithdrawUnlessPayed,
    /// An account handed in does not match the one the channel records
    /// (the caller is not the buyer, or the vault or the payment account is
    /// another one).
    Unauthorized,
}

impl CollateralPayErrors {
    /// The message shown to the caller for this error.
    pub fn message(&self) -> (r: &'static str) {
        match self {
            CollateralPayErrors::PaymentAlreadyDone => "Payment already done, create a new channel!",
            CollateralPayErrors::SolAlreadyLocked => "Sol already locked!",
            CollateralPayErrors::CannotWithdrawUnlessPayed => "Cannot withdraw unless payed the full amount!",
            CollateralPayErrors::Unauthorized => "An account does not match the channel!",
        }
    }
}

} // verus!
