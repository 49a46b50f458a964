//! Typed failures of the custody and exchange core.

use vstd::prelude::*;

use crate::decimal::Decimal;

verus! {

/// Every failure of the core is a synchronous, fatal-to-the-call abort:
/// the operation returns one of these kinds and leaves no partial
/// mutation behind. `InsufficientPaymentError` carries the amount the
/// purchase would have required.
#[derive(Clone, Copy, PartialEq, Eq, Structural, Debug)]
pub enum SaleError {
    AuthorizationError,
    SaleClosedError,
    WrongTokenError,
    QuantityLimitError,
    InsufficientPaymentError { required: Decimal },
    InsufficientBalanceError,
    InvalidPriceError,
    NonFungiblePaymentRejected,
    NothingToWithdrawError,
    WrongItemKindError,
}

impl SaleError {
    /// The human-readable description of each failure kind.
    pub closed spec fn message_spec(self) -> Seq<char> {
        match self {
            SaleError::AuthorizationError => "caller lacks the required capability"@,
            SaleError::SaleClosedError => "the sale has not been opened"@,
            SaleError::WrongTokenError => "payment is not of the accepted token kind"@,
            SaleError::QuantityLimitError => "at most 10 items can be bought per call"@,
            SaleError::InsufficientPaymentError { .. } =>
                "payment is below the required amount"@,
            SaleError::InsufficientBalanceError => "the pool holds less than was requested"@,
            SaleError::InvalidPriceError => "the price cannot be negative"@,
            SaleError::NonFungiblePaymentRejected =>
                "only a fungible resource is accepted as payment"@,
            SaleError::NothingToWithdrawError => "the payment pool is empty"@,
            SaleError::WrongItemKindError => "deposited items are not of the item pool's kind"@,
        }
    }

    /// A human-readable message identifying the violated precondition.
    pub fn message(&self) -> (r: &'static str)
        ensures
            r@ == self.message_spec(),
    {
        match self {
            SaleError::AuthorizationError => "caller lacks the required capability",
            SaleError::SaleClosedError => "the sale has not been opened",
            SaleError::WrongTokenError => "payment is not of the accepted token kind",
            SaleError::QuantityLimitError => "at most 10 items can be bought per call",
            SaleError::InsufficientPaymentError { .. } =>
                "payment is below the required amount",
            SaleError::InsufficientBalanceError => "the pool holds less than was requested",
            SaleError::InvalidPriceError => "the price cannot be negative",
            SaleError::NonFungiblePaymentRejected =>
                "only a fungible resource is accepted as payment",
            SaleError::NothingToWithdrawError => "the payment pool is empty",
            SaleError::WrongItemKindError => "deposited items are not of the item pool's kind",
        }
    }
}

} // verus!
