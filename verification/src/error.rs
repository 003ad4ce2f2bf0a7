use vstd::prelude::*;

verus! {

/// Why a staking request could not be turned into a transaction.
///
/// Every error is final for the request: no partial transaction is ever
/// handed out.
#[derive(Clone, Copy, Debug, PartialEq, Eq, Structural)]
pub enum ComposeError {
    /// The wallet address is not the base-58 form of a 32-byte address.
    InvalidAddress,
    /// The input mint address is not the base-58 form of a 32-byte address.
    InvalidMintAddress,
    /// The amount is not a decimal number.
    InvalidAmount,
    /// The amount in base units does not fit in 64 bits.
    AmountOverflow,
    /// The amount is below zero.
    AmountUnderflow,
    /// The quote or swap service could not be reached.
    ServiceUnavailable,
    /// The aggregator knows no route for the swap.
    QuoteNotFound,
    /// The swap service answered with a body of the wrong shape.
    MalformedResponse,
    /// No bump seed gives an address off the curve.
    DerivationFailure,
}

} // verus!
