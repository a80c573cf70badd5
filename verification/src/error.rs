//! The ways in which an operation on a fee tier fails.

use vstd::prelude::*;

verus! {

/// One of the four numeric rules that the fee rates of a record obey, in the
/// order in which they are examined.
#[derive(Clone, Copy, Debug, PartialEq, Eq, Structural)]
pub enum FeeRateRule {
    /// The trade fee rate is strictly less than the denominator.
    TradeFeeBelowDenominator,
    /// The protocol's share of the trade fee is at most the denominator.
    ProtocolShareWithinDenominator,
    /// The fund's share of the trade fee is at most the denominator.
    FundShareWithinDenominator,
    /// The protocol's and the fund's shares together are at most the
    /// denominator.
    CombinedSharesWithinDenominator,
}

/// Why a creation or an update was refused. A refused operation changes
/// nothing.
#[derive(Clone, Copy, Debug, PartialEq, Eq, Structural)]
pub enum ConfigError {
    /// The proposed fee rates break the named rule.
    InvalidFeeRate(FeeRateRule),
    /// The selector of an update names no updatable field.
    InvalidParam,
    /// A record already exists at the index of a creation.
    DuplicateIndex,
    /// No record exists at the index of an update.
    NotFound,
}

} // verus!
