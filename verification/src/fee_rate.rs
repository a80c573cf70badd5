//! The numeric invariants of the fee rates, and the validator that decides
//! them. Creation and update both go through [`validate`], so a record that
//! an update produces is one that creation would have accepted.

use vstd::prelude::*;
use crate::error::{ConfigError, FeeRateRule};

verus! {

/// The scale of every fee rate: a rate `r` stands for the fraction
/// `r / FEE_RATE_DENOMINATOR_VALUE`.
pub const FEE_RATE_DENOMINATOR_VALUE: u32 = 1_000_000;

impl FeeRateRule {
    /// Whether the three rates obey this rule.
    pub open spec fn holds(self, trade_fee_rate: u32, protocol_fee_rate: u32, fund_fee_rate: u32) -> bool {
        match self {
            FeeRateRule::TradeFeeBelowDenominator => trade_fee_rate < FEE_RATE_DENOMINATOR_VALUE,
            FeeRateRule::ProtocolShareWithinDenominator => protocol_fee_rate <= FEE_RATE_DENOMINATOR_VALUE,
            FeeRateRule::FundShareWithinDenominator => fund_fee_rate <= FEE_RATE_DENOMINATOR_VALUE,
            FeeRateRule::CombinedSharesWithinDenominator => protocol_fee_rate + fund_fee_rate
                <= FEE_RATE_DENOMINATOR_VALUE,
        }
    }

    /// The place of this rule in the order of examination, from 0.
    pub open spec fn rank(self) -> nat {
        match self {
            FeeRateRule::TradeFeeBelowDenominator => 0,
            FeeRateRule::ProtocolShareWithinDenominator => 1,
            FeeRateRule::FundShareWithinDenominator => 2,
            FeeRateRule::CombinedSharesWithinDenominator => 3,
        }
    }
}

/// The invariant of the fee rates of a record: all four rules at once.
pub open spec fn fee_rates_valid(trade_fee_rate: u32, protocol_fee_rate: u32, fund_fee_rate: u32) -> bool {
    &&& trade_fee_rate < FEE_RATE_DENOMINATOR_VALUE
    &&& protocol_fee_rate <= FEE_RATE_DENOMINATOR_VALUE
    &&& fund_fee_rate <= FEE_RATE_DENOMINATOR_VALUE
    &&& protocol_fee_rate + fund_fee_rate <= FEE_RATE_DENOMINATOR_VALUE
}

/// The first rule, in the order of examination, that the rates break, if
/// they break any.
pub open spec fn first_violation(trade_fee_rate: u32, protocol_fee_rate: u32, fund_fee_rate: u32) -> Option<
    FeeRateRule,
> {
    if !FeeRateRule::TradeFeeBelowDenominator.holds(trade_fee_rate, protocol_fee_rate, fund_fee_rate) {
        Some(FeeRateRule::TradeFeeBelowDenominator)
    } else if !FeeRateRule::ProtocolShareWithinDenominator.holds(
        trade_fee_rate,
        protocol_fee_rate,
        fund_fee_rate,
    ) {
        Some(FeeRateRule::ProtocolShareWithinDenominator)
    } else if !FeeRateRule::FundShareWithinDenominator.holds(
        trade_fee_rate,
        protocol_fee_rate,
        fund_fee_rate,
    ) {
        Some(FeeRateRule::FundShareWithinDenominator)
    } else if !FeeRateRule::CombinedSharesWithinDenominator.holds(
        trade_fee_rate,
        protocol_fee_rate,
        fund_fee_rate,
    ) {
        Some(FeeRateRule::CombinedSharesWithinDenominator)
    } else {
        None
    }
}

/// What [`validate`] answers: success where no rule is broken, else
/// `InvalidFeeRate` with the first broken rule. The tick spacing is free
/// within its type and takes no part.
pub open spec fn validation_result(
    tick_spacing: u16,
    trade_fee_rate: u32,
    protocol_fee_rate: u32,
    fund_fee_rate: u32,
) -> Result<(), ConfigError> {
    match first_violation(trade_fee_rate, protocol_fee_rate, fund_fee_rate) {
        Some(rule) => Err(ConfigError::InvalidFeeRate(rule)),
        None => Ok(()),
    }
}

/// Checks a proposed set of fee rates against the four rules. It reads
/// nothing but its arguments and changes nothing, so it answers the same for
/// a new record and for the candidate of an update.
pub fn validate(tick_spacing: u16, trade_fee_rate: u32, protocol_fee_rate: u32, fund_fee_rate: u32) -> (r:
    Result<(), ConfigError>)
    ensures
        r == validation_result(tick_spacing, trade_fee_rate, protocol_fee_rate, fund_fee_rate),
        r is Ok <==> fee_rates_valid(trade_fee_rate, protocol_fee_rate, fund_fee_rate),
        r matches Err(e) ==> e matches ConfigError::InvalidFeeRate(rule) && !rule.holds(
            trade_fee_rate,
            protocol_fee_rate,
            fund_fee_rate,
        ),
{
    if trade_fee_rate >= FEE_RATE_DENOMINATOR_VALUE {
        return Err(ConfigError::InvalidFeeRate(FeeRateRule::TradeFeeBelowDenominator));
    }
    if protocol_fee_rate > FEE_RATE_DENOMINATOR_VALUE {
        return Err(ConfigError::InvalidFeeRate(FeeRateRule::ProtocolShareWithinDenominator));
    }
    if fund_fee_rate > FEE_RATE_DENOMINATOR_VALUE {
        return Err(ConfigError::InvalidFeeRate(FeeRateRule::FundShareWithinDenominator));
    }
    // Neither share exceeds the denominator here, so their sum fits in `u32`.
    if protocol_fee_rate + fund_fee_rate > FEE_RATE_DENOMINATOR_VALUE {
        return Err(ConfigError::InvalidFeeRate(FeeRateRule::CombinedSharesWithinDenominator));
    }
    Ok(())
}

/// No rule is broken exactly where the invariant of the fee rates holds, and
/// the invariant holds exactly where each of the four rules does.
pub proof fn lemma_no_violation_iff_valid(trade_fee_rate: u32, protocol_fee_rate: u32, fund_fee_rate: u32)
    ensures
        first_violation(trade_fee_rate, protocol_fee_rate, fund_fee_rate) is None <==> fee_rates_valid(
            trade_fee_rate,
            protocol_fee_rate,
            fund_fee_rate,
        ),
        fee_rates_valid(trade_fee_rate, protocol_fee_rate, fund_fee_rate) <==> forall|rule: FeeRateRule|
            #[trigger] rule.holds(trade_fee_rate, protocol_fee_rate, fund_fee_rate),
{
    if forall|rule: FeeRateRule| #[trigger] rule.holds(trade_fee_rate, protocol_fee_rate, fund_fee_rate) {
        assert(FeeRateRule::TradeFeeBelowDenominator.holds(trade_fee_rate, protocol_fee_rate, fund_fee_rate));
        assert(FeeRateRule::ProtocolShareWithinDenominator.holds(
            trade_fee_rate,
            protocol_fee_rate,
            fund_fee_rate,
        ));
        assert(FeeRateRule::FundShareWithinDenominator.holds(trade_fee_rate, protocol_fee_rate, fund_fee_rate));
        assert(FeeRateRule::CombinedSharesWithinDenominator.holds(
            trade_fee_rate,
            protocol_fee_rate,
            fund_fee_rate,
        ));
    }
}

/// The rule that a refusal names is the broken rule of least rank: it is
/// broken, and every rule examined before it holds.
pub proof fn lemma_first_violation_is_least(
    trade_fee_rate: u32,
    protocol_fee_rate: u32,
    fund_fee_rate: u32,
    rule: FeeRateRule,
)
    ensures
        first_violation(trade_fee_rate, protocol_fee_rate, fund_fee_rate) == Some(rule) <==> {
            &&& !rule.holds(trade_fee_rate, protocol_fee_rate, fund_fee_rate)
            &&& forall|earlier: FeeRateRule|
                earlier.rank() < rule.rank() ==> #[trigger] earlier.holds(
                    trade_fee_rate,
                    protocol_fee_rate,
                    fund_fee_rate,
                )
        },
{
    let earlier_hold = forall|earlier: FeeRateRule|
        earlier.rank() < rule.rank() ==> #[trigger] earlier.holds(
            trade_fee_rate,
            protocol_fee_rate,
            fund_fee_rate,
        );
    if !rule.holds(trade_fee_rate, protocol_fee_rate, fund_fee_rate) && earlier_hold {
        if rule.rank() > 0 {
            assert(FeeRateRule::TradeFeeBelowDenominator.holds(
                trade_fee_rate,
                protocol_fee_rate,
                fund_fee_rate,
            ));
        }
        if rule.rank() > 1 {
            assert(FeeRateRule::ProtocolShareWithinDenominator.holds(
                trade_fee_rate,
                protocol_fee_rate,
                fund_fee_rate,
            ));
        }
        if rule.rank() > 2 {
            assert(FeeRateRule::FundShareWithinDenominator.holds(
                trade_fee_rate,
                protocol_fee_rate,
                fund_fee_rate,
            ));
        }
    }
}

/// A trade fee rate equal to the denominator is refused, whatever the other
/// values are: the bound on the trade fee rate is strict.
pub proof fn lemma_trade_fee_at_denominator_rejected(
    tick_spacing: u16,
    protocol_fee_rate: u32,
    fund_fee_rate: u32,
)
    ensures
        validation_result(tick_spacing, FEE_RATE_DENOMINATOR_VALUE, protocol_fee_rate, fund_fee_rate) == Err::<
            (),
            ConfigError,
        >(ConfigError::InvalidFeeRate(FeeRateRule::TradeFeeBelowDenominator)),
{
}

/// Shares that add up to exactly the denominator are accepted beside any
/// trade fee rate below the denominator: the bound on their sum is not
/// strict.
pub proof fn lemma_shares_at_denominator_accepted(
    tick_spacing: u16,
    trade_fee_rate: u32,
    protocol_fee_rate: u32,
    fund_fee_rate: u32,
)
    requires
        trade_fee_rate < FEE_RATE_DENOMINATOR_VALUE,
        protocol_fee_rate + fund_fee_rate == FEE_RATE_DENOMINATOR_VALUE,
    ensures
        validation_result(tick_spacing, trade_fee_rate, protocol_fee_rate, fund_fee_rate) == Ok::<
            (),
            ConfigError,
        >(()),
{
}

/// Shares that add up to one more than the denominator are refused,
/// whatever the other values are. Where each rate alone is within its
/// bound, the refusal names the rule on the sum.
pub proof fn lemma_shares_above_denominator_rejected(
    tick_spacing: u16,
    trade_fee_rate: u32,
    protocol_fee_rate: u32,
    fund_fee_rate: u32,
)
    requires
        protocol_fee_rate + fund_fee_rate == FEE_RATE_DENOMINATOR_VALUE + 1,
    ensures
        validation_result(tick_spacing, trade_fee_rate, protocol_fee_rate, fund_fee_rate) matches Err(
            ConfigError::InvalidFeeRate(_),
        ),
        trade_fee_rate < FEE_RATE_DENOMINATOR_VALUE && protocol_fee_rate <= FEE_RATE_DENOMINATOR_VALUE
            && fund_fee_rate <= FEE_RATE_DENOMINATOR_VALUE ==> validation_result(
            tick_spacing,
            trade_fee_rate,
            protocol_fee_rate,
            fund_fee_rate,
        ) == Err::<(), ConfigError>(
            ConfigError::InvalidFeeRate(FeeRateRule::CombinedSharesWithinDenominator),
        ),
{
}

} // verus!
