//! The fee-tier record, its creation, and the update of one of its fields.

use vstd::prelude::*;
use crate::error::{ConfigError, FeeRateRule};
use crate::fee_rate::{fee_rates_valid, validate, validation_result, FEE_RATE_DENOMINATOR_VALUE};

verus! {

/// The fee tier at one index. Pools refer to it rather than holding fee
/// rates of their own.
#[derive(Clone, Copy, Debug, PartialEq, Eq, Structural)]
pub struct AmmConfig {
    /// The identifier of the record, fixed at creation.
    pub index: u16,
    /// The least price step of the pools that use this record.
    pub tick_spacing: u16,
    /// The total trade fee, over `FEE_RATE_DENOMINATOR_VALUE`.
    pub trade_fee_rate: u32,
    /// The protocol's share of the trade fee, over the same denominator.
    pub protocol_fee_rate: u32,
    /// The fund's share of the trade fee, over the same denominator.
    pub fund_fee_rate: u32,
}

/// A field of the record that an update may set. The index and the tick
/// spacing are not among them.
#[derive(Clone, Copy, Debug, PartialEq, Eq, Structural)]
pub enum ConfigParam {
    /// Selector 0: the trade fee rate.
    TradeFeeRate,
    /// Selector 1: the protocol's share.
    ProtocolFeeRate,
    /// Selector 2: the fund's share.
    FundFeeRate,
}

impl ConfigParam {
    /// The field that a selector names, if it names one. Every selector
    /// above 2 names none.
    pub open spec fn spec_from_id(id: u8) -> Option<ConfigParam> {
        if id == 0 {
            Some(ConfigParam::TradeFeeRate)
        } else if id == 1 {
            Some(ConfigParam::ProtocolFeeRate)
        } else if id == 2 {
            Some(ConfigParam::FundFeeRate)
        } else {
            None
        }
    }

    /// The selector of this field.
    pub open spec fn spec_id(self) -> u8 {
        match self {
            ConfigParam::TradeFeeRate => 0,
            ConfigParam::ProtocolFeeRate => 1,
            ConfigParam::FundFeeRate => 2,
        }
    }

    /// Decodes a selector.
    #[verifier::when_used_as_spec(spec_from_id)]
    pub fn from_id(id: u8) -> (r: Option<ConfigParam>)
        ensures
            r == Self::spec_from_id(id),
            r matches Some(param) ==> param.spec_id() == id,
    {
        match id {
            0 => Some(ConfigParam::TradeFeeRate),
            1 => Some(ConfigParam::ProtocolFeeRate),
            2 => Some(ConfigParam::FundFeeRate),
            _ => None,
        }
    }

    /// The selector of this field: the one that decodes to it.
    #[verifier::when_used_as_spec(spec_id)]
    pub fn id(self) -> (r: u8)
        ensures
            r == self.spec_id(),
            Self::spec_from_id(r) == Some(self),
    {
        match self {
            ConfigParam::TradeFeeRate => 0,
            ConfigParam::ProtocolFeeRate => 1,
            ConfigParam::FundFeeRate => 2,
        }
    }
}

impl AmmConfig {
    /// Whether the fee rates of this record obey all four rules.
    pub open spec fn is_valid(self) -> bool {
        fee_rates_valid(self.trade_fee_rate, self.protocol_fee_rate, self.fund_fee_rate)
    }

    /// This record with one field set to `value` and every other field as it
    /// is: the candidate that an update examines.
    pub open spec fn with_param(self, param: ConfigParam, value: u32) -> AmmConfig {
        match param {
            ConfigParam::TradeFeeRate => AmmConfig { trade_fee_rate: value, ..self },
            ConfigParam::ProtocolFeeRate => AmmConfig { protocol_fee_rate: value, ..self },
            ConfigParam::FundFeeRate => AmmConfig { fund_fee_rate: value, ..self },
        }
    }

    /// What [`AmmConfig::create`] answers: the record of the five values
    /// where the rates are valid, else the validator's refusal.
    pub open spec fn created(
        index: u16,
        tick_spacing: u16,
        trade_fee_rate: u32,
        protocol_fee_rate: u32,
        fund_fee_rate: u32,
    ) -> Result<AmmConfig, ConfigError> {
        match validation_result(tick_spacing, trade_fee_rate, protocol_fee_rate, fund_fee_rate) {
            Ok(_) => Ok(AmmConfig { index, tick_spacing, trade_fee_rate, protocol_fee_rate, fund_fee_rate }),
            Err(e) => Err(e),
        }
    }

    /// What an update of this record gives: `InvalidParam` where the
    /// selector names no field; else the validator's refusal of the
    /// candidate, or the candidate itself.
    pub open spec fn updated(self, param: u8, value: u32) -> Result<AmmConfig, ConfigError> {
        match ConfigParam::from_id(param) {
            None => Err(ConfigError::InvalidParam),
            Some(field) => {
                let candidate = self.with_param(field, value);
                match validation_result(
                    candidate.tick_spacing,
                    candidate.trade_fee_rate,
                    candidate.protocol_fee_rate,
                    candidate.fund_fee_rate,
                ) {
                    Ok(_) => Ok(candidate),
                    Err(e) => Err(e),
                }
            },
        }
    }

    /// Makes the record of the five values, if its fee rates are valid.
    pub fn create(
        index: u16,
        tick_spacing: u16,
        trade_fee_rate: u32,
        protocol_fee_rate: u32,
        fund_fee_rate: u32,
    ) -> (r: Result<AmmConfig, ConfigError>)
        ensures
            r == Self::created(index, tick_spacing, trade_fee_rate, protocol_fee_rate, fund_fee_rate),
            r is Ok <==> fee_rates_valid(trade_fee_rate, protocol_fee_rate, fund_fee_rate),
            r matches Ok(config) ==> config.is_valid(),
    {
        match validate(tick_spacing, trade_fee_rate, protocol_fee_rate, fund_fee_rate) {
            Ok(_) => Ok(AmmConfig { index, tick_spacing, trade_fee_rate, protocol_fee_rate, fund_fee_rate }),
            Err(e) => Err(e),
        }
    }

    /// Sets the field that `param` selects to `value`, if the record that
    /// results obeys all four rules. All of them are examined again, not
    /// only the one on the field that changes. A refused update leaves the
    /// record as it was.
    pub fn update(&mut self, param: u8, value: u32) -> (r: Result<(), ConfigError>)
        ensures
            match old(self).updated(param, value) {
                Ok(candidate) => r is Ok && *final(self) == candidate,
                Err(e) => r == Err::<(), ConfigError>(e) && *final(self) == *old(self),
            },
            r is Ok ==> final(self).is_valid(),
            final(self).index == old(self).index,
            final(self).tick_spacing == old(self).tick_spacing,
    {
        let field = match ConfigParam::from_id(param) {
            Some(field) => field,
            None => {
                return Err(ConfigError::InvalidParam);
            },
        };
        let mut candidate = *self;
        match field {
            ConfigParam::TradeFeeRate => {
                candidate.trade_fee_rate = value;
            },
            ConfigParam::ProtocolFeeRate => {
                candidate.protocol_fee_rate = value;
            },
            ConfigParam::FundFeeRate => {
                candidate.fund_fee_rate = value;
            },
        }
        match validate(
            candidate.tick_spacing,
            candidate.trade_fee_rate,
            candidate.protocol_fee_rate,
            candidate.fund_fee_rate,
        ) {
            Ok(_) => {
                *self = candidate;
                Ok(())
            },
            Err(e) => Err(e),
        }
    }
}

/// A selector that names no field is refused as `InvalidParam`, whatever the
/// record and the value are. The selectors that name a field are 0, 1 and 2.
pub proof fn lemma_unknown_param_rejected(config: AmmConfig, param: u8, value: u32)
    requires
        ConfigParam::from_id(param) is None,
    ensures
        config.updated(param, value) == Err::<AmmConfig, ConfigError>(ConfigError::InvalidParam),
        param > 2,
{
}

/// An update after which the two shares would add up to more than the
/// denominator is refused as `InvalidFeeRate`. Where the record is valid and
/// the new share alone is within its bound, the refusal names the rule on
/// the sum.
pub proof fn lemma_update_above_denominator_rejected(config: AmmConfig, param: u8, value: u32)
    requires
        ConfigParam::from_id(param) matches Some(field) && config.with_param(field, value).protocol_fee_rate
            + config.with_param(field, value).fund_fee_rate > FEE_RATE_DENOMINATOR_VALUE,
    ensures
        config.updated(param, value) matches Err(ConfigError::InvalidFeeRate(_)),
        config.is_valid() && ConfigParam::from_id(param) != Some(ConfigParam::TradeFeeRate) && value
            <= FEE_RATE_DENOMINATOR_VALUE ==> config.updated(param, value) == Err::<AmmConfig, ConfigError>(
            ConfigError::InvalidFeeRate(FeeRateRule::CombinedSharesWithinDenominator),
        ),
{
}

/// An update that succeeds gives a valid record with the index and the tick
/// spacing that it had, in which only the selected field can differ.
pub proof fn lemma_updated_record(config: AmmConfig, param: u8, value: u32)
    requires
        config.updated(param, value) is Ok,
    ensures
        ({
            let after = config.updated(param, value)->Ok_0;
            let field = ConfigParam::from_id(param)->Some_0;
            &&& ConfigParam::from_id(param) is Some
            &&& after == config.with_param(field, value)
            &&& after.is_valid()
            &&& after.index == config.index
            &&& after.tick_spacing == config.tick_spacing
            &&& field != ConfigParam::TradeFeeRate ==> after.trade_fee_rate == config.trade_fee_rate
            &&& field != ConfigParam::ProtocolFeeRate ==> after.protocol_fee_rate == config.protocol_fee_rate
            &&& field != ConfigParam::FundFeeRate ==> after.fund_fee_rate == config.fund_fee_rate
        }),
{
}

/// Creation and update obey the same rules: an update gives a record exactly
/// where creation accepts the candidate's five values, and then it gives the
/// record that creation makes of them.
pub proof fn lemma_update_agrees_with_creation(config: AmmConfig, field: ConfigParam, value: u32)
    ensures
        ({
            let candidate = config.with_param(field, value);
            config.updated(field.spec_id(), value) == AmmConfig::created(
                candidate.index,
                candidate.tick_spacing,
                candidate.trade_fee_rate,
                candidate.protocol_fee_rate,
                candidate.fund_fee_rate,
            )
        }),
{
}

} // verus!
