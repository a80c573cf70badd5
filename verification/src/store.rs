//! The records that exist, keyed by index, and the two operations that
//! change them. A record comes into being once, by
//! [`create_amm_config`]; from then on it is never removed, and only
//! [`update_amm_config`] changes it, one field at a time.

use std::collections::HashMap;
use vstd::prelude::*;
use crate::config::{AmmConfig, ConfigParam};
use crate::error::ConfigError;
use crate::fee_rate::{fee_rates_valid, validation_result, FEE_RATE_DENOMINATOR_VALUE};

verus! {

broadcast use vstd::std_specs::hash::group_hash_axioms;

/// The invariant of the records that exist: each stands at its own index
/// and its fee rates obey all four rules.
pub open spec fn records_sound(records: Map<u16, AmmConfig>) -> bool {
    forall|index: u16| #[trigger]
        records.contains_key(index) ==> records[index].index == index && records[index].is_valid()
}

/// What a creation answers on the given records. The rates are examined
/// first, so invalid rates are refused as such at a used index too.
pub open spec fn creation_result(
    records: Map<u16, AmmConfig>,
    index: u16,
    tick_spacing: u16,
    trade_fee_rate: u32,
    protocol_fee_rate: u32,
    fund_fee_rate: u32,
) -> Result<(), ConfigError> {
    match validation_result(tick_spacing, trade_fee_rate, protocol_fee_rate, fund_fee_rate) {
        Err(e) => Err(e),
        Ok(_) => if records.contains_key(index) {
            Err(ConfigError::DuplicateIndex)
        } else {
            Ok(())
        },
    }
}

/// The records after a creation: one more where it succeeds, the same
/// where it is refused.
pub open spec fn records_after_creation(
    records: Map<u16, AmmConfig>,
    index: u16,
    tick_spacing: u16,
    trade_fee_rate: u32,
    protocol_fee_rate: u32,
    fund_fee_rate: u32,
) -> Map<u16, AmmConfig> {
    if creation_result(records, index, tick_spacing, trade_fee_rate, protocol_fee_rate, fund_fee_rate) is Ok {
        records.insert(
            index,
            AmmConfig { index, tick_spacing, trade_fee_rate, protocol_fee_rate, fund_fee_rate },
        )
    } else {
        records
    }
}

/// What an update answers on the given records: `NotFound` where no record
/// stands at the index, else what the update of that record gives.
pub open spec fn update_result(records: Map<u16, AmmConfig>, index: u16, param: u8, value: u32) -> Result<
    (),
    ConfigError,
> {
    if !records.contains_key(index) {
        Err(ConfigError::NotFound)
    } else {
        match records[index].updated(param, value) {
            Ok(_) => Ok(()),
            Err(e) => Err(e),
        }
    }
}

/// The records after an update: the record at the index replaced where it
/// succeeds, the same where it is refused.
pub open spec fn records_after_update(records: Map<u16, AmmConfig>, index: u16, param: u8, value: u32) -> Map<
    u16,
    AmmConfig,
> {
    if records.contains_key(index) {
        match records[index].updated(param, value) {
            Ok(candidate) => records.insert(index, candidate),
            Err(_) => records,
        }
    } else {
        records
    }
}

/// The fee tiers that exist, each under its index.
pub struct ConfigStore {
    records: HashMap<u16, AmmConfig>,
}

impl View for ConfigStore {
    type V = Map<u16, AmmConfig>;

    closed spec fn view(&self) -> Map<u16, AmmConfig> {
        self.records@
    }
}

impl ConfigStore {
    #[verifier::type_invariant]
    spec fn sound(&self) -> bool {
        records_sound(self.records@)
    }

    /// A store in which no record exists yet.
    pub fn new() -> (store: ConfigStore)
        ensures
            store@ == Map::<u16, AmmConfig>::empty(),
            records_sound(store@),
    {
        ConfigStore { records: HashMap::new() }
    }

    /// Whether a record exists at `index`.
    pub fn contains(&self, index: u16) -> (r: bool)
        ensures
            r == self@.contains_key(index),
    {
        self.records.contains_key(&index)
    }

    /// The record at `index`, if one exists. A record that the store hands
    /// out stands at the index asked for and is valid.
    pub fn get(&self, index: u16) -> (r: Option<AmmConfig>)
        ensures
            r == if self@.contains_key(index) {
                Some(self@[index])
            } else {
                None
            },
            r matches Some(config) ==> config.index == index && config.is_valid(),
    {
        proof {
            use_type_invariant(self);
        }
        match self.records.get(&index) {
            Some(config) => Some(*config),
            None => None,
        }
    }

    /// Writes a valid record under its own index. The map is moved out of
    /// the store while it changes, so that the store is sound at every step.
    fn put(&mut self, index: u16, config: AmmConfig)
        requires
            config.index == index,
            config.is_valid(),
        ensures
            final(self)@ == old(self)@.insert(index, config),
    {
        proof {
            use_type_invariant(&*self);
        }
        let mut records: HashMap<u16, AmmConfig> = HashMap::new();
        std::mem::swap(&mut self.records, &mut records);
        records.insert(index, config);
        std::mem::swap(&mut self.records, &mut records);
    }

    /// The number of records that exist.
    pub fn len(&self) -> (n: usize)
        ensures
            n == self@.len(),
            self@.dom().finite(),
    {
        self.records.len()
    }
}

/// Creates the record at `index`. The fee rates are validated first; then
/// the index must be free. A refused creation writes nothing: in
/// particular it never overwrites the record that is there.
pub fn create_amm_config(
    store: &mut ConfigStore,
    index: u16,
    tick_spacing: u16,
    trade_fee_rate: u32,
    protocol_fee_rate: u32,
    fund_fee_rate: u32,
) -> (r: Result<(), ConfigError>)
    ensures
        r == creation_result(
            old(store)@,
            index,
            tick_spacing,
            trade_fee_rate,
            protocol_fee_rate,
            fund_fee_rate,
        ),
        final(store)@ == records_after_creation(
            old(store)@,
            index,
            tick_spacing,
            trade_fee_rate,
            protocol_fee_rate,
            fund_fee_rate,
        ),
        records_sound(final(store)@),
{
    proof {
        use_type_invariant(&*store);
    }
    let config = match AmmConfig::create(index, tick_spacing, trade_fee_rate, protocol_fee_rate, fund_fee_rate) {
        Ok(config) => config,
        Err(e) => {
            return Err(e);
        },
    };
    if store.records.contains_key(&index) {
        return Err(ConfigError::DuplicateIndex);
    }
    store.put(index, config);
    Ok(())
}

/// Updates one field of the record at `index`: the field that `param`
/// selects is set to `value`, if the record that results obeys all four
/// rules. A refused update leaves every record as it was.
pub fn update_amm_config(store: &mut ConfigStore, index: u16, param: u8, value: u32) -> (r: Result<
    (),
    ConfigError,
>)
    ensures
        r == update_result(old(store)@, index, param, value),
        final(store)@ == records_after_update(old(store)@, index, param, value),
        records_sound(final(store)@),
{
    proof {
        use_type_invariant(&*store);
    }
    let mut config = match store.records.get(&index) {
        Some(config) => *config,
        None => {
            return Err(ConfigError::NotFound);
        },
    };
    match config.update(param, value) {
        Ok(_) => {
            store.put(index, config);
            Ok(())
        },
        Err(e) => Err(e),
    }
}

/// A creation keeps the store sound: every record that exists after it
/// stands at its own index and is valid.
pub proof fn lemma_creation_keeps_records_sound(
    records: Map<u16, AmmConfig>,
    index: u16,
    tick_spacing: u16,
    trade_fee_rate: u32,
    protocol_fee_rate: u32,
    fund_fee_rate: u32,
)
    requires
        records_sound(records),
    ensures
        records_sound(
            records_after_creation(
                records,
                index,
                tick_spacing,
                trade_fee_rate,
                protocol_fee_rate,
                fund_fee_rate,
            ),
        ),
{
}

/// An update keeps the store sound: the record that it writes obeys all
/// four rules, not only the one on the field that changed.
pub proof fn lemma_update_keeps_records_sound(records: Map<u16, AmmConfig>, index: u16, param: u8, value: u32)
    requires
        records_sound(records),
    ensures
        records_sound(records_after_update(records, index, param, value)),
{
}

/// A creation is all or nothing. Refused, it leaves the records as they
/// were. Accepted, it adds the record of its arguments at an index that was
/// free, and leaves every other record as it was: no record is removed or
/// overwritten.
pub proof fn lemma_creation_is_all_or_nothing(
    records: Map<u16, AmmConfig>,
    index: u16,
    tick_spacing: u16,
    trade_fee_rate: u32,
    protocol_fee_rate: u32,
    fund_fee_rate: u32,
)
    ensures
        ({
            let result = creation_result(
                records,
                index,
                tick_spacing,
                trade_fee_rate,
                protocol_fee_rate,
                fund_fee_rate,
            );
            let after = records_after_creation(
                records,
                index,
                tick_spacing,
                trade_fee_rate,
                protocol_fee_rate,
                fund_fee_rate,
            );
            &&& result is Err ==> after == records
            &&& result is Ok ==> {
                &&& !records.contains_key(index)
                &&& after.contains_key(index)
                &&& after[index] == AmmConfig {
                    index,
                    tick_spacing,
                    trade_fee_rate,
                    protocol_fee_rate,
                    fund_fee_rate,
                }
                &&& after.remove(index) == records
            }
            &&& records.dom().subset_of(after.dom())
        }),
{
    let after = records_after_creation(
        records,
        index,
        tick_spacing,
        trade_fee_rate,
        protocol_fee_rate,
        fund_fee_rate,
    );
    if creation_result(records, index, tick_spacing, trade_fee_rate, protocol_fee_rate, fund_fee_rate) is Ok {
        assert(after.remove(index) =~= records);
    }
}

/// An update is all or nothing. Refused, it leaves the records as they
/// were. Accepted, it replaces the record at its index by one with the same
/// index and tick spacing, and leaves every other record as it was. Either
/// way the same indices are in use after it as before.
pub proof fn lemma_update_is_all_or_nothing(records: Map<u16, AmmConfig>, index: u16, param: u8, value: u32)
    ensures
        ({
            let result = update_result(records, index, param, value);
            let after = records_after_update(records, index, param, value);
            &&& result is Err ==> after == records
            &&& result is Ok ==> {
                &&& records.contains_key(index)
                &&& records[index].updated(param, value) == Ok::<AmmConfig, ConfigError>(after[index])
                &&& after[index].index == records[index].index
                &&& after[index].tick_spacing == records[index].tick_spacing
                &&& after.remove(index) == records.remove(index)
            }
            &&& after.dom() == records.dom()
        }),
{
    let after = records_after_update(records, index, param, value);
    assert(after.dom() =~= records.dom());
    if update_result(records, index, param, value) is Ok {
        assert(after.remove(index) =~= records.remove(index));
    }
}

/// A creation at an index in use, with rates that are valid, is refused as
/// `DuplicateIndex`, and the record that is there stays as it is.
pub proof fn lemma_duplicate_index_rejected(
    records: Map<u16, AmmConfig>,
    index: u16,
    tick_spacing: u16,
    trade_fee_rate: u32,
    protocol_fee_rate: u32,
    fund_fee_rate: u32,
)
    requires
        records.contains_key(index),
        fee_rates_valid(trade_fee_rate, protocol_fee_rate, fund_fee_rate),
    ensures
        creation_result(records, index, tick_spacing, trade_fee_rate, protocol_fee_rate, fund_fee_rate) == Err::<
            (),
            ConfigError,
        >(ConfigError::DuplicateIndex),
        records_after_creation(records, index, tick_spacing, trade_fee_rate, protocol_fee_rate, fund_fee_rate)
            == records,
{
}

/// An update whose selector names no field always fails and leaves every
/// field of every record as it was. Where a record stands at the index the
/// refusal is `InvalidParam`.
pub proof fn lemma_unknown_param_changes_nothing(records: Map<u16, AmmConfig>, index: u16, param: u8, value: u32)
    requires
        ConfigParam::from_id(param) is None,
    ensures
        update_result(records, index, param, value) is Err,
        records.contains_key(index) ==> update_result(records, index, param, value) == Err::<(), ConfigError>(
            ConfigError::InvalidParam,
        ),
        records_after_update(records, index, param, value) == records,
{
}

/// An update after which the two shares of the record would add up to more
/// than the denominator is refused as `InvalidFeeRate`, and the field that
/// it aimed at keeps the value that it had.
pub proof fn lemma_update_above_denominator_changes_nothing(
    records: Map<u16, AmmConfig>,
    index: u16,
    param: u8,
    value: u32,
)
    requires
        records.contains_key(index),
        ConfigParam::from_id(param) matches Some(field) && records[index].with_param(
            field,
            value,
        ).protocol_fee_rate + records[index].with_param(field, value).fund_fee_rate
            > FEE_RATE_DENOMINATOR_VALUE,
    ensures
        update_result(records, index, param, value) matches Err(ConfigError::InvalidFeeRate(_)),
        records_after_update(records, index, param, value) == records,
{
}

} // verus!
