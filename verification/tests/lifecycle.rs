use amm_config::config::{AmmConfig, ConfigParam};
use amm_config::error::{ConfigError, FeeRateRule};
use amm_config::store::{create_amm_config, update_amm_config, ConfigStore};

fn first_record() -> AmmConfig {
    AmmConfig { index: 0, tick_spacing: 1, trade_fee_rate: 2500, protocol_fee_rate: 120_000, fund_fee_rate: 40_000 }
}

#[test]
fn new_store_holds_no_record() {
    let store = ConfigStore::new();
    assert_eq!(store.len(), 0);
    assert!(!store.contains(0));
    assert_eq!(store.get(0), None);
}

#[test]
fn create_then_refused_create_then_refused_update() {
    let mut store = ConfigStore::new();
    assert_eq!(create_amm_config(&mut store, 0, 1, 2500, 120_000, 40_000), Ok(()));
    assert_eq!(store.get(0), Some(first_record()));

    assert_eq!(
        create_amm_config(&mut store, 0, 1, 1_000_000, 0, 0),
        Err(ConfigError::InvalidFeeRate(FeeRateRule::TradeFeeBelowDenominator))
    );
    assert_eq!(store.get(0), Some(first_record()));

    let protocol = ConfigParam::ProtocolFeeRate.id();
    assert_eq!(
        update_amm_config(&mut store, 0, protocol, 970_000),
        Err(ConfigError::InvalidFeeRate(FeeRateRule::CombinedSharesWithinDenominator))
    );
    assert_eq!(store.get(0).unwrap().protocol_fee_rate, 120_000);
    assert_eq!(store.get(0), Some(first_record()));
}

#[test]
fn update_within_the_denominator_is_written() {
    let mut store = ConfigStore::new();
    assert_eq!(create_amm_config(&mut store, 0, 1, 2500, 120_000, 40_000), Ok(()));
    let protocol = ConfigParam::ProtocolFeeRate.id();
    assert_eq!(update_amm_config(&mut store, 0, protocol, 900_000), Ok(()));
    assert_eq!(store.get(0), Some(AmmConfig { protocol_fee_rate: 900_000, ..first_record() }));
    assert_eq!(
        update_amm_config(&mut store, 0, protocol, 960_001),
        Err(ConfigError::InvalidFeeRate(FeeRateRule::CombinedSharesWithinDenominator))
    );
    assert_eq!(store.get(0).unwrap().protocol_fee_rate, 900_000);
}

#[test]
fn create_at_used_index_is_refused_and_keeps_the_record() {
    let mut store = ConfigStore::new();
    assert_eq!(create_amm_config(&mut store, 0, 1, 2500, 120_000, 40_000), Ok(()));
    assert_eq!(create_amm_config(&mut store, 0, 60, 10_000, 1, 2), Err(ConfigError::DuplicateIndex));
    assert_eq!(create_amm_config(&mut store, 0, 1, 2500, 120_000, 40_000), Err(ConfigError::DuplicateIndex));
    assert_eq!(store.get(0), Some(first_record()));
    assert_eq!(store.len(), 1);
}

#[test]
fn refused_create_writes_nothing() {
    let mut store = ConfigStore::new();
    assert_eq!(
        create_amm_config(&mut store, 5, 1, 0, 600_000, 400_001),
        Err(ConfigError::InvalidFeeRate(FeeRateRule::CombinedSharesWithinDenominator))
    );
    assert!(!store.contains(5));
    assert_eq!(store.len(), 0);
}

#[test]
fn records_at_different_indices_are_independent() {
    let mut store = ConfigStore::new();
    assert_eq!(create_amm_config(&mut store, 0, 1, 100, 120_000, 40_000), Ok(()));
    assert_eq!(create_amm_config(&mut store, 1, 10, 500, 120_000, 40_000), Ok(()));
    assert_eq!(create_amm_config(&mut store, u16::MAX, 60, 2500, 600_000, 400_000), Ok(()));
    assert_eq!(store.len(), 3);

    assert_eq!(update_amm_config(&mut store, 1, 0, 700), Ok(()));
    assert_eq!(store.get(0).unwrap().trade_fee_rate, 100);
    assert_eq!(store.get(1).unwrap().trade_fee_rate, 700);
    assert_eq!(
        store.get(u16::MAX),
        Some(AmmConfig {
            index: u16::MAX,
            tick_spacing: 60,
            trade_fee_rate: 2500,
            protocol_fee_rate: 600_000,
            fund_fee_rate: 400_000,
        })
    );
}

#[test]
fn update_at_unused_index_is_not_found() {
    let mut store = ConfigStore::new();
    assert_eq!(update_amm_config(&mut store, 0, 0, 1), Err(ConfigError::NotFound));
    assert_eq!(create_amm_config(&mut store, 0, 1, 2500, 120_000, 40_000), Ok(()));
    assert_eq!(update_amm_config(&mut store, 1, 0, 1), Err(ConfigError::NotFound));
    assert_eq!(update_amm_config(&mut store, 1, 9, 1), Err(ConfigError::NotFound));
    assert_eq!(store.len(), 1);
    assert_eq!(store.get(0), Some(first_record()));
}

#[test]
fn update_with_unknown_selector_leaves_the_record() {
    let mut store = ConfigStore::new();
    assert_eq!(create_amm_config(&mut store, 0, 1, 2500, 120_000, 40_000), Ok(()));
    for id in [3u8, 4, 77, u8::MAX] {
        assert_eq!(update_amm_config(&mut store, 0, id, 5), Err(ConfigError::InvalidParam));
        assert_eq!(store.get(0), Some(first_record()));
    }
}

#[test]
fn update_replaces_the_record_in_place() {
    let mut store = ConfigStore::new();
    assert_eq!(create_amm_config(&mut store, 0, 1, 2500, 120_000, 40_000), Ok(()));
    assert_eq!(update_amm_config(&mut store, 0, 0, 3000), Ok(()));
    assert_eq!(update_amm_config(&mut store, 0, 2, 880_000), Ok(()));
    assert_eq!(
        store.get(0),
        Some(AmmConfig { trade_fee_rate: 3000, fund_fee_rate: 880_000, ..first_record() })
    );
    assert_eq!(store.len(), 1);
    assert_eq!(
        update_amm_config(&mut store, 0, 1, 120_001),
        Err(ConfigError::InvalidFeeRate(FeeRateRule::CombinedSharesWithinDenominator))
    );
    assert_eq!(store.get(0).unwrap().protocol_fee_rate, 120_000);
}

#[test]
fn every_stored_record_obeys_the_rules() {
    let mut store = ConfigStore::new();
    let mut index = 0u16;
    for trade in [0u32, 2500, 999_999, 1_000_000] {
        for protocol in [0u32, 500_000, 1_000_000, 1_000_001] {
            for fund in [0u32, 500_000, 500_001, 1_000_000] {
                let _ = create_amm_config(&mut store, index, 1, trade, protocol, fund);
                let _ = update_amm_config(&mut store, index, 1, fund);
                let _ = update_amm_config(&mut store, index, 2, protocol);
                if let Some(config) = store.get(index) {
                    assert_eq!(config.index, index);
                    assert!(config.trade_fee_rate < 1_000_000);
                    assert!(config.protocol_fee_rate <= 1_000_000);
                    assert!(config.fund_fee_rate <= 1_000_000);
                    assert!(config.protocol_fee_rate + config.fund_fee_rate <= 1_000_000);
                }
                index += 1;
            }
        }
    }
    assert_eq!(index, 64);
}
