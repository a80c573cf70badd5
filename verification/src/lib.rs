//! Fee-tier configuration for an automated-market-maker exchange.
//!
//! A fee tier is a small record of fee rates and a tick spacing that many
//! trading pools share, so that fee policy changes in one place. This crate
//! holds the rules that keep such a record sound: the numeric invariants of
//! the rates, the creation of a record, and the single-field updates that may
//! follow it. Every function is verified against its contract.
//!
//! - [`fee_rate`] states the four rules on the rates and decides them.
//! - [`config`] holds the record, and creates and updates one record.
//! - [`store`] holds the records by index, and creates and updates a record
//!   among them.
//! - [`error`] names the refusals.
//!
//! Whether the caller may change a fee tier at all is not decided here: the
//! operations assume that it was decided before they run.

pub mod config;
pub mod error;
pub mod fee_rate;
pub mod store;

pub use config::{AmmConfig, ConfigParam};
pub use error::{ConfigError, FeeRateRule};
pub use fee_rate::{validate, FEE_RATE_DENOMINATOR_VALUE};
pub use store::{create_amm_config, update_amm_config, ConfigStore};
