//! An interest-accruing deposit ledger for paired tokens.
//!
//! A base token deposited by an account earns time-weighted interest; the
//! account withdraws by sending the paired reserve token back. Every operation
//! acts on an explicitly owned [`Contract`] and takes the clock reading as an
//! argument. An operation either fails with a [`LedgerError`], leaving the
//! contract untouched, or commits its change and returns an [`Effect`]: the
//! record it wrote and the settlement calls that the caller has to dispatch
//! afterwards.

pub mod account_map;
pub mod accrual;
pub mod error;
pub mod ledger;
pub mod registry;
pub mod settlement;
pub mod theorems;

pub use crate::account_map::{AccountId, AccountMap};
pub use crate::accrual::{accrue, Balance, DepositDataDetail, RATE_DIVISOR, TIME_UNIT};
pub use crate::error::LedgerError;
pub use crate::ledger::{Contract, ContractView, DepositData, Effect, EffectView};
pub use crate::registry::{RegistryView, Route, TokenData, TokenDataView, TokenRegistry};
pub use crate::settlement::{
    settlement_views, Settlement, SettlementKind, SettlementView, GAS_FOR_FT_REGISTER_TRANSFER,
    GAS_FOR_FT_TRANSFER, SETTLEMENT_DEPOSIT,
};
