//! The registry of markets and collaterals, and the package config.
use vstd::prelude::*;

use core::marker::PhantomData;

use crate::ifixed::IFixed;
use crate::sui_framework::{ID, UID};

verus! {

/// Registry object that maintains:
/// - A mapping between a clearing house id and `MarketInfo`
/// - A mapping between a collateral type `T` and `CollateralInfo`
/// It also maintains the global counter for account creation.
/// Minted and shared when the module is published.
#[derive(Clone, Debug, PartialEq, Eq)]
pub struct Registry {
    pub id: UID,
    pub next_account_id: u64,
}

/// Struct containing all the immutable info about a registered market
#[derive(Debug, PartialEq, Eq)]
pub struct MarketInfo<T> {
    pub base_pfs_id: ID,
    pub base_pfs_source_id: ID,
    pub collateral_pfs_id: ID,
    pub collateral_pfs_source_id: ID,
    pub scaling_factor: IFixed,
    /// The type argument `T`, which the struct only names.
    pub t: PhantomData<T>,
}

/// Struct containing all the immutable info about the collateral
/// used in one or more markets
#[derive(Debug, PartialEq, Eq)]
pub struct CollateralInfo<T> {
    pub collateral_pfs_id: ID,
    pub collateral_pfs_source_id: ID,
    pub scaling_factor: IFixed,
    /// The type argument `T`, which the struct only names.
    pub t: PhantomData<T>,
}

/// Config that stores useful info for the protocol
#[derive(Clone, Debug, PartialEq, Eq)]
pub struct Config {
    pub stop_order_mist_cost: u64,
    pub twap_order_mist_cost: u64,
}

} // verus!
