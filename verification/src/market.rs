//! The parameters and the state of a perpetuals market.
use vstd::prelude::*;

use crate::ifixed::IFixed;
use crate::sui_framework::ID;

verus! {

/// Static attributes of a perpetuals market.
#[derive(Clone, Copy, Debug, PartialEq, Eq)]
pub struct MarketParams {
    /// Set of parameters governing market's core behaviors
    pub core_params: CoreParams,
    /// Set of parameters related to market's fees
    pub fees_params: FeesParams,
    /// Set of parameters governing fundings and twap updates
    pub twap_params: TwapParams,
    /// Set of parameters defining market's limits
    pub limits_params: LimitsParams,
}

#[derive(Clone, Copy, Debug, PartialEq, Eq)]
pub struct CoreParams {
    /// Identifier of the base asset's price feed storage.
    pub base_pfs_id: ID,
    /// Identifier of the collateral asset's price feed storage.
    pub collateral_pfs_id: ID,
    /// Identifier of the base asset's price feed storage source id (pyth, stork, etc...).
    pub base_pfs_source_id: ID,
    /// Identifier of the collateral asset's price feed storage source id (pyth, stork, etc...).
    pub collateral_pfs_source_id: ID,
    /// Timestamp tolerance for base oracle price
    pub base_pfs_tolerance: u64,
    /// Timestamp tolerance for collateral oracle price
    pub collateral_pfs_tolerance: u64,
    /// Number of base units exchanged per lot
    pub lot_size: u64,
    /// Number of quote units exchanged per tick
    pub tick_size: u64,
    /// Scaling factor to use to convert collateral units to ifixed values and viceversa
    pub scaling_factor: IFixed,
    /// Value haircut applied to collateral allocated in the position.
    /// Example: 98%
    pub collateral_haircut: IFixed,
    /// Minimum margin ratio for opening a new position.
    pub margin_ratio_initial: IFixed,
    /// Margin ratio below which full liquidations can occur.
    pub margin_ratio_maintenance: IFixed,
}

#[derive(Clone, Copy, Debug, PartialEq, Eq)]
pub struct FeesParams {
    /// Proportion of volume charged as fees from makers upon processing
    /// fill events.
    pub maker_fee: IFixed,
    /// Proportion of volume charged as fees from takers after processing
    /// fill events.
    pub taker_fee: IFixed,
    /// Proportion of volume charged as fees from liquidatees
    pub liquidation_fee: IFixed,
    /// Proportion of volume charged as fees from liquidatees after forced cancelling
    /// of pending orders during liquidation.
    pub force_cancel_fee: IFixed,
    /// Proportion of volume charged as fees from liquidatees to deposit into insurance fund
    pub insurance_fund_fee: IFixed,
    /// Additional taker fee to apply in case the gas price set for the transaction violates
    /// the z-score constraint
    pub gas_price_taker_fee: IFixed,
}

#[derive(Clone, Copy, Debug, PartialEq, Eq)]
pub struct TwapParams {
    /// The time span between each funding rate update.
    pub funding_frequency_ms: u64,
    /// Period of time over which funding (the difference between book and
    /// index prices) gets paid.
    ///
    /// Setting the funding period too long may cause the perpetual to start
    /// trading at a very dislocated price to the index because there's less
    /// of an incentive for basis arbitrageurs to push the prices back in
    /// line since they would have to carry the basis risk for a longer
    /// period of time.
    ///
    /// Setting the funding period too short may cause nobody to trade the
    /// perpetual because there's too punitive of a price to pay in the case
    /// the funding rate flips sign.
    pub funding_period_ms: u64,
    /// The time span between each funding TWAP (both index price and orderbook price) update.
    pub premium_twap_frequency_ms: u64,
    /// The reference time span used for weighting the TWAP (both index price and orderbook price)
    /// updates for funding rates estimation
    pub premium_twap_period_ms: u64,
    /// The time span between each spread TWAP updates (used for liquidations).
    pub spread_twap_frequency_ms: u64,
    /// The reference time span used for weighting the TWAP updates for spread.
    pub spread_twap_period_ms: u64,
    /// The reference time span used for weighting the TWAP updates for gas price.
    pub gas_price_twap_period_ms: u64,
}

#[derive(Clone, Copy, Debug, PartialEq, Eq)]
pub struct LimitsParams {
    /// Minimum USD value an order is required to be worth to be placed
    pub min_order_usd_value: IFixed,
    /// Maximum number of pending orders that a position can have.
    pub max_pending_orders: u64,
    /// Max open interest (in base tokens) available for this market
    pub max_open_interest: IFixed,
    /// The check on `max_open_interest_position_percent` is not performed if
    /// the market's open interest is below this threshold.
    pub max_open_interest_threshold: IFixed,
    /// Max open interest percentage a position can have relative to total market's open interest
    pub max_open_interest_position_percent: IFixed,
    /// Max amount of bad debt that can be socialized in nominal value.
    /// Positions that violate this check should be ADL'd.
    pub max_bad_debt: IFixed,
    /// Max amount of bad debt that can be socialized relative to total market's open interest.
    /// Positions that violate this check should be ADL'd.
    pub max_socialize_losses_mr_decrease: IFixed,
    /// Z-Score threshold level used to determine if to apply `gas_price_taker_fee` to the
    /// executed order
    pub z_score_threshold: IFixed,
}

/// The state of a perpetuals market.
#[derive(Clone, Copy, Debug, PartialEq, Eq)]
pub struct MarketState {
    /// The latest cumulative funding premium in this market for longs. Must be updated
    /// periodically.
    pub cum_funding_rate_long: IFixed,
    /// The latest cumulative funding premium in this market for shorts. Must be updated
    /// periodically.
    pub cum_funding_rate_short: IFixed,
    /// The timestamp (millisec) of the latest cumulative funding premium update
    /// (both longs and shorts).
    pub funding_last_upd_ms: u64,
    /// The last calculated funding premium TWAP (used for funding settlement).
    pub premium_twap: IFixed,
    /// The timestamp (millisec) of the last update of `premium_twap`.
    pub premium_twap_last_upd_ms: u64,
    /// The last calculated spread TWAP (used for liquidations).
    /// Spread is (book - index).
    pub spread_twap: IFixed,
    /// The timestamp (millisec) of `spread_twap` last update.
    pub spread_twap_last_upd_ms: u64,
    /// Gas price TWAP mean.
    /// It is used to calculate the penalty to add to taker fees based on the Z-score of the current gas price
    /// relative to the smoothed mean and variance.
    pub gas_price_mean: IFixed,
    /// Gas price TWAP variance.
    /// It is used to calculate the penalty to add to taker fees based on the Z-score of the current gas price
    /// relative to the smoothed mean and variance.
    pub gas_price_variance: IFixed,
    /// The timestamp (millisec) of the last update of `gas_price_mean` and `gas_price_variance`.
    pub gas_price_last_upd_ms: u64,
    /// Open interest (in base tokens) as a fixed-point number. Counts the
    /// total size of contracts as the sum of all long positions.
    pub open_interest: IFixed,
    /// Total amount of fees accrued by this market (in T's units)
    /// Only admin can withdraw these fees.
    pub fees_accrued: IFixed,
}

} // verus!
