//! Events that the perpetuals package emits.
use vstd::prelude::*;

use core::marker::PhantomData;

use crate::ifixed::IFixed;
use crate::sui_framework::ID;
use crate::type_tag::Address;

verus! {

#[derive(Debug, PartialEq, Eq)]
pub struct CreatedAccount<T> {
    pub account_obj_id: ID,
    pub user: Address,
    pub account_id: u64,
    /// The type argument `T`, which the struct only names.
    pub t: PhantomData<T>,
}

#[derive(Debug, PartialEq, Eq)]
pub struct DepositedCollateral<T> {
    pub account_id: u64,
    pub collateral: u64,
    /// The type argument `T`, which the struct only names.
    pub t: PhantomData<T>,
}

#[derive(Clone, Debug, PartialEq, Eq)]
pub struct AllocatedCollateral {
    pub ch_id: ID,
    pub account_id: u64,
    pub collateral: u64,
}

#[derive(Debug, PartialEq, Eq)]
pub struct WithdrewCollateral<T> {
    pub account_id: u64,
    pub collateral: u64,
    /// The type argument `T`, which the struct only names.
    pub t: PhantomData<T>,
}

#[derive(Clone, Debug, PartialEq, Eq)]
pub struct DeallocatedCollateral {
    pub ch_id: ID,
    pub account_id: u64,
    pub collateral: u64,
}

#[derive(Clone, Debug, PartialEq, Eq)]
pub struct CreatedOrderbook {
    pub branch_min: u64,
    pub branches_merge_max: u64,
    pub branch_max: u64,
    pub leaf_min: u64,
    pub leaves_merge_max: u64,
    pub leaf_max: u64,
}

#[derive(Clone, Debug, PartialEq, Eq)]
pub struct CreatedClearingHouse {
    pub ch_id: ID,
    pub collateral: String,
    pub coin_decimals: u64,
    pub margin_ratio_initial: IFixed,
    pub margin_ratio_maintenance: IFixed,
    pub base_oracle_id: ID,
    pub collateral_oracle_id: ID,
    pub funding_frequency_ms: u64,
    pub funding_period_ms: u64,
    pub premium_twap_frequency_ms: u64,
    pub premium_twap_period_ms: u64,
    pub spread_twap_frequency_ms: u64,
    pub spread_twap_period_ms: u64,
    pub maker_fee: IFixed,
    pub taker_fee: IFixed,
    pub liquidation_fee: IFixed,
    pub force_cancel_fee: IFixed,
    pub insurance_fund_fee: IFixed,
    pub lot_size: u64,
    pub tick_size: u64,
}

#[derive(Debug, PartialEq, Eq)]
pub struct RegisteredMarketInfo<T> {
    pub ch_id: ID,
    pub base_pfs_id: ID,
    pub base_pfs_source_id: ID,
    pub collateral_pfs_id: ID,
    pub collateral_pfs_source_id: ID,
    pub scaling_factor: IFixed,
    /// The type argument `T`, which the struct only names.
    pub t: PhantomData<T>,
}

#[derive(Debug, PartialEq, Eq)]
pub struct RemovedRegisteredMarketInfo<T> {
    pub ch_id: ID,
    /// The type argument `T`, which the struct only names.
    pub t: PhantomData<T>,
}

#[derive(Debug, PartialEq, Eq)]
pub struct RegisteredCollateralInfo<T> {
    pub ch_id: ID,
    pub collateral_pfs_id: ID,
    pub collateral_pfs_source_id: ID,
    pub scaling_factor: IFixed,
    /// The type argument `T`, which the struct only names.
    pub t: PhantomData<T>,
}

#[derive(Debug, PartialEq, Eq)]
pub struct AddedIntegratorConfig<T> {
    pub account_id: u64,
    pub integrator_address: Address,
    pub max_taker_fee: IFixed,
    /// The type argument `T`, which the struct only names.
    pub t: PhantomData<T>,
}

#[derive(Debug, PartialEq, Eq)]
pub struct RemovedIntegratorConfig<T> {
    pub account_id: u64,
    pub integrator_address: Address,
    /// The type argument `T`, which the struct only names.
    pub t: PhantomData<T>,
}

#[derive(Debug, PartialEq, Eq)]
pub struct PaidIntegratorFees<T> {
    pub account_id: u64,
    pub integrator_address: Address,
    pub fees: IFixed,
    /// The type argument `T`, which the struct only names.
    pub t: PhantomData<T>,
}

#[derive(Clone, Debug, PartialEq, Eq)]
pub struct CreatedIntegratorVault {
    pub ch_id: ID,
    pub integrator_address: Address,
}

#[derive(Clone, Debug, PartialEq, Eq)]
pub struct WithdrewFromIntegratorVault {
    pub ch_id: ID,
    pub integrator_address: Address,
    pub fees: u64,
}

#[derive(Clone, Debug, PartialEq, Eq)]
pub struct UpdatedClearingHouseVersion {
    pub ch_id: ID,
    pub version: u64,
}

#[derive(Clone, Debug, PartialEq, Eq)]
pub struct PausedMarket {
    pub ch_id: ID,
}

#[derive(Clone, Debug, PartialEq, Eq)]
pub struct ResumedMarket {
    pub ch_id: ID,
}

#[derive(Clone, Debug, PartialEq, Eq)]
pub struct ClosedMarket {
    pub ch_id: ID,
    pub base_settlement_price: IFixed,
    pub collateral_settlement_price: IFixed,
}

#[derive(Clone, Debug, PartialEq, Eq)]
pub struct ClosedPositionAtSettlementPrices {
    pub ch_id: ID,
    pub account_id: u64,
    pub pnl: IFixed,
    pub base_asset_amount: IFixed,
    pub quote_asset_amount: IFixed,
    pub deallocated_collateral: u64,
    pub bad_debt: IFixed,
}

#[derive(Clone, Debug, PartialEq, Eq)]
pub struct UpdatedPremiumTwap {
    pub ch_id: ID,
    pub book_price: IFixed,
    pub index_price: IFixed,
    pub premium_twap: IFixed,
    pub premium_twap_last_upd_ms: u64,
}

#[derive(Clone, Debug, PartialEq, Eq)]
pub struct UpdatedSpreadTwap {
    pub ch_id: ID,
    pub book_price: IFixed,
    pub index_price: IFixed,
    pub spread_twap: IFixed,
    pub spread_twap_last_upd_ms: u64,
}

#[derive(Clone, Debug, PartialEq, Eq)]
pub struct UpdatedGasPriceTwap {
    pub ch_id: ID,
    pub gas_price: IFixed,
    pub mean: IFixed,
    pub variance: IFixed,
    pub gas_price_last_upd_ms: u64,
}

#[derive(Clone, Debug, PartialEq, Eq)]
pub struct UpdatedGasPriceTwapParameters {
    pub ch_id: ID,
    pub gas_price_twap_period_ms: u64,
    pub gas_price_taker_fee: IFixed,
    pub z_score_threshold: IFixed,
}

#[derive(Clone, Debug, PartialEq, Eq)]
pub struct UpdatedMarketLotAndTick {
    pub ch_id: ID,
    pub lot_size: u64,
    pub tick_size: u64,
}

#[derive(Clone, Debug, PartialEq, Eq)]
pub struct UpdatedFunding {
    pub ch_id: ID,
    pub cum_funding_rate_long: IFixed,
    pub cum_funding_rate_short: IFixed,
    pub funding_last_upd_ms: u64,
}

#[derive(Clone, Debug, PartialEq, Eq)]
pub struct SettledFunding {
    pub ch_id: ID,
    pub account_id: u64,
    pub collateral_change_usd: IFixed,
    pub collateral_after: IFixed,
    pub mkt_funding_rate_long: IFixed,
    pub mkt_funding_rate_short: IFixed,
}

#[derive(Clone, Debug, PartialEq, Eq)]
pub struct FilledMakerOrders {
    pub events: Vec<FilledMakerOrder>,
}

#[derive(Clone, Debug, PartialEq, Eq)]
pub struct FilledMakerOrder {
    pub ch_id: ID,
    pub maker_account_id: u64,
    pub taker_account_id: u64,
    pub order_id: u128,
    pub filled_size: u64,
    pub remaining_size: u64,
    pub canceled_size: u64,
    pub pnl: IFixed,
    pub fees: IFixed,
}

#[derive(Clone, Debug, PartialEq, Eq)]
pub struct FilledTakerOrder {
    pub ch_id: ID,
    pub taker_account_id: u64,
    pub taker_pnl: IFixed,
    pub taker_fees: IFixed,
    pub integrator_taker_fees: IFixed,
    pub integrator_address: Option<Address>,
    pub base_asset_delta_ask: IFixed,
    pub quote_asset_delta_ask: IFixed,
    pub base_asset_delta_bid: IFixed,
    pub quote_asset_delta_bid: IFixed,
}

#[derive(Clone, Debug, PartialEq, Eq)]
pub struct PostedOrder {
    pub ch_id: ID,
    pub account_id: u64,
    pub order_id: u128,
    pub order_size: u64,
    pub reduce_only: bool,
    pub expiration_timestamp_ms: Option<u64>,
}

#[derive(Clone, Debug, PartialEq, Eq)]
pub struct CanceledOrder {
    pub ch_id: ID,
    pub account_id: u64,
    pub size: u64,
    pub order_id: u128,
}

#[derive(Clone, Debug, PartialEq, Eq)]
pub struct LiquidatedPosition {
    pub ch_id: ID,
    pub liqee_account_id: u64,
    pub liqor_account_id: u64,
    pub is_liqee_long: bool,
    pub base_liquidated: IFixed,
    pub quote_liquidated: IFixed,
    pub liqee_pnl: IFixed,
    pub liquidation_fees: IFixed,
    pub force_cancel_fees: IFixed,
    pub insurance_fund_fees: IFixed,
    pub bad_debt: IFixed,
}

#[derive(Clone, Debug, PartialEq, Eq)]
pub struct PerformedLiquidation {
    pub ch_id: ID,
    pub liqee_account_id: u64,
    pub liqor_account_id: u64,
    pub is_liqee_long: bool,
    pub base_liquidated: IFixed,
    pub quote_liquidated: IFixed,
    pub liqor_pnl: IFixed,
    pub liqor_fees: IFixed,
}

#[derive(Clone, Debug, PartialEq, Eq)]
pub struct SocializedBadDebt {
    pub ch_id: ID,
    pub bad_debt_usd: IFixed,
    pub socialized_fundings: IFixed,
    pub added_to_long: bool,
    pub cum_funding_rate_long: IFixed,
    pub cum_funding_rate_short: IFixed,
}

#[derive(Clone, Debug, PartialEq, Eq)]
pub struct PerformedADL {
    pub ch_id: ID,
    pub bad_debt_account_id: u64,
    pub size_reduced: u64,
    pub collateral_transferred: IFixed,
    pub adl_price: u64,
    pub counterparty_account_id: u64,
    pub bad_debt_is_long: bool,
}

#[derive(Clone, Debug, PartialEq, Eq)]
pub struct CreatedPosition {
    pub ch_id: ID,
    pub account_id: u64,
    pub mkt_funding_rate_long: IFixed,
    pub mkt_funding_rate_short: IFixed,
}

#[derive(Clone, Debug, PartialEq, Eq)]
pub struct SetPositionInitialMarginRatio {
    pub ch_id: ID,
    pub account_id: u64,
    pub initial_margin_ratio: IFixed,
}

#[derive(Debug, PartialEq, Eq)]
pub struct CreatedStopOrderTicket<T> {
    pub ticket_id: ID,
    pub account_id: u64,
    pub executors: Vec<Address>,
    pub gas: u64,
    pub stop_order_type: u64,
    pub encrypted_details: Vec<u8>,
    /// The type argument `T`, which the struct only names.
    pub t: PhantomData<T>,
}

#[derive(Debug, PartialEq, Eq)]
pub struct ExecutedStopOrderTicket<T> {
    pub ticket_id: ID,
    pub account_id: u64,
    pub executor: Address,
    /// The type argument `T`, which the struct only names.
    pub t: PhantomData<T>,
}

#[derive(Debug, PartialEq, Eq)]
pub struct DeletedStopOrderTicket<T> {
    pub ticket_id: ID,
    pub account_id: u64,
    pub executor: Address,
    /// The type argument `T`, which the struct only names.
    pub t: PhantomData<T>,
}

#[derive(Debug, PartialEq, Eq)]
pub struct EditedStopOrderTicketDetails<T> {
    pub ticket_id: ID,
    pub account_id: u64,
    pub encrypted_details: Vec<u8>,
    /// The type argument `T`, which the struct only names.
    pub t: PhantomData<T>,
}

#[derive(Debug, PartialEq, Eq)]
pub struct EditedStopOrderTicketExecutors<T> {
    pub ticket_id: ID,
    pub account_id: u64,
    pub executors: Vec<Address>,
    /// The type argument `T`, which the struct only names.
    pub t: PhantomData<T>,
}

#[derive(Debug, PartialEq, Eq)]
pub struct CreatedTWAPOrderTicket<T> {
    pub ticket_id: ID,
    pub account_id: u64,
    pub executors: Vec<Address>,
    pub gas: u64,
    pub encrypted_details: Vec<u8>,
    /// The type argument `T`, which the struct only names.
    pub t: PhantomData<T>,
}

#[derive(Debug, PartialEq, Eq)]
pub struct ProcessedTWAPOrderTicket<T> {
    pub ticket_id: ID,
    pub account_id: u64,
    pub execution_amount: u64,
    pub filled_amount: u64,
    pub remainder: u64,
    pub processed_amount: u64,
    pub last_execution_timestamp_ms: u64,
    /// The type argument `T`, which the struct only names.
    pub t: PhantomData<T>,
}

#[derive(Debug, PartialEq, Eq)]
pub struct FinalizedTWAPOrderTicket<T> {
    pub ticket_id: ID,
    pub account_id: u64,
    pub executor: Address,
    pub executed: bool,
    pub deallocated_collateral: u64,
    /// The type argument `T`, which the struct only names.
    pub t: PhantomData<T>,
}

#[derive(Debug, PartialEq, Eq)]
pub struct CanceledTWAPOrderTicket<T> {
    pub ticket_id: ID,
    pub account_id: u64,
    pub sender: Address,
    pub deallocated_collateral: u64,
    /// The type argument `T`, which the struct only names.
    pub t: PhantomData<T>,
}

#[derive(Debug, PartialEq, Eq)]
pub struct ExecutedTWAPOrderTicket<T> {
    pub ticket_id: ID,
    pub account_id: u64,
    pub executor: Address,
    /// The type argument `T`, which the struct only names.
    pub t: PhantomData<T>,
}

#[derive(Debug, PartialEq, Eq)]
pub struct DeletedTWAPOrderTicket<T> {
    pub ticket_id: ID,
    pub account_id: u64,
    pub executor: Address,
    /// The type argument `T`, which the struct only names.
    pub t: PhantomData<T>,
}

#[derive(Debug, PartialEq, Eq)]
pub struct EditedTWAPOrderTicketDetails<T> {
    pub ticket_id: ID,
    pub account_id: u64,
    pub encrypted_details: Vec<u8>,
    /// The type argument `T`, which the struct only names.
    pub t: PhantomData<T>,
}

#[derive(Debug, PartialEq, Eq)]
pub struct EditedTWAPOrderTicketExecutors<T> {
    pub ticket_id: ID,
    pub account_id: u64,
    pub executors: Vec<Address>,
    /// The type argument `T`, which the struct only names.
    pub t: PhantomData<T>,
}

#[derive(Clone, Debug, PartialEq, Eq)]
pub struct CreatedMarginRatiosProposal {
    pub ch_id: ID,
    pub margin_ratio_initial: IFixed,
    pub margin_ratio_maintenance: IFixed,
}

#[derive(Clone, Debug, PartialEq, Eq)]
pub struct UpdatedMarginRatios {
    pub ch_id: ID,
    pub margin_ratio_initial: IFixed,
    pub margin_ratio_maintenance: IFixed,
}

#[derive(Clone, Debug, PartialEq, Eq)]
pub struct DeletedMarginRatiosProposal {
    pub ch_id: ID,
    pub margin_ratio_initial: IFixed,
    pub margin_ratio_maintenance: IFixed,
}

#[derive(Clone, Debug, PartialEq, Eq)]
pub struct CreatedPositionFeesProposal {
    pub ch_id: ID,
    pub account_id: u64,
    pub maker_fee: IFixed,
    pub taker_fee: IFixed,
}

#[derive(Clone, Debug, PartialEq, Eq)]
pub struct DeletedPositionFeesProposal {
    pub ch_id: ID,
    pub account_id: u64,
    pub maker_fee: IFixed,
    pub taker_fee: IFixed,
}

#[derive(Clone, Debug, PartialEq, Eq)]
pub struct AcceptedPositionFeesProposal {
    pub ch_id: ID,
    pub account_id: u64,
    pub maker_fee: IFixed,
    pub taker_fee: IFixed,
}

#[derive(Clone, Debug, PartialEq, Eq)]
pub struct RejectedPositionFeesProposal {
    pub ch_id: ID,
    pub account_id: u64,
    pub maker_fee: IFixed,
    pub taker_fee: IFixed,
}

#[derive(Clone, Debug, PartialEq, Eq)]
pub struct ResettedPositionFees {
    pub ch_id: ID,
    pub account_id: u64,
}

#[derive(Clone, Debug, PartialEq, Eq)]
pub struct UpdatedFees {
    pub ch_id: ID,
    pub maker_fee: IFixed,
    pub taker_fee: IFixed,
    pub liquidation_fee: IFixed,
    pub force_cancel_fee: IFixed,
    pub insurance_fund_fee: IFixed,
}

#[derive(Clone, Debug, PartialEq, Eq)]
pub struct UpdatedFundingParameters {
    pub ch_id: ID,
    pub funding_frequency_ms: u64,
    pub funding_period_ms: u64,
    pub premium_twap_frequency_ms: u64,
    pub premium_twap_period_ms: u64,
}

#[derive(Clone, Debug, PartialEq, Eq)]
pub struct UpdatedSpreadTwapParameters {
    pub ch_id: ID,
    pub spread_twap_frequency_ms: u64,
    pub spread_twap_period_ms: u64,
}

#[derive(Clone, Debug, PartialEq, Eq)]
pub struct UpdatedMinOrderUsdValue {
    pub ch_id: ID,
    pub min_order_usd_value: IFixed,
}

#[derive(Clone, Debug, PartialEq, Eq)]
pub struct UpdatedBasePfsID {
    pub ch_id: ID,
    pub pfs_id: ID,
}

#[derive(Clone, Debug, PartialEq, Eq)]
pub struct UpdatedCollateralPfsID {
    pub ch_id: ID,
    pub pfs_id: ID,
}

#[derive(Clone, Debug, PartialEq, Eq)]
pub struct UpdatedBasePfsSourceID {
    pub ch_id: ID,
    pub source_id: ID,
}

#[derive(Clone, Debug, PartialEq, Eq)]
pub struct UpdatedCollateralPfsSourceID {
    pub ch_id: ID,
    pub source_id: ID,
}

#[derive(Clone, Debug, PartialEq, Eq)]
pub struct UpdatedBasePfsTolerance {
    pub ch_id: ID,
    pub pfs_tolerance: u64,
}

#[derive(Clone, Debug, PartialEq, Eq)]
pub struct UpdatedCollateralPfsTolerance {
    pub ch_id: ID,
    pub pfs_tolerance: u64,
}

#[derive(Clone, Debug, PartialEq, Eq)]
pub struct UpdatedMaxSocializeLossesMrDecrease {
    pub ch_id: ID,
    pub max_socialize_losses_mr_decrease: IFixed,
}

#[derive(Clone, Debug, PartialEq, Eq)]
pub struct UpdatedMaxBadDebt {
    pub ch_id: ID,
    pub max_bad_debt: IFixed,
}

#[derive(Clone, Debug, PartialEq, Eq)]
pub struct UpdatedCollateralHaircut {
    pub ch_id: ID,
    pub collateral_haircut: IFixed,
}

#[derive(Clone, Debug, PartialEq, Eq)]
pub struct UpdatedMaxOpenInterest {
    pub ch_id: ID,
    pub max_open_interest: IFixed,
}

#[derive(Clone, Debug, PartialEq, Eq)]
pub struct UpdatedMaxOpenInterestPositionParams {
    pub ch_id: ID,
    pub max_open_interest_threshold: IFixed,
    pub max_open_interest_position_percent: IFixed,
}

#[derive(Clone, Debug, PartialEq, Eq)]
pub struct UpdatedMaxPendingOrders {
    pub ch_id: ID,
    pub max_pending_orders: u64,
}

#[derive(Clone, Debug, PartialEq, Eq)]
pub struct UpdatedStopOrderMistCost {
    pub stop_order_mist_cost: u64,
}

#[derive(Clone, Debug, PartialEq, Eq)]
pub struct UpdatedTWAPOrderMistCost {
    pub twap_order_mist_cost: u64,
}

#[derive(Clone, Debug, PartialEq, Eq)]
pub struct DonatedToInsuranceFund {
    pub sender: Address,
    pub ch_id: ID,
    pub new_balance: u64,
}

#[derive(Clone, Debug, PartialEq, Eq)]
pub struct WithdrewFees {
    pub sender: Address,
    pub ch_id: ID,
    pub amount: u64,
    pub vault_balance_after: u64,
}

#[derive(Clone, Debug, PartialEq, Eq)]
pub struct WithdrewInsuranceFund {
    pub sender: Address,
    pub ch_id: ID,
    pub amount: u64,
    pub insurance_fund_balance_after: u64,
}

#[derive(Clone, Debug, PartialEq, Eq)]
pub struct UpdatedOpenInterestAndFeesAccrued {
    pub ch_id: ID,
    pub open_interest: IFixed,
    pub fees_accrued: IFixed,
}

#[derive(Clone, Debug, PartialEq, Eq)]
pub struct CreatedAssistantAccountCap {
    pub account_id: u64,
    pub assistant_cap_id: ID,
}

#[derive(Clone, Debug, PartialEq, Eq)]
pub struct RevokedAssistantAccountCap {
    pub account_id: u64,
    pub assistant_cap_id: ID,
}

} // verus!
