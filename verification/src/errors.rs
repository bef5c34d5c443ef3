//! Abort codes raised by the onchain perpetuals package, and the enum that
//! names each of them.
//!
//! Every abort code is exported twice: as a `u64` constant named after the
//! abort, and as a variant of [`MoveAbort`]. The enum converts to its code and
//! back, and knows its own name and documentation.
use vstd::prelude::*;
use vstd::std_specs::convert::FromSpecImpl;
use vstd::std_specs::convert::TryFromSpecImpl;

verus! {

// ClearingHouse ---------------------------------------------------------------

/// Cannot deposit/withdraw zero coins to/from the account's collateral.
#[allow(non_upper_case_globals)]
pub const DepositOrWithdrawAmountZero: u64 = 0;

/// Size to place is 0. Raised also when there is no open position and
/// an order with `reduce_only` is passed.
#[allow(non_upper_case_globals)]
pub const SizeOrPositionZero: u64 = 1;

/// Index price returned from oracle is 0 or invalid value
#[allow(non_upper_case_globals)]
pub const BadIndexPrice: u64 = 2;

/// Price is either 0 or greater than 0x8000_0000_0000_0000
#[allow(non_upper_case_globals)]
pub const InvalidPrice: u64 = 3;

/// Order value in USD is too low
#[allow(non_upper_case_globals)]
pub const OrderUsdValueTooLow: u64 = 4;

/// Passed a vector of invalid order ids to perform force cancellation
/// during liquidation
#[allow(non_upper_case_globals)]
pub const InvalidForceCancelIds: u64 = 5;

/// Liquidate must be the first operation of the session, if performed.
#[allow(non_upper_case_globals)]
pub const LiquidateNotFirstOperation: u64 = 6;

/// Passed a vector of invalid order ids to cancel
#[allow(non_upper_case_globals)]
pub const InvalidCancelOrderIds: u64 = 7;

/// Ticket has already passed `expire_timestamp` and can only be cancelled
#[allow(non_upper_case_globals)]
pub const StopOrderTicketExpired: u64 = 8;

/// Index price is not at correct value to satisfy stop order conditions
#[allow(non_upper_case_globals)]
pub const StopOrderConditionsViolated: u64 = 9;

/// Index price is not at correct value to satisfy stop order conditions
#[allow(non_upper_case_globals)]
pub const WrongOrderDetails: u64 = 10;

/// Invalid base price feed storage for the clearing house
#[allow(non_upper_case_globals)]
pub const InvalidBasePriceFeedStorage: u64 = 11;

/// Same liquidator and liqee account ids
#[allow(non_upper_case_globals)]
pub const SelfLiquidation: u64 = 12;

/// User trying to access the account used the wrong account cap
#[allow(non_upper_case_globals)]
pub const InvalidAccountCap: u64 = 13;

/// Raised when passing an integrator taker fee that is greater than
/// the `max_integrator_taker_fee` set by the user in its account
#[allow(non_upper_case_globals)]
pub const InvalidIntegratorTakerFee: u64 = 14;

/// Raised when trying to call a function with the wrong package's version
#[allow(non_upper_case_globals)]
pub const WrongVersion: u64 = 16;

/// Raised when trying to have a session composed by only `start_session` and `end_session`
#[allow(non_upper_case_globals)]
pub const EmptySession: u64 = 17;

/// Market already registered in the registry
#[allow(non_upper_case_globals)]
pub const MarketAlreadyRegistered: u64 = 18;

/// Collateral is not registered in the registry
#[allow(non_upper_case_globals)]
pub const CollateralIsNotRegistered: u64 = 19;

/// Market is not registered in the registry
#[allow(non_upper_case_globals)]
pub const MarketIsNotRegistered: u64 = 20;

/// Invalid collateral price feed storage for the clearing house
#[allow(non_upper_case_globals)]
pub const InvalidCollateralPriceFeedStorage: u64 = 21;

/// Fees accrued are negative
#[allow(non_upper_case_globals)]
pub const NegativeFeesAccrued: u64 = 22;

/// Passed a timestamp older than current Clock's one
#[allow(non_upper_case_globals)]
pub const InvalidExpirationTimestamp: u64 = 23;

/// Stop order gas cost provided is not enough
#[allow(non_upper_case_globals)]
pub const NotEnoughGasForStopOrder: u64 = 24;

/// TWAP order gas cost provided is not enough
#[allow(non_upper_case_globals)]
pub const NotEnoughGasForTWAPOrder: u64 = 25;

/// Invalid account trying to perform an action on a StopOrderTicket
#[allow(non_upper_case_globals)]
pub const InvalidAccountForStopOrder: u64 = 26;

/// Invalid executor trying to execute the StopOrderTicket
#[allow(non_upper_case_globals)]
pub const InvalidExecutorForStopOrder: u64 = 27;

/// Raised when the market's max open interest is surpassed as a result of
/// the session's actions
#[allow(non_upper_case_globals)]
pub const MaxOpenInterestSurpassed: u64 = 28;

/// Raised when a position's would get a base amount higher than the
/// allowed percentage of open interest
#[allow(non_upper_case_globals)]
pub const MaxOpenInterestPositionPercentSurpassed: u64 = 29;

/// Raised processing a session that requires a collateral allocation,
/// but not enough collateral is available in the account
#[allow(non_upper_case_globals)]
pub const NotEnoughCollateralToAllocateForSession: u64 = 30;

/// Raised processing a session that requires a collateral allocation
/// and a wrong account is being used to fund it
#[allow(non_upper_case_globals)]
pub const WrongAccountIdForAllocation: u64 = 31;

/// Raised when trying to create an integrator vault for an address
/// that already has one
#[allow(non_upper_case_globals)]
pub const IntegratorVaultAlreadyExists: u64 = 32;

/// Raised when trying to access an integrator vault that does not exist
#[allow(non_upper_case_globals)]
pub const IntegratorVaultDoesNotExist: u64 = 33;

/// Raised when trying to place an order passing a `size` that is not a multiple
/// of market's lot size
#[allow(non_upper_case_globals)]
pub const SizeNotMultipleOfLotSize: u64 = 34;

/// Raised when trying to place an order passing a `price` that is not a multiple
/// of market's tick size
#[allow(non_upper_case_globals)]
pub const PriceNotMultipleOfTickSize: u64 = 35;

/// Raised when adl counterparties vec lengths differ
#[allow(non_upper_case_globals)]
pub const ADLCounterpartiesMismatch: u64 = 36;

/// Raised when adl counterparty cannot reduce its assigned portion of base
#[allow(non_upper_case_globals)]
pub const ADLCounterpartyInsufficient: u64 = 37;

/// Raised when adl does not fully close the bad debt position
#[allow(non_upper_case_globals)]
pub const ADLBadDebtPositionNotClosed: u64 = 38;

/// Raised when weights for adl do not sum to fixed point 1
#[allow(non_upper_case_globals)]
pub const ADLWeightsDoNotSumToOne: u64 = 39;

/// Open interest is 0 when trying to socialize bad debt
#[allow(non_upper_case_globals)]
pub const NoOpenInterestToSocializeBadDebt: u64 = 40;

/// Bad debt amount is greater than max allowed threshold
#[allow(non_upper_case_globals)]
pub const BadDebtAboveThreshold: u64 = 41;

/// TWAP order is past its allowed start or end execution timestamp
#[allow(non_upper_case_globals)]
pub const TWAPOrderTicketExpired: u64 = 43;

/// Amount executed in one TWAP execution is outside the allowed range
#[allow(non_upper_case_globals)]
pub const TWAPOrderAmountUncertaintyViolated: u64 = 44;

/// Current timestamp is too early for the next TWAP execution
#[allow(non_upper_case_globals)]
pub const TWAPOrderExecutionGapViolated: u64 = 45;

/// The TWAP order has already been fully executed
#[allow(non_upper_case_globals)]
pub const TWAPOrderFullyExecuted: u64 = 46;

/// TWAP order is being executed after the retry deadline has passed
#[allow(non_upper_case_globals)]
pub const TWAPOrderExecutedAfterRetryTime: u64 = 47;

/// TWAP order is not in a terminal state required for finalization
#[allow(non_upper_case_globals)]
pub const TWAPOrderCannotBeFinalized: u64 = 48;

/// Invalid account trying to perform an action on a TWAPOrderTicket
#[allow(non_upper_case_globals)]
pub const TWAPOrderInvalidAccount: u64 = 49;

/// Invalid executor trying to perform an action on a TWAPOrderTicket
#[allow(non_upper_case_globals)]
pub const TWAPOrderInvalidExecutor: u64 = 50;

/// TWAP order is being edited while it is being executed
#[allow(non_upper_case_globals)]
pub const TWAPOrderCannotEditExecutingOrder: u64 = 51;

/// Invalid split between execution gas pool and finalization gas
#[allow(non_upper_case_globals)]
pub const TWAPOrderInvalidGasSplit: u64 = 52;

// Market ----------------------------------------------------------------------

/// While creating ordered map with invalid parameters,
/// or changing them improperly for an existent map.
#[allow(non_upper_case_globals)]
pub const InvalidMarketParameters: u64 = 1000;

/// Tried to call `update_funding` before enough time has passed since the
/// last update.
#[allow(non_upper_case_globals)]
pub const UpdatingFundingTooEarly: u64 = 1001;

/// Margin ratio update proposal already exists for market
#[allow(non_upper_case_globals)]
pub const ProposalAlreadyExists: u64 = 1002;

/// Margin ratio update proposal cannot be commited too early
#[allow(non_upper_case_globals)]
pub const PrematureProposal: u64 = 1003;

/// Margin ratio update proposal delay is outside the valid range
#[allow(non_upper_case_globals)]
pub const InvalidProposalDelay: u64 = 1004;

/// Margin ratio update proposal does not exist for market
#[allow(non_upper_case_globals)]
pub const ProposalDoesNotExist: u64 = 1005;

/// Exchange has no available fees to withdraw
#[allow(non_upper_case_globals)]
pub const NoFeesAccrued: u64 = 1006;

/// Tried to withdraw more insurance funds than the allowed amount
#[allow(non_upper_case_globals)]
pub const InsufficientInsuranceSurplus: u64 = 1007;

/// Cannot create a market for which a price feed does not exist
#[allow(non_upper_case_globals)]
pub const NoPriceFeedForMarket: u64 = 1008;

/// Cannot delete a proposal that already matured. It can only be committed.
#[allow(non_upper_case_globals)]
pub const ProposalAlreadyMatured: u64 = 1009;

/// Raised when an operation is performed while the market is paused
#[allow(non_upper_case_globals)]
pub const MarketIsPaused: u64 = 1010;

/// Raised when trying to call `close_position_at_settlement_prices` while
/// the market is not paused
#[allow(non_upper_case_globals)]
pub const MarketIsNotPaused: u64 = 1011;

/// Raised when trying to call `close_position_at_settlement_prices` while
/// before `close_market` has been called by admin
#[allow(non_upper_case_globals)]
pub const MarketIsNotClosed: u64 = 1012;

/// Raised when Admin tries to resume a closed market
#[allow(non_upper_case_globals)]
pub const MarketIsClosed: u64 = 1013;

// Position --------------------------------------------------------------------

/// Tried placing a new pending order when the position already has the maximum
/// allowed number of pending orders.
#[allow(non_upper_case_globals)]
pub const MaxPendingOrdersExceeded: u64 = 2000;

/// Used for checking both liqee and liqor positions during liquidation
#[allow(non_upper_case_globals)]
pub const PositionBelowIMR: u64 = 2001;

/// When leaving liqee's position with a margin ratio above tolerance,
/// meaning that liqor has overbought position
#[allow(non_upper_case_globals)]
pub const PositionAboveTolerance: u64 = 2002;

/// An operation brought an account below initial margin requirements.
#[allow(non_upper_case_globals)]
pub const InitialMarginRequirementViolated: u64 = 2003;

/// Position is above MMR, so can't be liquidated.
#[allow(non_upper_case_globals)]
pub const PositionAboveMMR: u64 = 2004;

/// Cannot realize bad debt via means other than calling 'liquidate'.
#[allow(non_upper_case_globals)]
pub const PositionBadDebt: u64 = 2005;

/// Cannot withdraw more than the account's free collateral.
#[allow(non_upper_case_globals)]
pub const InsufficientFreeCollateral: u64 = 2006;

/// Cannot have more than 1 position in a market.
#[allow(non_upper_case_globals)]
pub const PositionAlreadyExists: u64 = 2007;

/// Cannot compute deallocate amount for a target MR < IMR.
#[allow(non_upper_case_globals)]
pub const DeallocateTargetMrTooLow: u64 = 2008;

/// Raised when trying to set a position's IMR lower than market's IMR or higher than 1
#[allow(non_upper_case_globals)]
pub const InvalidPositionIMR: u64 = 2009;

/// Invalid stop order type
#[allow(non_upper_case_globals)]
pub const InvalidStopOrderType: u64 = 2010;

/// Invalid position' status for placing a SLTP order
#[allow(non_upper_case_globals)]
pub const InvalidPositionForSLTP: u64 = 2011;

// Orderbook & OrderedMap ------------------------------------------------------

/// While creating ordered map with wrong parameters.
#[allow(non_upper_case_globals)]
pub const InvalidMapParameters: u64 = 3000;

/// While searching for a key, but it doesn't exist.
#[allow(non_upper_case_globals)]
pub const KeyNotExist: u64 = 3001;

/// While inserting already existing key.
#[allow(non_upper_case_globals)]
pub const KeyAlreadyExists: u64 = 3002;

/// When attempting to destroy a non-empty map
#[allow(non_upper_case_globals)]
pub const DestroyNotEmpty: u64 = 3003;

/// Invalid user tries to modify an order
#[allow(non_upper_case_globals)]
pub const InvalidUserForOrder: u64 = 3004;

/// Orderbook flag requirements violated
#[allow(non_upper_case_globals)]
pub const FlagRequirementsViolated: u64 = 3005;

/// Minimum size matched not reached
#[allow(non_upper_case_globals)]
pub const NotEnoughLiquidity: u64 = 3006;

/// When trying to change a map configuration, but the map has
/// length less than 4
#[allow(non_upper_case_globals)]
pub const MapTooSmall: u64 = 3007;

// Account ---------------------------------------------------------------------

/// When trying to create another `AccountCap<ASSISTANT>` for an `Account` that already
/// has `constants::MAX_ASSISTANTS_PER_ACCOUNT` active assistants.
#[allow(non_upper_case_globals)]
pub const TooManyAssistantsPerAccount: u64 = 4000;

/// The abort codes of the perpetuals package, one variant per code.
///
/// The code of a variant is the constant of the same name; [`MoveAbort::code`]
/// gives it and [`MoveAbort::from_code`] finds the variant back.
///
/// The variants carry no explicit discriminants, so `abort as u64` gives the
/// variant's position in this list, not its abort code: use
/// [`MoveAbort::code`] or `u64::from(abort)` for the code.
#[derive(Debug, Clone, Copy, PartialEq, Eq, Structural, Hash)]
pub enum MoveAbort {
    /// Cannot deposit/withdraw zero coins to/from the account's collateral.
    DepositOrWithdrawAmountZero,
    /// Size to place is 0. Raised also when there is no open position and
    /// an order with `reduce_only` is passed.
    SizeOrPositionZero,
    /// Index price returned from oracle is 0 or invalid value
    BadIndexPrice,
    /// Price is either 0 or greater than 0x8000_0000_0000_0000
    InvalidPrice,
    /// Order value in USD is too low
    OrderUsdValueTooLow,
    /// Passed a vector of invalid order ids to perform force cancellation
    /// during liquidation
    InvalidForceCancelIds,
    /// Liquidate must be the first operation of the session, if performed.
    LiquidateNotFirstOperation,
    /// Passed a vector of invalid order ids to cancel
    InvalidCancelOrderIds,
    /// Ticket has already passed `expire_timestamp` and can only be cancelled
    StopOrderTicketExpired,
    /// Index price is not at correct value to satisfy stop order conditions
    StopOrderConditionsViolated,
    /// Index price is not at correct value to satisfy stop order conditions
    WrongOrderDetails,
    /// Invalid base price feed storage for the clearing house
    InvalidBasePriceFeedStorage,
    /// Same liquidator and liqee account ids
    SelfLiquidation,
    /// User trying to access the account used the wrong account cap
    InvalidAccountCap,
    /// Raised when passing an integrator taker fee that is greater than
    /// the `max_integrator_taker_fee` set by the user in its account
    InvalidIntegratorTakerFee,
    /// Raised when trying to call a function with the wrong package's version
    WrongVersion,
    /// Raised when trying to have a session composed by only `start_session` and `end_session`
    EmptySession,
    /// Market already registered in the registry
    MarketAlreadyRegistered,
    /// Collateral is not registered in the registry
    CollateralIsNotRegistered,
    /// Market is not registered in the registry
    MarketIsNotRegistered,
    /// Invalid collateral price feed storage for the clearing house
    InvalidCollateralPriceFeedStorage,
    /// Fees accrued are negative
    NegativeFeesAccrued,
    /// Passed a timestamp older than current Clock's one
    InvalidExpirationTimestamp,
    /// Stop order gas cost provided is not enough
    NotEnoughGasForStopOrder,
    /// TWAP order gas cost provided is not enough
    NotEnoughGasForTWAPOrder,
    /// Invalid account trying to perform an action on a StopOrderTicket
    InvalidAccountForStopOrder,
    /// Invalid executor trying to execute the StopOrderTicket
    InvalidExecutorForStopOrder,
    /// Raised when the market's max open interest is surpassed as a result of
    /// the session's actions
    MaxOpenInterestSurpassed,
    /// Raised when a position's would get a base amount higher than the
    /// allowed percentage of open interest
    MaxOpenInterestPositionPercentSurpassed,
    /// Raised processing a session that requires a collateral allocation,
    /// but not enough collateral is available in the account
    NotEnoughCollateralToAllocateForSession,
    /// Raised processing a session that requires a collateral allocation
    /// and a wrong account is being used to fund it
    WrongAccountIdForAllocation,
    /// Raised when trying to create an integrator vault for an address
    /// that already has one
    IntegratorVaultAlreadyExists,
    /// Raised when trying to access an integrator vault that does not exist
    IntegratorVaultDoesNotExist,
    /// Raised when trying to place an order passing a `size` that is not a multiple
    /// of market's lot size
    SizeNotMultipleOfLotSize,
    /// Raised when trying to place an order passing a `price` that is not a multiple
    /// of market's tick size
    PriceNotMultipleOfTickSize,
    /// Raised when adl counterparties vec lengths differ
    ADLCounterpartiesMismatch,
    /// Raised when adl counterparty cannot reduce its assigned portion of base
    ADLCounterpartyInsufficient,
    /// Raised when adl does not fully close the bad debt position
    ADLBadDebtPositionNotClosed,
    /// Raised when weights for adl do not sum to fixed point 1
    ADLWeightsDoNotSumToOne,
    /// Open interest is 0 when trying to socialize bad debt
    NoOpenInterestToSocializeBadDebt,
    /// Bad debt amount is greater than max allowed threshold
    BadDebtAboveThreshold,
    /// TWAP order is past its allowed start or end execution timestamp
    TWAPOrderTicketExpired,
    /// Amount executed in one TWAP execution is outside the allowed range
    TWAPOrderAmountUncertaintyViolated,
    /// Current timestamp is too early for the next TWAP execution
    TWAPOrderExecutionGapViolated,
    /// The TWAP order has already been fully executed
    TWAPOrderFullyExecuted,
    /// TWAP order is being executed after the retry deadline has passed
    TWAPOrderExecutedAfterRetryTime,
    /// TWAP order is not in a terminal state required for finalization
    TWAPOrderCannotBeFinalized,
    /// Invalid account trying to perform an action on a TWAPOrderTicket
    TWAPOrderInvalidAccount,
    /// Invalid executor trying to perform an action on a TWAPOrderTicket
    TWAPOrderInvalidExecutor,
    /// TWAP order is being edited while it is being executed
    TWAPOrderCannotEditExecutingOrder,
    /// Invalid split between execution gas pool and finalization gas
    TWAPOrderInvalidGasSplit,
    /// While creating ordered map with invalid parameters,
    /// or changing them improperly for an existent map.
    InvalidMarketParameters,
    /// Tried to call `update_funding` before enough time has passed since the
    /// last update.
    UpdatingFundingTooEarly,
    /// Margin ratio update proposal already exists for market
    ProposalAlreadyExists,
    /// Margin ratio update proposal cannot be commited too early
    PrematureProposal,
    /// Margin ratio update proposal delay is outside the valid range
    InvalidProposalDelay,
    /// Margin ratio update proposal does not exist for market
    ProposalDoesNotExist,
    /// Exchange has no available fees to withdraw
    NoFeesAccrued,
    /// Tried to withdraw more insurance funds than the allowed amount
    InsufficientInsuranceSurplus,
    /// Cannot create a market for which a price feed does not exist
    NoPriceFeedForMarket,
    /// Cannot delete a proposal that already matured. It can only be committed.
    ProposalAlreadyMatured,
    /// Raised when an operation is performed while the market is paused
    MarketIsPaused,
    /// Raised when trying to call `close_position_at_settlement_prices` while
    /// the market is not paused
    MarketIsNotPaused,
    /// Raised when trying to call `close_position_at_settlement_prices` while
    /// before `close_market` has been called by admin
    MarketIsNotClosed,
    /// Raised when Admin tries to resume a closed market
    MarketIsClosed,
    /// Tried placing a new pending order when the position already has the maximum
    /// allowed number of pending orders.
    MaxPendingOrdersExceeded,
    /// Used for checking both liqee and liqor positions during liquidation
    PositionBelowIMR,
    /// When leaving liqee's position with a margin ratio above tolerance,
    /// meaning that liqor has overbought position
    PositionAboveTolerance,
    /// An operation brought an account below initial margin requirements.
    InitialMarginRequirementViolated,
    /// Position is above MMR, so can't be liquidated.
    PositionAboveMMR,
    /// Cannot realize bad debt via means other than calling 'liquidate'.
    PositionBadDebt,
    /// Cannot withdraw more than the account's free collateral.
    InsufficientFreeCollateral,
    /// Cannot have more than 1 position in a market.
    PositionAlreadyExists,
    /// Cannot compute deallocate amount for a target MR < IMR.
    DeallocateTargetMrTooLow,
    /// Raised when trying to set a position's IMR lower than market's IMR or higher than 1
    InvalidPositionIMR,
    /// Invalid stop order type
    InvalidStopOrderType,
    /// Invalid position' status for placing a SLTP order
    InvalidPositionForSLTP,
    /// While creating ordered map with wrong parameters.
    InvalidMapParameters,
    /// While searching for a key, but it doesn't exist.
    KeyNotExist,
    /// While inserting already existing key.
    KeyAlreadyExists,
    /// When attempting to destroy a non-empty map
    DestroyNotEmpty,
    /// Invalid user tries to modify an order
    InvalidUserForOrder,
    /// Orderbook flag requirements violated
    FlagRequirementsViolated,
    /// Minimum size matched not reached
    NotEnoughLiquidity,
    /// When trying to change a map configuration, but the map has
    /// length less than 4
    MapTooSmall,
    /// When trying to create another `AccountCap<ASSISTANT>` for an `Account` that already
    /// has `constants::MAX_ASSISTANTS_PER_ACCOUNT` active assistants.
    TooManyAssistantsPerAccount,
}

impl MoveAbort {
    /// The abort code of `self`.
    pub open spec fn spec_code(self) -> u64 {
        match self {
            MoveAbort::DepositOrWithdrawAmountZero => DepositOrWithdrawAmountZero,
            MoveAbort::SizeOrPositionZero => SizeOrPositionZero,
            MoveAbort::BadIndexPrice => BadIndexPrice,
            MoveAbort::InvalidPrice => InvalidPrice,
            MoveAbort::OrderUsdValueTooLow => OrderUsdValueTooLow,
            MoveAbort::InvalidForceCancelIds => InvalidForceCancelIds,
            MoveAbort::LiquidateNotFirstOperation => LiquidateNotFirstOperation,
            MoveAbort::InvalidCancelOrderIds => InvalidCancelOrderIds,
            MoveAbort::StopOrderTicketExpired => StopOrderTicketExpired,
            MoveAbort::StopOrderConditionsViolated => StopOrderConditionsViolated,
            MoveAbort::WrongOrderDetails => WrongOrderDetails,
            MoveAbort::InvalidBasePriceFeedStorage => InvalidBasePriceFeedStorage,
            MoveAbort::SelfLiquidation => SelfLiquidation,
            MoveAbort::InvalidAccountCap => InvalidAccountCap,
            MoveAbort::InvalidIntegratorTakerFee => InvalidIntegratorTakerFee,
            MoveAbort::WrongVersion => WrongVersion,
            MoveAbort::EmptySession => EmptySession,
            MoveAbort::MarketAlreadyRegistered => MarketAlreadyRegistered,
            MoveAbort::CollateralIsNotRegistered => CollateralIsNotRegistered,
            MoveAbort::MarketIsNotRegistered => MarketIsNotRegistered,
            MoveAbort::InvalidCollateralPriceFeedStorage => InvalidCollateralPriceFeedStorage,
            MoveAbort::NegativeFeesAccrued => NegativeFeesAccrued,
            MoveAbort::InvalidExpirationTimestamp => InvalidExpirationTimestamp,
            MoveAbort::NotEnoughGasForStopOrder => NotEnoughGasForStopOrder,
            MoveAbort::NotEnoughGasForTWAPOrder => NotEnoughGasForTWAPOrder,
            MoveAbort::InvalidAccountForStopOrder => InvalidAccountForStopOrder,
            MoveAbort::InvalidExecutorForStopOrder => InvalidExecutorForStopOrder,
            MoveAbort::MaxOpenInterestSurpassed => MaxOpenInterestSurpassed,
            MoveAbort::MaxOpenInterestPositionPercentSurpassed => MaxOpenInterestPositionPercentSurpassed,
            MoveAbort::NotEnoughCollateralToAllocateForSession => NotEnoughCollateralToAllocateForSession,
            MoveAbort::WrongAccountIdForAllocation => WrongAccountIdForAllocation,
            MoveAbort::IntegratorVaultAlreadyExists => IntegratorVaultAlreadyExists,
            MoveAbort::IntegratorVaultDoesNotExist => IntegratorVaultDoesNotExist,
            MoveAbort::SizeNotMultipleOfLotSize => SizeNotMultipleOfLotSize,
            MoveAbort::PriceNotMultipleOfTickSize => PriceNotMultipleOfTickSize,
            MoveAbort::ADLCounterpartiesMismatch => ADLCounterpartiesMismatch,
            MoveAbort::ADLCounterpartyInsufficient => ADLCounterpartyInsufficient,
            MoveAbort::ADLBadDebtPositionNotClosed => ADLBadDebtPositionNotClosed,
            MoveAbort::ADLWeightsDoNotSumToOne => ADLWeightsDoNotSumToOne,
            MoveAbort::NoOpenInterestToSocializeBadDebt => NoOpenInterestToSocializeBadDebt,
            MoveAbort::BadDebtAboveThreshold => BadDebtAboveThreshold,
            MoveAbort::TWAPOrderTicketExpired => TWAPOrderTicketExpired,
            MoveAbort::TWAPOrderAmountUncertaintyViolated => TWAPOrderAmountUncertaintyViolated,
            MoveAbort::TWAPOrderExecutionGapViolated => TWAPOrderExecutionGapViolated,
            MoveAbort::TWAPOrderFullyExecuted => TWAPOrderFullyExecuted,
            MoveAbort::TWAPOrderExecutedAfterRetryTime => TWAPOrderExecutedAfterRetryTime,
            MoveAbort::TWAPOrderCannotBeFinalized => TWAPOrderCannotBeFinalized,
            MoveAbort::TWAPOrderInvalidAccount => TWAPOrderInvalidAccount,
            MoveAbort::TWAPOrderInvalidExecutor => TWAPOrderInvalidExecutor,
            MoveAbort::TWAPOrderCannotEditExecutingOrder => TWAPOrderCannotEditExecutingOrder,
            MoveAbort::TWAPOrderInvalidGasSplit => TWAPOrderInvalidGasSplit,
            MoveAbort::InvalidMarketParameters => InvalidMarketParameters,
            MoveAbort::UpdatingFundingTooEarly => UpdatingFundingTooEarly,
            MoveAbort::ProposalAlreadyExists => ProposalAlreadyExists,
            MoveAbort::PrematureProposal => PrematureProposal,
            MoveAbort::InvalidProposalDelay => InvalidProposalDelay,
            MoveAbort::ProposalDoesNotExist => ProposalDoesNotExist,
            MoveAbort::NoFeesAccrued => NoFeesAccrued,
            MoveAbort::InsufficientInsuranceSurplus => InsufficientInsuranceSurplus,
            MoveAbort::NoPriceFeedForMarket => NoPriceFeedForMarket,
            MoveAbort::ProposalAlreadyMatured => ProposalAlreadyMatured,
            MoveAbort::MarketIsPaused => MarketIsPaused,
            MoveAbort::MarketIsNotPaused => MarketIsNotPaused,
            MoveAbort::MarketIsNotClosed => MarketIsNotClosed,
            MoveAbort::MarketIsClosed => MarketIsClosed,
            MoveAbort::MaxPendingOrdersExceeded => MaxPendingOrdersExceeded,
            MoveAbort::PositionBelowIMR => PositionBelowIMR,
            MoveAbort::PositionAboveTolerance => PositionAboveTolerance,
            MoveAbort::InitialMarginRequirementViolated => InitialMarginRequirementViolated,
            MoveAbort::PositionAboveMMR => PositionAboveMMR,
            MoveAbort::PositionBadDebt => PositionBadDebt,
            MoveAbort::InsufficientFreeCollateral => InsufficientFreeCollateral,
            MoveAbort::PositionAlreadyExists => PositionAlreadyExists,
            MoveAbort::DeallocateTargetMrTooLow => DeallocateTargetMrTooLow,
            MoveAbort::InvalidPositionIMR => InvalidPositionIMR,
            MoveAbort::InvalidStopOrderType => InvalidStopOrderType,
            MoveAbort::InvalidPositionForSLTP => InvalidPositionForSLTP,
            MoveAbort::InvalidMapParameters => InvalidMapParameters,
            MoveAbort::KeyNotExist => KeyNotExist,
            MoveAbort::KeyAlreadyExists => KeyAlreadyExists,
            MoveAbort::DestroyNotEmpty => DestroyNotEmpty,
            MoveAbort::InvalidUserForOrder => InvalidUserForOrder,
            MoveAbort::FlagRequirementsViolated => FlagRequirementsViolated,
            MoveAbort::NotEnoughLiquidity => NotEnoughLiquidity,
            MoveAbort::MapTooSmall => MapTooSmall,
            MoveAbort::TooManyAssistantsPerAccount => TooManyAssistantsPerAccount,
        }
    }

    /// The variant whose abort code is `code`, if there is one.
    pub open spec fn spec_from_code(code: u64) -> Option<MoveAbort> {
        if code == DepositOrWithdrawAmountZero {
            Some(MoveAbort::DepositOrWithdrawAmountZero)
        } else if code == SizeOrPositionZero {
            Some(MoveAbort::SizeOrPositionZero)
        } else if code == BadIndexPrice {
            Some(MoveAbort::BadIndexPrice)
        } else if code == InvalidPrice {
            Some(MoveAbort::InvalidPrice)
        } else if code == OrderUsdValueTooLow {
            Some(MoveAbort::OrderUsdValueTooLow)
        } else if code == InvalidForceCancelIds {
            Some(MoveAbort::InvalidForceCancelIds)
        } else if code == LiquidateNotFirstOperation {
            Some(MoveAbort::LiquidateNotFirstOperation)
        } else if code == InvalidCancelOrderIds {
            Some(MoveAbort::InvalidCancelOrderIds)
        } else if code == StopOrderTicketExpired {
            Some(MoveAbort::StopOrderTicketExpired)
        } else if code == StopOrderConditionsViolated {
            Some(MoveAbort::StopOrderConditionsViolated)
        } else if code == WrongOrderDetails {
            Some(MoveAbort::WrongOrderDetails)
        } else if code == InvalidBasePriceFeedStorage {
            Some(MoveAbort::InvalidBasePriceFeedStorage)
        } else if code == SelfLiquidation {
            Some(MoveAbort::SelfLiquidation)
        } else if code == InvalidAccountCap {
            Some(MoveAbort::InvalidAccountCap)
        } else if code == InvalidIntegratorTakerFee {
            Some(MoveAbort::InvalidIntegratorTakerFee)
        } else if code == WrongVersion {
            Some(MoveAbort::WrongVersion)
        } else if code == EmptySession {
            Some(MoveAbort::EmptySession)
        } else if code == MarketAlreadyRegistered {
            Some(MoveAbort::MarketAlreadyRegistered)
        } else if code == CollateralIsNotRegistered {
            Some(MoveAbort::CollateralIsNotRegistered)
        } else if code == MarketIsNotRegistered {
            Some(MoveAbort::MarketIsNotRegistered)
        } else if code == InvalidCollateralPriceFeedStorage {
            Some(MoveAbort::InvalidCollateralPriceFeedStorage)
        } else if code == NegativeFeesAccrued {
            Some(MoveAbort::NegativeFeesAccrued)
        } else if code == InvalidExpirationTimestamp {
            Some(MoveAbort::InvalidExpirationTimestamp)
        } else if code == NotEnoughGasForStopOrder {
            Some(MoveAbort::NotEnoughGasForStopOrder)
        } else if code == NotEnoughGasForTWAPOrder {
            Some(MoveAbort::NotEnoughGasForTWAPOrder)
        } else if code == InvalidAccountForStopOrder {
            Some(MoveAbort::InvalidAccountForStopOrder)
        } else if code == InvalidExecutorForStopOrder {
            Some(MoveAbort::InvalidExecutorForStopOrder)
        } else if code == MaxOpenInterestSurpassed {
            Some(MoveAbort::MaxOpenInterestSurpassed)
        } else if code == MaxOpenInterestPositionPercentSurpassed {
            Some(MoveAbort::MaxOpenInterestPositionPercentSurpassed)
        } else if code == NotEnoughCollateralToAllocateForSession {
            Some(MoveAbort::NotEnoughCollateralToAllocateForSession)
        } else if code == WrongAccountIdForAllocation {
            Some(MoveAbort::WrongAccountIdForAllocation)
        } else if code == IntegratorVaultAlreadyExists {
            Some(MoveAbort::IntegratorVaultAlreadyExists)
        } else if code == IntegratorVaultDoesNotExist {
            Some(MoveAbort::IntegratorVaultDoesNotExist)
        } else if code == SizeNotMultipleOfLotSize {
            Some(MoveAbort::SizeNotMultipleOfLotSize)
        } else if code == PriceNotMultipleOfTickSize {
            Some(MoveAbort::PriceNotMultipleOfTickSize)
        } else if code == ADLCounterpartiesMismatch {
            Some(MoveAbort::ADLCounterpartiesMismatch)
        } else if code == ADLCounterpartyInsufficient {
            Some(MoveAbort::ADLCounterpartyInsufficient)
        } else if code == ADLBadDebtPositionNotClosed {
            Some(MoveAbort::ADLBadDebtPositionNotClosed)
        } else if code == ADLWeightsDoNotSumToOne {
            Some(MoveAbort::ADLWeightsDoNotSumToOne)
        } else if code == NoOpenInterestToSocializeBadDebt {
            Some(MoveAbort::NoOpenInterestToSocializeBadDebt)
        } else if code == BadDebtAboveThreshold {
            Some(MoveAbort::BadDebtAboveThreshold)
        } else if code == TWAPOrderTicketExpired {
            Some(MoveAbort::TWAPOrderTicketExpired)
        } else if code == TWAPOrderAmountUncertaintyViolated {
            Some(MoveAbort::TWAPOrderAmountUncertaintyViolated)
        } else if code == TWAPOrderExecutionGapViolated {
            Some(MoveAbort::TWAPOrderExecutionGapViolated)
        } else if code == TWAPOrderFullyExecuted {
            Some(MoveAbort::TWAPOrderFullyExecuted)
        } else if code == TWAPOrderExecutedAfterRetryTime {
            Some(MoveAbort::TWAPOrderExecutedAfterRetryTime)
        } else if code == TWAPOrderCannotBeFinalized {
            Some(MoveAbort::TWAPOrderCannotBeFinalized)
        } else if code == TWAPOrderInvalidAccount {
            Some(MoveAbort::TWAPOrderInvalidAccount)
        } else if code == TWAPOrderInvalidExecutor {
            Some(MoveAbort::TWAPOrderInvalidExecutor)
        } else if code == TWAPOrderCannotEditExecutingOrder {
            Some(MoveAbort::TWAPOrderCannotEditExecutingOrder)
        } else if code == TWAPOrderInvalidGasSplit {
            Some(MoveAbort::TWAPOrderInvalidGasSplit)
        } else if code == InvalidMarketParameters {
            Some(MoveAbort::InvalidMarketParameters)
        } else if code == UpdatingFundingTooEarly {
            Some(MoveAbort::UpdatingFundingTooEarly)
        } else if code == ProposalAlreadyExists {
            Some(MoveAbort::ProposalAlreadyExists)
        } else if code == PrematureProposal {
            Some(MoveAbort::PrematureProposal)
        } else if code == InvalidProposalDelay {
            Some(MoveAbort::InvalidProposalDelay)
        } else if code == ProposalDoesNotExist {
            Some(MoveAbort::ProposalDoesNotExist)
        } else if code == NoFeesAccrued {
            Some(MoveAbort::NoFeesAccrued)
        } else if code == InsufficientInsuranceSurplus {
            Some(MoveAbort::InsufficientInsuranceSurplus)
        } else if code == NoPriceFeedForMarket {
            Some(MoveAbort::NoPriceFeedForMarket)
        } else if code == ProposalAlreadyMatured {
            Some(MoveAbort::ProposalAlreadyMatured)
        } else if code == MarketIsPaused {
            Some(MoveAbort::MarketIsPaused)
        } else if code == MarketIsNotPaused {
            Some(MoveAbort::MarketIsNotPaused)
        } else if code == MarketIsNotClosed {
            Some(MoveAbort::MarketIsNotClosed)
        } else if code == MarketIsClosed {
            Some(MoveAbort::MarketIsClosed)
        } else if code == MaxPendingOrdersExceeded {
            Some(MoveAbort::MaxPendingOrdersExceeded)
        } else if code == PositionBelowIMR {
            Some(MoveAbort::PositionBelowIMR)
        } else if code == PositionAboveTolerance {
            Some(MoveAbort::PositionAboveTolerance)
        } else if code == InitialMarginRequirementViolated {
            Some(MoveAbort::InitialMarginRequirementViolated)
        } else if code == PositionAboveMMR {
            Some(MoveAbort::PositionAboveMMR)
        } else if code == PositionBadDebt {
            Some(MoveAbort::PositionBadDebt)
        } else if code == InsufficientFreeCollateral {
            Some(MoveAbort::InsufficientFreeCollateral)
        } else if code == PositionAlreadyExists {
            Some(MoveAbort::PositionAlreadyExists)
        } else if code == DeallocateTargetMrTooLow {
            Some(MoveAbort::DeallocateTargetMrTooLow)
        } else if code == InvalidPositionIMR {
            Some(MoveAbort::InvalidPositionIMR)
        } else if code == InvalidStopOrderType {
            Some(MoveAbort::InvalidStopOrderType)
        } else if code == InvalidPositionForSLTP {
            Some(MoveAbort::InvalidPositionForSLTP)
        } else if code == InvalidMapParameters {
            Some(MoveAbort::InvalidMapParameters)
        } else if code == KeyNotExist {
            Some(MoveAbort::KeyNotExist)
        } else if code == KeyAlreadyExists {
            Some(MoveAbort::KeyAlreadyExists)
        } else if code == DestroyNotEmpty {
            Some(MoveAbort::DestroyNotEmpty)
        } else if code == InvalidUserForOrder {
            Some(MoveAbort::InvalidUserForOrder)
        } else if code == FlagRequirementsViolated {
            Some(MoveAbort::FlagRequirementsViolated)
        } else if code == NotEnoughLiquidity {
            Some(MoveAbort::NotEnoughLiquidity)
        } else if code == MapTooSmall {
            Some(MoveAbort::MapTooSmall)
        } else if code == TooManyAssistantsPerAccount {
            Some(MoveAbort::TooManyAssistantsPerAccount)
        } else {
            None
        }
    }

    /// The name of the variant, as written in the Move source.
    pub open spec fn spec_name(self) -> Seq<char> {
        match self {
            MoveAbort::DepositOrWithdrawAmountZero => "DepositOrWithdrawAmountZero"@,
            MoveAbort::SizeOrPositionZero => "SizeOrPositionZero"@,
            MoveAbort::BadIndexPrice => "BadIndexPrice"@,
            MoveAbort::InvalidPrice => "InvalidPrice"@,
            MoveAbort::OrderUsdValueTooLow => "OrderUsdValueTooLow"@,
            MoveAbort::InvalidForceCancelIds => "InvalidForceCancelIds"@,
            MoveAbort::LiquidateNotFirstOperation => "LiquidateNotFirstOperation"@,
            MoveAbort::InvalidCancelOrderIds => "InvalidCancelOrderIds"@,
            MoveAbort::StopOrderTicketExpired => "StopOrderTicketExpired"@,
            MoveAbort::StopOrderConditionsViolated => "StopOrderConditionsViolated"@,
            MoveAbort::WrongOrderDetails => "WrongOrderDetails"@,
            MoveAbort::InvalidBasePriceFeedStorage => "InvalidBasePriceFeedStorage"@,
            MoveAbort::SelfLiquidation => "SelfLiquidation"@,
            MoveAbort::InvalidAccountCap => "InvalidAccountCap"@,
            MoveAbort::InvalidIntegratorTakerFee => "InvalidIntegratorTakerFee"@,
            MoveAbort::WrongVersion => "WrongVersion"@,
            MoveAbort::EmptySession => "EmptySession"@,
            MoveAbort::MarketAlreadyRegistered => "MarketAlreadyRegistered"@,
            MoveAbort::CollateralIsNotRegistered => "CollateralIsNotRegistered"@,
            MoveAbort::MarketIsNotRegistered => "MarketIsNotRegistered"@,
            MoveAbort::InvalidCollateralPriceFeedStorage => "InvalidCollateralPriceFeedStorage"@,
            MoveAbort::NegativeFeesAccrued => "NegativeFeesAccrued"@,
            MoveAbort::InvalidExpirationTimestamp => "InvalidExpirationTimestamp"@,
            MoveAbort::NotEnoughGasForStopOrder => "NotEnoughGasForStopOrder"@,
            MoveAbort::NotEnoughGasForTWAPOrder => "NotEnoughGasForTWAPOrder"@,
            MoveAbort::InvalidAccountForStopOrder => "InvalidAccountForStopOrder"@,
            MoveAbort::InvalidExecutorForStopOrder => "InvalidExecutorForStopOrder"@,
            MoveAbort::MaxOpenInterestSurpassed => "MaxOpenInterestSurpassed"@,
            MoveAbort::MaxOpenInterestPositionPercentSurpassed => "MaxOpenInterestPositionPercentSurpassed"@,
            MoveAbort::NotEnoughCollateralToAllocateForSession => "NotEnoughCollateralToAllocateForSession"@,
            MoveAbort::WrongAccountIdForAllocation => "WrongAccountIdForAllocation"@,
            MoveAbort::IntegratorVaultAlreadyExists => "IntegratorVaultAlreadyExists"@,
            MoveAbort::IntegratorVaultDoesNotExist => "IntegratorVaultDoesNotExist"@,
            MoveAbort::SizeNotMultipleOfLotSize => "SizeNotMultipleOfLotSize"@,
            MoveAbort::PriceNotMultipleOfTickSize => "PriceNotMultipleOfTickSize"@,
            MoveAbort::ADLCounterpartiesMismatch => "ADLCounterpartiesMismatch"@,
            MoveAbort::ADLCounterpartyInsufficient => "ADLCounterpartyInsufficient"@,
            MoveAbort::ADLBadDebtPositionNotClosed => "ADLBadDebtPositionNotClosed"@,
            MoveAbort::ADLWeightsDoNotSumToOne => "ADLWeightsDoNotSumToOne"@,
            MoveAbort::NoOpenInterestToSocializeBadDebt => "NoOpenInterestToSocializeBadDebt"@,
            MoveAbort::BadDebtAboveThreshold => "BadDebtAboveThreshold"@,
            MoveAbort::TWAPOrderTicketExpired => "TWAPOrderTicketExpired"@,
            MoveAbort::TWAPOrderAmountUncertaintyViolated => "TWAPOrderAmountUncertaintyViolated"@,
            MoveAbort::TWAPOrderExecutionGapViolated => "TWAPOrderExecutionGapViolated"@,
            MoveAbort::TWAPOrderFullyExecuted => "TWAPOrderFullyExecuted"@,
            MoveAbort::TWAPOrderExecutedAfterRetryTime => "TWAPOrderExecutedAfterRetryTime"@,
            MoveAbort::TWAPOrderCannotBeFinalized => "TWAPOrderCannotBeFinalized"@,
            MoveAbort::TWAPOrderInvalidAccount => "TWAPOrderInvalidAccount"@,
            MoveAbort::TWAPOrderInvalidExecutor => "TWAPOrderInvalidExecutor"@,
            MoveAbort::TWAPOrderCannotEditExecutingOrder => "TWAPOrderCannotEditExecutingOrder"@,
            MoveAbort::TWAPOrderInvalidGasSplit => "TWAPOrderInvalidGasSplit"@,
            MoveAbort::InvalidMarketParameters => "InvalidMarketParameters"@,
            MoveAbort::UpdatingFundingTooEarly => "UpdatingFundingTooEarly"@,
            MoveAbort::ProposalAlreadyExists => "ProposalAlreadyExists"@,
            MoveAbort::PrematureProposal => "PrematureProposal"@,
            MoveAbort::InvalidProposalDelay => "InvalidProposalDelay"@,
            MoveAbort::ProposalDoesNotExist => "ProposalDoesNotExist"@,
            MoveAbort::NoFeesAccrued => "NoFeesAccrued"@,
            MoveAbort::InsufficientInsuranceSurplus => "InsufficientInsuranceSurplus"@,
            MoveAbort::NoPriceFeedForMarket => "NoPriceFeedForMarket"@,
            MoveAbort::ProposalAlreadyMatured => "ProposalAlreadyMatured"@,
            MoveAbort::MarketIsPaused => "MarketIsPaused"@,
            MoveAbort::MarketIsNotPaused => "MarketIsNotPaused"@,
            MoveAbort::MarketIsNotClosed => "MarketIsNotClosed"@,
            MoveAbort::MarketIsClosed => "MarketIsClosed"@,
            MoveAbort::MaxPendingOrdersExceeded => "MaxPendingOrdersExceeded"@,
            MoveAbort::PositionBelowIMR => "PositionBelowIMR"@,
            MoveAbort::PositionAboveTolerance => "PositionAboveTolerance"@,
            MoveAbort::InitialMarginRequirementViolated => "InitialMarginRequirementViolated"@,
            MoveAbort::PositionAboveMMR => "PositionAboveMMR"@,
            MoveAbort::PositionBadDebt => "PositionBadDebt"@,
            MoveAbort::InsufficientFreeCollateral => "InsufficientFreeCollateral"@,
            MoveAbort::PositionAlreadyExists => "PositionAlreadyExists"@,
            MoveAbort::DeallocateTargetMrTooLow => "DeallocateTargetMrTooLow"@,
            MoveAbort::InvalidPositionIMR => "InvalidPositionIMR"@,
            MoveAbort::InvalidStopOrderType => "InvalidStopOrderType"@,
            MoveAbort::InvalidPositionForSLTP => "InvalidPositionForSLTP"@,
            MoveAbort::InvalidMapParameters => "InvalidMapParameters"@,
            MoveAbort::KeyNotExist => "KeyNotExist"@,
            MoveAbort::KeyAlreadyExists => "KeyAlreadyExists"@,
            MoveAbort::DestroyNotEmpty => "DestroyNotEmpty"@,
            MoveAbort::InvalidUserForOrder => "InvalidUserForOrder"@,
            MoveAbort::FlagRequirementsViolated => "FlagRequirementsViolated"@,
            MoveAbort::NotEnoughLiquidity => "NotEnoughLiquidity"@,
            MoveAbort::MapTooSmall => "MapTooSmall"@,
            MoveAbort::TooManyAssistantsPerAccount => "TooManyAssistantsPerAccount"@,
        }
    }

    /// The documentation of the abort: its doc comment, one leading space cut
    /// from each line, and each line ended by a line feed when there are several.
    pub open spec fn spec_documentation(self) -> Seq<char> {
        match self {
            MoveAbort::DepositOrWithdrawAmountZero => "Cannot deposit/withdraw zero coins to/from the account's collateral."@,
            MoveAbort::SizeOrPositionZero => "Size to place is 0. Raised also when there is no open position and\nan order with `reduce_only` is passed.\n"@,
            MoveAbort::BadIndexPrice => "Index price returned from oracle is 0 or invalid value"@,
            MoveAbort::InvalidPrice => "Price is either 0 or greater than 0x8000_0000_0000_0000"@,
            MoveAbort::OrderUsdValueTooLow => "Order value in USD is too low"@,
            MoveAbort::InvalidForceCancelIds => "Passed a vector of invalid order ids to perform force cancellation\nduring liquidation\n"@,
            MoveAbort::LiquidateNotFirstOperation => "Liquidate must be the first operation of the session, if performed."@,
            MoveAbort::InvalidCancelOrderIds => "Passed a vector of invalid order ids to cancel"@,
            MoveAbort::StopOrderTicketExpired => "Ticket has already passed `expire_timestamp` and can only be cancelled"@,
            MoveAbort::StopOrderConditionsViolated => "Index price is not at correct value to satisfy stop order conditions"@,
            MoveAbort::WrongOrderDetails => "Index price is not at correct value to satisfy stop order conditions"@,
            MoveAbort::InvalidBasePriceFeedStorage => "Invalid base price feed storage for the clearing house"@,
            MoveAbort::SelfLiquidation => "Same liquidator and liqee account ids"@,
            MoveAbort::InvalidAccountCap => "User trying to access the account used the wrong account cap"@,
            MoveAbort::InvalidIntegratorTakerFee => "Raised when passing an integrator taker fee that is greater than\nthe `max_integrator_taker_fee` set by the user in its account\n"@,
            MoveAbort::WrongVersion => "Raised when trying to call a function with the wrong package's version"@,
            MoveAbort::EmptySession => "Raised when trying to have a session composed by only `start_session` and `end_session`"@,
            MoveAbort::MarketAlreadyRegistered => "Market already registered in the registry"@,
            MoveAbort::CollateralIsNotRegistered => "Collateral is not registered in the registry"@,
            MoveAbort::MarketIsNotRegistered => "Market is not registered in the registry"@,
            MoveAbort::InvalidCollateralPriceFeedStorage => "Invalid collateral price feed storage for the clearing house"@,
            MoveAbort::NegativeFeesAccrued => "Fees accrued are negative"@,
            MoveAbort::InvalidExpirationTimestamp => "Passed a timestamp older than current Clock's one"@,
            MoveAbort::NotEnoughGasForStopOrder => "Stop order gas cost provided is not enough"@,
            MoveAbort::NotEnoughGasForTWAPOrder => "TWAP order gas cost provided is not enough"@,
            MoveAbort::InvalidAccountForStopOrder => "Invalid account trying to perform an action on a StopOrderTicket"@,
            MoveAbort::InvalidExecutorForStopOrder => "Invalid executor trying to execute the StopOrderTicket"@,
            MoveAbort::MaxOpenInterestSurpassed => "Raised when the market's max open interest is surpassed as a result of\nthe session's actions\n"@,
            MoveAbort::MaxOpenInterestPositionPercentSurpassed => "Raised when a position's would get a base amount higher than the\nallowed percentage of open interest\n"@,
            MoveAbort::NotEnoughCollateralToAllocateForSession => "Raised processing a session that requires a collateral allocation,\nbut not enough collateral is available in the account\n"@,
            MoveAbort::WrongAccountIdForAllocation => "Raised processing a session that requires a collateral allocation\nand a wrong account is being used to fund it\n"@,
            MoveAbort::IntegratorVaultAlreadyExists => "Raised when trying to create an integrator vault for an address\nthat already has one\n"@,
            MoveAbort::IntegratorVaultDoesNotExist => "Raised when trying to access an integrator vault that does not exist"@,
            MoveAbort::SizeNotMultipleOfLotSize => "Raised when trying to place an order passing a `size` that is not a multiple\nof market's lot size\n"@,
            MoveAbort::PriceNotMultipleOfTickSize => "Raised when trying to place an order passing a `price` that is not a multiple\nof market's tick size\n"@,
            MoveAbort::ADLCounterpartiesMismatch => "Raised when adl counterparties vec lengths differ"@,
            MoveAbort::ADLCounterpartyInsufficient => "Raised when adl counterparty cannot reduce its assigned portion of base"@,
            MoveAbort::ADLBadDebtPositionNotClosed => "Raised when adl does not fully close the bad debt position"@,
            MoveAbort::ADLWeightsDoNotSumToOne => "Raised when weights for adl do not sum to fixed point 1"@,
            MoveAbort::NoOpenInterestToSocializeBadDebt => "Open interest is 0 when trying to socialize bad debt"@,
            MoveAbort::BadDebtAboveThreshold => "Bad debt amount is greater than max allowed threshold"@,
            MoveAbort::TWAPOrderTicketExpired => "TWAP order is past its allowed start or end execution timestamp"@,
            MoveAbort::TWAPOrderAmountUncertaintyViolated => "Amount executed in one TWAP execution is outside the allowed range"@,
            MoveAbort::TWAPOrderExecutionGapViolated => "Current timestamp is too early for the next TWAP execution"@,
            MoveAbort::TWAPOrderFullyExecuted => "The TWAP order has already been fully executed"@,
            MoveAbort::TWAPOrderExecutedAfterRetryTime => "TWAP order is being executed after the retry deadline has passed"@,
            MoveAbort::TWAPOrderCannotBeFinalized => "TWAP order is not in a terminal state required for finalization"@,
            MoveAbort::TWAPOrderInvalidAccount => "Invalid account trying to perform an action on a TWAPOrderTicket"@,
            MoveAbort::TWAPOrderInvalidExecutor => "Invalid executor trying to perform an action on a TWAPOrderTicket"@,
            MoveAbort::TWAPOrderCannotEditExecutingOrder => "TWAP order is being edited while it is being executed"@,
            MoveAbort::TWAPOrderInvalidGasSplit => "Invalid split between execution gas pool and finalization gas"@,
            MoveAbort::InvalidMarketParameters => "While creating ordered map with invalid parameters,\nor changing them improperly for an existent map.\n"@,
            MoveAbort::UpdatingFundingTooEarly => "Tried to call `update_funding` before enough time has passed since the\nlast update.\n"@,
            MoveAbort::ProposalAlreadyExists => "Margin ratio update proposal already exists for market"@,
            MoveAbort::PrematureProposal => "Margin ratio update proposal cannot be commited too early"@,
            MoveAbort::InvalidProposalDelay => "Margin ratio update proposal delay is outside the valid range"@,
            MoveAbort::ProposalDoesNotExist => "Margin ratio update proposal does not exist for market"@,
            MoveAbort::NoFeesAccrued => "Exchange has no available fees to withdraw"@,
            MoveAbort::InsufficientInsuranceSurplus => "Tried to withdraw more insurance funds than the allowed amount"@,
            MoveAbort::NoPriceFeedForMarket => "Cannot create a market for which a price feed does not exist"@,
            MoveAbort::ProposalAlreadyMatured => "Cannot delete a proposal that already matured. It can only be committed."@,
            MoveAbort::MarketIsPaused => "Raised when an operation is performed while the market is paused"@,
            MoveAbort::MarketIsNotPaused => "Raised when trying to call `close_position_at_settlement_prices` while\nthe market is not paused\n"@,
            MoveAbort::MarketIsNotClosed => "Raised when trying to call `close_position_at_settlement_prices` while\nbefore `close_market` has been called by admin\n"@,
            MoveAbort::MarketIsClosed => "Raised when Admin tries to resume a closed market"@,
            MoveAbort::MaxPendingOrdersExceeded => "Tried placing a new pending order when the position already has the maximum\nallowed number of pending orders.\n"@,
            MoveAbort::PositionBelowIMR => "Used for checking both liqee and liqor positions during liquidation"@,
            MoveAbort::PositionAboveTolerance => "When leaving liqee's position with a margin ratio above tolerance,\nmeaning that liqor has overbought position\n"@,
            MoveAbort::InitialMarginRequirementViolated => "An operation brought an account below initial margin requirements."@,
            MoveAbort::PositionAboveMMR => "Position is above MMR, so can't be liquidated."@,
            MoveAbort::PositionBadDebt => "Cannot realize bad debt via means other than calling 'liquidate'."@,
            MoveAbort::InsufficientFreeCollateral => "Cannot withdraw more than the account's free collateral."@,
            MoveAbort::PositionAlreadyExists => "Cannot have more than 1 position in a market."@,
            MoveAbort::DeallocateTargetMrTooLow => "Cannot compute deallocate amount for a target MR < IMR."@,
            MoveAbort::InvalidPositionIMR => "Raised when trying to set a position's IMR lower than market's IMR or higher than 1"@,
            MoveAbort::InvalidStopOrderType => "Invalid stop order type"@,
            MoveAbort::InvalidPositionForSLTP => "Invalid position' status for placing a SLTP order"@,
            MoveAbort::InvalidMapParameters => "While creating ordered map with wrong parameters."@,
            MoveAbort::KeyNotExist => "While searching for a key, but it doesn't exist."@,
            MoveAbort::KeyAlreadyExists => "While inserting already existing key."@,
            MoveAbort::DestroyNotEmpty => "When attempting to destroy a non-empty map"@,
            MoveAbort::InvalidUserForOrder => "Invalid user tries to modify an order"@,
            MoveAbort::FlagRequirementsViolated => "Orderbook flag requirements violated"@,
            MoveAbort::NotEnoughLiquidity => "Minimum size matched not reached"@,
            MoveAbort::MapTooSmall => "When trying to change a map configuration, but the map has\nlength less than 4\n"@,
            MoveAbort::TooManyAssistantsPerAccount => "When trying to create another `AccountCap<ASSISTANT>` for an `Account` that already\nhas `constants::MAX_ASSISTANTS_PER_ACCOUNT` active assistants.\n"@,
        }
    }

    /// The abort code of `self`.
    pub fn code(self) -> (code: u64)
        ensures
            code == self.spec_code(),
    {
        match self {
            MoveAbort::DepositOrWithdrawAmountZero => DepositOrWithdrawAmountZero,
            MoveAbort::SizeOrPositionZero => SizeOrPositionZero,
            MoveAbort::BadIndexPrice => BadIndexPrice,
            MoveAbort::InvalidPrice => InvalidPrice,
            MoveAbort::OrderUsdValueTooLow => OrderUsdValueTooLow,
            MoveAbort::InvalidForceCancelIds => InvalidForceCancelIds,
            MoveAbort::LiquidateNotFirstOperation => LiquidateNotFirstOperation,
            MoveAbort::InvalidCancelOrderIds => InvalidCancelOrderIds,
            MoveAbort::StopOrderTicketExpired => StopOrderTicketExpired,
            MoveAbort::StopOrderConditionsViolated => StopOrderConditionsViolated,
            MoveAbort::WrongOrderDetails => WrongOrderDetails,
            MoveAbort::InvalidBasePriceFeedStorage => InvalidBasePriceFeedStorage,
            MoveAbort::SelfLiquidation => SelfLiquidation,
            MoveAbort::InvalidAccountCap => InvalidAccountCap,
            MoveAbort::InvalidIntegratorTakerFee => InvalidIntegratorTakerFee,
            MoveAbort::WrongVersion => WrongVersion,
            MoveAbort::EmptySession => EmptySession,
            MoveAbort::MarketAlreadyRegistered => MarketAlreadyRegistered,
            MoveAbort::CollateralIsNotRegistered => CollateralIsNotRegistered,
            MoveAbort::MarketIsNotRegistered => MarketIsNotRegistered,
            MoveAbort::InvalidCollateralPriceFeedStorage => InvalidCollateralPriceFeedStorage,
            MoveAbort::NegativeFeesAccrued => NegativeFeesAccrued,
            MoveAbort::InvalidExpirationTimestamp => InvalidExpirationTimestamp,
            MoveAbort::NotEnoughGasForStopOrder => NotEnoughGasForStopOrder,
            MoveAbort::NotEnoughGasForTWAPOrder => NotEnoughGasForTWAPOrder,
            MoveAbort::InvalidAccountForStopOrder => InvalidAccountForStopOrder,
            MoveAbort::InvalidExecutorForStopOrder => InvalidExecutorForStopOrder,
            MoveAbort::MaxOpenInterestSurpassed => MaxOpenInterestSurpassed,
            MoveAbort::MaxOpenInterestPositionPercentSurpassed => MaxOpenInterestPositionPercentSurpassed,
            MoveAbort::NotEnoughCollateralToAllocateForSession => NotEnoughCollateralToAllocateForSession,
            MoveAbort::WrongAccountIdForAllocation => WrongAccountIdForAllocation,
            MoveAbort::IntegratorVaultAlreadyExists => IntegratorVaultAlreadyExists,
            MoveAbort::IntegratorVaultDoesNotExist => IntegratorVaultDoesNotExist,
            MoveAbort::SizeNotMultipleOfLotSize => SizeNotMultipleOfLotSize,
            MoveAbort::PriceNotMultipleOfTickSize => PriceNotMultipleOfTickSize,
            MoveAbort::ADLCounterpartiesMismatch => ADLCounterpartiesMismatch,
            MoveAbort::ADLCounterpartyInsufficient => ADLCounterpartyInsufficient,
            MoveAbort::ADLBadDebtPositionNotClosed => ADLBadDebtPositionNotClosed,
            MoveAbort::ADLWeightsDoNotSumToOne => ADLWeightsDoNotSumToOne,
            MoveAbort::NoOpenInterestToSocializeBadDebt => NoOpenInterestToSocializeBadDebt,
            MoveAbort::BadDebtAboveThreshold => BadDebtAboveThreshold,
            MoveAbort::TWAPOrderTicketExpired => TWAPOrderTicketExpired,
            MoveAbort::TWAPOrderAmountUncertaintyViolated => TWAPOrderAmountUncertaintyViolated,
            MoveAbort::TWAPOrderExecutionGapViolated => TWAPOrderExecutionGapViolated,
            MoveAbort::TWAPOrderFullyExecuted => TWAPOrderFullyExecuted,
            MoveAbort::TWAPOrderExecutedAfterRetryTime => TWAPOrderExecutedAfterRetryTime,
            MoveAbort::TWAPOrderCannotBeFinalized => TWAPOrderCannotBeFinalized,
            MoveAbort::TWAPOrderInvalidAccount => TWAPOrderInvalidAccount,
            MoveAbort::TWAPOrderInvalidExecutor => TWAPOrderInvalidExecutor,
            MoveAbort::TWAPOrderCannotEditExecutingOrder => TWAPOrderCannotEditExecutingOrder,
            MoveAbort::TWAPOrderInvalidGasSplit => TWAPOrderInvalidGasSplit,
            MoveAbort::InvalidMarketParameters => InvalidMarketParameters,
            MoveAbort::UpdatingFundingTooEarly => UpdatingFundingTooEarly,
            MoveAbort::ProposalAlreadyExists => ProposalAlreadyExists,
            MoveAbort::PrematureProposal => PrematureProposal,
            MoveAbort::InvalidProposalDelay => InvalidProposalDelay,
            MoveAbort::ProposalDoesNotExist => ProposalDoesNotExist,
            MoveAbort::NoFeesAccrued => NoFeesAccrued,
            MoveAbort::InsufficientInsuranceSurplus => InsufficientInsuranceSurplus,
            MoveAbort::NoPriceFeedForMarket => NoPriceFeedForMarket,
            MoveAbort::ProposalAlreadyMatured => ProposalAlreadyMatured,
            MoveAbort::MarketIsPaused => MarketIsPaused,
            MoveAbort::MarketIsNotPaused => MarketIsNotPaused,
            MoveAbort::MarketIsNotClosed => MarketIsNotClosed,
            MoveAbort::MarketIsClosed => MarketIsClosed,
            MoveAbort::MaxPendingOrdersExceeded => MaxPendingOrdersExceeded,
            MoveAbort::PositionBelowIMR => PositionBelowIMR,
            MoveAbort::PositionAboveTolerance => PositionAboveTolerance,
            MoveAbort::InitialMarginRequirementViolated => InitialMarginRequirementViolated,
            MoveAbort::PositionAboveMMR => PositionAboveMMR,
            MoveAbort::PositionBadDebt => PositionBadDebt,
            MoveAbort::InsufficientFreeCollateral => InsufficientFreeCollateral,
            MoveAbort::PositionAlreadyExists => PositionAlreadyExists,
            MoveAbort::DeallocateTargetMrTooLow => DeallocateTargetMrTooLow,
            MoveAbort::InvalidPositionIMR => InvalidPositionIMR,
            MoveAbort::InvalidStopOrderType => InvalidStopOrderType,
            MoveAbort::InvalidPositionForSLTP => InvalidPositionForSLTP,
            MoveAbort::InvalidMapParameters => InvalidMapParameters,
            MoveAbort::KeyNotExist => KeyNotExist,
            MoveAbort::KeyAlreadyExists => KeyAlreadyExists,
            MoveAbort::DestroyNotEmpty => DestroyNotEmpty,
            MoveAbort::InvalidUserForOrder => InvalidUserForOrder,
            MoveAbort::FlagRequirementsViolated => FlagRequirementsViolated,
            MoveAbort::NotEnoughLiquidity => NotEnoughLiquidity,
            MoveAbort::MapTooSmall => MapTooSmall,
            MoveAbort::TooManyAssistantsPerAccount => TooManyAssistantsPerAccount,
        }
    }

    /// The variant whose abort code is `code`; `None` where no abort has that code.
    pub fn from_code(code: u64) -> (abort: Option<MoveAbort>)
        ensures
            abort == Self::spec_from_code(code),
    {
        match code {
            0 => Some(MoveAbort::DepositOrWithdrawAmountZero),
            1 => Some(MoveAbort::SizeOrPositionZero),
            2 => Some(MoveAbort::BadIndexPrice),
            3 => Some(MoveAbort::InvalidPrice),
            4 => Some(MoveAbort::OrderUsdValueTooLow),
            5 => Some(MoveAbort::InvalidForceCancelIds),
            6 => Some(MoveAbort::LiquidateNotFirstOperation),
            7 => Some(MoveAbort::InvalidCancelOrderIds),
            8 => Some(MoveAbort::StopOrderTicketExpired),
            9 => Some(MoveAbort::StopOrderConditionsViolated),
            10 => Some(MoveAbort::WrongOrderDetails),
            11 => Some(MoveAbort::InvalidBasePriceFeedStorage),
            12 => Some(MoveAbort::SelfLiquidation),
            13 => Some(MoveAbort::InvalidAccountCap),
            14 => Some(MoveAbort::InvalidIntegratorTakerFee),
            16 => Some(MoveAbort::WrongVersion),
            17 => Some(MoveAbort::EmptySession),
            18 => Some(MoveAbort::MarketAlreadyRegistered),
            19 => Some(MoveAbort::CollateralIsNotRegistered),
            20 => Some(MoveAbort::MarketIsNotRegistered),
            21 => Some(MoveAbort::InvalidCollateralPriceFeedStorage),
            22 => Some(MoveAbort::NegativeFeesAccrued),
            23 => Some(MoveAbort::InvalidExpirationTimestamp),
            24 => Some(MoveAbort::NotEnoughGasForStopOrder),
            25 => Some(MoveAbort::NotEnoughGasForTWAPOrder),
            26 => Some(MoveAbort::InvalidAccountForStopOrder),
            27 => Some(MoveAbort::InvalidExecutorForStopOrder),
            28 => Some(MoveAbort::MaxOpenInterestSurpassed),
            29 => Some(MoveAbort::MaxOpenInterestPositionPercentSurpassed),
            30 => Some(MoveAbort::NotEnoughCollateralToAllocateForSession),
            31 => Some(MoveAbort::WrongAccountIdForAllocation),
            32 => Some(MoveAbort::IntegratorVaultAlreadyExists),
            33 => Some(MoveAbort::IntegratorVaultDoesNotExist),
            34 => Some(MoveAbort::SizeNotMultipleOfLotSize),
            35 => Some(MoveAbort::PriceNotMultipleOfTickSize),
            36 => Some(MoveAbort::ADLCounterpartiesMismatch),
            37 => Some(MoveAbort::ADLCounterpartyInsufficient),
            38 => Some(MoveAbort::ADLBadDebtPositionNotClosed),
            39 => Some(MoveAbort::ADLWeightsDoNotSumToOne),
            40 => Some(MoveAbort::NoOpenInterestToSocializeBadDebt),
            41 => Some(MoveAbort::BadDebtAboveThreshold),
            43 => Some(MoveAbort::TWAPOrderTicketExpired),
            44 => Some(MoveAbort::TWAPOrderAmountUncertaintyViolated),
            45 => Some(MoveAbort::TWAPOrderExecutionGapViolated),
            46 => Some(MoveAbort::TWAPOrderFullyExecuted),
            47 => Some(MoveAbort::TWAPOrderExecutedAfterRetryTime),
            48 => Some(MoveAbort::TWAPOrderCannotBeFinalized),
            49 => Some(MoveAbort::TWAPOrderInvalidAccount),
            50 => Some(MoveAbort::TWAPOrderInvalidExecutor),
            51 => Some(MoveAbort::TWAPOrderCannotEditExecutingOrder),
            52 => Some(MoveAbort::TWAPOrderInvalidGasSplit),
            1000 => Some(MoveAbort::InvalidMarketParameters),
            1001 => Some(MoveAbort::UpdatingFundingTooEarly),
            1002 => Some(MoveAbort::ProposalAlreadyExists),
            1003 => Some(MoveAbort::PrematureProposal),
            1004 => Some(MoveAbort::InvalidProposalDelay),
            1005 => Some(MoveAbort::ProposalDoesNotExist),
            1006 => Some(MoveAbort::NoFeesAccrued),
            1007 => Some(MoveAbort::InsufficientInsuranceSurplus),
            1008 => Some(MoveAbort::NoPriceFeedForMarket),
            1009 => Some(MoveAbort::ProposalAlreadyMatured),
            1010 => Some(MoveAbort::MarketIsPaused),
            1011 => Some(MoveAbort::MarketIsNotPaused),
            1012 => Some(MoveAbort::MarketIsNotClosed),
            1013 => Some(MoveAbort::MarketIsClosed),
            2000 => Some(MoveAbort::MaxPendingOrdersExceeded),
            2001 => Some(MoveAbort::PositionBelowIMR),
            2002 => Some(MoveAbort::PositionAboveTolerance),
            2003 => Some(MoveAbort::InitialMarginRequirementViolated),
            2004 => Some(MoveAbort::PositionAboveMMR),
            2005 => Some(MoveAbort::PositionBadDebt),
            2006 => Some(MoveAbort::InsufficientFreeCollateral),
            2007 => Some(MoveAbort::PositionAlreadyExists),
            2008 => Some(MoveAbort::DeallocateTargetMrTooLow),
            2009 => Some(MoveAbort::InvalidPositionIMR),
            2010 => Some(MoveAbort::InvalidStopOrderType),
            2011 => Some(MoveAbort::InvalidPositionForSLTP),
            3000 => Some(MoveAbort::InvalidMapParameters),
            3001 => Some(MoveAbort::KeyNotExist),
            3002 => Some(MoveAbort::KeyAlreadyExists),
            3003 => Some(MoveAbort::DestroyNotEmpty),
            3004 => Some(MoveAbort::InvalidUserForOrder),
            3005 => Some(MoveAbort::FlagRequirementsViolated),
            3006 => Some(MoveAbort::NotEnoughLiquidity),
            3007 => Some(MoveAbort::MapTooSmall),
            4000 => Some(MoveAbort::TooManyAssistantsPerAccount),
            _ => None,
        }
    }

    /// The name of the variant, as written in the Move source.
    pub fn as_str(&self) -> (name: &'static str)
        ensures
            name@ == self.spec_name(),
    {
        match self {
            MoveAbort::DepositOrWithdrawAmountZero => "DepositOrWithdrawAmountZero",
            MoveAbort::SizeOrPositionZero => "SizeOrPositionZero",
            MoveAbort::BadIndexPrice => "BadIndexPrice",
            MoveAbort::InvalidPrice => "InvalidPrice",
            MoveAbort::OrderUsdValueTooLow => "OrderUsdValueTooLow",
            MoveAbort::InvalidForceCancelIds => "InvalidForceCancelIds",
            MoveAbort::LiquidateNotFirstOperation => "LiquidateNotFirstOperation",
            MoveAbort::InvalidCancelOrderIds => "InvalidCancelOrderIds",
            MoveAbort::StopOrderTicketExpired => "StopOrderTicketExpired",
            MoveAbort::StopOrderConditionsViolated => "StopOrderConditionsViolated",
            MoveAbort::WrongOrderDetails => "WrongOrderDetails",
            MoveAbort::InvalidBasePriceFeedStorage => "InvalidBasePriceFeedStorage",
            MoveAbort::SelfLiquidation => "SelfLiquidation",
            MoveAbort::InvalidAccountCap => "InvalidAccountCap",
            MoveAbort::InvalidIntegratorTakerFee => "InvalidIntegratorTakerFee",
            MoveAbort::WrongVersion => "WrongVersion",
            MoveAbort::EmptySession => "EmptySession",
            MoveAbort::MarketAlreadyRegistered => "MarketAlreadyRegistered",
            MoveAbort::CollateralIsNotRegistered => "CollateralIsNotRegistered",
            MoveAbort::MarketIsNotRegistered => "MarketIsNotRegistered",
            MoveAbort::InvalidCollateralPriceFeedStorage => "InvalidCollateralPriceFeedStorage",
            MoveAbort::NegativeFeesAccrued => "NegativeFeesAccrued",
            MoveAbort::InvalidExpirationTimestamp => "InvalidExpirationTimestamp",
            MoveAbort::NotEnoughGasForStopOrder => "NotEnoughGasForStopOrder",
            MoveAbort::NotEnoughGasForTWAPOrder => "NotEnoughGasForTWAPOrder",
            MoveAbort::InvalidAccountForStopOrder => "InvalidAccountForStopOrder",
            MoveAbort::InvalidExecutorForStopOrder => "InvalidExecutorForStopOrder",
            MoveAbort::MaxOpenInterestSurpassed => "MaxOpenInterestSurpassed",
            MoveAbort::MaxOpenInterestPositionPercentSurpassed => "MaxOpenInterestPositionPercentSurpassed",
            MoveAbort::NotEnoughCollateralToAllocateForSession => "NotEnoughCollateralToAllocateForSession",
            MoveAbort::WrongAccountIdForAllocation => "WrongAccountIdForAllocation",
            MoveAbort::IntegratorVaultAlreadyExists => "IntegratorVaultAlreadyExists",
            MoveAbort::IntegratorVaultDoesNotExist => "IntegratorVaultDoesNotExist",
            MoveAbort::SizeNotMultipleOfLotSize => "SizeNotMultipleOfLotSize",
            MoveAbort::PriceNotMultipleOfTickSize => "PriceNotMultipleOfTickSize",
            MoveAbort::ADLCounterpartiesMismatch => "ADLCounterpartiesMismatch",
            MoveAbort::ADLCounterpartyInsufficient => "ADLCounterpartyInsufficient",
            MoveAbort::ADLBadDebtPositionNotClosed => "ADLBadDebtPositionNotClosed",
            MoveAbort::ADLWeightsDoNotSumToOne => "ADLWeightsDoNotSumToOne",
            MoveAbort::NoOpenInterestToSocializeBadDebt => "NoOpenInterestToSocializeBadDebt",
            MoveAbort::BadDebtAboveThreshold => "BadDebtAboveThreshold",
            MoveAbort::TWAPOrderTicketExpired => "TWAPOrderTicketExpired",
            MoveAbort::TWAPOrderAmountUncertaintyViolated => "TWAPOrderAmountUncertaintyViolated",
            MoveAbort::TWAPOrderExecutionGapViolated => "TWAPOrderExecutionGapViolated",
            MoveAbort::TWAPOrderFullyExecuted => "TWAPOrderFullyExecuted",
            MoveAbort::TWAPOrderExecutedAfterRetryTime => "TWAPOrderExecutedAfterRetryTime",
            MoveAbort::TWAPOrderCannotBeFinalized => "TWAPOrderCannotBeFinalized",
            MoveAbort::TWAPOrderInvalidAccount => "TWAPOrderInvalidAccount",
            MoveAbort::TWAPOrderInvalidExecutor => "TWAPOrderInvalidExecutor",
            MoveAbort::TWAPOrderCannotEditExecutingOrder => "TWAPOrderCannotEditExecutingOrder",
            MoveAbort::TWAPOrderInvalidGasSplit => "TWAPOrderInvalidGasSplit",
            MoveAbort::InvalidMarketParameters => "InvalidMarketParameters",
            MoveAbort::UpdatingFundingTooEarly => "UpdatingFundingTooEarly",
            MoveAbort::ProposalAlreadyExists => "ProposalAlreadyExists",
            MoveAbort::PrematureProposal => "PrematureProposal",
            MoveAbort::InvalidProposalDelay => "InvalidProposalDelay",
            MoveAbort::ProposalDoesNotExist => "ProposalDoesNotExist",
            MoveAbort::NoFeesAccrued => "NoFeesAccrued",
            MoveAbort::InsufficientInsuranceSurplus => "InsufficientInsuranceSurplus",
            MoveAbort::NoPriceFeedForMarket => "NoPriceFeedForMarket",
            MoveAbort::ProposalAlreadyMatured => "ProposalAlreadyMatured",
            MoveAbort::MarketIsPaused => "MarketIsPaused",
            MoveAbort::MarketIsNotPaused => "MarketIsNotPaused",
            MoveAbort::MarketIsNotClosed => "MarketIsNotClosed",
            MoveAbort::MarketIsClosed => "MarketIsClosed",
            MoveAbort::MaxPendingOrdersExceeded => "MaxPendingOrdersExceeded",
            MoveAbort::PositionBelowIMR => "PositionBelowIMR",
            MoveAbort::PositionAboveTolerance => "PositionAboveTolerance",
            MoveAbort::InitialMarginRequirementViolated => "InitialMarginRequirementViolated",
            MoveAbort::PositionAboveMMR => "PositionAboveMMR",
            MoveAbort::PositionBadDebt => "PositionBadDebt",
            MoveAbort::InsufficientFreeCollateral => "InsufficientFreeCollateral",
            MoveAbort::PositionAlreadyExists => "PositionAlreadyExists",
            MoveAbort::DeallocateTargetMrTooLow => "DeallocateTargetMrTooLow",
            MoveAbort::InvalidPositionIMR => "InvalidPositionIMR",
            MoveAbort::InvalidStopOrderType => "InvalidStopOrderType",
            MoveAbort::InvalidPositionForSLTP => "InvalidPositionForSLTP",
            MoveAbort::InvalidMapParameters => "InvalidMapParameters",
            MoveAbort::KeyNotExist => "KeyNotExist",
            MoveAbort::KeyAlreadyExists => "KeyAlreadyExists",
            MoveAbort::DestroyNotEmpty => "DestroyNotEmpty",
            MoveAbort::InvalidUserForOrder => "InvalidUserForOrder",
            MoveAbort::FlagRequirementsViolated => "FlagRequirementsViolated",
            MoveAbort::NotEnoughLiquidity => "NotEnoughLiquidity",
            MoveAbort::MapTooSmall => "MapTooSmall",
            MoveAbort::TooManyAssistantsPerAccount => "TooManyAssistantsPerAccount",
        }
    }

    /// The documentation of the abort. Every abort is documented, so this is
    /// never `None`.
    pub fn get_documentation(&self) -> (doc: Option<&'static str>)
        ensures
            doc is Some,
            doc->0@ == self.spec_documentation(),
    {
        match self {
            MoveAbort::DepositOrWithdrawAmountZero => Some("Cannot deposit/withdraw zero coins to/from the account's collateral."),
            MoveAbort::SizeOrPositionZero => Some("Size to place is 0. Raised also when there is no open position and\nan order with `reduce_only` is passed.\n"),
            MoveAbort::BadIndexPrice => Some("Index price returned from oracle is 0 or invalid value"),
            MoveAbort::InvalidPrice => Some("Price is either 0 or greater than 0x8000_0000_0000_0000"),
            MoveAbort::OrderUsdValueTooLow => Some("Order value in USD is too low"),
            MoveAbort::InvalidForceCancelIds => Some("Passed a vector of invalid order ids to perform force cancellation\nduring liquidation\n"),
            MoveAbort::LiquidateNotFirstOperation => Some("Liquidate must be the first operation of the session, if performed."),
            MoveAbort::InvalidCancelOrderIds => Some("Passed a vector of invalid order ids to cancel"),
            MoveAbort::StopOrderTicketExpired => Some("Ticket has already passed `expire_timestamp` and can only be cancelled"),
            MoveAbort::StopOrderConditionsViolated => Some("Index price is not at correct value to satisfy stop order conditions"),
            MoveAbort::WrongOrderDetails => Some("Index price is not at correct value to satisfy stop order conditions"),
            MoveAbort::InvalidBasePriceFeedStorage => Some("Invalid base price feed storage for the clearing house"),
            MoveAbort::SelfLiquidation => Some("Same liquidator and liqee account ids"),
            MoveAbort::InvalidAccountCap => Some("User trying to access the account used the wrong account cap"),
            MoveAbort::InvalidIntegratorTakerFee => Some("Raised when passing an integrator taker fee that is greater than\nthe `max_integrator_taker_fee` set by the user in its account\n"),
            MoveAbort::WrongVersion => Some("Raised when trying to call a function with the wrong package's version"),
            MoveAbort::EmptySession => Some("Raised when trying to have a session composed by only `start_session` and `end_session`"),
            MoveAbort::MarketAlreadyRegistered => Some("Market already registered in the registry"),
            MoveAbort::CollateralIsNotRegistered => Some("Collateral is not registered in the registry"),
            MoveAbort::MarketIsNotRegistered => Some("Market is not registered in the registry"),
            MoveAbort::InvalidCollateralPriceFeedStorage => Some("Invalid collateral price feed storage for the clearing house"),
            MoveAbort::NegativeFeesAccrued => Some("Fees accrued are negative"),
            MoveAbort::InvalidExpirationTimestamp => Some("Passed a timestamp older than current Clock's one"),
            MoveAbort::NotEnoughGasForStopOrder => Some("Stop order gas cost provided is not enough"),
            MoveAbort::NotEnoughGasForTWAPOrder => Some("TWAP order gas cost provided is not enough"),
            MoveAbort::InvalidAccountForStopOrder => Some("Invalid account trying to perform an action on a StopOrderTicket"),
            MoveAbort::InvalidExecutorForStopOrder => Some("Invalid executor trying to execute the StopOrderTicket"),
            MoveAbort::MaxOpenInterestSurpassed => Some("Raised when the market's max open interest is surpassed as a result of\nthe session's actions\n"),
            MoveAbort::MaxOpenInterestPositionPercentSurpassed => Some("Raised when a position's would get a base amount higher than the\nallowed percentage of open interest\n"),
            MoveAbort::NotEnoughCollateralToAllocateForSession => Some("Raised processing a session that requires a collateral allocation,\nbut not enough collateral is available in the account\n"),
            MoveAbort::WrongAccountIdForAllocation => Some("Raised processing a session that requires a collateral allocation\nand a wrong account is being used to fund it\n"),
            MoveAbort::IntegratorVaultAlreadyExists => Some("Raised when trying to create an integrator vault for an address\nthat already has one\n"),
            MoveAbort::IntegratorVaultDoesNotExist => Some("Raised when trying to access an integrator vault that does not exist"),
            MoveAbort::SizeNotMultipleOfLotSize => Some("Raised when trying to place an order passing a `size` that is not a multiple\nof market's lot size\n"),
            MoveAbort::PriceNotMultipleOfTickSize => Some("Raised when trying to place an order passing a `price` that is not a multiple\nof market's tick size\n"),
            MoveAbort::ADLCounterpartiesMismatch => Some("Raised when adl counterparties vec lengths differ"),
            MoveAbort::ADLCounterpartyInsufficient => Some("Raised when adl counterparty cannot reduce its assigned portion of base"),
            MoveAbort::ADLBadDebtPositionNotClosed => Some("Raised when adl does not fully close the bad debt position"),
            MoveAbort::ADLWeightsDoNotSumToOne => Some("Raised when weights for adl do not sum to fixed point 1"),
            MoveAbort::NoOpenInterestToSocializeBadDebt => Some("Open interest is 0 when trying to socialize bad debt"),
            MoveAbort::BadDebtAboveThreshold => Some("Bad debt amount is greater than max allowed threshold"),
            MoveAbort::TWAPOrderTicketExpired => Some("TWAP order is past its allowed start or end execution timestamp"),
            MoveAbort::TWAPOrderAmountUncertaintyViolated => Some("Amount executed in one TWAP execution is outside the allowed range"),
            MoveAbort::TWAPOrderExecutionGapViolated => Some("Current timestamp is too early for the next TWAP execution"),
            MoveAbort::TWAPOrderFullyExecuted => Some("The TWAP order has already been fully executed"),
            MoveAbort::TWAPOrderExecutedAfterRetryTime => Some("TWAP order is being executed after the retry deadline has passed"),
            MoveAbort::TWAPOrderCannotBeFinalized => Some("TWAP order is not in a terminal state required for finalization"),
            MoveAbort::TWAPOrderInvalidAccount => Some("Invalid account trying to perform an action on a TWAPOrderTicket"),
            MoveAbort::TWAPOrderInvalidExecutor => Some("Invalid executor trying to perform an action on a TWAPOrderTicket"),
            MoveAbort::TWAPOrderCannotEditExecutingOrder => Some("TWAP order is being edited while it is being executed"),
            MoveAbort::TWAPOrderInvalidGasSplit => Some("Invalid split between execution gas pool and finalization gas"),
            MoveAbort::InvalidMarketParameters => Some("While creating ordered map with invalid parameters,\nor changing them improperly for an existent map.\n"),
            MoveAbort::UpdatingFundingTooEarly => Some("Tried to call `update_funding` before enough time has passed since the\nlast update.\n"),
            MoveAbort::ProposalAlreadyExists => Some("Margin ratio update proposal already exists for market"),
            MoveAbort::PrematureProposal => Some("Margin ratio update proposal cannot be commited too early"),
            MoveAbort::InvalidProposalDelay => Some("Margin ratio update proposal delay is outside the valid range"),
            MoveAbort::ProposalDoesNotExist => Some("Margin ratio update proposal does not exist for market"),
            MoveAbort::NoFeesAccrued => Some("Exchange has no available fees to withdraw"),
            MoveAbort::InsufficientInsuranceSurplus => Some("Tried to withdraw more insurance funds than the allowed amount"),
            MoveAbort::NoPriceFeedForMarket => Some("Cannot create a market for which a price feed does not exist"),
            MoveAbort::ProposalAlreadyMatured => Some("Cannot delete a proposal that already matured. It can only be committed."),
            MoveAbort::MarketIsPaused => Some("Raised when an operation is performed while the market is paused"),
            MoveAbort::MarketIsNotPaused => Some("Raised when trying to call `close_position_at_settlement_prices` while\nthe market is not paused\n"),
            MoveAbort::MarketIsNotClosed => Some("Raised when trying to call `close_position_at_settlement_prices` while\nbefore `close_market` has been called by admin\n"),
            MoveAbort::MarketIsClosed => Some("Raised when Admin tries to resume a closed market"),
            MoveAbort::MaxPendingOrdersExceeded => Some("Tried placing a new pending order when the position already has the maximum\nallowed number of pending orders.\n"),
            MoveAbort::PositionBelowIMR => Some("Used for checking both liqee and liqor positions during liquidation"),
            MoveAbort::PositionAboveTolerance => Some("When leaving liqee's position with a margin ratio above tolerance,\nmeaning that liqor has overbought position\n"),
            MoveAbort::InitialMarginRequirementViolated => Some("An operation brought an account below initial margin requirements."),
            MoveAbort::PositionAboveMMR => Some("Position is above MMR, so can't be liquidated."),
            MoveAbort::PositionBadDebt => Some("Cannot realize bad debt via means other than calling 'liquidate'."),
            MoveAbort::InsufficientFreeCollateral => Some("Cannot withdraw more than the account's free collateral."),
            MoveAbort::PositionAlreadyExists => Some("Cannot have more than 1 position in a market."),
            MoveAbort::DeallocateTargetMrTooLow => Some("Cannot compute deallocate amount for a target MR < IMR."),
            MoveAbort::InvalidPositionIMR => Some("Raised when trying to set a position's IMR lower than market's IMR or higher than 1"),
            MoveAbort::InvalidStopOrderType => Some("Invalid stop order type"),
            MoveAbort::InvalidPositionForSLTP => Some("Invalid position' status for placing a SLTP order"),
            MoveAbort::InvalidMapParameters => Some("While creating ordered map with wrong parameters."),
            MoveAbort::KeyNotExist => Some("While searching for a key, but it doesn't exist."),
            MoveAbort::KeyAlreadyExists => Some("While inserting already existing key."),
            MoveAbort::DestroyNotEmpty => Some("When attempting to destroy a non-empty map"),
            MoveAbort::InvalidUserForOrder => Some("Invalid user tries to modify an order"),
            MoveAbort::FlagRequirementsViolated => Some("Orderbook flag requirements violated"),
            MoveAbort::NotEnoughLiquidity => Some("Minimum size matched not reached"),
            MoveAbort::MapTooSmall => Some("When trying to change a map configuration, but the map has\nlength less than 4\n"),
            MoveAbort::TooManyAssistantsPerAccount => Some("When trying to create another `AccountCap<ASSISTANT>` for an `Account` that already\nhas `constants::MAX_ASSISTANTS_PER_ACCOUNT` active assistants.\n"),
        }
    }
}

impl MoveAbort {
    /// Whether `self` is [`MoveAbort::DepositOrWithdrawAmountZero`].
    pub fn is_deposit_or_withdraw_amount_zero(&self) -> (is: bool)
        ensures
            is == (*self == MoveAbort::DepositOrWithdrawAmountZero),
    {
        matches!(self, MoveAbort::DepositOrWithdrawAmountZero)
    }

    /// Whether `self` is [`MoveAbort::SizeOrPositionZero`].
    pub fn is_size_or_position_zero(&self) -> (is: bool)
        ensures
            is == (*self == MoveAbort::SizeOrPositionZero),
    {
        matches!(self, MoveAbort::SizeOrPositionZero)
    }

    /// Whether `self` is [`MoveAbort::BadIndexPrice`].
    pub fn is_bad_index_price(&self) -> (is: bool)
        ensures
            is == (*self == MoveAbort::BadIndexPrice),
    {
        matches!(self, MoveAbort::BadIndexPrice)
    }

    /// Whether `self` is [`MoveAbort::InvalidPrice`].
    pub fn is_invalid_price(&self) -> (is: bool)
        ensures
            is == (*self == MoveAbort::InvalidPrice),
    {
        matches!(self, MoveAbort::InvalidPrice)
    }

    /// Whether `self` is [`MoveAbort::OrderUsdValueTooLow`].
    pub fn is_order_usd_value_too_low(&self) -> (is: bool)
        ensures
            is == (*self == MoveAbort::OrderUsdValueTooLow),
    {
        matches!(self, MoveAbort::OrderUsdValueTooLow)
    }

    /// Whether `self` is [`MoveAbort::InvalidForceCancelIds`].
    pub fn is_invalid_force_cancel_ids(&self) -> (is: bool)
        ensures
            is == (*self == MoveAbort::InvalidForceCancelIds),
    {
        matches!(self, MoveAbort::InvalidForceCancelIds)
    }

    /// Whether `self` is [`MoveAbort::LiquidateNotFirstOperation`].
    pub fn is_liquidate_not_first_operation(&self) -> (is: bool)
        ensures
            is == (*self == MoveAbort::LiquidateNotFirstOperation),
    {
        matches!(self, MoveAbort::LiquidateNotFirstOperation)
    }

    /// Whether `self` is [`MoveAbort::InvalidCancelOrderIds`].
    pub fn is_invalid_cancel_order_ids(&self) -> (is: bool)
        ensures
            is == (*self == MoveAbort::InvalidCancelOrderIds),
    {
        matches!(self, MoveAbort::InvalidCancelOrderIds)
    }

    /// Whether `self` is [`MoveAbort::StopOrderTicketExpired`].
    pub fn is_stop_order_ticket_expired(&self) -> (is: bool)
        ensures
            is == (*self == MoveAbort::StopOrderTicketExpired),
    {
        matches!(self, MoveAbort::StopOrderTicketExpired)
    }

    /// Whether `self` is [`MoveAbort::StopOrderConditionsViolated`].
    pub fn is_stop_order_conditions_violated(&self) -> (is: bool)
        ensures
            is == (*self == MoveAbort::StopOrderConditionsViolated),
    {
        matches!(self, MoveAbort::StopOrderConditionsViolated)
    }

    /// Whether `self` is [`MoveAbort::WrongOrderDetails`].
    pub fn is_wrong_order_details(&self) -> (is: bool)
        ensures
            is == (*self == MoveAbort::WrongOrderDetails),
    {
        matches!(self, MoveAbort::WrongOrderDetails)
    }

    /// Whether `self` is [`MoveAbort::InvalidBasePriceFeedStorage`].
    pub fn is_invalid_base_price_feed_storage(&self) -> (is: bool)
        ensures
            is == (*self == MoveAbort::InvalidBasePriceFeedStorage),
    {
        matches!(self, MoveAbort::InvalidBasePriceFeedStorage)
    }

    /// Whether `self` is [`MoveAbort::SelfLiquidation`].
    pub fn is_self_liquidation(&self) -> (is: bool)
        ensures
            is == (*self == MoveAbort::SelfLiquidation),
    {
        matches!(self, MoveAbort::SelfLiquidation)
    }

    /// Whether `self` is [`MoveAbort::InvalidAccountCap`].
    pub fn is_invalid_account_cap(&self) -> (is: bool)
        ensures
            is == (*self == MoveAbort::InvalidAccountCap),
    {
        matches!(self, MoveAbort::InvalidAccountCap)
    }

    /// Whether `self` is [`MoveAbort::InvalidIntegratorTakerFee`].
    pub fn is_invalid_integrator_taker_fee(&self) -> (is: bool)
        ensures
            is == (*self == MoveAbort::InvalidIntegratorTakerFee),
    {
        matches!(self, MoveAbort::InvalidIntegratorTakerFee)
    }

    /// Whether `self` is [`MoveAbort::WrongVersion`].
    pub fn is_wrong_version(&self) -> (is: bool)
        ensures
            is == (*self == MoveAbort::WrongVersion),
    {
        matches!(self, MoveAbort::WrongVersion)
    }

    /// Whether `self` is [`MoveAbort::EmptySession`].
    pub fn is_empty_session(&self) -> (is: bool)
        ensures
            is == (*self == MoveAbort::EmptySession),
    {
        matches!(self, MoveAbort::EmptySession)
    }

    /// Whether `self` is [`MoveAbort::MarketAlreadyRegistered`].
    pub fn is_market_already_registered(&self) -> (is: bool)
        ensures
            is == (*self == MoveAbort::MarketAlreadyRegistered),
    {
        matches!(self, MoveAbort::MarketAlreadyRegistered)
    }

    /// Whether `self` is [`MoveAbort::CollateralIsNotRegistered`].
    pub fn is_collateral_is_not_registered(&self) -> (is: bool)
        ensures
            is == (*self == MoveAbort::CollateralIsNotRegistered),
    {
        matches!(self, MoveAbort::CollateralIsNotRegistered)
    }

    /// Whether `self` is [`MoveAbort::MarketIsNotRegistered`].
    pub fn is_market_is_not_registered(&self) -> (is: bool)
        ensures
            is == (*self == MoveAbort::MarketIsNotRegistered),
    {
        matches!(self, MoveAbort::MarketIsNotRegistered)
    }

    /// Whether `self` is [`MoveAbort::InvalidCollateralPriceFeedStorage`].
    pub fn is_invalid_collateral_price_feed_storage(&self) -> (is: bool)
        ensures
            is == (*self == MoveAbort::InvalidCollateralPriceFeedStorage),
    {
        matches!(self, MoveAbort::InvalidCollateralPriceFeedStorage)
    }

    /// Whether `self` is [`MoveAbort::NegativeFeesAccrued`].
    pub fn is_negative_fees_accrued(&self) -> (is: bool)
        ensures
            is == (*self == MoveAbort::NegativeFeesAccrued),
    {
        matches!(self, MoveAbort::NegativeFeesAccrued)
    }

    /// Whether `self` is [`MoveAbort::InvalidExpirationTimestamp`].
    pub fn is_invalid_expiration_timestamp(&self) -> (is: bool)
        ensures
            is == (*self == MoveAbort::InvalidExpirationTimestamp),
    {
        matches!(self, MoveAbort::InvalidExpirationTimestamp)
    }

    /// Whether `self` is [`MoveAbort::NotEnoughGasForStopOrder`].
    pub fn is_not_enough_gas_for_stop_order(&self) -> (is: bool)
        ensures
            is == (*self == MoveAbort::NotEnoughGasForStopOrder),
    {
        matches!(self, MoveAbort::NotEnoughGasForStopOrder)
    }

    /// Whether `self` is [`MoveAbort::NotEnoughGasForTWAPOrder`].
    pub fn is_not_enough_gas_for_twap_order(&self) -> (is: bool)
        ensures
            is == (*self == MoveAbort::NotEnoughGasForTWAPOrder),
    {
        matches!(self, MoveAbort::NotEnoughGasForTWAPOrder)
    }

    /// Whether `self` is [`MoveAbort::InvalidAccountForStopOrder`].
    pub fn is_invalid_account_for_stop_order(&self) -> (is: bool)
        ensures
            is == (*self == MoveAbort::InvalidAccountForStopOrder),
    {
        matches!(self, MoveAbort::InvalidAccountForStopOrder)
    }

    /// Whether `self` is [`MoveAbort::InvalidExecutorForStopOrder`].
    pub fn is_invalid_executor_for_stop_order(&self) -> (is: bool)
        ensures
            is == (*self == MoveAbort::InvalidExecutorForStopOrder),
    {
        matches!(self, MoveAbort::InvalidExecutorForStopOrder)
    }

    /// Whether `self` is [`MoveAbort::MaxOpenInterestSurpassed`].
    pub fn is_max_open_interest_surpassed(&self) -> (is: bool)
        ensures
            is == (*self == MoveAbort::MaxOpenInterestSurpassed),
    {
        matches!(self, MoveAbort::MaxOpenInterestSurpassed)
    }

    /// Whether `self` is [`MoveAbort::MaxOpenInterestPositionPercentSurpassed`].
    pub fn is_max_open_interest_position_percent_surpassed(&self) -> (is: bool)
        ensures
            is == (*self == MoveAbort::MaxOpenInterestPositionPercentSurpassed),
    {
        matches!(self, MoveAbort::MaxOpenInterestPositionPercentSurpassed)
    }

    /// Whether `self` is [`MoveAbort::NotEnoughCollateralToAllocateForSession`].
    pub fn is_not_enough_collateral_to_allocate_for_session(&self) -> (is: bool)
        ensures
            is == (*self == MoveAbort::NotEnoughCollateralToAllocateForSession),
    {
        matches!(self, MoveAbort::NotEnoughCollateralToAllocateForSession)
    }

    /// Whether `self` is [`MoveAbort::WrongAccountIdForAllocation`].
    pub fn is_wrong_account_id_for_allocation(&self) -> (is: bool)
        ensures
            is == (*self == MoveAbort::WrongAccountIdForAllocation),
    {
        matches!(self, MoveAbort::WrongAccountIdForAllocation)
    }

    /// Whether `self` is [`MoveAbort::IntegratorVaultAlreadyExists`].
    pub fn is_integrator_vault_already_exists(&self) -> (is: bool)
        ensures
            is == (*self == MoveAbort::IntegratorVaultAlreadyExists),
    {
        matches!(self, MoveAbort::IntegratorVaultAlreadyExists)
    }

    /// Whether `self` is [`MoveAbort::IntegratorVaultDoesNotExist`].
    pub fn is_integrator_vault_does_not_exist(&self) -> (is: bool)
        ensures
            is == (*self == MoveAbort::IntegratorVaultDoesNotExist),
    {
        matches!(self, MoveAbort::IntegratorVaultDoesNotExist)
    }

    /// Whether `self` is [`MoveAbort::SizeNotMultipleOfLotSize`].
    pub fn is_size_not_multiple_of_lot_size(&self) -> (is: bool)
        ensures
            is == (*self == MoveAbort::SizeNotMultipleOfLotSize),
    {
        matches!(self, MoveAbort::SizeNotMultipleOfLotSize)
    }

    /// Whether `self` is [`MoveAbort::PriceNotMultipleOfTickSize`].
    pub fn is_price_not_multiple_of_tick_size(&self) -> (is: bool)
        ensures
            is == (*self == MoveAbort::PriceNotMultipleOfTickSize),
    {
        matches!(self, MoveAbort::PriceNotMultipleOfTickSize)
    }

    /// Whether `self` is [`MoveAbort::ADLCounterpartiesMismatch`].
    pub fn is_adl_counterparties_mismatch(&self) -> (is: bool)
        ensures
            is == (*self == MoveAbort::ADLCounterpartiesMismatch),
    {
        matches!(self, MoveAbort::ADLCounterpartiesMismatch)
    }

    /// Whether `self` is [`MoveAbort::ADLCounterpartyInsufficient`].
    pub fn is_adl_counterparty_insufficient(&self) -> (is: bool)
        ensures
            is == (*self == MoveAbort::ADLCounterpartyInsufficient),
    {
        matches!(self, MoveAbort::ADLCounterpartyInsufficient)
    }

    /// Whether `self` is [`MoveAbort::ADLBadDebtPositionNotClosed`].
    pub fn is_adl_bad_debt_position_not_closed(&self) -> (is: bool)
        ensures
            is == (*self == MoveAbort::ADLBadDebtPositionNotClosed),
    {
        matches!(self, MoveAbort::ADLBadDebtPositionNotClosed)
    }

    /// Whether `self` is [`MoveAbort::ADLWeightsDoNotSumToOne`].
    pub fn is_adl_weights_do_not_sum_to_one(&self) -> (is: bool)
        ensures
            is == (*self == MoveAbort::ADLWeightsDoNotSumToOne),
    {
        matches!(self, MoveAbort::ADLWeightsDoNotSumToOne)
    }

    /// Whether `self` is [`MoveAbort::NoOpenInterestToSocializeBadDebt`].
    pub fn is_no_open_interest_to_socialize_bad_debt(&self) -> (is: bool)
        ensures
            is == (*self == MoveAbort::NoOpenInterestToSocializeBadDebt),
    {
        matches!(self, MoveAbort::NoOpenInterestToSocializeBadDebt)
    }

    /// Whether `self` is [`MoveAbort::BadDebtAboveThreshold`].
    pub fn is_bad_debt_above_threshold(&self) -> (is: bool)
        ensures
            is == (*self == MoveAbort::BadDebtAboveThreshold),
    {
        matches!(self, MoveAbort::BadDebtAboveThreshold)
    }

    /// Whether `self` is [`MoveAbort::TWAPOrderTicketExpired`].
    pub fn is_twap_order_ticket_expired(&self) -> (is: bool)
        ensures
            is == (*self == MoveAbort::TWAPOrderTicketExpired),
    {
        matches!(self, MoveAbort::TWAPOrderTicketExpired)
    }

    /// Whether `self` is [`MoveAbort::TWAPOrderAmountUncertaintyViolated`].
    pub fn is_twap_order_amount_uncertainty_violated(&self) -> (is: bool)
        ensures
            is == (*self == MoveAbort::TWAPOrderAmountUncertaintyViolated),
    {
        matches!(self, MoveAbort::TWAPOrderAmountUncertaintyViolated)
    }

    /// Whether `self` is [`MoveAbort::TWAPOrderExecutionGapViolated`].
    pub fn is_twap_order_execution_gap_violated(&self) -> (is: bool)
        ensures
            is == (*self == MoveAbort::TWAPOrderExecutionGapViolated),
    {
        matches!(self, MoveAbort::TWAPOrderExecutionGapViolated)
    }

    /// Whether `self` is [`MoveAbort::TWAPOrderFullyExecuted`].
    pub fn is_twap_order_fully_executed(&self) -> (is: bool)
        ensures
            is == (*self == MoveAbort::TWAPOrderFullyExecuted),
    {
        matches!(self, MoveAbort::TWAPOrderFullyExecuted)
    }

    /// Whether `self` is [`MoveAbort::TWAPOrderExecutedAfterRetryTime`].
    pub fn is_twap_order_executed_after_retry_time(&self) -> (is: bool)
        ensures
            is == (*self == MoveAbort::TWAPOrderExecutedAfterRetryTime),
    {
        matches!(self, MoveAbort::TWAPOrderExecutedAfterRetryTime)
    }

    /// Whether `self` is [`MoveAbort::TWAPOrderCannotBeFinalized`].
    pub fn is_twap_order_cannot_be_finalized(&self) -> (is: bool)
        ensures
            is == (*self == MoveAbort::TWAPOrderCannotBeFinalized),
    {
        matches!(self, MoveAbort::TWAPOrderCannotBeFinalized)
    }

    /// Whether `self` is [`MoveAbort::TWAPOrderInvalidAccount`].
    pub fn is_twap_order_invalid_account(&self) -> (is: bool)
        ensures
            is == (*self == MoveAbort::TWAPOrderInvalidAccount),
    {
        matches!(self, MoveAbort::TWAPOrderInvalidAccount)
    }

    /// Whether `self` is [`MoveAbort::TWAPOrderInvalidExecutor`].
    pub fn is_twap_order_invalid_executor(&self) -> (is: bool)
        ensures
            is == (*self == MoveAbort::TWAPOrderInvalidExecutor),
    {
        matches!(self, MoveAbort::TWAPOrderInvalidExecutor)
    }

    /// Whether `self` is [`MoveAbort::TWAPOrderCannotEditExecutingOrder`].
    pub fn is_twap_order_cannot_edit_executing_order(&self) -> (is: bool)
        ensures
            is == (*self == MoveAbort::TWAPOrderCannotEditExecutingOrder),
    {
        matches!(self, MoveAbort::TWAPOrderCannotEditExecutingOrder)
    }

    /// Whether `self` is [`MoveAbort::TWAPOrderInvalidGasSplit`].
    pub fn is_twap_order_invalid_gas_split(&self) -> (is: bool)
        ensures
            is == (*self == MoveAbort::TWAPOrderInvalidGasSplit),
    {
        matches!(self, MoveAbort::TWAPOrderInvalidGasSplit)
    }

    /// Whether `self` is [`MoveAbort::InvalidMarketParameters`].
    pub fn is_invalid_market_parameters(&self) -> (is: bool)
        ensures
            is == (*self == MoveAbort::InvalidMarketParameters),
    {
        matches!(self, MoveAbort::InvalidMarketParameters)
    }

    /// Whether `self` is [`MoveAbort::UpdatingFundingTooEarly`].
    pub fn is_updating_funding_too_early(&self) -> (is: bool)
        ensures
            is == (*self == MoveAbort::UpdatingFundingTooEarly),
    {
        matches!(self, MoveAbort::UpdatingFundingTooEarly)
    }

    /// Whether `self` is [`MoveAbort::ProposalAlreadyExists`].
    pub fn is_proposal_already_exists(&self) -> (is: bool)
        ensures
            is == (*self == MoveAbort::ProposalAlreadyExists),
    {
        matches!(self, MoveAbort::ProposalAlreadyExists)
    }

    /// Whether `self` is [`MoveAbort::PrematureProposal`].
    pub fn is_premature_proposal(&self) -> (is: bool)
        ensures
            is == (*self == MoveAbort::PrematureProposal),
    {
        matches!(self, MoveAbort::PrematureProposal)
    }

    /// Whether `self` is [`MoveAbort::InvalidProposalDelay`].
    pub fn is_invalid_proposal_delay(&self) -> (is: bool)
        ensures
            is == (*self == MoveAbort::InvalidProposalDelay),
    {
        matches!(self, MoveAbort::InvalidProposalDelay)
    }

    /// Whether `self` is [`MoveAbort::ProposalDoesNotExist`].
    pub fn is_proposal_does_not_exist(&self) -> (is: bool)
        ensures
            is == (*self == MoveAbort::ProposalDoesNotExist),
    {
        matches!(self, MoveAbort::ProposalDoesNotExist)
    }

    /// Whether `self` is [`MoveAbort::NoFeesAccrued`].
    pub fn is_no_fees_accrued(&self) -> (is: bool)
        ensures
            is == (*self == MoveAbort::NoFeesAccrued),
    {
        matches!(self, MoveAbort::NoFeesAccrued)
    }

    /// Whether `self` is [`MoveAbort::InsufficientInsuranceSurplus`].
    pub fn is_insufficient_insurance_surplus(&self) -> (is: bool)
        ensures
            is == (*self == MoveAbort::InsufficientInsuranceSurplus),
    {
        matches!(self, MoveAbort::InsufficientInsuranceSurplus)
    }

    /// Whether `self` is [`MoveAbort::NoPriceFeedForMarket`].
    pub fn is_no_price_feed_for_market(&self) -> (is: bool)
        ensures
            is == (*self == MoveAbort::NoPriceFeedForMarket),
    {
        matches!(self, MoveAbort::NoPriceFeedForMarket)
    }

    /// Whether `self` is [`MoveAbort::ProposalAlreadyMatured`].
    pub fn is_proposal_already_matured(&self) -> (is: bool)
        ensures
            is == (*self == MoveAbort::ProposalAlreadyMatured),
    {
        matches!(self, MoveAbort::ProposalAlreadyMatured)
    }

    /// Whether `self` is [`MoveAbort::MarketIsPaused`].
    pub fn is_market_is_paused(&self) -> (is: bool)
        ensures
            is == (*self == MoveAbort::MarketIsPaused),
    {
        matches!(self, MoveAbort::MarketIsPaused)
    }

    /// Whether `self` is [`MoveAbort::MarketIsNotPaused`].
    pub fn is_market_is_not_paused(&self) -> (is: bool)
        ensures
            is == (*self == MoveAbort::MarketIsNotPaused),
    {
        matches!(self, MoveAbort::MarketIsNotPaused)
    }

    /// Whether `self` is [`MoveAbort::MarketIsNotClosed`].
    pub fn is_market_is_not_closed(&self) -> (is: bool)
        ensures
            is == (*self == MoveAbort::MarketIsNotClosed),
    {
        matches!(self, MoveAbort::MarketIsNotClosed)
    }

    /// Whether `self` is [`MoveAbort::MarketIsClosed`].
    pub fn is_market_is_closed(&self) -> (is: bool)
        ensures
            is == (*self == MoveAbort::MarketIsClosed),
    {
        matches!(self, MoveAbort::MarketIsClosed)
    }

    /// Whether `self` is [`MoveAbort::MaxPendingOrdersExceeded`].
    pub fn is_max_pending_orders_exceeded(&self) -> (is: bool)
        ensures
            is == (*self == MoveAbort::MaxPendingOrdersExceeded),
    {
        matches!(self, MoveAbort::MaxPendingOrdersExceeded)
    }

    /// Whether `self` is [`MoveAbort::PositionBelowIMR`].
    pub fn is_position_below_imr(&self) -> (is: bool)
        ensures
            is == (*self == MoveAbort::PositionBelowIMR),
    {
        matches!(self, MoveAbort::PositionBelowIMR)
    }

    /// Whether `self` is [`MoveAbort::PositionAboveTolerance`].
    pub fn is_position_above_tolerance(&self) -> (is: bool)
        ensures
            is == (*self == MoveAbort::PositionAboveTolerance),
    {
        matches!(self, MoveAbort::PositionAboveTolerance)
    }

    /// Whether `self` is [`MoveAbort::InitialMarginRequirementViolated`].
    pub fn is_initial_margin_requirement_violated(&self) -> (is: bool)
        ensures
            is == (*self == MoveAbort::InitialMarginRequirementViolated),
    {
        matches!(self, MoveAbort::InitialMarginRequirementViolated)
    }

    /// Whether `self` is [`MoveAbort::PositionAboveMMR`].
    pub fn is_position_above_mmr(&self) -> (is: bool)
        ensures
            is == (*self == MoveAbort::PositionAboveMMR),
    {
        matches!(self, MoveAbort::PositionAboveMMR)
    }

    /// Whether `self` is [`MoveAbort::PositionBadDebt`].
    pub fn is_position_bad_debt(&self) -> (is: bool)
        ensures
            is == (*self == MoveAbort::PositionBadDebt),
    {
        matches!(self, MoveAbort::PositionBadDebt)
    }

    /// Whether `self` is [`MoveAbort::InsufficientFreeCollateral`].
    pub fn is_insufficient_free_collateral(&self) -> (is: bool)
        ensures
            is == (*self == MoveAbort::InsufficientFreeCollateral),
    {
        matches!(self, MoveAbort::InsufficientFreeCollateral)
    }

    /// Whether `self` is [`MoveAbort::PositionAlreadyExists`].
    pub fn is_position_already_exists(&self) -> (is: bool)
        ensures
            is == (*self == MoveAbort::PositionAlreadyExists),
    {
        matches!(self, MoveAbort::PositionAlreadyExists)
    }

    /// Whether `self` is [`MoveAbort::DeallocateTargetMrTooLow`].
    pub fn is_deallocate_target_mr_too_low(&self) -> (is: bool)
        ensures
            is == (*self == MoveAbort::DeallocateTargetMrTooLow),
    {
        matches!(self, MoveAbort::DeallocateTargetMrTooLow)
    }

    /// Whether `self` is [`MoveAbort::InvalidPositionIMR`].
    pub fn is_invalid_position_imr(&self) -> (is: bool)
        ensures
            is == (*self == MoveAbort::InvalidPositionIMR),
    {
        matches!(self, MoveAbort::InvalidPositionIMR)
    }

    /// Whether `self` is [`MoveAbort::InvalidStopOrderType`].
    pub fn is_invalid_stop_order_type(&self) -> (is: bool)
        ensures
            is == (*self == MoveAbort::InvalidStopOrderType),
    {
        matches!(self, MoveAbort::InvalidStopOrderType)
    }

    /// Whether `self` is [`MoveAbort::InvalidPositionForSLTP`].
    pub fn is_invalid_position_for_sltp(&self) -> (is: bool)
        ensures
            is == (*self == MoveAbort::InvalidPositionForSLTP),
    {
        matches!(self, MoveAbort::InvalidPositionForSLTP)
    }

    /// Whether `self` is [`MoveAbort::InvalidMapParameters`].
    pub fn is_invalid_map_parameters(&self) -> (is: bool)
        ensures
            is == (*self == MoveAbort::InvalidMapParameters),
    {
        matches!(self, MoveAbort::InvalidMapParameters)
    }

    /// Whether `self` is [`MoveAbort::KeyNotExist`].
    pub fn is_key_not_exist(&self) -> (is: bool)
        ensures
            is == (*self == MoveAbort::KeyNotExist),
    {
        matches!(self, MoveAbort::KeyNotExist)
    }

    /// Whether `self` is [`MoveAbort::KeyAlreadyExists`].
    pub fn is_key_already_exists(&self) -> (is: bool)
        ensures
            is == (*self == MoveAbort::KeyAlreadyExists),
    {
        matches!(self, MoveAbort::KeyAlreadyExists)
    }

    /// Whether `self` is [`MoveAbort::DestroyNotEmpty`].
    pub fn is_destroy_not_empty(&self) -> (is: bool)
        ensures
            is == (*self == MoveAbort::DestroyNotEmpty),
    {
        matches!(self, MoveAbort::DestroyNotEmpty)
    }

    /// Whether `self` is [`MoveAbort::InvalidUserForOrder`].
    pub fn is_invalid_user_for_order(&self) -> (is: bool)
        ensures
            is == (*self == MoveAbort::InvalidUserForOrder),
    {
        matches!(self, MoveAbort::InvalidUserForOrder)
    }

    /// Whether `self` is [`MoveAbort::FlagRequirementsViolated`].
    pub fn is_flag_requirements_violated(&self) -> (is: bool)
        ensures
            is == (*self == MoveAbort::FlagRequirementsViolated),
    {
        matches!(self, MoveAbort::FlagRequirementsViolated)
    }

    /// Whether `self` is [`MoveAbort::NotEnoughLiquidity`].
    pub fn is_not_enough_liquidity(&self) -> (is: bool)
        ensures
            is == (*self == MoveAbort::NotEnoughLiquidity),
    {
        matches!(self, MoveAbort::NotEnoughLiquidity)
    }

    /// Whether `self` is [`MoveAbort::MapTooSmall`].
    pub fn is_map_too_small(&self) -> (is: bool)
        ensures
            is == (*self == MoveAbort::MapTooSmall),
    {
        matches!(self, MoveAbort::MapTooSmall)
    }

    /// Whether `self` is [`MoveAbort::TooManyAssistantsPerAccount`].
    pub fn is_too_many_assistants_per_account(&self) -> (is: bool)
        ensures
            is == (*self == MoveAbort::TooManyAssistantsPerAccount),
    {
        matches!(self, MoveAbort::TooManyAssistantsPerAccount)
    }
}

impl MoveAbort {
    /// The message of the abort: none is set, so always `None`.
    pub fn get_message(&self) -> (message: Option<&'static str>)
        ensures
            message is None,
    {
        None
    }

    /// The detailed message of the abort: none is set, so always `None`.
    pub fn get_detailed_message(&self) -> (message: Option<&'static str>)
        ensures
            message is None,
    {
        None
    }

    /// The strings that name the abort: its variant name alone.
    pub fn get_serializations(&self) -> (names: &'static [&'static str])
        ensures
            names@.len() == 1,
            names@[0]@ == self.spec_name(),
    {
        match self {
            MoveAbort::DepositOrWithdrawAmountZero => &["DepositOrWithdrawAmountZero"],
            MoveAbort::SizeOrPositionZero => &["SizeOrPositionZero"],
            MoveAbort::BadIndexPrice => &["BadIndexPrice"],
            MoveAbort::InvalidPrice => &["InvalidPrice"],
            MoveAbort::OrderUsdValueTooLow => &["OrderUsdValueTooLow"],
            MoveAbort::InvalidForceCancelIds => &["InvalidForceCancelIds"],
            MoveAbort::LiquidateNotFirstOperation => &["LiquidateNotFirstOperation"],
            MoveAbort::InvalidCancelOrderIds => &["InvalidCancelOrderIds"],
            MoveAbort::StopOrderTicketExpired => &["StopOrderTicketExpired"],
            MoveAbort::StopOrderConditionsViolated => &["StopOrderConditionsViolated"],
            MoveAbort::WrongOrderDetails => &["WrongOrderDetails"],
            MoveAbort::InvalidBasePriceFeedStorage => &["InvalidBasePriceFeedStorage"],
            MoveAbort::SelfLiquidation => &["SelfLiquidation"],
            MoveAbort::InvalidAccountCap => &["InvalidAccountCap"],
            MoveAbort::InvalidIntegratorTakerFee => &["InvalidIntegratorTakerFee"],
            MoveAbort::WrongVersion => &["WrongVersion"],
            MoveAbort::EmptySession => &["EmptySession"],
            MoveAbort::MarketAlreadyRegistered => &["MarketAlreadyRegistered"],
            MoveAbort::CollateralIsNotRegistered => &["CollateralIsNotRegistered"],
            MoveAbort::MarketIsNotRegistered => &["MarketIsNotRegistered"],
            MoveAbort::InvalidCollateralPriceFeedStorage => &["InvalidCollateralPriceFeedStorage"],
            MoveAbort::NegativeFeesAccrued => &["NegativeFeesAccrued"],
            MoveAbort::InvalidExpirationTimestamp => &["InvalidExpirationTimestamp"],
            MoveAbort::NotEnoughGasForStopOrder => &["NotEnoughGasForStopOrder"],
            MoveAbort::NotEnoughGasForTWAPOrder => &["NotEnoughGasForTWAPOrder"],
            MoveAbort::InvalidAccountForStopOrder => &["InvalidAccountForStopOrder"],
            MoveAbort::InvalidExecutorForStopOrder => &["InvalidExecutorForStopOrder"],
            MoveAbort::MaxOpenInterestSurpassed => &["MaxOpenInterestSurpassed"],
            MoveAbort::MaxOpenInterestPositionPercentSurpassed => &["MaxOpenInterestPositionPercentSurpassed"],
            MoveAbort::NotEnoughCollateralToAllocateForSession => &["NotEnoughCollateralToAllocateForSession"],
            MoveAbort::WrongAccountIdForAllocation => &["WrongAccountIdForAllocation"],
            MoveAbort::IntegratorVaultAlreadyExists => &["IntegratorVaultAlreadyExists"],
            MoveAbort::IntegratorVaultDoesNotExist => &["IntegratorVaultDoesNotExist"],
            MoveAbort::SizeNotMultipleOfLotSize => &["SizeNotMultipleOfLotSize"],
            MoveAbort::PriceNotMultipleOfTickSize => &["PriceNotMultipleOfTickSize"],
            MoveAbort::ADLCounterpartiesMismatch => &["ADLCounterpartiesMismatch"],
            MoveAbort::ADLCounterpartyInsufficient => &["ADLCounterpartyInsufficient"],
            MoveAbort::ADLBadDebtPositionNotClosed => &["ADLBadDebtPositionNotClosed"],
            MoveAbort::ADLWeightsDoNotSumToOne => &["ADLWeightsDoNotSumToOne"],
            MoveAbort::NoOpenInterestToSocializeBadDebt => &["NoOpenInterestToSocializeBadDebt"],
            MoveAbort::BadDebtAboveThreshold => &["BadDebtAboveThreshold"],
            MoveAbort::TWAPOrderTicketExpired => &["TWAPOrderTicketExpired"],
            MoveAbort::TWAPOrderAmountUncertaintyViolated => &["TWAPOrderAmountUncertaintyViolated"],
            MoveAbort::TWAPOrderExecutionGapViolated => &["TWAPOrderExecutionGapViolated"],
            MoveAbort::TWAPOrderFullyExecuted => &["TWAPOrderFullyExecuted"],
            MoveAbort::TWAPOrderExecutedAfterRetryTime => &["TWAPOrderExecutedAfterRetryTime"],
            MoveAbort::TWAPOrderCannotBeFinalized => &["TWAPOrderCannotBeFinalized"],
            MoveAbort::TWAPOrderInvalidAccount => &["TWAPOrderInvalidAccount"],
            MoveAbort::TWAPOrderInvalidExecutor => &["TWAPOrderInvalidExecutor"],
            MoveAbort::TWAPOrderCannotEditExecutingOrder => &["TWAPOrderCannotEditExecutingOrder"],
            MoveAbort::TWAPOrderInvalidGasSplit => &["TWAPOrderInvalidGasSplit"],
            MoveAbort::InvalidMarketParameters => &["InvalidMarketParameters"],
            MoveAbort::UpdatingFundingTooEarly => &["UpdatingFundingTooEarly"],
            MoveAbort::ProposalAlreadyExists => &["ProposalAlreadyExists"],
            MoveAbort::PrematureProposal => &["PrematureProposal"],
            MoveAbort::InvalidProposalDelay => &["InvalidProposalDelay"],
            MoveAbort::ProposalDoesNotExist => &["ProposalDoesNotExist"],
            MoveAbort::NoFeesAccrued => &["NoFeesAccrued"],
            MoveAbort::InsufficientInsuranceSurplus => &["InsufficientInsuranceSurplus"],
            MoveAbort::NoPriceFeedForMarket => &["NoPriceFeedForMarket"],
            MoveAbort::ProposalAlreadyMatured => &["ProposalAlreadyMatured"],
            MoveAbort::MarketIsPaused => &["MarketIsPaused"],
            MoveAbort::MarketIsNotPaused => &["MarketIsNotPaused"],
            MoveAbort::MarketIsNotClosed => &["MarketIsNotClosed"],
            MoveAbort::MarketIsClosed => &["MarketIsClosed"],
            MoveAbort::MaxPendingOrdersExceeded => &["MaxPendingOrdersExceeded"],
            MoveAbort::PositionBelowIMR => &["PositionBelowIMR"],
            MoveAbort::PositionAboveTolerance => &["PositionAboveTolerance"],
            MoveAbort::InitialMarginRequirementViolated => &["InitialMarginRequirementViolated"],
            MoveAbort::PositionAboveMMR => &["PositionAboveMMR"],
            MoveAbort::PositionBadDebt => &["PositionBadDebt"],
            MoveAbort::InsufficientFreeCollateral => &["InsufficientFreeCollateral"],
            MoveAbort::PositionAlreadyExists => &["PositionAlreadyExists"],
            MoveAbort::DeallocateTargetMrTooLow => &["DeallocateTargetMrTooLow"],
            MoveAbort::InvalidPositionIMR => &["InvalidPositionIMR"],
            MoveAbort::InvalidStopOrderType => &["InvalidStopOrderType"],
            MoveAbort::InvalidPositionForSLTP => &["InvalidPositionForSLTP"],
            MoveAbort::InvalidMapParameters => &["InvalidMapParameters"],
            MoveAbort::KeyNotExist => &["KeyNotExist"],
            MoveAbort::KeyAlreadyExists => &["KeyAlreadyExists"],
            MoveAbort::DestroyNotEmpty => &["DestroyNotEmpty"],
            MoveAbort::InvalidUserForOrder => &["InvalidUserForOrder"],
            MoveAbort::FlagRequirementsViolated => &["FlagRequirementsViolated"],
            MoveAbort::NotEnoughLiquidity => &["NotEnoughLiquidity"],
            MoveAbort::MapTooSmall => &["MapTooSmall"],
            MoveAbort::TooManyAssistantsPerAccount => &["TooManyAssistantsPerAccount"],
        }
    }
}

/// The error of converting a number that is no abort code into a [`MoveAbort`];
/// it keeps the number.
#[derive(Debug, Clone, Copy, PartialEq, Eq, Structural)]
pub struct TryFromCodeError {
    pub number: u64,
}

impl core::convert::From<MoveAbort> for u64 {
    fn from(abort: MoveAbort) -> (code: u64) {
        abort.code()
    }
}

impl FromSpecImpl<MoveAbort> for u64 {
    open spec fn obeys_from_spec() -> bool {
        true
    }

    open spec fn from_spec(abort: MoveAbort) -> u64 {
        abort.spec_code()
    }
}

impl core::convert::TryFrom<u64> for MoveAbort {
    type Error = TryFromCodeError;

    fn try_from(code: u64) -> (abort: Result<MoveAbort, TryFromCodeError>) {
        match MoveAbort::from_code(code) {
            Some(abort) => Ok(abort),
            None => Err(TryFromCodeError { number: code }),
        }
    }
}

impl TryFromSpecImpl<u64> for MoveAbort {
    open spec fn obeys_try_from_spec() -> bool {
        true
    }

    open spec fn try_from_spec(code: u64) -> Result<MoveAbort, TryFromCodeError> {
        match MoveAbort::spec_from_code(code) {
            Some(abort) => Ok(abort),
            None => Err(TryFromCodeError { number: code }),
        }
    }
}

/// An abort's code leads back to the abort.
pub proof fn lemma_from_code_of_code(abort: MoveAbort)
    ensures
        MoveAbort::spec_from_code(abort.spec_code()) == Some(abort),
{
}

/// A number that is found as an abort is that abort's code.
pub proof fn lemma_code_of_from_code(code: u64)
    ensures
        MoveAbort::spec_from_code(code) matches Some(abort) ==> abort.spec_code() == code,
{
}

/// No two aborts share a code.
pub proof fn lemma_code_injective(a: MoveAbort, b: MoveAbort)
    ensures
        a.spec_code() == b.spec_code() ==> a == b,
{
    lemma_from_code_of_code(a);
    lemma_from_code_of_code(b);
}


/// Each abort's code is the constant of the same name, as the Move errors
/// module declares it.
pub proof fn lemma_code_is_the_named_constant()
    ensures
        MoveAbort::DepositOrWithdrawAmountZero.spec_code() == DepositOrWithdrawAmountZero,
        MoveAbort::SizeOrPositionZero.spec_code() == SizeOrPositionZero,
        MoveAbort::BadIndexPrice.spec_code() == BadIndexPrice,
        MoveAbort::InvalidPrice.spec_code() == InvalidPrice,
        MoveAbort::OrderUsdValueTooLow.spec_code() == OrderUsdValueTooLow,
        MoveAbort::InvalidForceCancelIds.spec_code() == InvalidForceCancelIds,
        MoveAbort::LiquidateNotFirstOperation.spec_code() == LiquidateNotFirstOperation,
        MoveAbort::InvalidCancelOrderIds.spec_code() == InvalidCancelOrderIds,
        MoveAbort::StopOrderTicketExpired.spec_code() == StopOrderTicketExpired,
        MoveAbort::StopOrderConditionsViolated.spec_code() == StopOrderConditionsViolated,
        MoveAbort::WrongOrderDetails.spec_code() == WrongOrderDetails,
        MoveAbort::InvalidBasePriceFeedStorage.spec_code() == InvalidBasePriceFeedStorage,
        MoveAbort::SelfLiquidation.spec_code() == SelfLiquidation,
        MoveAbort::InvalidAccountCap.spec_code() == InvalidAccountCap,
        MoveAbort::InvalidIntegratorTakerFee.spec_code() == InvalidIntegratorTakerFee,
        MoveAbort::WrongVersion.spec_code() == WrongVersion,
        MoveAbort::EmptySession.spec_code() == EmptySession,
        MoveAbort::MarketAlreadyRegistered.spec_code() == MarketAlreadyRegistered,
        MoveAbort::CollateralIsNotRegistered.spec_code() == CollateralIsNotRegistered,
        MoveAbort::MarketIsNotRegistered.spec_code() == MarketIsNotRegistered,
        MoveAbort::InvalidCollateralPriceFeedStorage.spec_code() == InvalidCollateralPriceFeedStorage,
        MoveAbort::NegativeFeesAccrued.spec_code() == NegativeFeesAccrued,
        MoveAbort::InvalidExpirationTimestamp.spec_code() == InvalidExpirationTimestamp,
        MoveAbort::NotEnoughGasForStopOrder.spec_code() == NotEnoughGasForStopOrder,
        MoveAbort::NotEnoughGasForTWAPOrder.spec_code() == NotEnoughGasForTWAPOrder,
        MoveAbort::InvalidAccountForStopOrder.spec_code() == InvalidAccountForStopOrder,
        MoveAbort::InvalidExecutorForStopOrder.spec_code() == InvalidExecutorForStopOrder,
        MoveAbort::MaxOpenInterestSurpassed.spec_code() == MaxOpenInterestSurpassed,
        MoveAbort::MaxOpenInterestPositionPercentSurpassed.spec_code() == MaxOpenInterestPositionPercentSurpassed,
        MoveAbort::NotEnoughCollateralToAllocateForSession.spec_code() == NotEnoughCollateralToAllocateForSession,
        MoveAbort::WrongAccountIdForAllocation.spec_code() == WrongAccountIdForAllocation,
        MoveAbort::IntegratorVaultAlreadyExists.spec_code() == IntegratorVaultAlreadyExists,
        MoveAbort::IntegratorVaultDoesNotExist.spec_code() == IntegratorVaultDoesNotExist,
        MoveAbort::SizeNotMultipleOfLotSize.spec_code() == SizeNotMultipleOfLotSize,
        MoveAbort::PriceNotMultipleOfTickSize.spec_code() == PriceNotMultipleOfTickSize,
        MoveAbort::ADLCounterpartiesMismatch.spec_code() == ADLCounterpartiesMismatch,
        MoveAbort::ADLCounterpartyInsufficient.spec_code() == ADLCounterpartyInsufficient,
        MoveAbort::ADLBadDebtPositionNotClosed.spec_code() == ADLBadDebtPositionNotClosed,
        MoveAbort::ADLWeightsDoNotSumToOne.spec_code() == ADLWeightsDoNotSumToOne,
        MoveAbort::NoOpenInterestToSocializeBadDebt.spec_code() == NoOpenInterestToSocializeBadDebt,
        MoveAbort::BadDebtAboveThreshold.spec_code() == BadDebtAboveThreshold,
        MoveAbort::TWAPOrderTicketExpired.spec_code() == TWAPOrderTicketExpired,
        MoveAbort::TWAPOrderAmountUncertaintyViolated.spec_code() == TWAPOrderAmountUncertaintyViolated,
        MoveAbort::TWAPOrderExecutionGapViolated.spec_code() == TWAPOrderExecutionGapViolated,
        MoveAbort::TWAPOrderFullyExecuted.spec_code() == TWAPOrderFullyExecuted,
        MoveAbort::TWAPOrderExecutedAfterRetryTime.spec_code() == TWAPOrderExecutedAfterRetryTime,
        MoveAbort::TWAPOrderCannotBeFinalized.spec_code() == TWAPOrderCannotBeFinalized,
        MoveAbort::TWAPOrderInvalidAccount.spec_code() == TWAPOrderInvalidAccount,
        MoveAbort::TWAPOrderInvalidExecutor.spec_code() == TWAPOrderInvalidExecutor,
        MoveAbort::TWAPOrderCannotEditExecutingOrder.spec_code() == TWAPOrderCannotEditExecutingOrder,
        MoveAbort::TWAPOrderInvalidGasSplit.spec_code() == TWAPOrderInvalidGasSplit,
        MoveAbort::InvalidMarketParameters.spec_code() == InvalidMarketParameters,
        MoveAbort::UpdatingFundingTooEarly.spec_code() == UpdatingFundingTooEarly,
        MoveAbort::ProposalAlreadyExists.spec_code() == ProposalAlreadyExists,
        MoveAbort::PrematureProposal.spec_code() == PrematureProposal,
        MoveAbort::InvalidProposalDelay.spec_code() == InvalidProposalDelay,
        MoveAbort::ProposalDoesNotExist.spec_code() == ProposalDoesNotExist,
        MoveAbort::NoFeesAccrued.spec_code() == NoFeesAccrued,
        MoveAbort::InsufficientInsuranceSurplus.spec_code() == InsufficientInsuranceSurplus,
        MoveAbort::NoPriceFeedForMarket.spec_code() == NoPriceFeedForMarket,
        MoveAbort::ProposalAlreadyMatured.spec_code() == ProposalAlreadyMatured,
        MoveAbort::MarketIsPaused.spec_code() == MarketIsPaused,
        MoveAbort::MarketIsNotPaused.spec_code() == MarketIsNotPaused,
        MoveAbort::MarketIsNotClosed.spec_code() == MarketIsNotClosed,
        MoveAbort::MarketIsClosed.spec_code() == MarketIsClosed,
        MoveAbort::MaxPendingOrdersExceeded.spec_code() == MaxPendingOrdersExceeded,
        MoveAbort::PositionBelowIMR.spec_code() == PositionBelowIMR,
        MoveAbort::PositionAboveTolerance.spec_code() == PositionAboveTolerance,
        MoveAbort::InitialMarginRequirementViolated.spec_code() == InitialMarginRequirementViolated,
        MoveAbort::PositionAboveMMR.spec_code() == PositionAboveMMR,
        MoveAbort::PositionBadDebt.spec_code() == PositionBadDebt,
        MoveAbort::InsufficientFreeCollateral.spec_code() == InsufficientFreeCollateral,
        MoveAbort::PositionAlreadyExists.spec_code() == PositionAlreadyExists,
        MoveAbort::DeallocateTargetMrTooLow.spec_code() == DeallocateTargetMrTooLow,
        MoveAbort::InvalidPositionIMR.spec_code() == InvalidPositionIMR,
        MoveAbort::InvalidStopOrderType.spec_code() == InvalidStopOrderType,
        MoveAbort::InvalidPositionForSLTP.spec_code() == InvalidPositionForSLTP,
        MoveAbort::InvalidMapParameters.spec_code() == InvalidMapParameters,
        MoveAbort::KeyNotExist.spec_code() == KeyNotExist,
        MoveAbort::KeyAlreadyExists.spec_code() == KeyAlreadyExists,
        MoveAbort::DestroyNotEmpty.spec_code() == DestroyNotEmpty,
        MoveAbort::InvalidUserForOrder.spec_code() == InvalidUserForOrder,
        MoveAbort::FlagRequirementsViolated.spec_code() == FlagRequirementsViolated,
        MoveAbort::NotEnoughLiquidity.spec_code() == NotEnoughLiquidity,
        MoveAbort::MapTooSmall.spec_code() == MapTooSmall,
        MoveAbort::TooManyAssistantsPerAccount.spec_code() == TooManyAssistantsPerAccount,
{
}

/// Decoding the constant of an abort's name gives that abort.
pub proof fn lemma_named_constant_decodes_to_its_abort()
    ensures
        MoveAbort::spec_from_code(DepositOrWithdrawAmountZero) == Some(MoveAbort::DepositOrWithdrawAmountZero),
        MoveAbort::spec_from_code(SizeOrPositionZero) == Some(MoveAbort::SizeOrPositionZero),
        MoveAbort::spec_from_code(BadIndexPrice) == Some(MoveAbort::BadIndexPrice),
        MoveAbort::spec_from_code(InvalidPrice) == Some(MoveAbort::InvalidPrice),
        MoveAbort::spec_from_code(OrderUsdValueTooLow) == Some(MoveAbort::OrderUsdValueTooLow),
        MoveAbort::spec_from_code(InvalidForceCancelIds) == Some(MoveAbort::InvalidForceCancelIds),
        MoveAbort::spec_from_code(LiquidateNotFirstOperation) == Some(MoveAbort::LiquidateNotFirstOperation),
        MoveAbort::spec_from_code(InvalidCancelOrderIds) == Some(MoveAbort::InvalidCancelOrderIds),
        MoveAbort::spec_from_code(StopOrderTicketExpired) == Some(MoveAbort::StopOrderTicketExpired),
        MoveAbort::spec_from_code(StopOrderConditionsViolated) == Some(MoveAbort::StopOrderConditionsViolated),
        MoveAbort::spec_from_code(WrongOrderDetails) == Some(MoveAbort::WrongOrderDetails),
        MoveAbort::spec_from_code(InvalidBasePriceFeedStorage) == Some(MoveAbort::InvalidBasePriceFeedStorage),
        MoveAbort::spec_from_code(SelfLiquidation) == Some(MoveAbort::SelfLiquidation),
        MoveAbort::spec_from_code(InvalidAccountCap) == Some(MoveAbort::InvalidAccountCap),
        MoveAbort::spec_from_code(InvalidIntegratorTakerFee) == Some(MoveAbort::InvalidIntegratorTakerFee),
        MoveAbort::spec_from_code(WrongVersion) == Some(MoveAbort::WrongVersion),
        MoveAbort::spec_from_code(EmptySession) == Some(MoveAbort::EmptySession),
        MoveAbort::spec_from_code(MarketAlreadyRegistered) == Some(MoveAbort::MarketAlreadyRegistered),
        MoveAbort::spec_from_code(CollateralIsNotRegistered) == Some(MoveAbort::CollateralIsNotRegistered),
        MoveAbort::spec_from_code(MarketIsNotRegistered) == Some(MoveAbort::MarketIsNotRegistered),
        MoveAbort::spec_from_code(InvalidCollateralPriceFeedStorage) == Some(MoveAbort::InvalidCollateralPriceFeedStorage),
        MoveAbort::spec_from_code(NegativeFeesAccrued) == Some(MoveAbort::NegativeFeesAccrued),
        MoveAbort::spec_from_code(InvalidExpirationTimestamp) == Some(MoveAbort::InvalidExpirationTimestamp),
        MoveAbort::spec_from_code(NotEnoughGasForStopOrder) == Some(MoveAbort::NotEnoughGasForStopOrder),
        MoveAbort::spec_from_code(NotEnoughGasForTWAPOrder) == Some(MoveAbort::NotEnoughGasForTWAPOrder),
        MoveAbort::spec_from_code(InvalidAccountForStopOrder) == Some(MoveAbort::InvalidAccountForStopOrder),
        MoveAbort::spec_from_code(InvalidExecutorForStopOrder) == Some(MoveAbort::InvalidExecutorForStopOrder),
        MoveAbort::spec_from_code(MaxOpenInterestSurpassed) == Some(MoveAbort::MaxOpenInterestSurpassed),
        MoveAbort::spec_from_code(MaxOpenInterestPositionPercentSurpassed) == Some(MoveAbort::MaxOpenInterestPositionPercentSurpassed),
        MoveAbort::spec_from_code(NotEnoughCollateralToAllocateForSession) == Some(MoveAbort::NotEnoughCollateralToAllocateForSession),
        MoveAbort::spec_from_code(WrongAccountIdForAllocation) == Some(MoveAbort::WrongAccountIdForAllocation),
        MoveAbort::spec_from_code(IntegratorVaultAlreadyExists) == Some(MoveAbort::IntegratorVaultAlreadyExists),
        MoveAbort::spec_from_code(IntegratorVaultDoesNotExist) == Some(MoveAbort::IntegratorVaultDoesNotExist),
        MoveAbort::spec_from_code(SizeNotMultipleOfLotSize) == Some(MoveAbort::SizeNotMultipleOfLotSize),
        MoveAbort::spec_from_code(PriceNotMultipleOfTickSize) == Some(MoveAbort::PriceNotMultipleOfTickSize),
        MoveAbort::spec_from_code(ADLCounterpartiesMismatch) == Some(MoveAbort::ADLCounterpartiesMismatch),
        MoveAbort::spec_from_code(ADLCounterpartyInsufficient) == Some(MoveAbort::ADLCounterpartyInsufficient),
        MoveAbort::spec_from_code(ADLBadDebtPositionNotClosed) == Some(MoveAbort::ADLBadDebtPositionNotClosed),
        MoveAbort::spec_from_code(ADLWeightsDoNotSumToOne) == Some(MoveAbort::ADLWeightsDoNotSumToOne),
        MoveAbort::spec_from_code(NoOpenInterestToSocializeBadDebt) == Some(MoveAbort::NoOpenInterestToSocializeBadDebt),
        MoveAbort::spec_from_code(BadDebtAboveThreshold) == Some(MoveAbort::BadDebtAboveThreshold),
        MoveAbort::spec_from_code(TWAPOrderTicketExpired) == Some(MoveAbort::TWAPOrderTicketExpired),
        MoveAbort::spec_from_code(TWAPOrderAmountUncertaintyViolated) == Some(MoveAbort::TWAPOrderAmountUncertaintyViolated),
        MoveAbort::spec_from_code(TWAPOrderExecutionGapViolated) == Some(MoveAbort::TWAPOrderExecutionGapViolated),
        MoveAbort::spec_from_code(TWAPOrderFullyExecuted) == Some(MoveAbort::TWAPOrderFullyExecuted),
        MoveAbort::spec_from_code(TWAPOrderExecutedAfterRetryTime) == Some(MoveAbort::TWAPOrderExecutedAfterRetryTime),
        MoveAbort::spec_from_code(TWAPOrderCannotBeFinalized) == Some(MoveAbort::TWAPOrderCannotBeFinalized),
        MoveAbort::spec_from_code(TWAPOrderInvalidAccount) == Some(MoveAbort::TWAPOrderInvalidAccount),
        MoveAbort::spec_from_code(TWAPOrderInvalidExecutor) == Some(MoveAbort::TWAPOrderInvalidExecutor),
        MoveAbort::spec_from_code(TWAPOrderCannotEditExecutingOrder) == Some(MoveAbort::TWAPOrderCannotEditExecutingOrder),
        MoveAbort::spec_from_code(TWAPOrderInvalidGasSplit) == Some(MoveAbort::TWAPOrderInvalidGasSplit),
        MoveAbort::spec_from_code(InvalidMarketParameters) == Some(MoveAbort::InvalidMarketParameters),
        MoveAbort::spec_from_code(UpdatingFundingTooEarly) == Some(MoveAbort::UpdatingFundingTooEarly),
        MoveAbort::spec_from_code(ProposalAlreadyExists) == Some(MoveAbort::ProposalAlreadyExists),
        MoveAbort::spec_from_code(PrematureProposal) == Some(MoveAbort::PrematureProposal),
        MoveAbort::spec_from_code(InvalidProposalDelay) == Some(MoveAbort::InvalidProposalDelay),
        MoveAbort::spec_from_code(ProposalDoesNotExist) == Some(MoveAbort::ProposalDoesNotExist),
        MoveAbort::spec_from_code(NoFeesAccrued) == Some(MoveAbort::NoFeesAccrued),
        MoveAbort::spec_from_code(InsufficientInsuranceSurplus) == Some(MoveAbort::InsufficientInsuranceSurplus),
        MoveAbort::spec_from_code(NoPriceFeedForMarket) == Some(MoveAbort::NoPriceFeedForMarket),
        MoveAbort::spec_from_code(ProposalAlreadyMatured) == Some(MoveAbort::ProposalAlreadyMatured),
        MoveAbort::spec_from_code(MarketIsPaused) == Some(MoveAbort::MarketIsPaused),
        MoveAbort::spec_from_code(MarketIsNotPaused) == Some(MoveAbort::MarketIsNotPaused),
        MoveAbort::spec_from_code(MarketIsNotClosed) == Some(MoveAbort::MarketIsNotClosed),
        MoveAbort::spec_from_code(MarketIsClosed) == Some(MoveAbort::MarketIsClosed),
        MoveAbort::spec_from_code(MaxPendingOrdersExceeded) == Some(MoveAbort::MaxPendingOrdersExceeded),
        MoveAbort::spec_from_code(PositionBelowIMR) == Some(MoveAbort::PositionBelowIMR),
        MoveAbort::spec_from_code(PositionAboveTolerance) == Some(MoveAbort::PositionAboveTolerance),
        MoveAbort::spec_from_code(InitialMarginRequirementViolated) == Some(MoveAbort::InitialMarginRequirementViolated),
        MoveAbort::spec_from_code(PositionAboveMMR) == Some(MoveAbort::PositionAboveMMR),
        MoveAbort::spec_from_code(PositionBadDebt) == Some(MoveAbort::PositionBadDebt),
        MoveAbort::spec_from_code(InsufficientFreeCollateral) == Some(MoveAbort::InsufficientFreeCollateral),
        MoveAbort::spec_from_code(PositionAlreadyExists) == Some(MoveAbort::PositionAlreadyExists),
        MoveAbort::spec_from_code(DeallocateTargetMrTooLow) == Some(MoveAbort::DeallocateTargetMrTooLow),
        MoveAbort::spec_from_code(InvalidPositionIMR) == Some(MoveAbort::InvalidPositionIMR),
        MoveAbort::spec_from_code(InvalidStopOrderType) == Some(MoveAbort::InvalidStopOrderType),
        MoveAbort::spec_from_code(InvalidPositionForSLTP) == Some(MoveAbort::InvalidPositionForSLTP),
        MoveAbort::spec_from_code(InvalidMapParameters) == Some(MoveAbort::InvalidMapParameters),
        MoveAbort::spec_from_code(KeyNotExist) == Some(MoveAbort::KeyNotExist),
        MoveAbort::spec_from_code(KeyAlreadyExists) == Some(MoveAbort::KeyAlreadyExists),
        MoveAbort::spec_from_code(DestroyNotEmpty) == Some(MoveAbort::DestroyNotEmpty),
        MoveAbort::spec_from_code(InvalidUserForOrder) == Some(MoveAbort::InvalidUserForOrder),
        MoveAbort::spec_from_code(FlagRequirementsViolated) == Some(MoveAbort::FlagRequirementsViolated),
        MoveAbort::spec_from_code(NotEnoughLiquidity) == Some(MoveAbort::NotEnoughLiquidity),
        MoveAbort::spec_from_code(MapTooSmall) == Some(MoveAbort::MapTooSmall),
        MoveAbort::spec_from_code(TooManyAssistantsPerAccount) == Some(MoveAbort::TooManyAssistantsPerAccount),
{
}

/// Each abort's name is its identifier as written in the Move errors module.
pub proof fn lemma_name_is_the_identifier()
    ensures
        MoveAbort::DepositOrWithdrawAmountZero.spec_name() == "DepositOrWithdrawAmountZero"@,
        MoveAbort::SizeOrPositionZero.spec_name() == "SizeOrPositionZero"@,
        MoveAbort::BadIndexPrice.spec_name() == "BadIndexPrice"@,
        MoveAbort::InvalidPrice.spec_name() == "InvalidPrice"@,
        MoveAbort::OrderUsdValueTooLow.spec_name() == "OrderUsdValueTooLow"@,
        MoveAbort::InvalidForceCancelIds.spec_name() == "InvalidForceCancelIds"@,
        MoveAbort::LiquidateNotFirstOperation.spec_name() == "LiquidateNotFirstOperation"@,
        MoveAbort::InvalidCancelOrderIds.spec_name() == "InvalidCancelOrderIds"@,
        MoveAbort::StopOrderTicketExpired.spec_name() == "StopOrderTicketExpired"@,
        MoveAbort::StopOrderConditionsViolated.spec_name() == "StopOrderConditionsViolated"@,
        MoveAbort::WrongOrderDetails.spec_name() == "WrongOrderDetails"@,
        MoveAbort::InvalidBasePriceFeedStorage.spec_name() == "InvalidBasePriceFeedStorage"@,
        MoveAbort::SelfLiquidation.spec_name() == "SelfLiquidation"@,
        MoveAbort::InvalidAccountCap.spec_name() == "InvalidAccountCap"@,
        MoveAbort::InvalidIntegratorTakerFee.spec_name() == "InvalidIntegratorTakerFee"@,
        MoveAbort::WrongVersion.spec_name() == "WrongVersion"@,
        MoveAbort::EmptySession.spec_name() == "EmptySession"@,
        MoveAbort::MarketAlreadyRegistered.spec_name() == "MarketAlreadyRegistered"@,
        MoveAbort::CollateralIsNotRegistered.spec_name() == "CollateralIsNotRegistered"@,
        MoveAbort::MarketIsNotRegistered.spec_name() == "MarketIsNotRegistered"@,
        MoveAbort::InvalidCollateralPriceFeedStorage.spec_name() == "InvalidCollateralPriceFeedStorage"@,
        MoveAbort::NegativeFeesAccrued.spec_name() == "NegativeFeesAccrued"@,
        MoveAbort::InvalidExpirationTimestamp.spec_name() == "InvalidExpirationTimestamp"@,
        MoveAbort::NotEnoughGasForStopOrder.spec_name() == "NotEnoughGasForStopOrder"@,
        MoveAbort::NotEnoughGasForTWAPOrder.spec_name() == "NotEnoughGasForTWAPOrder"@,
        MoveAbort::InvalidAccountForStopOrder.spec_name() == "InvalidAccountForStopOrder"@,
        MoveAbort::InvalidExecutorForStopOrder.spec_name() == "InvalidExecutorForStopOrder"@,
        MoveAbort::MaxOpenInterestSurpassed.spec_name() == "MaxOpenInterestSurpassed"@,
        MoveAbort::MaxOpenInterestPositionPercentSurpassed.spec_name() == "MaxOpenInterestPositionPercentSurpassed"@,
        MoveAbort::NotEnoughCollateralToAllocateForSession.spec_name() == "NotEnoughCollateralToAllocateForSession"@,
        MoveAbort::WrongAccountIdForAllocation.spec_name() == "WrongAccountIdForAllocation"@,
        MoveAbort::IntegratorVaultAlreadyExists.spec_name() == "IntegratorVaultAlreadyExists"@,
        MoveAbort::IntegratorVaultDoesNotExist.spec_name() == "IntegratorVaultDoesNotExist"@,
        MoveAbort::SizeNotMultipleOfLotSize.spec_name() == "SizeNotMultipleOfLotSize"@,
        MoveAbort::PriceNotMultipleOfTickSize.spec_name() == "PriceNotMultipleOfTickSize"@,
        MoveAbort::ADLCounterpartiesMismatch.spec_name() == "ADLCounterpartiesMismatch"@,
        MoveAbort::ADLCounterpartyInsufficient.spec_name() == "ADLCounterpartyInsufficient"@,
        MoveAbort::ADLBadDebtPositionNotClosed.spec_name() == "ADLBadDebtPositionNotClosed"@,
        MoveAbort::ADLWeightsDoNotSumToOne.spec_name() == "ADLWeightsDoNotSumToOne"@,
        MoveAbort::NoOpenInterestToSocializeBadDebt.spec_name() == "NoOpenInterestToSocializeBadDebt"@,
        MoveAbort::BadDebtAboveThreshold.spec_name() == "BadDebtAboveThreshold"@,
        MoveAbort::TWAPOrderTicketExpired.spec_name() == "TWAPOrderTicketExpired"@,
        MoveAbort::TWAPOrderAmountUncertaintyViolated.spec_name() == "TWAPOrderAmountUncertaintyViolated"@,
        MoveAbort::TWAPOrderExecutionGapViolated.spec_name() == "TWAPOrderExecutionGapViolated"@,
        MoveAbort::TWAPOrderFullyExecuted.spec_name() == "TWAPOrderFullyExecuted"@,
        MoveAbort::TWAPOrderExecutedAfterRetryTime.spec_name() == "TWAPOrderExecutedAfterRetryTime"@,
        MoveAbort::TWAPOrderCannotBeFinalized.spec_name() == "TWAPOrderCannotBeFinalized"@,
        MoveAbort::TWAPOrderInvalidAccount.spec_name() == "TWAPOrderInvalidAccount"@,
        MoveAbort::TWAPOrderInvalidExecutor.spec_name() == "TWAPOrderInvalidExecutor"@,
        MoveAbort::TWAPOrderCannotEditExecutingOrder.spec_name() == "TWAPOrderCannotEditExecutingOrder"@,
        MoveAbort::TWAPOrderInvalidGasSplit.spec_name() == "TWAPOrderInvalidGasSplit"@,
        MoveAbort::InvalidMarketParameters.spec_name() == "InvalidMarketParameters"@,
        MoveAbort::UpdatingFundingTooEarly.spec_name() == "UpdatingFundingTooEarly"@,
        MoveAbort::ProposalAlreadyExists.spec_name() == "ProposalAlreadyExists"@,
        MoveAbort::PrematureProposal.spec_name() == "PrematureProposal"@,
        MoveAbort::InvalidProposalDelay.spec_name() == "InvalidProposalDelay"@,
        MoveAbort::ProposalDoesNotExist.spec_name() == "ProposalDoesNotExist"@,
        MoveAbort::NoFeesAccrued.spec_name() == "NoFeesAccrued"@,
        MoveAbort::InsufficientInsuranceSurplus.spec_name() == "InsufficientInsuranceSurplus"@,
        MoveAbort::NoPriceFeedForMarket.spec_name() == "NoPriceFeedForMarket"@,
        MoveAbort::ProposalAlreadyMatured.spec_name() == "ProposalAlreadyMatured"@,
        MoveAbort::MarketIsPaused.spec_name() == "MarketIsPaused"@,
        MoveAbort::MarketIsNotPaused.spec_name() == "MarketIsNotPaused"@,
        MoveAbort::MarketIsNotClosed.spec_name() == "MarketIsNotClosed"@,
        MoveAbort::MarketIsClosed.spec_name() == "MarketIsClosed"@,
        MoveAbort::MaxPendingOrdersExceeded.spec_name() == "MaxPendingOrdersExceeded"@,
        MoveAbort::PositionBelowIMR.spec_name() == "PositionBelowIMR"@,
        MoveAbort::PositionAboveTolerance.spec_name() == "PositionAboveTolerance"@,
        MoveAbort::InitialMarginRequirementViolated.spec_name() == "InitialMarginRequirementViolated"@,
        MoveAbort::PositionAboveMMR.spec_name() == "PositionAboveMMR"@,
        MoveAbort::PositionBadDebt.spec_name() == "PositionBadDebt"@,
        MoveAbort::InsufficientFreeCollateral.spec_name() == "InsufficientFreeCollateral"@,
        MoveAbort::PositionAlreadyExists.spec_name() == "PositionAlreadyExists"@,
        MoveAbort::DeallocateTargetMrTooLow.spec_name() == "DeallocateTargetMrTooLow"@,
        MoveAbort::InvalidPositionIMR.spec_name() == "InvalidPositionIMR"@,
        MoveAbort::InvalidStopOrderType.spec_name() == "InvalidStopOrderType"@,
        MoveAbort::InvalidPositionForSLTP.spec_name() == "InvalidPositionForSLTP"@,
        MoveAbort::InvalidMapParameters.spec_name() == "InvalidMapParameters"@,
        MoveAbort::KeyNotExist.spec_name() == "KeyNotExist"@,
        MoveAbort::KeyAlreadyExists.spec_name() == "KeyAlreadyExists"@,
        MoveAbort::DestroyNotEmpty.spec_name() == "DestroyNotEmpty"@,
        MoveAbort::InvalidUserForOrder.spec_name() == "InvalidUserForOrder"@,
        MoveAbort::FlagRequirementsViolated.spec_name() == "FlagRequirementsViolated"@,
        MoveAbort::NotEnoughLiquidity.spec_name() == "NotEnoughLiquidity"@,
        MoveAbort::MapTooSmall.spec_name() == "MapTooSmall"@,
        MoveAbort::TooManyAssistantsPerAccount.spec_name() == "TooManyAssistantsPerAccount"@,
{
}

} // verus!
