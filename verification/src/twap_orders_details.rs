//! The details that a TWAP order ticket commits to.
use vstd::prelude::*;

use crate::sui_framework::ID;

verus! {

/// The details to be hashed for the `encrypted_details` argument of
/// `create_twap_order_ticket`.
#[derive(Clone, Debug, PartialEq, Eq)]
pub struct TWAPOrderDetails {
    pub clearing_house_id: ID,
    /// Exclusive deadline for the first valid TWAP execution attempt.
    pub start_expire_timestamp: Option<u64>,
    /// Exclusive deadline for any TWAP execution attempt.
    pub end_expire_timestamp: Option<u64>,
    /// Expected time between two consecutive valid TWAP execution attempts.
    pub execution_gap_ms: u64,
    /// Maximum amount by which a valid attempt may happen earlier than
    /// `execution_gap_ms`.
    pub execution_time_uncertainty_ms: u64,
    /// Target amount for one TWAP execution before uncertainty and remainder
    /// adjustments.
    pub one_execution_amount: u64,
    /// Maximum additional delay after the nominal execution gap before the TWAP
    /// becomes spoiled.
    pub time_for_retry_ms: u64,
    /// Maximum deviation allowed between the caller-requested amount and
    /// `one_execution_amount`.
    pub amount_uncertainty: u64,
    /// Maximum allowed amount for one execution after backlog adjustments.
    pub max_one_execution_amount: u64,
    pub side: bool,
    pub size: u64,
    pub max_slippage_bps: u64,
    pub reduce_only: bool,
    pub salt: Vec<u8>,
}

} // verus!
