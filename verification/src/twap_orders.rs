//! Tickets of TWAP orders, executed in several parts by a third party.
use vstd::prelude::*;

use core::marker::PhantomData;

use crate::sui_framework::{Balance, SUI, UID};
use crate::type_tag::Address;

verus! {

/// Object that allows off-chain executors to process a TWAP order in multiple
/// executions until it is finalized or canceled.
#[derive(Debug, PartialEq, Eq)]
pub struct TWAPOrderTicket<T> {
    pub id: UID,
    /// Addresses allowed to execute the order on behalf of the user.
    pub executors: Vec<Address>,
    /// Address that funded the ticket gas and must receive unearned execution gas
    /// back.
    pub refund_address: Address,
    /// Gas coin that must be provided by the user to cover the whole TWAP
    /// lifecycle.
    pub gas: Balance<SUI>,
    /// Portion of `gas` reserved for chunk executions.
    pub execution_gas_budget: u64,
    /// Portion of `execution_gas_budget` already paid out.
    pub paid_execution_gas: u64,
    /// Portion of `gas` reserved for delete/finalize.
    pub finalization_gas: u64,
    /// User account id.
    pub account_id: u64,
    /// Hash of the off-chain order details. See `TWAPOrderDetails`.
    pub encrypted_details: Vec<u8>,
    /// Amount of the order that has already been executed.
    pub processed_amount: u64,
    /// Amount of the TWAP target that has already been scheduled into
    /// sub-orders.
    pub scheduled_amount: u64,
    /// Timestamp of the last valid execution attempt.
    pub last_attempt_timestamp_ms: u64,
    /// Timestamp anchoring spoilage checks.
    pub retry_anchor_timestamp_ms: u64,
    /// Timestamp of the last successful fill.
    pub last_execution_timestamp_ms: u64,
    /// The type argument `T`, which the struct only names.
    pub t: PhantomData<T>,
}

} // verus!
