//! Accounts of traders, the capabilities that act on them, and integrator configs.
use vstd::prelude::*;

use core::marker::PhantomData;

use crate::ifixed::IFixed;
use crate::sui_framework::{Balance, ID, UID};

verus! {

/// Admin Role
#[derive(Clone, Debug, PartialEq, Eq)]
pub struct ADMIN {
    pub dummy_field: bool,
}

impl ADMIN {
    /// The value; Move gives an empty struct one `false` field.
    pub fn new() -> (value: Self)
        ensures
            !value.dummy_field,
    {
        ADMIN { dummy_field: false }
    }
}

impl Default for ADMIN {
    fn default() -> (value: Self)
        ensures
            !value.dummy_field,
    {
        Self::new()
    }
}

/// Assistant Role
#[derive(Clone, Debug, PartialEq, Eq)]
pub struct ASSISTANT {
    pub dummy_field: bool,
}

impl ASSISTANT {
    /// The value; Move gives an empty struct one `false` field.
    pub fn new() -> (value: Self)
        ensures
            !value.dummy_field,
    {
        ASSISTANT { dummy_field: false }
    }
}

impl Default for ASSISTANT {
    fn default() -> (value: Self)
        ensures
            !value.dummy_field,
    {
        Self::new()
    }
}

/// The AccountCap is used to check ownership of `Account` with the same `account_id`.
#[derive(Debug, PartialEq, Eq)]
pub struct AccountCap<Role> {
    pub id: UID,
    pub account_obj_id: ID,
    /// Numerical value associated to the account
    pub account_id: u64,
    /// The type argument `Role`, which the struct only names.
    pub role: PhantomData<Role>,
}

/// The Account object saves the collateral available to be used in clearing houses.
#[derive(Debug, PartialEq, Eq)]
pub struct Account<T> {
    pub id: UID,
    /// Numerical value associated to the account
    pub account_id: u64,
    /// Balance available to be allocated to markets.
    pub collateral: Balance<T>,
    /// Tracks the `ID`s of all `AccountCap<ASSISTANT>`s that have the authority
    /// to interact with thie `Account`. Appended to in `new_assistant_account_cap`
    /// and reduced in `revoke_assistant_account_cap`.
    pub active_assistants: Vec<ID>,
    /// The type argument `T`, which the struct only names.
    pub t: PhantomData<T>,
}

#[derive(Clone, Debug, PartialEq, Eq)]
pub struct IntegratorConfig {
    /// Max **additional** taker fee the user is willing
    /// to pay for integrator-submitted orders.
    pub max_taker_fee: IFixed,
}

} // verus!
