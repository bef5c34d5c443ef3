//! Capabilities for the admin and assistant roles of the package.
use vstd::prelude::*;

use core::marker::PhantomData;

use crate::sui_framework::UID;

verus! {

/// Capability object required to perform admin functions.
///
/// Minted once when the module is published and transfered to its creator.
#[derive(Debug, PartialEq, Eq)]
pub struct Capability<Role> {
    pub id: UID,
    /// The type argument `Role`, which the struct only names.
    pub role: PhantomData<Role>,
}

/// Admin Role
#[derive(Clone, Debug, PartialEq, Eq)]
pub struct ADMIN {
    pub dummy_field: bool,
}

impl ADMIN {
    /// The value; Move gives an empty struct one `false` field.
    pub fn new() -> (value: Self)
        ensures
            !value.dummy_field,
    {
        ADMIN { dummy_field: false }
    }
}

impl Default for ADMIN {
    fn default() -> (value: Self)
        ensures
            !value.dummy_field,
    {
        Self::new()
    }
}

/// Assistant Role
#[derive(Clone, Debug, PartialEq, Eq)]
pub struct ASSISTANT {
    pub dummy_field: bool,
}

impl ASSISTANT {
    /// The value; Move gives an empty struct one `false` field.
    pub fn new() -> (value: Self)
        ensures
            !value.dummy_field,
    {
        ASSISTANT { dummy_field: false }
    }
}

impl Default for ASSISTANT {
    fn default() -> (value: Self)
        ensures
            !value.dummy_field,
    {
        Self::new()
    }
}

} // verus!
