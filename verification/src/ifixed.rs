//! The signed fixed-point numbers that the perpetuals package stores.
use vstd::prelude::*;

verus! {

/// A signed fixed-point number with 18 decimals, as the Move `u256` that
/// holds it onchain: its 32 bytes, least significant first, in two's
/// complement. The Move types here carry it without computing with it.
#[derive(Clone, Copy, Debug, PartialEq, Eq, Hash)]
pub struct IFixed {
    pub bytes: [u8; 32],
}

} // verus!
