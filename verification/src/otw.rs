//! The one-time witness, the type argument that names a coin.
use vstd::prelude::*;

verus! {

/// Generic type signaling a one-time-witness type argument: the collateral
/// type of a market, whatever its package, module and name.
#[derive(Clone, Copy, Debug, PartialEq, Eq, Hash)]
pub struct Otw {
    pub dummy_field: bool,
}

impl Otw {
    /// The witness; Move gives an empty struct one `false` field.
    pub fn new() -> (otw: Otw)
        ensures
            !otw.dummy_field,
    {
        Otw { dummy_field: false }
    }
}

impl Default for Otw {
    fn default() -> (otw: Otw)
        ensures
            !otw.dummy_field,
    {
        Otw::new()
    }
}

} // verus!
