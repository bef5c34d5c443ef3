//! A trader's position in a perpetuals market, and its type tag.
use vstd::prelude::*;

use crate::ifixed::IFixed;

use crate::type_tag::{
    check_package_struct, is_valid_identifier, package_struct_model, package_struct_tag,
    struct_header_error, Address, MoveInstance, MoveStructTag, MoveType, StructTag,
    StructTagError, StructTagErrorModel, StructTagModel,
};

verus! {

/// Stores information about an open position
#[derive(Clone, Copy, Debug, PartialEq, Eq)]
pub struct Position {
    /// Amount of allocated tokens (e.g., USD stables) backing this account's position.
    pub collateral: IFixed,
    /// The perpetual contract size, controlling the amount of exposure to
    /// the underlying asset. Positive implies long position and negative,
    /// short. Represented as a signed fixed-point number.
    pub base_asset_amount: IFixed,
    /// The entry value for this position, including leverage. Represented
    /// as a signed fixed-point number.
    pub quote_asset_notional_amount: IFixed,
    /// Last long cumulative funding rate used to update this position. The
    /// market's latest long cumulative funding rate minus this gives the funding
    /// rate this position must pay. This rate multiplied by this position's
    /// value (base asset amount * market price) gives the total funding
    /// owed, which is deducted from the trader account's margin. This debt
    /// is accounted for in margin ratio calculations, which may lead to
    /// liquidation. Represented as a signed fixed-point number.
    pub cum_funding_rate_long: IFixed,
    /// Last short cumulative funding rate used to update this position. The
    /// market's latest short cumulative funding rate minus this gives the funding
    /// rate this position must pay. This rate multiplied by this position's
    /// value (base asset amount * market price) gives the total funding
    /// owed, which is deducted from the trader account's margin. This debt
    /// is accounted for in margin ratio calculations, which may lead to
    /// liquidation. Represented as a signed fixed-point number.
    pub cum_funding_rate_short: IFixed,
    /// Base asset amount resting in ask orders in the orderbook.
    /// Represented as a signed fixed-point number.
    pub asks_quantity: IFixed,
    /// Base asset amount resting in bid orders in the orderbook.
    /// Represented as a signed fixed-point number.
    pub bids_quantity: IFixed,
    /// Number of pending orders in this position.
    pub pending_orders: u64,
    /// Custom maker fee for this position, set at default value of 100%
    pub maker_fee: IFixed,
    /// Custom taker fee for this position, set at default value of 100%
    pub taker_fee: IFixed,
    /// Initial Margin Ratio set by user for the position. Must always be less
    /// or equal than market's IMR. Used as a desired reference margin ratio when
    /// managing collateral in the position during all the actions. Can be changed
    /// by the user at any moment (between the allowed limits).
    pub initial_margin_ratio: IFixed,
}

/// The tag of `position::Position`: the address of the package that declares it.
#[derive(Clone, Copy, Debug, PartialEq, Eq, Hash, PartialOrd, Ord)]
pub struct PositionTypeTag {
    pub address: Address,
}

impl MoveStructTag for PositionTypeTag {
    open spec fn struct_model(&self) -> StructTagModel {
        package_struct_model(self.address@, "position"@, "Position"@)
    }

    open spec fn check_struct(tag: StructTagModel) -> Option<StructTagErrorModel> {
        struct_header_error(tag, None, Some("position"@), "Position"@, 0)
    }

    proof fn lemma_accepts_own_struct_model(&self) {
    }

    fn to_struct_tag(&self) -> (tag: StructTag) {
        proof {
            lemma_static_identifiers();
        }
        package_struct_tag(self.address, "position", "Position")
    }

    fn from_struct_tag(tag: StructTag) -> (result: Result<Self, StructTagError>) {
        proof {
            lemma_static_identifiers();
        }
        match check_package_struct(tag, "position", "Position") {
            Ok(address) => Ok(PositionTypeTag { address }),
            Err(e) => Err(e),
        }
    }
}

impl MoveType for Position {
    type TypeTag = PositionTypeTag;
}

impl Position {
    /// The tag of `Position` in the package at `address`.
    pub fn type_(address: Address) -> (tag: PositionTypeTag)
        ensures
            tag.address == address,
    {
        PositionTypeTag { address }
    }

    /// `self`, with its type as declared in the package at `address`.
    pub fn move_instance(self, address: Address) -> (instance: MoveInstance<Position>)
        ensures
            instance.type_.address == address,
            instance.value == self,
    {
        MoveInstance { type_: Position::type_(address), value: self }
    }
}

/// The identifiers that the tags of this module fix are valid.
proof fn lemma_static_identifiers()
    ensures
        is_valid_identifier("position"@),
        is_valid_identifier("Position"@),
{
    reveal_strlit("position");
    reveal_strlit("Position");
}

} // verus!
