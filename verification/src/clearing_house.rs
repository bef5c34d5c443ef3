//! The clearing house, the object that owns the state of a market, and the
//! types of the dynamic fields it holds.
use vstd::prelude::*;

use core::marker::PhantomData;

use crate::ifixed::IFixed;
use crate::keys;
use crate::market::{MarketParams, MarketState};
use crate::orderbook::dof_wrapper_model;
use crate::position::Position;
use crate::sui_framework::{
    field_model, Balance, FieldTypeTag, IDTypeTag, WrapperTypeTag, ID, UID,
};
use crate::type_tag::{
    ident_str_cast, is_valid_identifier, package_struct_model, small_address,
    sui_framework_address, Address, MoveStructTag, TypeTagModel,
};

verus! {

/// The central object that owns the market state.
///
/// Dynamic fields:
/// - [`crate::position::Position`], one per account
/// - [`Vault`]
///
/// Dynamic objects:
/// - [`crate::orderbook::Orderbook`]
#[derive(Debug, PartialEq, Eq)]
pub struct ClearingHouse<T> {
    pub id: UID,
    pub version: u64,
    pub paused: bool,
    pub market_params: MarketParams,
    pub market_state: MarketState,
    /// The type argument `T`, which the struct only names.
    pub t: PhantomData<T>,
}

impl<T> ClearingHouse<T> {
    /// The type of the dynamic field in which the clearing house keeps the
    /// position of an account: `0x2::dynamic_field::Field<package::keys::Position,
    /// package::position::Position>`.
    pub fn position_df_type(package: Address) -> (tag: FieldTypeTag<
        keys::PositionTypeTag,
        crate::position::PositionTypeTag,
    >)
        ensures
            tag.name.address == package,
            tag.value.address == package,
            tag.struct_model() == field_model(
                TypeTagModel::Struct(package_struct_model(package@, "keys"@, "Position"@)),
                TypeTagModel::Struct(package_struct_model(package@, "position"@, "Position"@)),
            ),
    {
        FieldTypeTag { name: keys::Position::type_(package), value: Position::type_(package) }
    }

    /// The type of the dynamic object field of the clearing house that points
    /// to its orderbook: `0x2::dynamic_field::Field<0x2::dynamic_object_field::Wrapper<
    /// package::keys::Orderbook>, 0x2::object::ID>`.
    pub fn orderbook_dof_wrapper_type(package: Address) -> (tag: FieldTypeTag<
        WrapperTypeTag<keys::OrderbookTypeTag>,
        IDTypeTag,
    >)
        ensures
            tag.name.name.address == package,
            tag.value.address@ == small_address(2),
            tag.value.module@ == "object"@,
            tag.struct_model() == dof_wrapper_model(
                package_struct_model(package@, "keys"@, "Orderbook"@),
            ),
    {
        proof {
            reveal_strlit("object");
            assert(is_valid_identifier("object"@));
        }
        FieldTypeTag {
            name: WrapperTypeTag { name: keys::Orderbook::type_(package) },
            value: ID::type_(sui_framework_address(), ident_str_cast("object")),
        }
    }
}

/// Stores all deposits from traders for collateral T.
/// Stores the funds reserved for covering bad debt from untimely
/// liquidations.
///
/// The Clearing House keeps track of who owns each share of the vault.
#[derive(Debug, PartialEq, Eq)]
pub struct Vault<T> {
    pub collateral_balance: Balance<T>,
    pub insurance_fund_balance: Balance<T>,
    /// The type argument `T`, which the struct only names.
    pub t: PhantomData<T>,
}

/// Stores the proposed parameters for updating margin ratios
#[derive(Clone, Debug, PartialEq, Eq)]
pub struct MarginRatioProposal {
    /// Target timestamp at which to apply the proposed updates
    pub maturity: u64,
    /// Proposed IMR
    pub margin_ratio_initial: IFixed,
    /// Proposed MMR
    pub margin_ratio_maintenance: IFixed,
}

/// Stores the proposed parameters for a position's custom fees
#[derive(Clone, Debug, PartialEq, Eq)]
pub struct PositionFeesProposal {
    /// Proposed IMR
    pub maker_fee: IFixed,
    /// Proposed MMR
    pub taker_fee: IFixed,
}

/// Structure that stores the amount of fees collected by an integrator
#[derive(Clone, Debug, PartialEq, Eq)]
pub struct IntegratorVault {
    /// Amount of fees collected by this integrator, in collateral units
    pub fees: IFixed,
}

#[derive(Clone, Debug, PartialEq, Eq)]
pub struct IntegratorInfo {
    pub integrator_address: Address,
    pub taker_fee: IFixed,
}

/// Stores the proposed parameters for a position's custom fees
#[derive(Clone, Debug, PartialEq, Eq)]
pub struct SettlementPrices {
    /// Base asset's settlement price
    pub base_price: IFixed,
    /// Collateral asset's settlement price
    pub collateral_price: IFixed,
}

/// Used by clearing house to check margin when placing an order
#[derive(Debug, PartialEq, Eq)]
pub struct SessionHotPotato<T> {
    pub clearing_house: ClearingHouse<T>,
    pub orderbook: crate::orderbook::Orderbook,
    pub account_id: u64,
    pub timestamp_ms: u64,
    pub collateral_price: IFixed,
    pub index_price: IFixed,
    pub gas_price: u64,
    pub margin_before: IFixed,
    pub min_margin_before: IFixed,
    pub position_base_before: IFixed,
    pub total_open_interest: IFixed,
    pub total_fees: IFixed,
    pub maker_events: Vec<crate::events::FilledMakerOrder>,
    pub liqee_account_id: Option<u64>,
    pub liquidator_fees: IFixed,
    pub session_summary: SessionSummary,
}

#[derive(Clone, Debug, PartialEq, Eq)]
pub struct SessionSummary {
    pub base_filled_ask: IFixed,
    pub base_filled_bid: IFixed,
    pub quote_filled_ask: IFixed,
    pub quote_filled_bid: IFixed,
    pub base_posted_ask: IFixed,
    pub base_posted_bid: IFixed,
    pub posted_orders: u64,
    pub base_liquidated: IFixed,
    pub quote_liquidated: IFixed,
    pub is_liqee_long: bool,
    pub bad_debt: IFixed,
}

} // verus!
