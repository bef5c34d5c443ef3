//! Move types and abort codes of Aftermath's perpetuals package.
//!
//! The modules mirror the Move modules of the package and hold its structs as
//! plain data. The structs that name
//! dynamic fields of the clearing house, the orderbook and its ordered maps
//! have typed tags that convert to and from the dynamic
//! [`type_tag::StructTag`] of the struct; the functions `position_df_type`,
//! `orderbook_dof_wrapper_type`, `asks_dof_wrapper_type`,
//! `bids_dof_wrapper_type` and `leaf_df_type` build the types of those fields.
//! [`errors`] lists the abort codes of the package.
pub mod account;
pub mod authority;
pub mod clearing_house;
pub mod errors;
pub mod events;
pub mod ifixed;
pub mod keys;
pub mod market;
pub mod orderbook;
pub mod ordered_map;
pub mod otw;
pub mod position;
pub mod registry;
pub mod stop_orders;
pub mod sui_framework;
pub mod twap_orders;
pub mod twap_orders_details;
pub mod type_tag;

pub use self::market::{MarketParams, MarketState};
pub use self::orderbook::Order;
pub use self::position::Position;
pub use self::twap_orders_details::TWAPOrderDetails;

use vstd::prelude::*;

use crate::otw::Otw;
use crate::sui_framework::{Field, Wrapper, ID};

verus! {

// These types never exist onchain with a type argument other than a
// one-time witness.
pub type AdminCapability = authority::Capability<authority::ADMIN>;

pub type AssistantCapability = authority::Capability<authority::ASSISTANT>;

pub type AdminAccountCap = account::AccountCap<account::ADMIN>;

pub type AssistantAccountCap = account::AccountCap<account::ASSISTANT>;

pub type Account = account::Account<Otw>;

pub type StopOrderTicket = stop_orders::StopOrderTicket<Otw>;

pub type TWAPOrderTicket = twap_orders::TWAPOrderTicket<Otw>;

pub type ClearingHouse = clearing_house::ClearingHouse<Otw>;

pub type Vault = clearing_house::Vault<Otw>;

pub type MarketInfo = registry::MarketInfo<Otw>;

pub type CollateralInfo = registry::CollateralInfo<Otw>;

/// Dynamic field storing a [`Vault`].
pub type VaultDf = Field<keys::MarketVault, Vault>;

/// Dynamic field storing a [`Position`].
pub type PositionDf = Field<keys::Position, Position>;

/// Dynamic field storing a leaf of an ordered map of [`Order`]s.
pub type OrderLeafDf = Field<u64, ordered_map::Leaf<Order>>;

/// Dynamic object field wrapper for the [`orderbook::Orderbook`] ID.
pub type OrderbookDofWrapper = Field<Wrapper<keys::Orderbook>, ID>;

/// Dynamic object field wrapper for the asks map ID.
pub type AsksMapDofWrapper = Field<Wrapper<keys::AsksMap>, ID>;

/// Dynamic object field wrapper for the bids map ID.
pub type BidsMapDofWrapper = Field<Wrapper<keys::BidsMap>, ID>;

/// Dynamic field storing a [`MarketInfo`].
pub type MarketInfoDf = Field<keys::RegistryMarketInfo, MarketInfo>;

/// Dynamic field storing a [`CollateralInfo`].
pub type CollateralInfoDf = Field<keys::RegistryCollateralInfo<Otw>, CollateralInfo>;

} // verus!
