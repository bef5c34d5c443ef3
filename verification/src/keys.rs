//! Keys of the dynamic fields that the perpetuals objects hold, and their
//! type tags.
use vstd::prelude::*;

use core::marker::PhantomData;

use crate::sui_framework::ID;
use crate::type_tag::{
    check_package_struct, is_valid_identifier, package_struct_model, package_struct_tag,
    struct_header_error, Address, MoveInstance, MoveStructTag, MoveType, StructTag,
    StructTagError, StructTagErrorModel, StructTagModel,
};

verus! {

/// Key type for accessing trader position in clearing house.
#[derive(Clone, Copy, Debug, PartialEq, Eq)]
pub struct Position {
    pub account_id: u64,
}

/// Key type for accessing market params in clearing house.
#[derive(Clone, Copy, Debug, PartialEq, Eq)]
pub struct Orderbook {
    pub dummy_field: bool,
}

/// Key type for accessing asks map in the orderbook
#[derive(Clone, Copy, Debug, PartialEq, Eq)]
pub struct AsksMap {
    pub dummy_field: bool,
}

/// Key type for accessing asks map in the orderbook
#[derive(Clone, Copy, Debug, PartialEq, Eq)]
pub struct BidsMap {
    pub dummy_field: bool,
}

/// Key type for accessing a `MarketInfo` saved in registry.
#[derive(Clone, Debug, PartialEq, Eq)]
pub struct RegistryMarketInfo {
    pub ch_id: ID,
}

/// Key type for accessing a `CollateralInfo` saved in registry.
#[derive(Debug, PartialEq, Eq)]
pub struct RegistryCollateralInfo<T> {
    pub dummy_field: bool,
    /// The type argument `T`, which the struct only names.
    pub t: PhantomData<T>,
}

impl<T> RegistryCollateralInfo<T> {
    /// The value; Move gives an empty struct one `false` field.
    pub fn new() -> (value: Self)
        ensures
            !value.dummy_field,
    {
        RegistryCollateralInfo { dummy_field: false, t: PhantomData }
    }
}

impl<T> Default for RegistryCollateralInfo<T> {
    fn default() -> (value: Self)
        ensures
            !value.dummy_field,
    {
        Self::new()
    }
}

/// Key type for accessing a `Config` saved in registry.
#[derive(Clone, Debug, PartialEq, Eq)]
pub struct RegistryConfig {
    pub dummy_field: bool,
}

impl RegistryConfig {
    /// The value; Move gives an empty struct one `false` field.
    pub fn new() -> (value: Self)
        ensures
            !value.dummy_field,
    {
        RegistryConfig { dummy_field: false }
    }
}

impl Default for RegistryConfig {
    fn default() -> (value: Self)
        ensures
            !value.dummy_field,
    {
        Self::new()
    }
}

/// Key type for accessing integrator configs for an account.
#[derive(Clone, Debug, PartialEq, Eq)]
pub struct IntegratorConfig {
    pub integrator_address: Address,
}

/// Key type for accessing integrator's collected fees.
#[derive(Clone, Debug, PartialEq, Eq)]
pub struct IntegratorVault {
    pub integrator_address: Address,
}

/// Key type for accessing  in clearing house.
#[derive(Clone, Debug, PartialEq, Eq)]
pub struct SettlementPrices {
    pub dummy_field: bool,
}

impl SettlementPrices {
    /// The value; Move gives an empty struct one `false` field.
    pub fn new() -> (value: Self)
        ensures
            !value.dummy_field,
    {
        SettlementPrices { dummy_field: false }
    }
}

impl Default for SettlementPrices {
    fn default() -> (value: Self)
        ensures
            !value.dummy_field,
    {
        Self::new()
    }
}

/// Key type for accessing vault in clearing house.
#[derive(Clone, Debug, PartialEq, Eq)]
pub struct MarketVault {
    pub dummy_field: bool,
}

impl MarketVault {
    /// The value; Move gives an empty struct one `false` field.
    pub fn new() -> (value: Self)
        ensures
            !value.dummy_field,
    {
        MarketVault { dummy_field: false }
    }
}

impl Default for MarketVault {
    fn default() -> (value: Self)
        ensures
            !value.dummy_field,
    {
        Self::new()
    }
}

/// Key type for accessing market margin parameters change proposal in clearing house.
#[derive(Clone, Debug, PartialEq, Eq)]
pub struct MarginRatioProposal {
    pub dummy_field: bool,
}

impl MarginRatioProposal {
    /// The value; Move gives an empty struct one `false` field.
    pub fn new() -> (value: Self)
        ensures
            !value.dummy_field,
    {
        MarginRatioProposal { dummy_field: false }
    }
}

impl Default for MarginRatioProposal {
    fn default() -> (value: Self)
        ensures
            !value.dummy_field,
    {
        Self::new()
    }
}

/// Key type for accessing custom fees parameters change proposal for an account
#[derive(Clone, Debug, PartialEq, Eq)]
pub struct PositionFeesProposal {
    pub account_id: u64,
}

impl Orderbook {
    /// The key; Move gives an empty struct one `false` field.
    pub fn new() -> (key: Orderbook)
        ensures
            !key.dummy_field,
    {
        Orderbook { dummy_field: false }
    }
}

impl Default for Orderbook {
    fn default() -> (key: Orderbook)
        ensures
            !key.dummy_field,
    {
        Orderbook::new()
    }
}

impl AsksMap {
    /// The key; Move gives an empty struct one `false` field.
    pub fn new() -> (key: AsksMap)
        ensures
            !key.dummy_field,
    {
        AsksMap { dummy_field: false }
    }
}

impl Default for AsksMap {
    fn default() -> (key: AsksMap)
        ensures
            !key.dummy_field,
    {
        AsksMap::new()
    }
}

impl BidsMap {
    /// The key; Move gives an empty struct one `false` field.
    pub fn new() -> (key: BidsMap)
        ensures
            !key.dummy_field,
    {
        BidsMap { dummy_field: false }
    }
}

impl Default for BidsMap {
    fn default() -> (key: BidsMap)
        ensures
            !key.dummy_field,
    {
        BidsMap::new()
    }
}

/// The tag of `keys::Position`: the address of the package that declares it.
#[derive(Clone, Copy, Debug, PartialEq, Eq, Hash, PartialOrd, Ord)]
pub struct PositionTypeTag {
    pub address: Address,
}

impl MoveStructTag for PositionTypeTag {
    open spec fn struct_model(&self) -> StructTagModel {
        package_struct_model(self.address@, "keys"@, "Position"@)
    }

    open spec fn check_struct(tag: StructTagModel) -> Option<StructTagErrorModel> {
        struct_header_error(tag, None, Some("keys"@), "Position"@, 0)
    }

    proof fn lemma_accepts_own_struct_model(&self) {
    }

    fn to_struct_tag(&self) -> (tag: StructTag) {
        proof {
            lemma_static_identifiers();
        }
        package_struct_tag(self.address, "keys", "Position")
    }

    fn from_struct_tag(tag: StructTag) -> (result: Result<Self, StructTagError>) {
        proof {
            lemma_static_identifiers();
        }
        match check_package_struct(tag, "keys", "Position") {
            Ok(address) => Ok(PositionTypeTag { address }),
            Err(e) => Err(e),
        }
    }
}

impl MoveType for Position {
    type TypeTag = PositionTypeTag;
}

impl Position {
    /// The tag of `Position` in the package at `address`.
    pub fn type_(address: Address) -> (tag: PositionTypeTag)
        ensures
            tag.address == address,
    {
        PositionTypeTag { address }
    }

    /// `self`, with its type as declared in the package at `address`.
    pub fn move_instance(self, address: Address) -> (instance: MoveInstance<Position>)
        ensures
            instance.type_.address == address,
            instance.value == self,
    {
        MoveInstance { type_: Position::type_(address), value: self }
    }
}

/// The tag of `keys::Orderbook`: the address of the package that declares it.
#[derive(Clone, Copy, Debug, PartialEq, Eq, Hash, PartialOrd, Ord)]
pub struct OrderbookTypeTag {
    pub address: Address,
}

impl MoveStructTag for OrderbookTypeTag {
    open spec fn struct_model(&self) -> StructTagModel {
        package_struct_model(self.address@, "keys"@, "Orderbook"@)
    }

    open spec fn check_struct(tag: StructTagModel) -> Option<StructTagErrorModel> {
        struct_header_error(tag, None, Some("keys"@), "Orderbook"@, 0)
    }

    proof fn lemma_accepts_own_struct_model(&self) {
    }

    fn to_struct_tag(&self) -> (tag: StructTag) {
        proof {
            lemma_static_identifiers();
        }
        package_struct_tag(self.address, "keys", "Orderbook")
    }

    fn from_struct_tag(tag: StructTag) -> (result: Result<Self, StructTagError>) {
        proof {
            lemma_static_identifiers();
        }
        match check_package_struct(tag, "keys", "Orderbook") {
            Ok(address) => Ok(OrderbookTypeTag { address }),
            Err(e) => Err(e),
        }
    }
}

impl MoveType for Orderbook {
    type TypeTag = OrderbookTypeTag;
}

impl Orderbook {
    /// The tag of `Orderbook` in the package at `address`.
    pub fn type_(address: Address) -> (tag: OrderbookTypeTag)
        ensures
            tag.address == address,
    {
        OrderbookTypeTag { address }
    }

    /// `self`, with its type as declared in the package at `address`.
    pub fn move_instance(self, address: Address) -> (instance: MoveInstance<Orderbook>)
        ensures
            instance.type_.address == address,
            instance.value == self,
    {
        MoveInstance { type_: Orderbook::type_(address), value: self }
    }
}

/// The tag of `keys::AsksMap`: the address of the package that declares it.
#[derive(Clone, Copy, Debug, PartialEq, Eq, Hash, PartialOrd, Ord)]
pub struct AsksMapTypeTag {
    pub address: Address,
}

impl MoveStructTag for AsksMapTypeTag {
    open spec fn struct_model(&self) -> StructTagModel {
        package_struct_model(self.address@, "keys"@, "AsksMap"@)
    }

    open spec fn check_struct(tag: StructTagModel) -> Option<StructTagErrorModel> {
        struct_header_error(tag, None, Some("keys"@), "AsksMap"@, 0)
    }

    proof fn lemma_accepts_own_struct_model(&self) {
    }

    fn to_struct_tag(&self) -> (tag: StructTag) {
        proof {
            lemma_static_identifiers();
        }
        package_struct_tag(self.address, "keys", "AsksMap")
    }

    fn from_struct_tag(tag: StructTag) -> (result: Result<Self, StructTagError>) {
        proof {
            lemma_static_identifiers();
        }
        match check_package_struct(tag, "keys", "AsksMap") {
            Ok(address) => Ok(AsksMapTypeTag { address }),
            Err(e) => Err(e),
        }
    }
}

impl MoveType for AsksMap {
    type TypeTag = AsksMapTypeTag;
}

impl AsksMap {
    /// The tag of `AsksMap` in the package at `address`.
    pub fn type_(address: Address) -> (tag: AsksMapTypeTag)
        ensures
            tag.address == address,
    {
        AsksMapTypeTag { address }
    }

    /// `self`, with its type as declared in the package at `address`.
    pub fn move_instance(self, address: Address) -> (instance: MoveInstance<AsksMap>)
        ensures
            instance.type_.address == address,
            instance.value == self,
    {
        MoveInstance { type_: AsksMap::type_(address), value: self }
    }
}

/// The tag of `keys::BidsMap`: the address of the package that declares it.
#[derive(Clone, Copy, Debug, PartialEq, Eq, Hash, PartialOrd, Ord)]
pub struct BidsMapTypeTag {
    pub address: Address,
}

impl MoveStructTag for BidsMapTypeTag {
    open spec fn struct_model(&self) -> StructTagModel {
        package_struct_model(self.address@, "keys"@, "BidsMap"@)
    }

    open spec fn check_struct(tag: StructTagModel) -> Option<StructTagErrorModel> {
        struct_header_error(tag, None, Some("keys"@), "BidsMap"@, 0)
    }

    proof fn lemma_accepts_own_struct_model(&self) {
    }

    fn to_struct_tag(&self) -> (tag: StructTag) {
        proof {
            lemma_static_identifiers();
        }
        package_struct_tag(self.address, "keys", "BidsMap")
    }

    fn from_struct_tag(tag: StructTag) -> (result: Result<Self, StructTagError>) {
        proof {
            lemma_static_identifiers();
        }
        match check_package_struct(tag, "keys", "BidsMap") {
            Ok(address) => Ok(BidsMapTypeTag { address }),
            Err(e) => Err(e),
        }
    }
}

impl MoveType for BidsMap {
    type TypeTag = BidsMapTypeTag;
}

impl BidsMap {
    /// The tag of `BidsMap` in the package at `address`.
    pub fn type_(address: Address) -> (tag: BidsMapTypeTag)
        ensures
            tag.address == address,
    {
        BidsMapTypeTag { address }
    }

    /// `self`, with its type as declared in the package at `address`.
    pub fn move_instance(self, address: Address) -> (instance: MoveInstance<BidsMap>)
        ensures
            instance.type_.address == address,
            instance.value == self,
    {
        MoveInstance { type_: BidsMap::type_(address), value: self }
    }
}

/// The identifiers that the tags of this module fix are valid.
proof fn lemma_static_identifiers()
    ensures
        is_valid_identifier("keys"@),
        is_valid_identifier("Position"@),
        is_valid_identifier("Orderbook"@),
        is_valid_identifier("AsksMap"@),
        is_valid_identifier("BidsMap"@),
{
    reveal_strlit("keys");
    reveal_strlit("Position");
    reveal_strlit("Orderbook");
    reveal_strlit("AsksMap");
    reveal_strlit("BidsMap");
}

} // verus!
