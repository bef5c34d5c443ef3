//! The orderbook of a market and its orders, with their type tags.
use vstd::prelude::*;

use crate::keys;
use crate::sui_framework::{
    field_model, id_model, wrapper_model, FieldTypeTag, IDTypeTag, WrapperTypeTag, ID, UID,
};
use crate::type_tag::{
    check_package_struct, ident_str_cast, is_valid_identifier, package_struct_model,
    package_struct_tag, small_address, struct_header_error, sui_framework_address, Address,
    MoveInstance, MoveStructTag, MoveType, StructTag, StructTagError, StructTagErrorModel,
    StructTagModel, TypeTagModel,
};

verus! {

/// An order on the orderbook
#[derive(Clone, Copy, Debug, PartialEq, Eq)]
pub struct Order {
    /// User's account id
    pub account_id: u64,
    /// Amount of lots to be filled
    pub size: u64,
    /// Optional reduce-only requirement for this order.
    pub reduce_only: bool,
    /// Optional expiration time for the order
    pub expiration_timestamp_ms: Option<u64>,
}

/// The orderbook doesn't know the types of tokens traded, it assumes a correct
/// management by the clearing house
#[derive(Clone, Copy, Debug, PartialEq, Eq)]
pub struct Orderbook {
    pub id: UID,
    /// Number of limit orders placed on book, monotonically increases
    pub counter: u64,
}

/// The tag of `orderbook::Order`: the address of the package that declares it.
#[derive(Clone, Copy, Debug, PartialEq, Eq, Hash, PartialOrd, Ord)]
pub struct OrderTypeTag {
    pub address: Address,
}

impl MoveStructTag for OrderTypeTag {
    open spec fn struct_model(&self) -> StructTagModel {
        package_struct_model(self.address@, "orderbook"@, "Order"@)
    }

    open spec fn check_struct(tag: StructTagModel) -> Option<StructTagErrorModel> {
        struct_header_error(tag, None, Some("orderbook"@), "Order"@, 0)
    }

    proof fn lemma_accepts_own_struct_model(&self) {
    }

    fn to_struct_tag(&self) -> (tag: StructTag) {
        proof {
            lemma_static_identifiers();
        }
        package_struct_tag(self.address, "orderbook", "Order")
    }

    fn from_struct_tag(tag: StructTag) -> (result: Result<Self, StructTagError>) {
        proof {
            lemma_static_identifiers();
        }
        match check_package_struct(tag, "orderbook", "Order") {
            Ok(address) => Ok(OrderTypeTag { address }),
            Err(e) => Err(e),
        }
    }
}

impl MoveType for Order {
    type TypeTag = OrderTypeTag;
}

impl Order {
    /// The tag of `Order` in the package at `address`.
    pub fn type_(address: Address) -> (tag: OrderTypeTag)
        ensures
            tag.address == address,
    {
        OrderTypeTag { address }
    }

    /// `self`, with its type as declared in the package at `address`.
    pub fn move_instance(self, address: Address) -> (instance: MoveInstance<Order>)
        ensures
            instance.type_.address == address,
            instance.value == self,
    {
        MoveInstance { type_: Order::type_(address), value: self }
    }
}

/// The struct tag `0x2::dynamic_field::Field<0x2::dynamic_object_field::Wrapper<key>,
/// 0x2::object::ID>`: the dynamic object field, named by a key of type `key`,
/// that points to an object by its ID.
pub open spec fn dof_wrapper_model(key: StructTagModel) -> StructTagModel {
    field_model(
        TypeTagModel::Struct(wrapper_model(TypeTagModel::Struct(key))),
        TypeTagModel::Struct(id_model(small_address(2), "object"@)),
    )
}

impl Orderbook {
    /// The type of the dynamic object field of the orderbook that points to
    /// its map of asks: `0x2::dynamic_field::Field<0x2::dynamic_object_field::Wrapper<
    /// package::keys::AsksMap>, 0x2::object::ID>`.
    pub fn asks_dof_wrapper_type(package: Address) -> (tag: FieldTypeTag<
        WrapperTypeTag<keys::AsksMapTypeTag>,
        IDTypeTag,
    >)
        ensures
            tag.name.name.address == package,
            tag.value.address@ == small_address(2),
            tag.value.module@ == "object"@,
            tag.struct_model() == dof_wrapper_model(
                package_struct_model(package@, "keys"@, "AsksMap"@),
            ),
    {
        proof {
            lemma_static_identifiers();
        }
        FieldTypeTag {
            name: WrapperTypeTag { name: keys::AsksMap::type_(package) },
            value: ID::type_(sui_framework_address(), ident_str_cast("object")),
        }
    }

    /// The type of the dynamic object field of the orderbook that points to
    /// its map of bids: `0x2::dynamic_field::Field<0x2::dynamic_object_field::Wrapper<
    /// package::keys::BidsMap>, 0x2::object::ID>`.
    pub fn bids_dof_wrapper_type(package: Address) -> (tag: FieldTypeTag<
        WrapperTypeTag<keys::BidsMapTypeTag>,
        IDTypeTag,
    >)
        ensures
            tag.name.name.address == package,
            tag.value.address@ == small_address(2),
            tag.value.module@ == "object"@,
            tag.struct_model() == dof_wrapper_model(
                package_struct_model(package@, "keys"@, "BidsMap"@),
            ),
    {
        proof {
            lemma_static_identifiers();
        }
        FieldTypeTag {
            name: WrapperTypeTag { name: keys::BidsMap::type_(package) },
            value: ID::type_(sui_framework_address(), ident_str_cast("object")),
        }
    }
}

/// The identifiers that the tags of this module fix are valid.
proof fn lemma_static_identifiers()
    ensures
        is_valid_identifier("orderbook"@),
        is_valid_identifier("Order"@),
        is_valid_identifier("object"@),
{
    reveal_strlit("orderbook");
    reveal_strlit("Order");
    reveal_strlit("object");
}

} // verus!
