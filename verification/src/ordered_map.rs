//! The ordered map in which the orderbook keeps its orders, and its type tags.
use vstd::prelude::*;

use core::marker::PhantomData;

use crate::orderbook::{Order, OrderTypeTag};
use crate::sui_framework::{field_model, FieldTypeTag, UID};
use crate::type_tag::{
    check_struct_header, is_valid_identifier, lemma_type_tags_model, package_struct_model,
    struct_header_error, type_param_error, Address, Identifier, MoveInstance, MoveStructTag,
    MoveType, MoveTypeTag, StructTag, StructTagError, StructTagErrorModel, StructTagModel,
    TypeParamsError, TypeTag, TypeTagModel, U64TypeTag,
};

verus! {

/// Ordered map with `u128` type as a key and `V` type as a value.
#[derive(Debug, PartialEq, Eq)]
pub struct OrderedMap<V> {
    /// Object UID for adding dynamic fields that are used as pointers to nodes.
    pub id: UID,
    /// Number of key-value pairs in the map.
    pub size: u64,
    /// Counter for creating another node as a dynamic field.
    pub counter: u64,
    /// Pointer to the root node, which is a branch or a leaf.
    pub root: u64,
    /// Pointer to first leaf.
    pub first: u64,
    /// Minimal number of kids in a non-root branch;
    /// must satisfy 2 <= branch_min <= branch_max / 2.
    pub branch_min: u64,
    /// Maximal number of kids in a branch, which is merge of two branches;
    /// must satisfy 2 * branch_min <= branches_merge_max <= branch_max.
    pub branches_merge_max: u64,
    /// Maximal number of kids in a branch.
    pub branch_max: u64,
    /// Minimal number of elements in a non-root leaf;
    /// must satisfy 2 <= leaf_min <= (leaf_max + 1) / 2.
    pub leaf_min: u64,
    /// Maximal number of elements in a leaf, which is merge of two leaves;
    /// must satisfy 2 * leaf_min - 1 <= leaves_merge_max <= leaf_max.
    pub leaves_merge_max: u64,
    /// Maximal number of elements in a leaf.
    pub leaf_max: u64,
    /// The type of the values, which the map holds in nodes of its own.
    pub values: PhantomData<V>,
}

/// Branch node with kids and ordered separating keys.
#[derive(Clone, Debug, PartialEq, Eq)]
pub struct Branch {
    /// Separating keys for kids sorted in ascending order.
    pub keys: Vec<u128>,
    /// Kids of the node.
    pub kids: Vec<u64>,
}

/// Key-value pair.
#[derive(Clone, Copy, Debug, PartialEq, Eq)]
pub struct Pair<V> {
    pub key: u128,
    pub val: V,
}

/// Leaf node with ordered key-value pairs.
#[derive(Clone, Debug, PartialEq, Eq)]
pub struct Leaf<V> {
    /// Keys sorted in ascending order together with values.
    pub keys_vals: Vec<Pair<V>>,
    /// Pointer to next leaf.
    pub next: u64,
}

/// The tag of `ordered_map::Leaf<V>`: the address of the package that declares
/// it and the tag of the type of its values.
#[derive(Clone, Copy, Debug, PartialEq, Eq, Hash, PartialOrd, Ord)]
pub struct LeafTypeTag<V> {
    pub address: Address,
    pub v: V,
}

/// The struct tag `address::ordered_map::Leaf<v>`.
pub open spec fn leaf_model(address: Seq<u8>, v: TypeTagModel) -> StructTagModel {
    StructTagModel {
        address,
        module: "ordered_map"@,
        name: "Leaf"@,
        type_params: seq![v],
    }
}

impl<V: MoveTypeTag> MoveStructTag for LeafTypeTag<V> {
    open spec fn struct_model(&self) -> StructTagModel {
        leaf_model(self.address@, self.v.model())
    }

    open spec fn check_struct(tag: StructTagModel) -> Option<StructTagErrorModel> {
        match struct_header_error(tag, None, Some("ordered_map"@), "Leaf"@, 1) {
            Some(e) => Some(e),
            None => match V::check(tag.type_params[0]) {
                Some(e) => Some(type_param_error(e)),
                None => None,
            },
        }
    }

    proof fn lemma_accepts_own_struct_model(&self) {
        self.v.lemma_accepts_own_model();
    }

    fn to_struct_tag(&self) -> (tag: StructTag) {
        proof {
            lemma_static_identifiers();
        }
        let mut type_params: Vec<TypeTag> = Vec::new();
        type_params.push(self.v.to_type_tag());
        let tag = StructTag {
            address: self.address,
            module: Identifier::from_static("ordered_map"),
            name: Identifier::from_static("Leaf"),
            type_params,
        };
        proof {
            lemma_type_tags_model(tag.type_params@);
            assert(tag@.type_params =~= seq![self.v.model()]);
        }
        tag
    }

    fn from_struct_tag(tag: StructTag) -> (result: Result<Self, StructTagError>) {
        proof {
            lemma_static_identifiers();
            lemma_type_tags_model(tag.type_params@);
        }
        let header = check_struct_header(
            &tag,
            None,
            Some(Identifier::from_static("ordered_map")),
            Identifier::from_static("Leaf"),
            1,
        );
        if let Err(e) = header {
            return Err(e);
        }
        let ghost model = tag@;
        let StructTag { address, module: _, name: _, type_params } = tag;
        let mut type_params = type_params;
        let ghost params = type_params@;
        let v_tag = type_params.pop().unwrap();
        assert(v_tag == params[0]);
        let v = match V::from_type_tag(v_tag) {
            Ok(v) => v,
            Err(e) => {
                return Err(StructTagError::TypeParams(TypeParamsError::TypeTag(Box::new(e))));
            },
        };
        let typed = LeafTypeTag { address, v };
        proof {
            assert(typed.struct_model().type_params =~= model.type_params);
        }
        Ok(typed)
    }
}

impl<V: MoveType> MoveType for Leaf<V> {
    type TypeTag = LeafTypeTag<V::TypeTag>;
}

impl<V: MoveType> Leaf<V> {
    /// The tag of `Leaf<V>` in the package at `address`, where `v` is the tag
    /// of `V`.
    pub fn type_(address: Address, v: V::TypeTag) -> (tag: LeafTypeTag<V::TypeTag>)
        ensures
            tag.address == address,
            tag.v == v,
    {
        LeafTypeTag { address, v }
    }

    /// `self`, with its type as declared in the package at `address`, with
    /// values of the type that `v` names.
    pub fn move_instance(self, address: Address, v: V::TypeTag) -> (instance: MoveInstance<
        Leaf<V>,
    >)
        ensures
            instance.type_.address == address,
            instance.type_.v == v,
            instance.value == self,
    {
        MoveInstance { type_: Leaf::<V>::type_(address, v), value: self }
    }
}

impl OrderedMap<Order> {
    /// The type of the dynamic field in which a map of orders keeps a leaf:
    /// `0x2::dynamic_field::Field<u64, package::ordered_map::Leaf<
    /// package::orderbook::Order>>`.
    pub fn leaf_df_type(package: Address) -> (tag: FieldTypeTag<
        U64TypeTag,
        LeafTypeTag<OrderTypeTag>,
    >)
        ensures
            tag.value.address == package,
            tag.value.v.address == package,
            tag.struct_model() == field_model(
                TypeTagModel::U64,
                TypeTagModel::Struct(
                    leaf_model(
                        package@,
                        TypeTagModel::Struct(
                            package_struct_model(package@, "orderbook"@, "Order"@),
                        ),
                    ),
                ),
            ),
    {
        FieldTypeTag {
            name: U64TypeTag,
            value: Leaf::<Order>::type_(package, Order::type_(package)),
        }
    }
}

/// The identifiers that the tags of this module fix are valid.
proof fn lemma_static_identifiers()
    ensures
        is_valid_identifier("ordered_map"@),
        is_valid_identifier("Leaf"@),
{
    reveal_strlit("ordered_map");
    reveal_strlit("Leaf");
}

} // verus!
