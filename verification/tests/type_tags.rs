use af_iperps::keys;
use af_iperps::orderbook::{Orderbook, OrderTypeTag};
use af_iperps::ordered_map::{Leaf, LeafTypeTag, OrderedMap};
use af_iperps::position::PositionTypeTag;
use af_iperps::sui_framework::{FieldTypeTag, IDTypeTag, WrapperTypeTag};
use af_iperps::type_tag::{
    Address, Identifier, InvalidIdentifierError, MoveStructTag, MoveTypeTag, StructTag,
    StructTagError, TypeParamsError, TypeTag, TypeTagError, U64TypeTag,
};
use af_iperps::{ClearingHouse, Order};

fn package() -> Address {
    let mut bytes = [0u8; 32];
    for (i, b) in bytes.iter_mut().enumerate() {
        *b = (i as u8) * 7 + 1;
    }
    Address::new(bytes)
}

fn framework() -> Address {
    let mut bytes = [0u8; 32];
    bytes[31] = 2;
    Address::new(bytes)
}

fn ident(s: &str) -> Identifier {
    Identifier::new(s).unwrap()
}

fn stag(address: Address, module: &str, name: &str, type_params: Vec<TypeTag>) -> StructTag {
    StructTag { address, module: ident(module), name: ident(name), type_params }
}

fn struct_type(s: StructTag) -> TypeTag {
    TypeTag::Struct(Box::new(s))
}

#[test]
fn identifiers_follow_the_move_grammar() {
    for ok in ["a", "Field", "dynamic_field", "_a", "__", "___", "x1_2", "A"] {
        assert_eq!(Identifier::new(ok).unwrap().as_str(), ok);
    }
    for bad in ["", "_", "1abc", "a-b", "a b", "é", "<SELF>", "a::b"] {
        assert_eq!(Identifier::new(bad), Err(InvalidIdentifierError(bad.to_string())));
    }
    let longest = "a".repeat(128);
    assert!(Identifier::new(&longest).is_ok());
    let too_long = "a".repeat(129);
    assert!(Identifier::new(&too_long).is_err());
}

#[test]
fn position_df_type_names_the_position_field() {
    let pkg = package();
    let tag = ClearingHouse::position_df_type(pkg);
    assert_eq!(tag.name, keys::PositionTypeTag { address: pkg });
    assert_eq!(tag.value, PositionTypeTag { address: pkg });
    let expected = stag(
        framework(),
        "dynamic_field",
        "Field",
        vec![
            struct_type(stag(pkg, "keys", "Position", vec![])),
            struct_type(stag(pkg, "position", "Position", vec![])),
        ],
    );
    assert_eq!(tag.to_struct_tag(), expected);
}

#[test]
fn orderbook_dof_wrapper_type_names_the_orderbook_field() {
    let pkg = package();
    let tag = ClearingHouse::orderbook_dof_wrapper_type(pkg);
    assert_eq!(tag.name.name, keys::OrderbookTypeTag { address: pkg });
    assert_eq!(tag.value.address, framework());
    assert_eq!(tag.value.module.as_str(), "object");
    let expected = stag(
        framework(),
        "dynamic_field",
        "Field",
        vec![
            struct_type(stag(
                framework(),
                "dynamic_object_field",
                "Wrapper",
                vec![struct_type(stag(pkg, "keys", "Orderbook", vec![]))],
            )),
            struct_type(stag(framework(), "object", "ID", vec![])),
        ],
    );
    assert_eq!(tag.to_struct_tag(), expected);
}

#[test]
fn asks_and_bids_dof_wrapper_types() {
    let pkg = package();
    let asks = Orderbook::asks_dof_wrapper_type(pkg).to_struct_tag();
    let bids = Orderbook::bids_dof_wrapper_type(pkg).to_struct_tag();
    let wrapper = |key: &str| {
        stag(
            framework(),
            "dynamic_field",
            "Field",
            vec![
                struct_type(stag(
                    framework(),
                    "dynamic_object_field",
                    "Wrapper",
                    vec![struct_type(stag(pkg, "keys", key, vec![]))],
                )),
                struct_type(stag(framework(), "object", "ID", vec![])),
            ],
        )
    };
    assert_eq!(asks, wrapper("AsksMap"));
    assert_eq!(bids, wrapper("BidsMap"));
    assert_ne!(asks, bids);
}

#[test]
fn leaf_df_type_names_the_leaf_field() {
    let pkg = package();
    let tag = OrderedMap::<Order>::leaf_df_type(pkg);
    assert_eq!(tag.value, LeafTypeTag { address: pkg, v: OrderTypeTag { address: pkg } });
    let expected = stag(
        framework(),
        "dynamic_field",
        "Field",
        vec![
            TypeTag::U64,
            struct_type(stag(
                pkg,
                "ordered_map",
                "Leaf",
                vec![struct_type(stag(pkg, "orderbook", "Order", vec![]))],
            )),
        ],
    );
    assert_eq!(tag.to_struct_tag(), expected);
    assert_eq!(tag.to_type_tag(), struct_type(expected));
}

#[test]
fn typed_tags_convert_back() {
    let pkg = package();
    let tag = ClearingHouse::position_df_type(pkg);
    let back = FieldTypeTag::<keys::PositionTypeTag, PositionTypeTag>::from_struct_tag(
        tag.to_struct_tag(),
    )
    .unwrap();
    assert_eq!(back.name, tag.name);
    assert_eq!(back.value, tag.value);

    let leaf = OrderedMap::<Order>::leaf_df_type(pkg);
    let back = FieldTypeTag::<U64TypeTag, LeafTypeTag<OrderTypeTag>>::from_type_tag(
        leaf.to_type_tag(),
    )
    .unwrap();
    assert_eq!(back.value, leaf.value);

    let dof = Orderbook::asks_dof_wrapper_type(pkg);
    let back = FieldTypeTag::<WrapperTypeTag<keys::AsksMapTypeTag>, IDTypeTag>::from_struct_tag(
        dof.to_struct_tag(),
    )
    .unwrap();
    assert_eq!(back.name.name, dof.name.name);
    assert_eq!(back.value.address, dof.value.address);
    assert_eq!(back.value.module, dof.value.module);
}

#[test]
fn wrong_module_name_and_count_are_reported_in_order() {
    let pkg = package();
    // Wrong module comes before wrong name.
    let err = keys::PositionTypeTag::from_struct_tag(stag(pkg, "position", "Vault", vec![]))
        .unwrap_err();
    assert_eq!(err, StructTagError::Module { expected: ident("keys"), got: ident("position") });
    let err = keys::PositionTypeTag::from_struct_tag(stag(pkg, "keys", "Vault", vec![]))
        .unwrap_err();
    assert_eq!(err, StructTagError::Name { expected: ident("Position"), got: ident("Vault") });
    let with_param = stag(pkg, "keys", "Position", vec![TypeTag::U8]);
    let err = keys::PositionTypeTag::from_struct_tag(with_param).unwrap_err();
    assert_eq!(err, StructTagError::TypeParams(TypeParamsError::Number { expected: 0, got: 1 }));
    // Any package address is accepted for a perpetuals struct.
    let ok = keys::PositionTypeTag::from_struct_tag(stag(framework(), "keys", "Position", vec![]))
        .unwrap();
    assert_eq!(ok.address, framework());
}

#[test]
fn framework_structs_check_their_address() {
    let pkg = package();
    let field = stag(pkg, "dynamic_field", "Field", vec![TypeTag::U64, TypeTag::U64]);
    let err = FieldTypeTag::<U64TypeTag, U64TypeTag>::from_struct_tag(field).unwrap_err();
    assert_eq!(err, StructTagError::Address { expected: framework(), got: pkg });
}

#[test]
fn the_last_type_argument_is_checked_first() {
    let both_wrong = stag(framework(), "dynamic_field", "Field", vec![TypeTag::Bool, TypeTag::U8]);
    let err = FieldTypeTag::<U64TypeTag, U64TypeTag>::from_struct_tag(both_wrong).unwrap_err();
    assert_eq!(
        err,
        StructTagError::TypeParams(TypeParamsError::TypeTag(Box::new(TypeTagError::Variant {
            expected: "U64".to_string(),
            got: TypeTag::U8,
        })))
    );
    let name_wrong = stag(framework(), "dynamic_field", "Field", vec![TypeTag::Bool, TypeTag::U64]);
    let err = FieldTypeTag::<U64TypeTag, U64TypeTag>::from_struct_tag(name_wrong).unwrap_err();
    assert_eq!(
        err,
        StructTagError::TypeParams(TypeParamsError::TypeTag(Box::new(TypeTagError::Variant {
            expected: "U64".to_string(),
            got: TypeTag::Bool,
        })))
    );
}

#[test]
fn a_struct_is_expected_where_a_struct_tag_is_typed() {
    let err = keys::PositionTypeTag::from_type_tag(TypeTag::Address).unwrap_err();
    assert_eq!(
        err,
        TypeTagError::Variant { expected: "Struct(_)".to_string(), got: TypeTag::Address }
    );
    let pkg = package();
    let orderbook_key = struct_type(stag(pkg, "keys", "Orderbook", vec![]));
    let err = keys::PositionTypeTag::from_type_tag(orderbook_key).unwrap_err();
    assert_eq!(
        err,
        TypeTagError::StructTag(StructTagError::Name {
            expected: ident("Position"),
            got: ident("Orderbook"),
        })
    );
}

#[test]
fn nested_type_argument_errors_are_wrapped() {
    let pkg = package();
    let leaf = stag(
        pkg,
        "ordered_map",
        "Leaf",
        vec![struct_type(stag(pkg, "orderbook", "Orderbook", vec![]))],
    );
    let err = LeafTypeTag::<OrderTypeTag>::from_struct_tag(leaf).unwrap_err();
    assert_eq!(
        err,
        StructTagError::TypeParams(TypeParamsError::TypeTag(Box::new(TypeTagError::StructTag(
            StructTagError::Name { expected: ident("Order"), got: ident("Orderbook") }
        ))))
    );
}

#[test]
fn id_tag_keeps_address_and_module() {
    let pkg = package();
    let tag = IDTypeTag::from_struct_tag(stag(pkg, "custom", "ID", vec![])).unwrap();
    assert_eq!(tag.address, pkg);
    assert_eq!(tag.module.as_str(), "custom");
    assert_eq!(tag.to_struct_tag(), stag(pkg, "custom", "ID", vec![]));
}

#[test]
fn addresses_compare_by_bytes() {
    let a = package();
    let mut bytes = a.bytes;
    assert!(a.same_as(&Address::new(bytes)));
    bytes[31] ^= 1;
    assert!(!a.same_as(&Address::new(bytes)));
    assert_ne!(a, Address::new(bytes));
}

#[test]
fn empty_keys_hold_a_false_field() {
    assert!(!keys::Orderbook::new().dummy_field);
    assert!(!keys::AsksMap::default().dummy_field);
    assert!(!keys::BidsMap::new().dummy_field);
}

#[test]
fn tags_clone_to_equal_tags() {
    let tag = OrderedMap::<Order>::leaf_df_type(package()).to_type_tag();
    let copy = tag.clone();
    assert_eq!(copy, tag);
    let vector = TypeTag::Vector(Box::new(tag));
    assert_eq!(vector.clone(), vector);
}

#[test]
fn leaf_type_takes_the_tag_of_its_values() {
    let pkg = package();
    let tag = Leaf::<Order>::type_(pkg, Order::type_(pkg));
    assert_eq!(tag, LeafTypeTag { address: pkg, v: OrderTypeTag { address: pkg } });
    let u64_leaf = Leaf::<u64>::type_(pkg, U64TypeTag);
    assert_eq!(
        u64_leaf.to_struct_tag(),
        stag(pkg, "ordered_map", "Leaf", vec![TypeTag::U64])
    );
}
