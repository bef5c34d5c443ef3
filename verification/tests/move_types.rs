use std::collections::BTreeSet;

use af_iperps::account::{self, AccountCap};
use af_iperps::authority;
use af_iperps::events::{CreatedOrderbook, FilledMakerOrder, FilledMakerOrders};
use af_iperps::keys;
use af_iperps::ordered_map::{Leaf, Pair};
use af_iperps::otw::Otw;
use af_iperps::sui_framework::{Field, Wrapper, ID, UID};
use af_iperps::type_tag::{Address, Identifier, U64TypeTag};
use af_iperps::{
    AdminAccountCap, AssistantCapability, Order, OrderLeafDf, OrderbookDofWrapper, TWAPOrderDetails,
};

fn package() -> Address {
    let mut bytes = [0u8; 32];
    bytes[0] = 0xaf;
    bytes[31] = 9;
    Address::new(bytes)
}

fn uid(n: u8) -> UID {
    let mut bytes = [0u8; 32];
    bytes[31] = n;
    UID { id: ID { bytes: Address::new(bytes) } }
}

#[test]
fn empty_structs_hold_a_false_field() {
    assert!(!account::ADMIN::new().dummy_field);
    assert!(!authority::ASSISTANT::default().dummy_field);
    assert!(!keys::RegistryCollateralInfo::<Otw>::new().dummy_field);
    assert!(!keys::MarketVault::default().dummy_field);
    assert!(!Otw::new().dummy_field);
}

#[test]
fn aliases_name_the_onchain_types() {
    let cap: AdminAccountCap = AccountCap {
        id: uid(1),
        account_obj_id: uid(2).id,
        account_id: 7,
        role: std::marker::PhantomData,
    };
    assert_eq!(cap.account_id, 7);
    let capability: AssistantCapability =
        authority::Capability { id: uid(3), role: std::marker::PhantomData };
    assert_eq!(capability.id, uid(3));
    let wrapper: OrderbookDofWrapper = Field {
        id: uid(4),
        name: Wrapper { name: keys::Orderbook::new() },
        value: uid(5).id,
    };
    assert_eq!(wrapper.value, uid(5).id);
    let order = Order { account_id: 1, size: 10, reduce_only: false, expiration_timestamp_ms: None };
    let leaf: OrderLeafDf = Field {
        id: uid(6),
        name: 0,
        value: Leaf { keys_vals: vec![Pair { key: 5, val: order }], next: 0 },
    };
    assert_eq!(leaf.value.keys_vals[0].val, order);
}

#[test]
fn events_and_details_hold_their_fields() {
    let created = CreatedOrderbook {
        branch_min: 2,
        branches_merge_max: 4,
        branch_max: 8,
        leaf_min: 2,
        leaves_merge_max: 3,
        leaf_max: 4,
    };
    assert_eq!(created.clone(), created);
    let filled = FilledMakerOrders { events: Vec::<FilledMakerOrder>::new() };
    assert!(filled.events.is_empty());
    let details = TWAPOrderDetails {
        clearing_house_id: uid(1).id,
        start_expire_timestamp: Some(1),
        end_expire_timestamp: None,
        execution_gap_ms: 1000,
        execution_time_uncertainty_ms: 10,
        one_execution_amount: 5,
        time_for_retry_ms: 100,
        amount_uncertainty: 1,
        max_one_execution_amount: 6,
        side: true,
        size: 50,
        max_slippage_bps: 30,
        reduce_only: false,
        salt: vec![1, 2, 3],
    };
    assert_eq!(details.salt, vec![1, 2, 3]);
}

#[test]
fn move_instances_carry_their_type() {
    let pkg = package();
    let key = keys::Position { account_id: 3 };
    let instance = key.move_instance(pkg);
    assert_eq!(instance.type_, keys::Position::type_(pkg));
    assert_eq!(instance.value, key);
    let order = Order { account_id: 1, size: 2, reduce_only: true, expiration_timestamp_ms: Some(9) };
    let leaf = Leaf { keys_vals: vec![Pair { key: 1, val: 7u64 }], next: 0 };
    let leaf_instance = leaf.clone().move_instance(pkg, U64TypeTag);
    assert_eq!(leaf_instance.type_.address, pkg);
    assert_eq!(leaf_instance.value, leaf);
    assert_eq!(order.move_instance(pkg).value, order);
    let object = Identifier::new("object").unwrap();
    let id_instance = uid(8).id.move_instance(pkg, object.clone());
    assert_eq!(id_instance.type_.module, object);
}

#[test]
fn typed_tags_are_ordered_and_hashed() {
    let mut low = [0u8; 32];
    low[31] = 1;
    let a = keys::Position::type_(Address::new(low));
    let b = keys::Position::type_(package());
    let set: BTreeSet<_> = [b, a, a].into_iter().collect();
    assert_eq!(set.len(), 2);
    assert_eq!(set.iter().next(), Some(&a));
    let mut hashes = std::collections::HashSet::new();
    hashes.insert(a);
    assert!(hashes.contains(&a));
}
