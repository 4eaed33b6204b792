use lootbox::{
    ensure_signed, AccountId, AssetData, AssetType, ClassData, CollectionType, Counter, Error,
    ItemId, Origin, SeriesData,
};

#[test]
fn a_counter_hands_out_what_it_stands_at() {
    let mut counter = Counter::new();
    assert_eq!(counter.current(), 0);
    assert_eq!(counter.allocate_next(), Ok(0));
    assert_eq!(counter.allocate_next(), Ok(1));
    assert_eq!(counter.allocate_next(), Ok(2));
    assert_eq!(counter.current(), 3);
    assert!(!counter.is_exhausted());
}

#[test]
fn a_counter_at_its_largest_value_refuses_and_stays() {
    let mut counter = Counter::starting_at(u64::MAX);
    assert!(counter.is_exhausted());
    assert_eq!(counter.allocate_next(), Err(Error::NoAvailableId));
    assert_eq!(counter.current(), u64::MAX);
    assert_eq!(counter.allocate_next(), Err(Error::NoAvailableId));
    assert_eq!(counter.current(), u64::MAX);
}

#[test]
fn a_counter_reaches_its_largest_value() {
    let mut counter = Counter::starting_at(u64::MAX - 1);
    assert!(!counter.is_exhausted());
    assert_eq!(counter.allocate_next(), Ok(u64::MAX - 1));
    assert_eq!(counter.current(), u64::MAX);
    assert!(counter.is_exhausted());
}

#[test]
fn only_a_signed_origin_has_a_signer() {
    let who = AccountId::new([6u8; 32]);
    assert_eq!(ensure_signed(Origin::Signed(who)), Ok(who));
    assert_eq!(ensure_signed(Origin::Root), Err(Error::NoPermission));
    assert_eq!(ensure_signed(Origin::Anonymous), Err(Error::NoPermission));
}

#[test]
fn accounts_are_equal_when_all_bytes_agree() {
    let mut bytes = [0u8; 32];
    let zero = AccountId::new(bytes);
    assert!(zero == AccountId::new([0u8; 32]));
    bytes[0] = 1;
    assert!(zero != AccountId::new(bytes));
    bytes[0] = 0;
    bytes[31] = 1;
    assert!(zero != AccountId::new(bytes));
    bytes[31] = 0;
    bytes[16] = 255;
    assert!(zero != AccountId::new(bytes));
    assert_eq!(AccountId::new(bytes).as_bytes(), &bytes);
}

#[test]
fn asset_type_predicate() {
    assert!(AssetType::Transferrable.is_transferrable());
    assert!(!AssetType::BoundToAddress.is_transferrable());
    assert_eq!(AssetType::default(), AssetType::Transferrable);
}

#[test]
fn collection_type_predicates() {
    let kinds = [
        CollectionType::Collectable,
        CollectionType::Consumable,
        CollectionType::Wearable,
        CollectionType::Usable,
    ];
    for (i, kind) in kinds.iter().enumerate() {
        assert_eq!(kind.is_collectable(), i == 0);
        assert_eq!(kind.is_consumable(), i == 1);
        assert_eq!(kind.is_wearable(), i == 2);
        assert_eq!(kind.is_usable(), i == 3);
    }
    assert_eq!(CollectionType::default(), CollectionType::Collectable);
}

#[test]
fn a_cloned_series_equals_its_source() {
    let series = SeriesData {
        name: b"Founders".to_vec(),
        owner: AccountId::new([1u8; 32]),
        metadata: b"{}".to_vec(),
    };
    let copy = series.clone();
    assert_eq!(copy, series);
    assert_eq!(copy.name, b"Founders".to_vec());
    assert_eq!(copy.metadata, b"{}".to_vec());
}

#[test]
fn class_and_asset_records_hold_their_fields() {
    let class = ClassData {
        deposit: 10,
        metadata: b"m".to_vec(),
        asset_type: AssetType::default(),
        collection_type: CollectionType::default(),
        total_supply: 100,
        initial_supply: 10,
    };
    assert!(class.asset_type.is_transferrable());
    assert!(class.collection_type.is_collectable());
    assert_eq!(class.clone(), class);
    let asset = AssetData { deposit: 1, name: b"n".to_vec(), metadata: b"m".to_vec() };
    assert_eq!(asset.clone(), asset);
}

#[test]
fn item_ids_are_told_apart_by_kind_and_number() {
    assert_eq!(ItemId::NFT(1), ItemId::NFT(1));
    assert_ne!(ItemId::NFT(1), ItemId::NFT(2));
    assert_ne!(ItemId::NFT(1), ItemId::Block(1));
}
