use lootbox::{AccountId, Config, Error, Event, Origin, Pallet, SeriesData};

fn config() -> Config {
    Config { create_class_deposit: 2, create_asset_deposit: 1, module_id: *b"gp/lootb" }
}

fn alice() -> AccountId {
    AccountId::new([1u8; 32])
}

fn bob() -> AccountId {
    AccountId::new([2u8; 32])
}

#[test]
fn founders_scenario() {
    let mut pallet = Pallet::new(config());
    let created =
        pallet.create_series(Origin::Signed(alice()), b"Founders".to_vec(), b"{}".to_vec());
    assert_eq!(created, Ok(0));
    assert_eq!(pallet.all_series_count(), 1);
    assert_eq!(pallet.events(), &vec![Event::NewSeriesCreated(alice(), 0)]);
    assert_eq!(
        pallet.get_series(0),
        Some(SeriesData { name: b"Founders".to_vec(), owner: alice(), metadata: b"{}".to_vec() })
    );

    let second = pallet.create_series(Origin::Signed(bob()), b"Second".to_vec(), b"[]".to_vec());
    assert_eq!(second, Ok(1));
    assert_eq!(pallet.all_series_count(), 2);
    assert_eq!(
        pallet.events(),
        &vec![Event::NewSeriesCreated(alice(), 0), Event::NewSeriesCreated(bob(), 1)]
    );
}

#[test]
fn a_new_registry_is_empty() {
    let pallet = Pallet::new(config());
    assert_eq!(pallet.next_series_id(), 0);
    assert_eq!(pallet.all_series_count(), 0);
    assert_eq!(pallet.next_asset_id(), 0);
    assert_eq!(pallet.get_series(0), None);
    assert!(pallet.events().is_empty());
}

#[test]
fn ids_count_up_from_zero_in_call_order() {
    let mut pallet = Pallet::new(config());
    let mut ids: Vec<u64> = Vec::new();
    for i in 0u8..20 {
        let origin = Origin::Signed(AccountId::new([i; 32]));
        ids.push(pallet.create_series(origin, vec![i], vec![]).unwrap());
    }
    let expected: Vec<u64> = (0u64..20).collect();
    assert_eq!(ids, expected);
    assert_eq!(pallet.next_series_id(), 20);
}

#[test]
fn count_matches_the_number_of_records() {
    let mut pallet = Pallet::new(config());
    for i in 0u8..7 {
        assert!(pallet.create_series(Origin::Signed(alice()), vec![i], vec![i, i]).is_ok());
    }
    assert_eq!(pallet.all_series_count(), 7);
    for id in 0u64..7 {
        let series = pallet.get_series(id).unwrap();
        assert_eq!(series.name, vec![id as u8]);
    }
    assert_eq!(pallet.get_series(7), None);
    assert_eq!(pallet.events().len(), 7);
}

#[test]
fn a_created_series_reads_back() {
    let mut pallet = Pallet::with_counters(config(), 41, 3, 0);
    let id = pallet
        .create_series(Origin::Signed(bob()), b"Genesis".to_vec(), b"{\"a\":1}".to_vec())
        .unwrap();
    assert_eq!(id, 41);
    let series = pallet.get_series(id).unwrap();
    assert_eq!(series.name, b"Genesis".to_vec());
    assert_eq!(series.owner, bob());
    assert_eq!(series.metadata, b"{\"a\":1}".to_vec());
    assert_eq!(pallet.next_series_id(), 42);
    assert_eq!(pallet.all_series_count(), 4);
}

#[test]
fn empty_name_and_metadata_are_stored_as_given() {
    let mut pallet = Pallet::new(config());
    assert_eq!(pallet.create_series(Origin::Signed(alice()), vec![], vec![]), Ok(0));
    assert_eq!(
        pallet.get_series(0),
        Some(SeriesData { name: vec![], owner: alice(), metadata: vec![] })
    );
}

#[test]
fn an_exhausted_id_counter_refuses_and_changes_nothing() {
    let mut pallet = Pallet::with_counters(config(), u64::MAX, 9, 0);
    let created = pallet.create_series(Origin::Signed(alice()), b"late".to_vec(), vec![]);
    assert_eq!(created, Err(Error::NoAvailableSeriesId));
    assert_eq!(pallet.next_series_id(), u64::MAX);
    assert_eq!(pallet.all_series_count(), 9);
    assert_eq!(pallet.get_series(u64::MAX), None);
    assert_eq!(pallet.get_series(0), None);
    assert!(pallet.events().is_empty());
}

#[test]
fn the_last_id_is_handed_out_once() {
    let mut pallet = Pallet::with_counters(config(), u64::MAX - 1, 0, 0);
    assert_eq!(
        pallet.create_series(Origin::Signed(alice()), b"last".to_vec(), vec![]),
        Ok(u64::MAX - 1)
    );
    assert_eq!(pallet.next_series_id(), u64::MAX);
    assert_eq!(
        pallet.create_series(Origin::Signed(alice()), b"over".to_vec(), vec![]),
        Err(Error::NoAvailableSeriesId)
    );
    assert_eq!(pallet.all_series_count(), 1);
    assert_eq!(pallet.events().len(), 1);
}

#[test]
fn an_exhausted_count_leaves_no_record_behind() {
    let mut pallet = Pallet::with_counters(config(), 5, u64::MAX, 0);
    let created = pallet.create_series(Origin::Signed(alice()), b"orphan".to_vec(), vec![]);
    assert_eq!(created, Err(Error::NoAvailableId));
    assert_eq!(pallet.get_series(5), None);
    assert_eq!(pallet.next_series_id(), 5);
    assert_eq!(pallet.all_series_count(), u64::MAX);
    assert!(pallet.events().is_empty());
}

#[test]
fn an_exhausted_id_counter_is_reported_before_an_exhausted_count() {
    let mut pallet = Pallet::with_counters(config(), u64::MAX, u64::MAX, 0);
    assert_eq!(
        pallet.create_series(Origin::Signed(alice()), vec![], vec![]),
        Err(Error::NoAvailableSeriesId)
    );
}

#[test]
fn an_origin_without_signer_has_no_permission() {
    let mut pallet = Pallet::new(config());
    assert_eq!(
        pallet.create_series(Origin::Anonymous, b"x".to_vec(), vec![]),
        Err(Error::NoPermission)
    );
    assert_eq!(pallet.create_series(Origin::Root, b"x".to_vec(), vec![]), Err(Error::NoPermission));
    assert_eq!(pallet.next_series_id(), 0);
    assert_eq!(pallet.all_series_count(), 0);
    assert_eq!(pallet.get_series(0), None);
    assert!(pallet.events().is_empty());
}

#[test]
fn no_permission_is_reported_before_exhausted_counters() {
    let mut pallet = Pallet::with_counters(config(), u64::MAX, u64::MAX, 0);
    assert_eq!(pallet.create_series(Origin::Anonymous, vec![], vec![]), Err(Error::NoPermission));
}

#[test]
fn a_failed_call_does_not_use_up_an_id() {
    let mut pallet = Pallet::new(config());
    assert_eq!(pallet.create_series(Origin::Signed(alice()), vec![1], vec![]), Ok(0));
    assert_eq!(pallet.create_series(Origin::Anonymous, vec![2], vec![]), Err(Error::NoPermission));
    assert_eq!(pallet.create_series(Origin::Signed(bob()), vec![3], vec![]), Ok(1));
    assert_eq!(pallet.all_series_count(), 2);
    assert_eq!(pallet.get_series(1).unwrap().name, vec![3]);
}

#[test]
fn storing_a_record_alone_leaves_the_count_and_the_events() {
    let mut pallet = Pallet::new(config());
    assert_eq!(pallet.do_create_series(&alice(), b"a".to_vec(), b"b".to_vec()), Ok(0));
    assert_eq!(pallet.do_create_series(&bob(), b"c".to_vec(), b"d".to_vec()), Ok(1));
    assert_eq!(pallet.next_series_id(), 2);
    assert_eq!(pallet.all_series_count(), 0);
    assert!(pallet.events().is_empty());
    assert_eq!(
        pallet.get_series(1),
        Some(SeriesData { name: b"c".to_vec(), owner: bob(), metadata: b"d".to_vec() })
    );
}

#[test]
fn storing_a_record_is_refused_when_ids_are_exhausted() {
    let mut pallet = Pallet::with_counters(config(), u64::MAX, 0, 0);
    assert_eq!(
        pallet.do_create_series(&alice(), b"a".to_vec(), vec![]),
        Err(Error::NoAvailableSeriesId)
    );
    assert_eq!(pallet.next_series_id(), u64::MAX);
    assert_eq!(pallet.get_series(u64::MAX), None);
}

#[test]
fn the_configuration_is_kept() {
    let pallet = Pallet::new(config());
    assert_eq!(pallet.create_class_deposit(), 2);
    assert_eq!(pallet.create_asset_deposit(), 1);
    assert_eq!(pallet.module_id(), *b"gp/lootb");
}
