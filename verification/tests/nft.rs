use basilisk::nft::{
    to_bounded_string, transfer, ClassType, NftAction, NftConfig, NftError, NftEvent, NftState,
};

const ALICE: u64 = 1;
const BOB: u64 = 2;

fn config() -> NftConfig {
    NftConfig { string_limit: 8, class_deposit: 10_000 }
}

#[test]
fn class_type_defaults_to_marketplace() {
    assert_eq!(ClassType::default(), ClassType::Marketplace);
}

#[test]
fn metadata_is_bounded() {
    assert_eq!(to_bounded_string(vec![1; 8], &config()), Ok(vec![1; 8]));
    assert_eq!(to_bounded_string(vec![1; 9], &config()), Err(NftError::TooLong));
}

#[test]
fn classes_get_consecutive_ids_and_the_configured_deposit() {
    let mut state = NftState::new();
    let (id, actions, event) = state.create_class(Some(ALICE), ClassType::Marketplace, b"meta".to_vec(), &config()).unwrap();
    assert_eq!(id, 0);
    assert_eq!(actions, vec![NftAction::CreateClass { class_id: 0, owner: ALICE, deposit: 10_000, free_holding: false }]);
    assert_eq!(event, NftEvent::ClassCreated(ALICE, 0, ClassType::Marketplace));
    let (id, actions, event) = state.create_class(None, ClassType::PoolShare, vec![], &config()).unwrap();
    assert_eq!(id, 1);
    assert_eq!(actions, vec![NftAction::CreateClass { class_id: 1, owner: 0, deposit: 0, free_holding: true }]);
    assert_eq!(event, NftEvent::ClassCreated(0, 1, ClassType::PoolShare));
    assert_eq!(state.next_class_id, 2);
    assert_eq!(state.class_type(0), Some(ClassType::Marketplace));
    assert_eq!(state.class_type(1), Some(ClassType::PoolShare));
    assert_eq!(state.class_type(2), None);
    assert_eq!(state.classes.get(&0).unwrap().metadata, b"meta".to_vec());
}

#[test]
fn create_class_errors() {
    let mut state = NftState::new();
    assert_eq!(state.create_class(Some(ALICE), ClassType::PoolShare, vec![], &config()).err(), Some(NftError::NotPermitted));
    assert_eq!(state.create_class(Some(ALICE), ClassType::Marketplace, vec![0; 9], &config()).err(), Some(NftError::TooLong));
    assert_eq!(state.next_class_id, 0);
    state.next_class_id = u64::MAX;
    assert_eq!(state.create_class(Some(ALICE), ClassType::Marketplace, vec![], &config()).err(), Some(NftError::NoAvailableClassId));
    assert!(state.classes.is_empty());
}

#[test]
fn marketplace_instances_get_consecutive_ids() {
    let mut state = NftState::new();
    state.create_class(Some(ALICE), ClassType::Marketplace, vec![], &config()).unwrap();
    let (id, actions, event) = state.mint_for_marketplace(ALICE, 0, BOB, 20, b"art".to_vec(), &config()).unwrap();
    assert_eq!(id, 0);
    assert_eq!(actions, vec![NftAction::Mint { class_id: 0, instance_id: 0, owner: ALICE }]);
    assert_eq!(event, NftEvent::InstanceMinted(ClassType::Marketplace, ALICE, 0, 0));
    let item = state.marketplace_instances.get(0, 0).unwrap();
    assert_eq!((item.author, item.royalty), (BOB, 20));
    let (id, _, _) = state.mint_for_marketplace(ALICE, 0, BOB, 0, vec![], &config()).unwrap();
    assert_eq!(id, 1);
    assert_eq!(state.next_instance_id.get(&0), Some(&2));
}

#[test]
fn mint_for_marketplace_errors() {
    let mut state = NftState::new();
    state.create_class(Some(ALICE), ClassType::Marketplace, vec![], &config()).unwrap();
    state.create_class(None, ClassType::PoolShare, vec![], &config()).unwrap();
    assert_eq!(state.mint_for_marketplace(ALICE, 5, BOB, 20, vec![], &config()).err(), Some(NftError::ClassUnknown));
    assert_eq!(state.mint_for_marketplace(ALICE, 1, BOB, 20, vec![], &config()).err(), Some(NftError::ClassTypeMismatch));
    assert_eq!(state.mint_for_marketplace(ALICE, 0, BOB, 100, vec![], &config()).err(), Some(NftError::NotInRange));
    assert_eq!(state.mint_for_marketplace(ALICE, 0, BOB, 99, vec![0; 9], &config()).err(), Some(NftError::TooLong));
    state.next_instance_id.insert(0, u64::MAX);
    assert_eq!(state.mint_for_marketplace(ALICE, 0, BOB, 99, vec![], &config()).err(), Some(NftError::NoAvailableInstanceId));
    assert_eq!(state.marketplace_instances.get(0, 0).map(|i| i.royalty), None);
}

#[test]
fn liquidity_mining_positions_record_what_is_given() {
    let mut state = NftState::new();
    state.create_class(None, ClassType::PoolShare, vec![], &config()).unwrap();
    // shares, accumulated reward per share, valued shares, claimed rewards
    let (id, actions, event) = state.mint_for_liquidity_mining(true, BOB, 0, 1_000, 7, 9, 11, vec![], &config()).unwrap();
    assert_eq!(id, 0);
    assert_eq!(actions, vec![NftAction::Mint { class_id: 0, instance_id: 0, owner: BOB }]);
    assert_eq!(event, NftEvent::InstanceMinted(ClassType::PoolShare, 0, 0, 0));
    let position = state.liqmin_instances.get(0, 0).unwrap();
    assert_eq!(position.shares, 1_000);
    assert_eq!(position.accumulated_rps, 7);
    assert_eq!(position.valued_shares, 9);
    assert_eq!(position.accumulated_claimed_rewards, 11);
}

#[test]
fn mint_for_liquidity_mining_errors() {
    let mut state = NftState::new();
    state.create_class(Some(ALICE), ClassType::Marketplace, vec![], &config()).unwrap();
    assert_eq!(state.mint_for_liquidity_mining(false, BOB, 3, 1, 1, 1, 1, vec![], &config()).err(), Some(NftError::BadOrigin));
    assert_eq!(state.mint_for_liquidity_mining(true, BOB, 3, 1, 1, 1, 1, vec![], &config()).err(), Some(NftError::ClassUnknown));
    assert_eq!(state.mint_for_liquidity_mining(true, BOB, 0, 1, 1, 1, 1, vec![], &config()).err(), Some(NftError::ClassTypeMismatch));
    state.create_class(None, ClassType::PoolShare, vec![], &config()).unwrap();
    assert_eq!(state.mint_for_liquidity_mining(true, BOB, 1, 1, 1, 1, 1, vec![0; 9], &config()).err(), Some(NftError::TooLong));
    state.next_instance_id.insert(1, u64::MAX);
    assert_eq!(state.mint_for_liquidity_mining(true, BOB, 1, 1, 1, 1, 1, vec![], &config()).err(), Some(NftError::NoAvailableInstanceId));
}

#[test]
fn only_the_protocol_sends_an_owned_instance_to_another_account() {
    let (actions, event) = transfer(ALICE, true, 0, 0, BOB, ALICE).unwrap();
    assert_eq!(actions, vec![NftAction::Transfer { class_id: 0, instance_id: 0, dest: BOB }]);
    assert_eq!(event, Some(NftEvent::InstanceTransferred(ALICE, BOB, 0, 0)));
    assert_eq!(transfer(ALICE, false, 0, 0, BOB, ALICE).err(), Some(NftError::NotPermitted));
    assert_eq!(transfer(ALICE, true, 0, 0, BOB, BOB).err(), Some(NftError::NotPermitted));
    let (actions, event) = transfer(ALICE, false, 0, 0, ALICE, BOB).unwrap();
    assert!(actions.is_empty());
    assert_eq!(event, None);
}

#[test]
fn burn_forgets_the_instance() {
    let mut state = NftState::new();
    state.create_class(Some(ALICE), ClassType::Marketplace, vec![], &config()).unwrap();
    state.mint_for_marketplace(ALICE, 0, BOB, 20, vec![], &config()).unwrap();
    assert_eq!(state.burn(BOB, 0, 0, ALICE).err(), Some(NftError::NotPermitted));
    assert_eq!(state.burn(ALICE, 4, 0, ALICE).err(), Some(NftError::ClassUnknown));
    let (actions, event) = state.burn(ALICE, 0, 0, ALICE).unwrap();
    assert_eq!(actions, vec![NftAction::Burn { class_id: 0, instance_id: 0 }]);
    assert_eq!(event, NftEvent::InstanceBurned(ALICE, 0, 0));
    assert!(state.marketplace_instances.get(0, 0).is_none());
    // the next instance still gets a fresh id
    let (id, _, _) = state.mint_for_marketplace(ALICE, 0, BOB, 20, vec![], &config()).unwrap();
    assert_eq!(id, 1);
}

#[test]
fn burn_of_a_position_forgets_it() {
    let mut state = NftState::new();
    state.create_class(None, ClassType::PoolShare, vec![], &config()).unwrap();
    state.mint_for_liquidity_mining(true, BOB, 0, 1, 2, 3, 4, vec![], &config()).unwrap();
    state.burn(BOB, 0, 0, BOB).unwrap();
    assert!(state.liqmin_instances.get(0, 0).is_none());
}

#[test]
fn destroy_class_removes_an_empty_class() {
    let mut state = NftState::new();
    state.create_class(Some(ALICE), ClassType::Marketplace, vec![], &config()).unwrap();
    state.create_class(None, ClassType::PoolShare, vec![], &config()).unwrap();
    assert_eq!(state.destroy_class(Some(ALICE), 9, Some(0)).err(), Some(NftError::ClassUnknown));
    assert_eq!(state.destroy_class(Some(ALICE), 1, Some(0)).err(), Some(NftError::NotPermitted));
    assert_eq!(state.destroy_class(Some(ALICE), 0, None).err(), Some(NftError::NoWitness));
    assert_eq!(state.destroy_class(Some(ALICE), 0, Some(2)).err(), Some(NftError::TokenClassNotEmpty));
    let (actions, event) = state.destroy_class(Some(ALICE), 0, Some(0)).unwrap();
    assert_eq!(actions, vec![NftAction::DestroyClass { class_id: 0, sender: Some(ALICE) }]);
    assert_eq!(event, NftEvent::ClassDestroyed(ALICE, 0));
    let (_, event) = state.destroy_class(None, 1, Some(0)).unwrap();
    assert_eq!(event, NftEvent::ClassDestroyed(0, 1));
    assert!(state.classes.is_empty());
    // ids are not reused
    let (id, _, _) = state.create_class(Some(ALICE), ClassType::Marketplace, vec![], &config()).unwrap();
    assert_eq!(id, 2);
}
