use access_control::address::Address;
use access_control::emergency::{get_emergency_mode, set_emergency_mode};
use access_control::errors::AccessControlError;
use access_control::fees_collector::FeesCollector;
use access_control::management::{MultipleAddressesManagementTrait, SingleAddressManagementTrait};
use access_control::role::Role;
use access_control::transfer::TransferOwnershipTrait;

const HASH: [u8; 32] = [0xab; 32];

#[test]
fn roles_are_numbered_from_one_to_six() {
    assert_eq!(FeesCollector::role_from_id(1), Role::Admin);
    assert_eq!(FeesCollector::role_from_id(2), Role::EmergencyAdmin);
    assert_eq!(FeesCollector::role_from_id(3), Role::RewardsAdmin);
    assert_eq!(FeesCollector::role_from_id(4), Role::OperationsAdmin);
    assert_eq!(FeesCollector::role_from_id(5), Role::PauseAdmin);
    assert_eq!(FeesCollector::role_from_id(6), Role::EmergencyPauseAdmin);
    assert_eq!(
        FeesCollector::role_from_id(FeesCollector::ROLE_ID_ADMIN),
        Role::Admin
    );
    assert_eq!(
        FeesCollector::role_from_id(FeesCollector::ROLE_ID_EMERGENCY_ADMIN),
        Role::EmergencyAdmin
    );
    assert_eq!(
        FeesCollector::role_from_id(FeesCollector::ROLE_ID_REWARDS_ADMIN),
        Role::RewardsAdmin
    );
    assert_eq!(
        FeesCollector::role_from_id(FeesCollector::ROLE_ID_OPERATIONS_ADMIN),
        Role::OperationsAdmin
    );
    assert_eq!(
        FeesCollector::role_from_id(FeesCollector::ROLE_ID_PAUSE_ADMIN),
        Role::PauseAdmin
    );
    assert_eq!(
        FeesCollector::role_from_id(FeesCollector::ROLE_ID_EMERGENCY_PAUSE_ADMIN),
        Role::EmergencyPauseAdmin
    );
}

#[test]
fn role_numbers_have_the_names_of_their_roles() {
    assert_eq!(FeesCollector::role_id_to_symbol(1), "Admin");
    assert_eq!(FeesCollector::role_id_to_symbol(2), "EmergencyAdmin");
    assert_eq!(FeesCollector::role_id_to_symbol(3), "RewardsAdmin");
    assert_eq!(FeesCollector::role_id_to_symbol(4), "OperationsAdmin");
    assert_eq!(FeesCollector::role_id_to_symbol(5), "PauseAdmin");
    assert_eq!(FeesCollector::role_id_to_symbol(6), "EmergencyPauseAdmin");
}

#[test]
fn holder_slots_by_role_number() {
    assert_eq!(FeesCollector::h_get_storage_key_by_id(1), 1);
    assert_eq!(FeesCollector::h_get_storage_key_by_id(2), 2);
    assert_eq!(FeesCollector::h_get_storage_key_by_id(3), 3);
    assert_eq!(FeesCollector::h_get_storage_key_by_id(4), 4);
    assert_eq!(FeesCollector::h_get_storage_key_by_id(5), 5);
    assert_eq!(FeesCollector::h_get_storage_key_by_id(6), 6);
}

#[test]
fn future_slots_by_role_number() {
    assert_eq!(FeesCollector::h_get_future_storage_key_by_id(1), Ok(7));
    assert_eq!(FeesCollector::h_get_future_storage_key_by_id(2), Ok(8));
    assert_eq!(FeesCollector::h_get_future_deadline_key_by_id(1), Ok(9));
    assert_eq!(FeesCollector::h_get_future_deadline_key_by_id(2), Ok(10));
    for role_id in 3..=6 {
        assert_eq!(
            FeesCollector::h_get_future_storage_key_by_id(role_id),
            Err(AccessControlError::BadRoleUsage)
        );
        assert_eq!(
            FeesCollector::h_get_future_deadline_key_by_id(role_id),
            Err(AccessControlError::BadRoleUsage)
        );
    }
}

#[test]
fn slots_by_role_name() {
    assert_eq!(FeesCollector::h_get_storage_key("Admin"), Ok(1));
    assert_eq!(FeesCollector::h_get_storage_key("EmergencyAdmin"), Ok(2));
    assert_eq!(FeesCollector::h_get_storage_key("RewardsAdmin"), Ok(3));
    assert_eq!(FeesCollector::h_get_storage_key("OperationsAdmin"), Ok(4));
    assert_eq!(FeesCollector::h_get_storage_key("PauseAdmin"), Ok(5));
    assert_eq!(FeesCollector::h_get_storage_key("EmergencyPauseAdmin"), Ok(6));
    assert_eq!(FeesCollector::h_get_future_storage_key("Admin"), Ok(7));
    assert_eq!(
        FeesCollector::h_get_future_storage_key("EmergencyAdmin"),
        Ok(8)
    );
    assert_eq!(FeesCollector::h_get_future_deadline_key("Admin"), Ok(9));
    assert_eq!(
        FeesCollector::h_get_future_deadline_key("EmergencyAdmin"),
        Ok(10)
    );
    assert_eq!(
        FeesCollector::h_get_future_storage_key("PauseAdmin"),
        Err(AccessControlError::BadRoleUsage)
    );
    assert_eq!(
        FeesCollector::h_get_future_deadline_key("EmergencyPauseAdmin"),
        Err(AccessControlError::BadRoleUsage)
    );
    assert_eq!(
        FeesCollector::h_get_storage_key("Operator"),
        Err(AccessControlError::UnknownRole)
    );
    assert_eq!(
        FeesCollector::h_get_future_storage_key("FutureAdmin"),
        Err(AccessControlError::UnknownRole)
    );
    assert_eq!(
        FeesCollector::h_get_future_deadline_key(""),
        Err(AccessControlError::UnknownRole)
    );
}

#[test]
fn init_all_roles_assigns_each_role() {
    let mut contract = FeesCollector::new(600);
    let list = vec![Address::new("ep1"), Address::new("ep2")];
    assert_eq!(
        contract.h_init_all_roles(
            &Address::new("admin"),
            &Address::new("emergency"),
            &Address::new("rewards"),
            &Address::new("operations"),
            &Address::new("pause"),
            &list,
        ),
        Ok(())
    );
    let store = &contract.access_control;
    assert_eq!(store.get_role(&Role::Admin), Ok(Address::new("admin")));
    assert_eq!(
        store.get_role_safe(&Role::EmergencyAdmin),
        Ok(Some(Address::new("emergency")))
    );
    assert_eq!(
        store.get_role_safe(&Role::RewardsAdmin),
        Ok(Some(Address::new("rewards")))
    );
    assert_eq!(
        store.get_role_safe(&Role::OperationsAdmin),
        Ok(Some(Address::new("operations")))
    );
    assert_eq!(
        store.get_role_safe(&Role::PauseAdmin),
        Ok(Some(Address::new("pause")))
    );
    assert_eq!(store.get_role_addresses(&Role::EmergencyPauseAdmin), Ok(list));
}

#[test]
fn init_all_roles_is_refused_once_a_delayed_role_is_held() {
    for held in [Role::Admin, Role::EmergencyAdmin] {
        let mut contract = FeesCollector::new(600);
        contract
            .access_control
            .set_role_address(&held, &Address::new("first"))
            .unwrap();
        let before = contract.clone();
        assert_eq!(
            contract.h_init_all_roles(
                &Address::new("admin"),
                &Address::new("emergency"),
                &Address::new("rewards"),
                &Address::new("operations"),
                &Address::new("pause"),
                &vec![Address::new("ep")],
            ),
            Err(AccessControlError::BadRoleUsage)
        );
        assert_eq!(contract, before);
    }
}

#[test]
fn privileged_addresses_are_set_and_replaced() {
    let mut contract = FeesCollector::new(600);
    contract
        .access_control
        .set_role_address(&Role::Admin, &Address::new("admin"))
        .unwrap();
    contract.h_set_privileged_addrs(
        &Address::new("r1"),
        &Address::new("o1"),
        &Address::new("p1"),
        &vec![Address::new("e1")],
    );
    contract.h_set_privileged_addrs(
        &Address::new("r2"),
        &Address::new("o2"),
        &Address::new("p2"),
        &vec![],
    );
    let store = &contract.access_control;
    assert_eq!(
        store.get_role_safe(&Role::RewardsAdmin),
        Ok(Some(Address::new("r2")))
    );
    assert_eq!(
        store.get_role_safe(&Role::OperationsAdmin),
        Ok(Some(Address::new("o2")))
    );
    assert_eq!(
        store.get_role_safe(&Role::PauseAdmin),
        Ok(Some(Address::new("p2")))
    );
    assert_eq!(
        store.get_role_addresses(&Role::EmergencyPauseAdmin),
        Ok(vec![])
    );
    assert_eq!(store.get_role(&Role::Admin), Ok(Address::new("admin")));
    assert_eq!(store.get_role_safe(&Role::EmergencyAdmin), Ok(None));
}

#[test]
fn emergency_flag_lets_the_upgrade_through() {
    let mut contract = FeesCollector::new(600);
    assert_eq!(contract.commit_upgrade(&HASH, 1000), Ok(()));
    assert_eq!(contract.upgrade.upgrade_deadline, 1600);
    assert_eq!(
        contract.apply_upgrade(1200),
        Err(AccessControlError::ActionNotReadyYet)
    );
    set_emergency_mode(&mut contract.access_control, &true);
    assert!(get_emergency_mode(&contract.access_control));
    assert_eq!(contract.apply_upgrade(1200), Ok(HASH));
    assert_eq!(contract.upgrade.upgrade_deadline, 0);
    assert_eq!(contract.upgrade.future_wasm, None);
    assert!(get_emergency_mode(&contract.access_control));
}

#[test]
fn without_the_flag_the_upgrade_waits() {
    let mut contract = FeesCollector::new(600);
    contract.commit_upgrade(&HASH, 1000).unwrap();
    set_emergency_mode(&mut contract.access_control, &true);
    set_emergency_mode(&mut contract.access_control, &false);
    let before = contract.clone();
    assert_eq!(
        contract.apply_upgrade(1599),
        Err(AccessControlError::ActionNotReadyYet)
    );
    assert_eq!(contract, before);
    assert_eq!(contract.apply_upgrade(1600), Ok(HASH));
    assert_eq!(contract, FeesCollector::new(600));
}

#[test]
fn emergency_flag_does_not_shorten_a_transfer() {
    let mut contract = FeesCollector::new(600);
    let store = &mut contract.access_control;
    store
        .set_role_address(&Role::Admin, &Address::new("admin1"))
        .unwrap();
    store
        .commit_transfer_ownership(&Role::Admin, &Address::new("admin2"), 1000)
        .unwrap();
    set_emergency_mode(store, &true);
    assert_eq!(
        store.apply_transfer_ownership(&Role::Admin, 1599),
        Err(AccessControlError::ActionNotReadyYet)
    );
    assert_eq!(
        store.apply_transfer_ownership(&Role::Admin, 1600),
        Ok(Address::new("admin2"))
    );
}

#[test]
fn transfer_then_upgrade_in_sequence() {
    let mut contract = FeesCollector::new(600);
    contract
        .access_control
        .set_role_address(&Role::Admin, &Address::new("old"))
        .unwrap();
    contract
        .access_control
        .commit_transfer_ownership(&Role::Admin, &Address::new("new"), 100)
        .unwrap();
    contract
        .access_control
        .apply_transfer_ownership(&Role::Admin, 700)
        .unwrap();
    contract.commit_upgrade(&HASH, 700).unwrap();
    assert_eq!(contract.apply_upgrade(1300), Ok(HASH));
    assert_eq!(
        contract.access_control.get_role(&Role::Admin),
        Ok(Address::new("new"))
    );
    assert_eq!(contract.upgrade.future_wasm, None);
}

#[test]
fn revert_upgrade_on_the_contract_clears_the_lane() {
    let mut contract = FeesCollector::new(600);
    contract.commit_upgrade(&HASH, 1000).unwrap();
    assert_eq!(
        contract.commit_upgrade(&HASH, 1001),
        Err(AccessControlError::AnotherActionActive)
    );
    contract.revert_upgrade();
    assert_eq!(contract, FeesCollector::new(600));
    assert_eq!(
        contract.apply_upgrade(5000),
        Err(AccessControlError::NoActionActive)
    );
}

#[test]
fn transfer_of_one_role_keeps_the_others() {
    let mut contract = FeesCollector::new(600);
    contract
        .h_init_all_roles(
            &Address::new("admin"),
            &Address::new("old_emergency"),
            &Address::new("rewards"),
            &Address::new("operations"),
            &Address::new("pause"),
            &vec![Address::new("ep")],
        )
        .unwrap();
    let store = &mut contract.access_control;
    store
        .commit_transfer_ownership(&Role::EmergencyAdmin, &Address::new("new_emergency"), 50)
        .unwrap();
    store
        .apply_transfer_ownership(&Role::EmergencyAdmin, 650)
        .unwrap();
    assert_eq!(
        store.get_role_safe(&Role::EmergencyAdmin),
        Ok(Some(Address::new("new_emergency")))
    );
    assert_eq!(store.get_role(&Role::Admin), Ok(Address::new("admin")));
    assert_eq!(
        store.get_role_safe(&Role::OperationsAdmin),
        Ok(Some(Address::new("operations")))
    );
    assert_eq!(
        store.get_role_addresses(&Role::EmergencyPauseAdmin),
        Ok(vec![Address::new("ep")])
    );
}
