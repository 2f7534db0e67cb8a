use access_control::address::Address;
use access_control::errors::AccessControlError;
use access_control::fees_collector::FeesCollector;
use access_control::transfer::TransferOwnershipTrait;

fn contract_with_admin(admin: &str) -> FeesCollector {
    let mut contract = FeesCollector::new(600);
    contract
        .h_set_role_address("Admin", &Address::new(admin))
        .unwrap();
    contract
}

#[test]
fn unknown_name_is_refused_before_anything_else() {
    let mut contract = contract_with_admin("admin");
    let before = contract.clone();
    let unknown = AccessControlError::UnknownRole;
    let address = Address::new("a");
    assert_eq!(contract.h_get_role_safe("Owner"), Err(unknown));
    assert_eq!(contract.h_get_role("Owner"), Err(unknown));
    assert_eq!(contract.h_set_role_address("Owner", &address), Err(unknown));
    assert_eq!(contract.h_get_role_addresses("Owner"), Err(unknown));
    assert_eq!(
        contract.h_set_role_addresses("Owner", &vec![address.clone()]),
        Err(unknown)
    );
    assert_eq!(contract.h_address_has_role(&address, "Owner"), Err(unknown));
    assert_eq!(
        contract.h_assert_address_has_role(&address, "Owner"),
        Err(unknown)
    );
    assert_eq!(
        contract.h_commit_transfer_ownership("Owner", &address, 1000),
        Err(unknown)
    );
    assert_eq!(
        contract.h_apply_transfer_ownership("Owner", 1000),
        Err(unknown)
    );
    assert_eq!(contract.h_revert_transfer_ownership("Owner"), Err(unknown));
    assert_eq!(contract.h_get_transfer_ownership_dl("Owner"), Err(unknown));
    assert_eq!(contract.h_get_future_address("Owner"), Err(unknown));
    assert_eq!(FeesCollector::h_role_has_many_users("Owner"), Err(unknown));
    assert_eq!(
        FeesCollector::h_role_is_transfer_delayed("Owner"),
        Err(unknown)
    );
    assert_eq!(contract, before);
}

#[test]
fn transfer_by_name_follows_the_scenario() {
    let mut contract = contract_with_admin("admin1");
    assert_eq!(
        contract.h_commit_transfer_ownership("Admin", &Address::new("admin2"), 1000),
        Ok(())
    );
    assert_eq!(contract.h_get_transfer_ownership_dl("Admin"), Ok(1600));
    assert_eq!(
        contract.h_get_future_address("Admin"),
        Ok(Address::new("admin2"))
    );
    assert_eq!(
        contract.h_apply_transfer_ownership("Admin", 1500),
        Err(AccessControlError::ActionNotReadyYet)
    );
    assert_eq!(contract.h_get_role("Admin"), Ok(Address::new("admin1")));
    assert_eq!(
        contract.h_apply_transfer_ownership("Admin", 1600),
        Ok(Address::new("admin2"))
    );
    assert_eq!(contract.h_get_role("Admin"), Ok(Address::new("admin2")));
    assert_eq!(contract.h_get_transfer_ownership_dl("Admin"), Ok(0));
}

#[test]
fn revert_by_name_keeps_the_admin() {
    let mut contract = contract_with_admin("current");
    contract
        .h_commit_transfer_ownership("Admin", &Address::new("next"), 1000)
        .unwrap();
    assert_eq!(contract.h_revert_transfer_ownership("Admin"), Ok(()));
    assert_eq!(contract.h_get_role("Admin"), Ok(Address::new("current")));
    assert_eq!(contract.h_get_transfer_ownership_dl("Admin"), Ok(0));
    assert_eq!(
        contract.h_revert_transfer_ownership("PauseAdmin"),
        Err(AccessControlError::BadRoleUsage)
    );
}

#[test]
fn roles_are_read_and_assigned_by_name() {
    let mut contract = contract_with_admin("admin");
    assert_eq!(contract.h_get_role_safe("PauseAdmin"), Ok(None));
    assert_eq!(
        contract.h_set_role_address("PauseAdmin", &Address::new("pause")),
        Ok(())
    );
    assert_eq!(
        contract.h_get_role_safe("PauseAdmin"),
        Ok(Some(Address::new("pause")))
    );
    assert_eq!(
        contract.h_get_role("PauseAdmin"),
        Err(AccessControlError::BadRoleUsage)
    );
    assert_eq!(
        contract.h_set_role_address("Admin", &Address::new("other")),
        Err(AccessControlError::BadRoleUsage)
    );
    assert_eq!(
        contract.h_get_role_safe("EmergencyPauseAdmin"),
        Err(AccessControlError::BadRoleUsage)
    );
    let list = vec![Address::new("e1"), Address::new("e2")];
    assert_eq!(
        contract.h_set_role_addresses("EmergencyPauseAdmin", &list),
        Ok(())
    );
    assert_eq!(contract.h_get_role_addresses("EmergencyPauseAdmin"), Ok(list));
    assert_eq!(
        contract.h_get_role_addresses("Admin"),
        Err(AccessControlError::BadRoleUsage)
    );
    assert_eq!(
        contract.h_set_role_addresses("RewardsAdmin", &vec![]),
        Err(AccessControlError::BadRoleUsage)
    );
}

#[test]
fn membership_by_name() {
    let mut contract = contract_with_admin("admin");
    contract
        .h_set_role_addresses("EmergencyPauseAdmin", &vec![Address::new("e1")])
        .unwrap();
    assert_eq!(
        contract.h_address_has_role(&Address::new("admin"), "Admin"),
        Ok(true)
    );
    assert_eq!(
        contract.h_address_has_role(&Address::new("e1"), "Admin"),
        Ok(false)
    );
    assert_eq!(
        contract.h_address_has_role(&Address::new("e1"), "EmergencyPauseAdmin"),
        Ok(true)
    );
    assert_eq!(
        contract.h_assert_address_has_role(&Address::new("admin"), "Admin"),
        Ok(())
    );
    assert_eq!(
        contract.h_assert_address_has_role(&Address::new("other"), "Admin"),
        Err(AccessControlError::Unauthorized)
    );
    assert_eq!(
        contract.h_assert_address_has_role(&Address::new("admin"), "EmergencyAdmin"),
        Err(AccessControlError::Unauthorized)
    );
}

#[test]
fn registry_by_name() {
    assert_eq!(FeesCollector::h_role_has_many_users("Admin"), Ok(false));
    assert_eq!(
        FeesCollector::h_role_has_many_users("EmergencyPauseAdmin"),
        Ok(true)
    );
    assert_eq!(FeesCollector::h_role_is_transfer_delayed("Admin"), Ok(true));
    assert_eq!(
        FeesCollector::h_role_is_transfer_delayed("EmergencyAdmin"),
        Ok(true)
    );
    assert_eq!(
        FeesCollector::h_role_is_transfer_delayed("RewardsAdmin"),
        Ok(false)
    );
    assert_eq!(
        FeesCollector::h_role_is_transfer_delayed("EmergencyPauseAdmin"),
        Ok(false)
    );
}

#[test]
fn roles_are_read_and_assigned_by_number() {
    let mut contract = FeesCollector::new(600);
    assert_eq!(
        contract.h_get_role_by_id(1),
        Err(AccessControlError::RoleNotFound)
    );
    assert_eq!(
        contract.h_set_role_address_by_id(1, &Address::new("admin")),
        Ok(())
    );
    assert_eq!(contract.h_get_role_by_id(1), Ok(Address::new("admin")));
    assert_eq!(
        contract.h_get_role_safe_by_id(1),
        Ok(Some(Address::new("admin")))
    );
    assert_eq!(
        contract.h_set_role_address_by_id(1, &Address::new("other")),
        Err(AccessControlError::BadRoleUsage)
    );
    assert_eq!(
        contract.h_get_role_by_id(3),
        Err(AccessControlError::BadRoleUsage)
    );
    assert_eq!(contract.h_get_role_safe_by_id(3), Ok(None));
    assert_eq!(
        contract.h_set_role_address_by_id(3, &Address::new("rewards")),
        Ok(())
    );
    assert_eq!(
        contract.h_get_role_safe_by_id(3),
        Ok(Some(Address::new("rewards")))
    );
    assert_eq!(
        contract.h_get_role_safe_by_id(6),
        Err(AccessControlError::BadRoleUsage)
    );
    assert_eq!(
        contract.h_set_role_address_by_id(6, &Address::new("x")),
        Err(AccessControlError::BadRoleUsage)
    );
    let list = vec![Address::new("e1")];
    assert_eq!(contract.h_set_role_addresses_by_id(6, &list), Ok(()));
    assert_eq!(contract.h_get_role_addresses_by_id(6), Ok(list));
    assert_eq!(
        contract.h_get_role_addresses_by_id(2),
        Err(AccessControlError::BadRoleUsage)
    );
    assert_eq!(
        contract.h_set_role_addresses_by_id(1, &vec![]),
        Err(AccessControlError::BadRoleUsage)
    );
}

#[test]
fn role_numbers_are_recognised() {
    assert!(!FeesCollector::is_role_id(0));
    for role_id in 1..=6 {
        assert!(FeesCollector::is_role_id(role_id));
    }
    assert!(!FeesCollector::is_role_id(7));
    assert!(!FeesCollector::is_role_id(u32::MAX));
}

#[test]
fn commit_is_checked_for_a_deadline_that_fits() {
    let mut contract = contract_with_admin("admin");
    let store = &mut contract.access_control;
    let admin = access_control::role::Role::Admin;
    let pause = access_control::role::Role::PauseAdmin;
    assert!(store.commit_fits(&admin, u64::MAX - 600));
    assert!(!store.commit_fits(&admin, u64::MAX - 599));
    assert!(store.commit_fits(&pause, u64::MAX));
    store
        .commit_transfer_ownership(&admin, &Address::new("next"), u64::MAX - 600)
        .unwrap();
    assert_eq!(
        store.get_transfer_ownership_deadline(&admin),
        Ok(u64::MAX)
    );
    assert!(store.commit_fits(&admin, u64::MAX));
    assert_eq!(
        store.commit_transfer_ownership(&admin, &Address::new("other"), u64::MAX),
        Err(AccessControlError::AnotherActionActive)
    );
    assert!(contract.upgrade.commit_fits(u64::MAX - 600));
    assert!(!contract.upgrade.commit_fits(u64::MAX));
}
