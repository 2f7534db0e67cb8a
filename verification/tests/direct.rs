use access_control::address::Address;
use access_control::errors::AccessControlError;
use access_control::fees_collector::FeesCollector;

#[test]
fn single_roles_are_assigned_and_read_back() {
    let mut contract = FeesCollector::new(600);
    assert_eq!(
        contract.h_get_admin_role(),
        Err(AccessControlError::RoleNotFound)
    );
    assert_eq!(contract.h_get_emergency_admin_safe(), None);
    assert_eq!(contract.h_get_rewards_admin_safe(), None);
    assert_eq!(contract.h_get_operations_admin_safe(), None);
    assert_eq!(contract.h_get_pause_admin_safe(), None);

    assert_eq!(contract.h_set_admin_address(&Address::new("a")), Ok(()));
    assert_eq!(
        contract.h_set_emergency_admin_address(&Address::new("e")),
        Ok(())
    );
    contract.h_set_rewards_admin_address(&Address::new("r"));
    contract.h_set_operations_admin_address(&Address::new("o"));
    contract.h_set_pause_admin_address(&Address::new("p"));

    assert_eq!(contract.h_get_admin_role(), Ok(Address::new("a")));
    assert_eq!(
        contract.h_get_emergency_admin_safe(),
        Some(Address::new("e"))
    );
    assert_eq!(contract.h_get_rewards_admin_safe(), Some(Address::new("r")));
    assert_eq!(
        contract.h_get_operations_admin_safe(),
        Some(Address::new("o"))
    );
    assert_eq!(contract.h_get_pause_admin_safe(), Some(Address::new("p")));
}

#[test]
fn delayed_roles_are_assigned_once_and_the_others_again() {
    let mut contract = FeesCollector::new(600);
    contract.h_set_admin_address(&Address::new("a")).unwrap();
    contract
        .h_set_emergency_admin_address(&Address::new("e"))
        .unwrap();
    assert_eq!(
        contract.h_set_admin_address(&Address::new("a2")),
        Err(AccessControlError::BadRoleUsage)
    );
    assert_eq!(
        contract.h_set_emergency_admin_address(&Address::new("e2")),
        Err(AccessControlError::BadRoleUsage)
    );
    contract.h_set_pause_admin_address(&Address::new("p1"));
    contract.h_set_pause_admin_address(&Address::new("p2"));
    assert_eq!(contract.h_get_admin_role(), Ok(Address::new("a")));
    assert_eq!(
        contract.h_get_emergency_admin_safe(),
        Some(Address::new("e"))
    );
    assert_eq!(contract.h_get_pause_admin_safe(), Some(Address::new("p2")));
}

#[test]
fn guards_of_the_contract() {
    let mut contract = FeesCollector::new(600);
    let owner = Address::new("owner");
    let other = Address::new("other");
    contract.h_set_admin_address(&owner).unwrap();
    contract.h_set_rewards_admin_address(&Address::new("r"));
    contract.h_set_operations_admin_address(&Address::new("o"));
    contract.h_set_pause_admin_address(&Address::new("p"));
    contract
        .h_set_role_addresses("EmergencyPauseAdmin", &vec![Address::new("ep")])
        .unwrap();
    let unauthorized = Err(AccessControlError::Unauthorized);

    assert_eq!(contract.h_require_rewards_admin_or_owner(&owner), Ok(()));
    assert_eq!(
        contract.h_require_rewards_admin_or_owner(&Address::new("r")),
        Ok(())
    );
    assert_eq!(
        contract.h_require_rewards_admin_or_owner(&other),
        unauthorized
    );

    assert_eq!(contract.h_require_operations_admin_owner(&owner), Ok(()));
    assert_eq!(
        contract.h_require_operations_admin_owner(&Address::new("o")),
        Ok(())
    );
    assert_eq!(
        contract.h_require_operations_admin_owner(&other),
        unauthorized
    );

    assert_eq!(contract.h_require_pause_admin_or_owner(&owner), Ok(()));
    assert_eq!(
        contract.h_require_pause_admin_or_owner(&Address::new("p")),
        Ok(())
    );
    assert_eq!(
        contract.h_require_pause_admin_or_owner(&Address::new("ep")),
        unauthorized
    );

    assert_eq!(contract.h_require_pause_emergency_admin(&owner), Ok(()));
    assert_eq!(
        contract.h_require_pause_emergency_admin(&Address::new("p")),
        Ok(())
    );
    assert_eq!(
        contract.h_require_pause_emergency_admin(&Address::new("ep")),
        Ok(())
    );
    assert_eq!(
        contract.h_require_pause_emergency_admin(&other),
        unauthorized
    );
}

#[test]
fn guards_refuse_everyone_while_nothing_is_assigned() {
    let contract = FeesCollector::new(600);
    let anyone = Address::new("anyone");
    let unauthorized = Err(AccessControlError::Unauthorized);
    assert_eq!(contract.h_require_rewards_admin_or_owner(&anyone), unauthorized);
    assert_eq!(contract.h_require_operations_admin_owner(&anyone), unauthorized);
    assert_eq!(contract.h_require_pause_admin_or_owner(&anyone), unauthorized);
    assert_eq!(contract.h_require_pause_emergency_admin(&anyone), unauthorized);
    assert_eq!(
        contract.h_assert_address_has_role(&anyone, "EmergencyAdmin"),
        unauthorized
    );
}

#[test]
fn emergency_mode_is_toggled_directly() {
    let mut contract = FeesCollector::new(600);
    assert!(!contract.h_get_emergency_mode_direct());
    contract.h_set_emergency_mode_direct(true);
    assert!(contract.h_get_emergency_mode_direct());
    contract.h_set_emergency_mode_direct(false);
    assert!(!contract.h_get_emergency_mode_direct());
}

#[test]
fn upgrade_slots_of_the_contract() {
    let mut contract = FeesCollector::new(600);
    assert_eq!(contract.h_get_upgrade_deadline(), 0);
    assert_eq!(contract.h_get_future_wasm(), None);
    contract.h_put_upgrade_deadline(4242);
    assert_eq!(contract.h_get_upgrade_deadline(), 4242);
    assert_eq!(contract.h_get_future_wasm(), None);
    contract.h_put_future_wasm([3; 32]);
    assert_eq!(contract.h_get_future_wasm(), Some([3; 32]));
    assert_eq!(contract.h_get_upgrade_deadline(), 4242);
    assert_eq!(contract.access_control, FeesCollector::new(600).access_control);
}
