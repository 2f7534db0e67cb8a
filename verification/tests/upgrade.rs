use access_control::errors::AccessControlError;
use access_control::upgrade::{
    apply_upgrade, commit_upgrade, get_future_wasm, get_upgrade_deadline, put_future_wasm,
    put_upgrade_deadline, revert_upgrade, Upgrade,
};

const HASH: [u8; 32] = [7; 32];
const OTHER: [u8; 32] = [9; 32];

#[test]
fn upgrade_commit_sets_hash_and_deadline() {
    let mut state = Upgrade::new(600);
    assert_eq!(get_upgrade_deadline(&state), 0);
    assert_eq!(get_future_wasm(&state), None);
    assert_eq!(commit_upgrade(&mut state, &HASH, 1000), Ok(()));
    assert_eq!(get_upgrade_deadline(&state), 1600);
    assert_eq!(get_future_wasm(&state), Some(HASH));
    assert!(state.is_well_formed());
}

#[test]
fn emergency_mode_applies_before_the_deadline() {
    let mut state = Upgrade::new(600);
    commit_upgrade(&mut state, &HASH, 1000).unwrap();
    assert_eq!(apply_upgrade(&mut state, true, 1000), Ok(HASH));
    assert_eq!(get_upgrade_deadline(&state), 0);
    assert_eq!(get_future_wasm(&state), None);
}

#[test]
fn without_emergency_mode_apply_waits_for_the_deadline() {
    let mut state = Upgrade::new(600);
    commit_upgrade(&mut state, &HASH, 1000).unwrap();
    let before = state;
    for early in [0, 1000, 1599] {
        assert_eq!(
            apply_upgrade(&mut state, false, early),
            Err(AccessControlError::ActionNotReadyYet)
        );
        assert_eq!(state, before);
    }
    assert_eq!(apply_upgrade(&mut state, false, 1600), Ok(HASH));
    assert_eq!(state, Upgrade::new(600));
}

#[test]
fn apply_upgrade_without_commit_is_refused_in_both_modes() {
    let mut state = Upgrade::new(600);
    assert_eq!(
        apply_upgrade(&mut state, false, 5000),
        Err(AccessControlError::NoActionActive)
    );
    assert_eq!(
        apply_upgrade(&mut state, true, 5000),
        Err(AccessControlError::NoActionActive)
    );
    assert_eq!(state, Upgrade::new(600));
}

#[test]
fn second_upgrade_commit_is_refused() {
    let mut state = Upgrade::new(600);
    commit_upgrade(&mut state, &HASH, 1000).unwrap();
    let before = state;
    assert_eq!(
        commit_upgrade(&mut state, &OTHER, 1001),
        Err(AccessControlError::AnotherActionActive)
    );
    assert_eq!(state, before);
    assert_eq!(get_future_wasm(&state), Some(HASH));
}

#[test]
fn revert_upgrade_clears_deadline_and_hash() {
    let mut state = Upgrade::new(600);
    commit_upgrade(&mut state, &HASH, 1000).unwrap();
    revert_upgrade(&mut state);
    assert_eq!(state, Upgrade::new(600));
    revert_upgrade(&mut state);
    assert_eq!(state, Upgrade::new(600));
    assert_eq!(
        apply_upgrade(&mut state, true, 9999),
        Err(AccessControlError::NoActionActive)
    );
    assert_eq!(commit_upgrade(&mut state, &OTHER, 2000), Ok(()));
    assert_eq!(apply_upgrade(&mut state, false, 2600), Ok(OTHER));
}

#[test]
fn upgrade_slots_written_directly_are_read_back() {
    let mut state = Upgrade::new(600);
    put_upgrade_deadline(&mut state, &123);
    assert_eq!(get_upgrade_deadline(&state), 123);
    assert_eq!(get_future_wasm(&state), None);
    assert!(!state.is_well_formed());
    assert_eq!(
        apply_upgrade(&mut state, true, 500),
        Err(AccessControlError::NoActionActive)
    );
    put_future_wasm(&mut state, &HASH);
    assert_eq!(get_future_wasm(&state), Some(HASH));
    assert_eq!(get_upgrade_deadline(&state), 123);
    assert!(state.is_well_formed());
    assert_eq!(apply_upgrade(&mut state, false, 123), Ok(HASH));
}
