use storagehub::registry::{IdentityError, IdentityEvent, Origin, ProviderRegistry};

const MAX_USERS: u32 = 3;

#[test]
fn register_user_success() {
    let mut registry = ProviderRegistry::new(MAX_USERS);

    // Register user.
    let event = registry.register_user(Origin::Root, 1).unwrap();

    // Check that the event was emitted.
    assert_eq!(event, IdentityEvent::NewUser { user: 1 });

    // Check storage.
    assert_eq!(registry.users(1), Some(()));
}

#[test]
fn register_user_not_root() {
    let mut registry = ProviderRegistry::new(MAX_USERS);

    // Register user.
    assert_eq!(
        registry.register_user(Origin::Signed(1), 1),
        Err(IdentityError::BadOrigin)
    );
    assert_eq!(registry.users(1), None);
}

#[test]
fn register_user_max_reached() {
    let mut registry = ProviderRegistry::new(MAX_USERS);

    // Register MAX_USERS users.
    for i in 0..MAX_USERS {
        registry.register_user(Origin::Root, i as u64).unwrap();
    }

    // Try to register one more user.
    assert_eq!(
        registry.register_user(Origin::Root, MAX_USERS as u64),
        Err(IdentityError::MaximumOfUsersReached)
    );
}

#[test]
fn remove_user_success() {
    let mut registry = ProviderRegistry::new(MAX_USERS);

    // Register user.
    registry.register_user(Origin::Root, 1).unwrap();

    // Remove user.
    let event = registry.remove_user(Origin::Root, 1).unwrap();

    // Check that the event was emitted.
    assert_eq!(event, IdentityEvent::RemovedUser { user: 1 });

    // Check storage.
    assert_eq!(registry.users(1), None);
}

#[test]
fn remove_user_not_root() {
    let mut registry = ProviderRegistry::new(MAX_USERS);

    // Remove user.
    assert_eq!(
        registry.remove_user(Origin::Signed(1), 1),
        Err(IdentityError::BadOrigin)
    );
}

#[test]
fn remove_user_not_registered() {
    let mut registry = ProviderRegistry::new(MAX_USERS);

    // Remove user.
    assert_eq!(
        registry.remove_user(Origin::Root, 1),
        Err(IdentityError::NotRegistered)
    );
}
