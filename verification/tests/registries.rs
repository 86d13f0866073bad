use entries::error::Error;
use entries::history::EventKind;
use entries::ledger::Ledger;
use entries::mock::{new_test_ext, NetworkPermission, MAX_REGISTRY_BLOB_SIZE};

const A: u64 = 1;
const D1: u64 = 2;
const D2: u64 = 3;
const X: u64 = 9;

fn ledger_with_registry() -> (Ledger, usize, usize) {
    let mut ledger = new_test_ext();
    let namespace = ledger.create_namespace::<NetworkPermission>(A, Vec::new()).unwrap();
    assert_eq!(ledger.add_namespace_delegate(namespace, A, D1), Ok(()));
    let registry = ledger.create_registry(namespace, D1, vec![1]).unwrap();
    (ledger, namespace, registry)
}

#[test]
fn registry_is_created_by_a_namespace_delegate() {
    let (ledger, namespace, registry) = ledger_with_registry();
    let stored = ledger.get_registry(registry).unwrap();
    assert_eq!(stored.namespace, namespace);
    assert_eq!(stored.authority, D1);
    assert_eq!(stored.delegates.len(), 0);
    assert_eq!(stored.blob, vec![1]);
    assert!(!stored.revoked);
    assert!(!stored.archived);
    let events = ledger.events_for(registry);
    assert_eq!(events.len(), 1);
    assert_eq!(events[0].kind, EventKind::Created);
    assert_eq!(events[0].actor, D1);
}

#[test]
fn create_registry_reports_each_failure_in_order() {
    let (mut ledger, namespace, _) = ledger_with_registry();
    let too_large = vec![0u8; MAX_REGISTRY_BLOB_SIZE as usize + 1];
    assert_eq!(ledger.create_registry(namespace + 50, A, Vec::new()), Err(Error::NotFound));
    assert_eq!(ledger.create_registry(namespace, X, too_large.clone()), Err(Error::NotAuthorized));
    assert_eq!(ledger.create_registry(namespace, A, too_large.clone()), Err(Error::BlobTooLarge));
    let before = ledger.next_identifier();
    assert_eq!(
        ledger.create_registry(namespace, A, vec![0u8; MAX_REGISTRY_BLOB_SIZE as usize]),
        Ok(before)
    );
    assert_eq!(ledger.revoke_namespace(namespace, A), Ok(()));
    assert_eq!(ledger.create_registry(namespace, X, too_large), Err(Error::NamespaceRevoked));
}

#[test]
fn revoked_namespace_admits_no_registry_from_anyone() {
    let (mut ledger, namespace, registry) = ledger_with_registry();
    assert_eq!(ledger.revoke_namespace(namespace, A), Ok(()));
    let before = ledger.next_identifier();
    for creator in [A, D1, X] {
        assert_eq!(
            ledger.create_registry(namespace, creator, Vec::new()),
            Err(Error::NamespaceRevoked)
        );
    }
    let other = ledger.create_namespace::<NetworkPermission>(A, Vec::new()).unwrap();
    assert_eq!(ledger.create_registry(other, A, Vec::new()), Ok(other + 1));
    assert_eq!(ledger.revoke_entry(registry, A), Err(Error::NotFound));
    assert_eq!(ledger.create_registry(namespace, A, Vec::new()), Err(Error::NamespaceRevoked));
    assert_eq!(ledger.next_identifier(), before + 2);
    assert!(ledger.get_registry(registry).is_ok());
}

#[test]
fn add_registry_delegate_reports_each_failure() {
    let (mut ledger, namespace, registry) = ledger_with_registry();
    assert_eq!(ledger.add_registry_delegate(registry + 50, D1, D2), Err(Error::NotFound));
    assert_eq!(ledger.add_registry_delegate(registry, A, D2), Err(Error::NotAuthorized));
    assert_eq!(ledger.add_registry_delegate(registry, X, D2), Err(Error::NotAuthorized));
    assert_eq!(ledger.add_registry_delegate(registry, D1, D2), Ok(()));
    assert_eq!(ledger.add_registry_delegate(registry, D1, D2), Err(Error::AlreadyDelegate));
    assert_eq!(ledger.add_registry_delegate(registry, D2, X), Err(Error::NotAuthorized));
    assert_eq!(ledger.revoke_registry(registry, D1), Ok(()));
    assert_eq!(ledger.add_registry_delegate(registry, D1, X), Err(Error::Revoked));
    assert_eq!(ledger.remove_registry_delegate(registry, D1, D2), Err(Error::Revoked));
    assert_eq!(ledger.revoke_namespace(namespace, A), Ok(()));
    assert_eq!(ledger.add_registry_delegate(registry, D1, X), Err(Error::NamespaceRevoked));
    assert_eq!(ledger.add_registry_delegate(registry, X, X), Err(Error::NamespaceRevoked));
}

#[test]
fn full_registry_delegate_set_rejects_addition_unchanged() {
    let (mut ledger, _, registry) = ledger_with_registry();
    for delegate in 100..105u64 {
        assert_eq!(ledger.add_registry_delegate(registry, D1, delegate), Ok(()));
    }
    let events_before = ledger.events_for(registry);
    assert_eq!(ledger.add_registry_delegate(registry, D1, 200), Err(Error::CapacityExceeded));
    assert_eq!(ledger.add_registry_delegate(registry, D1, 100), Err(Error::CapacityExceeded));
    let delegates = &ledger.get_registry(registry).unwrap().delegates;
    assert_eq!(delegates.len(), 5);
    for (index, delegate) in (100..105u64).enumerate() {
        assert_eq!(delegates.get(index), Some(delegate));
    }
    assert!(!delegates.contains(200));
    assert_eq!(ledger.events_for(registry), events_before);
    assert_eq!(ledger.remove_registry_delegate(registry, D1, 102), Ok(()));
    assert_eq!(ledger.add_registry_delegate(registry, D1, 200), Ok(()));
    assert_eq!(ledger.get_registry(registry).unwrap().delegates.get(4), Some(200));
}

#[test]
fn registry_authority_needs_namespace_authorization_to_change_it() {
    let (mut ledger, namespace, registry) = ledger_with_registry();
    assert_eq!(ledger.remove_namespace_delegate(namespace, A, D1), Ok(()));
    assert_eq!(ledger.add_registry_delegate(registry, D1, D2), Err(Error::NotAuthorized));
    assert_eq!(ledger.revoke_registry(registry, D1), Err(Error::NotAuthorized));
    assert_eq!(ledger.archive_registry(registry, D1), Err(Error::NotAuthorized));
    assert_eq!(ledger.add_namespace_delegate(namespace, A, D1), Ok(()));
    assert_eq!(ledger.add_registry_delegate(registry, D1, D2), Ok(()));
}

#[test]
fn remove_registry_delegate_reports_each_failure() {
    let (mut ledger, _, registry) = ledger_with_registry();
    assert_eq!(ledger.add_registry_delegate(registry, D1, D2), Ok(()));
    assert_eq!(ledger.remove_registry_delegate(registry + 50, D1, D2), Err(Error::NotFound));
    assert_eq!(ledger.remove_registry_delegate(registry, D2, D2), Err(Error::NotAuthorized));
    assert_eq!(ledger.remove_registry_delegate(registry, D1, X), Err(Error::NotADelegate));
    assert_eq!(ledger.remove_registry_delegate(registry, D1, D2), Ok(()));
    assert_eq!(ledger.remove_registry_delegate(registry, D1, D2), Err(Error::NotADelegate));
    let events = ledger.events_for(registry);
    assert_eq!(events.len(), 3);
    assert_eq!(events[1].kind, EventKind::DelegateAdded);
    assert_eq!(events[2].kind, EventKind::DelegateRemoved);
}

#[test]
fn revocation_and_archival_are_independent() {
    let (mut ledger, _, registry) = ledger_with_registry();
    assert_eq!(ledger.archive_registry(registry, D1), Ok(()));
    assert_eq!(ledger.archive_registry(registry, D1), Err(Error::RegistryArchived));
    assert!(ledger.get_registry(registry).unwrap().archived);
    assert!(!ledger.get_registry(registry).unwrap().revoked);
    assert_eq!(ledger.add_registry_delegate(registry, D1, D2), Ok(()));
    assert_eq!(ledger.revoke_registry(registry, D1), Ok(()));
    assert_eq!(ledger.revoke_registry(registry, D1), Err(Error::AlreadyRevoked));
    assert!(ledger.get_registry(registry).unwrap().archived);
    assert!(ledger.get_registry(registry).unwrap().revoked);

    let (mut other, _, second) = ledger_with_registry();
    assert_eq!(other.revoke_registry(second, D1), Ok(()));
    assert_eq!(other.archive_registry(second, D1), Ok(()));
    assert_eq!(other.archive_registry(second, X), Err(Error::NotAuthorized));
    assert_eq!(other.revoke_registry(second + 50, D1), Err(Error::NotFound));
    assert_eq!(other.archive_registry(second + 50, D1), Err(Error::NotFound));
    let events = other.events_for(second);
    assert_eq!(events[1].kind, EventKind::Revoked);
    assert_eq!(events[2].kind, EventKind::Archived);
}

#[test]
fn registry_authorization_composes_with_the_namespace() {
    let (mut ledger, namespace, registry) = ledger_with_registry();
    assert_eq!(ledger.add_registry_delegate(registry, D1, D2), Ok(()));
    assert!(ledger.registry_is_authorized(registry, D1));
    assert!(ledger.registry_is_authorized(registry, D2));
    assert!(ledger.registry_is_authorized(registry, A));
    assert!(!ledger.registry_is_authorized(registry, X));
    assert!(!ledger.registry_is_authorized(registry + 50, A));
    assert!(!ledger.registry_is_revoked(registry));
    assert_eq!(ledger.revoke_registry(registry, D1), Ok(()));
    assert!(ledger.registry_is_revoked(registry));
    assert!(!ledger.registry_is_authorized(registry, D2));
    assert!(ledger.registry_is_authorized(registry, D1));
    assert!(ledger.registry_is_authorized(registry, A));
    assert_eq!(ledger.revoke_namespace(namespace, A), Ok(()));
    assert!(!ledger.registry_is_authorized(registry, D1));
    assert!(!ledger.registry_is_authorized(registry, A));
}
