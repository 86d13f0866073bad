use entries::config::Config;
use entries::error::Error;
use entries::history::EventKind;
use entries::ledger::Ledger;
use entries::mock::{new_test_ext, test_config, NetworkPermission, MAX_NAMESPACE_BLOB_SIZE};
use entries::permission::IsPermissioned;

const AUTHORITY: u64 = 10;
const STRANGER: u64 = 99;

struct ClosedNetwork;

impl IsPermissioned for ClosedNetwork {
    fn is_permissioned() -> bool {
        false
    }
}

#[test]
fn network_permission_admits() {
    assert!(NetworkPermission::is_permissioned());
}

#[test]
fn namespace_is_created_with_empty_delegate_set() {
    let mut ledger = new_test_ext();
    let id = ledger.create_namespace::<NetworkPermission>(AUTHORITY, vec![1, 2, 3]).unwrap();
    assert_eq!(id, 0);
    let namespace = ledger.get_namespace(id).unwrap();
    assert_eq!(namespace.authority, AUTHORITY);
    assert_eq!(namespace.delegates.len(), 0);
    assert_eq!(namespace.blob, vec![1, 2, 3]);
    assert!(namespace.permissioned);
    assert!(!namespace.revoked);
    let events = ledger.events_for(id);
    assert_eq!(events.len(), 1);
    assert_eq!(events[0].kind, EventKind::Created);
    assert_eq!(events[0].actor, AUTHORITY);
    assert_eq!(events[0].sequence, 0);
}

#[test]
fn identities_are_issued_in_order() {
    let mut ledger = new_test_ext();
    assert_eq!(ledger.next_identifier(), 0);
    assert_eq!(ledger.create_namespace_with(true, AUTHORITY, Vec::new()), Ok(0));
    assert_eq!(ledger.create_namespace_with(true, STRANGER, Vec::new()), Ok(1));
    assert_eq!(ledger.create_registry(0, AUTHORITY, Vec::new()), Ok(2));
    assert_eq!(ledger.create_entry(2, AUTHORITY, Vec::new()), Ok(3));
    assert_eq!(ledger.next_identifier(), 4);
    assert_eq!(ledger.get_namespace(2).err(), Some(Error::NotFound));
    assert_eq!(ledger.get_registry(3).err(), Some(Error::NotFound));
    assert_eq!(ledger.get_entry(0).err(), Some(Error::NotFound));
}

#[test]
fn refused_creator_is_denied_and_nothing_changes() {
    let mut ledger = new_test_ext();
    assert_eq!(
        ledger.create_namespace::<ClosedNetwork>(AUTHORITY, Vec::new()),
        Err(Error::PermissionDenied)
    );
    assert_eq!(
        ledger.create_namespace_with(false, AUTHORITY, Vec::new()),
        Err(Error::PermissionDenied)
    );
    assert_eq!(ledger.next_identifier(), 0);
    assert_eq!(ledger.get_namespace(0).err(), Some(Error::NotFound));
}

#[test]
fn permission_is_asked_before_the_blob_is_measured() {
    let mut ledger = new_test_ext();
    let blob = vec![0u8; MAX_NAMESPACE_BLOB_SIZE as usize + 1];
    assert_eq!(ledger.create_namespace_with(false, AUTHORITY, blob), Err(Error::PermissionDenied));
}

#[test]
fn namespace_blob_bound_is_inclusive() {
    let mut ledger = new_test_ext();
    let too_large = vec![0u8; MAX_NAMESPACE_BLOB_SIZE as usize + 1];
    assert_eq!(
        ledger.create_namespace::<NetworkPermission>(AUTHORITY, too_large),
        Err(Error::BlobTooLarge)
    );
    assert_eq!(ledger.next_identifier(), 0);
    let fits = vec![0u8; MAX_NAMESPACE_BLOB_SIZE as usize];
    assert_eq!(ledger.create_namespace::<NetworkPermission>(AUTHORITY, fits), Ok(0));
}

#[test]
fn add_namespace_delegate_reports_each_failure() {
    let mut ledger = new_test_ext();
    let id = ledger.create_namespace::<NetworkPermission>(AUTHORITY, Vec::new()).unwrap();
    assert_eq!(ledger.add_namespace_delegate(id + 1, AUTHORITY, 1), Err(Error::NotFound));
    assert_eq!(ledger.add_namespace_delegate(id, STRANGER, 1), Err(Error::NotAuthorized));
    assert_eq!(ledger.add_namespace_delegate(id, AUTHORITY, 1), Ok(()));
    assert_eq!(ledger.add_namespace_delegate(id, 1, 2), Err(Error::NotAuthorized));
    assert_eq!(ledger.add_namespace_delegate(id, AUTHORITY, 1), Err(Error::AlreadyDelegate));
    for delegate in 2..=5u64 {
        assert_eq!(ledger.add_namespace_delegate(id, AUTHORITY, delegate), Ok(()));
    }
    assert_eq!(ledger.add_namespace_delegate(id, AUTHORITY, 6), Err(Error::CapacityExceeded));
    assert_eq!(ledger.add_namespace_delegate(id, AUTHORITY, 1), Err(Error::CapacityExceeded));
    assert_eq!(ledger.get_namespace(id).unwrap().delegates.len(), 5);
    assert_eq!(ledger.revoke_namespace(id, AUTHORITY), Ok(()));
    assert_eq!(ledger.add_namespace_delegate(id, AUTHORITY, 6), Err(Error::Revoked));
    assert_eq!(ledger.add_namespace_delegate(id, STRANGER, 6), Err(Error::NotAuthorized));
}

#[test]
fn remove_namespace_delegate_keeps_the_order_of_the_rest() {
    let mut ledger = new_test_ext();
    let id = ledger.create_namespace::<NetworkPermission>(AUTHORITY, Vec::new()).unwrap();
    for delegate in [7u64, 8, 9] {
        assert_eq!(ledger.add_namespace_delegate(id, AUTHORITY, delegate), Ok(()));
    }
    assert_eq!(ledger.remove_namespace_delegate(id, AUTHORITY, 8), Ok(()));
    let delegates = &ledger.get_namespace(id).unwrap().delegates;
    assert_eq!(delegates.len(), 2);
    assert_eq!(delegates.get(0), Some(7));
    assert_eq!(delegates.get(1), Some(9));
    assert_eq!(delegates.get(2), None);
    assert_eq!(ledger.add_namespace_delegate(id, AUTHORITY, 8), Ok(()));
    assert_eq!(ledger.get_namespace(id).unwrap().delegates.get(2), Some(8));
}

#[test]
fn remove_namespace_delegate_reports_each_failure() {
    let mut ledger = new_test_ext();
    let id = ledger.create_namespace::<NetworkPermission>(AUTHORITY, Vec::new()).unwrap();
    assert_eq!(ledger.add_namespace_delegate(id, AUTHORITY, 1), Ok(()));
    assert_eq!(ledger.remove_namespace_delegate(id + 1, AUTHORITY, 1), Err(Error::NotFound));
    assert_eq!(ledger.remove_namespace_delegate(id, 1, 1), Err(Error::NotAuthorized));
    assert_eq!(ledger.remove_namespace_delegate(id, AUTHORITY, 2), Err(Error::NotADelegate));
    assert_eq!(ledger.revoke_namespace(id, AUTHORITY), Ok(()));
    assert_eq!(ledger.remove_namespace_delegate(id, AUTHORITY, 1), Err(Error::Revoked));
    assert_eq!(ledger.get_namespace(id).unwrap().delegates.len(), 1);
}

#[test]
fn revoke_namespace_is_final() {
    let mut ledger = new_test_ext();
    let id = ledger.create_namespace::<NetworkPermission>(AUTHORITY, vec![5]).unwrap();
    assert_eq!(ledger.revoke_namespace(id + 1, AUTHORITY), Err(Error::NotFound));
    assert_eq!(ledger.revoke_namespace(id, STRANGER), Err(Error::NotAuthorized));
    assert_eq!(ledger.revoke_namespace(id, AUTHORITY), Ok(()));
    assert_eq!(ledger.revoke_namespace(id, AUTHORITY), Err(Error::AlreadyRevoked));
    assert_eq!(ledger.revoke_namespace(id, STRANGER), Err(Error::NotAuthorized));
    let namespace = ledger.get_namespace(id).unwrap();
    assert!(namespace.revoked);
    assert_eq!(namespace.blob, vec![5]);
    let events = ledger.events_for(id);
    assert_eq!(events.len(), 2);
    assert_eq!(events[1].kind, EventKind::Revoked);
    assert_eq!(events[1].sequence, 1);
}

#[test]
fn namespace_authorization_is_membership_of_a_live_namespace() {
    let mut ledger = new_test_ext();
    let id = ledger.create_namespace::<NetworkPermission>(AUTHORITY, Vec::new()).unwrap();
    assert_eq!(ledger.add_namespace_delegate(id, AUTHORITY, 1), Ok(()));
    assert!(ledger.namespace_is_authorized(id, AUTHORITY));
    assert!(ledger.namespace_is_authorized(id, 1));
    assert!(!ledger.namespace_is_authorized(id, STRANGER));
    assert!(!ledger.namespace_is_authorized(id + 1, AUTHORITY));
    assert_eq!(ledger.remove_namespace_delegate(id, AUTHORITY, 1), Ok(()));
    assert!(!ledger.namespace_is_authorized(id, 1));
    assert!(!ledger.namespace_is_revoked(id));
    assert_eq!(ledger.revoke_namespace(id, AUTHORITY), Ok(()));
    assert!(ledger.namespace_is_revoked(id));
    assert!(!ledger.namespace_is_authorized(id, AUTHORITY));
    assert!(!ledger.namespace_is_revoked(id + 1));
}

#[test]
fn rejected_requests_record_no_event() {
    let mut ledger = new_test_ext();
    let id = ledger.create_namespace::<NetworkPermission>(AUTHORITY, Vec::new()).unwrap();
    assert_eq!(ledger.add_namespace_delegate(id, STRANGER, 1), Err(Error::NotAuthorized));
    assert_eq!(ledger.remove_namespace_delegate(id, AUTHORITY, 1), Err(Error::NotADelegate));
    assert_eq!(ledger.revoke_namespace(id, STRANGER), Err(Error::NotAuthorized));
    assert_eq!(ledger.event_count(id), 1);
}

#[test]
fn bounds_come_from_the_configuration() {
    let config = Config { max_namespace_delegates: 1, max_namespace_blob_size: 2, ..test_config() };
    let mut ledger = Ledger::new(config);
    assert_eq!(ledger.config(), config);
    assert_eq!(ledger.create_namespace_with(true, AUTHORITY, vec![1, 2, 3]), Err(Error::BlobTooLarge));
    let id = ledger.create_namespace_with(true, AUTHORITY, vec![1, 2]).unwrap();
    assert_eq!(ledger.add_namespace_delegate(id, AUTHORITY, 1), Ok(()));
    assert_eq!(ledger.add_namespace_delegate(id, AUTHORITY, 2), Err(Error::CapacityExceeded));
}

#[test]
fn test_bounds_are_the_expected_ones() {
    let config = test_config();
    assert_eq!(config.max_namespace_delegates, 5);
    assert_eq!(config.max_namespace_blob_size, 4096);
    assert_eq!(config.max_registry_delegates, 5);
    assert_eq!(config.max_registry_blob_size, 4096);
    assert_eq!(config.max_entry_blob_size, 4096);
    assert_eq!(config.max_encoded_input_length, 30);
    assert_eq!(config.max_encoded_schema_length, 15_360);
    assert_eq!(config.max_events_history, 6);
    assert_eq!(new_test_ext().config(), config);
}
