use entries::error::Error;
use entries::mock::{new_test_ext, NetworkPermission, MAX_REGISTRY_ENTRY_BLOB_SIZE};

const A: u64 = 1;
const D1: u64 = 2;
const X: u64 = 3;

#[test]
fn delegate_creates_registry_and_entry_until_namespace_is_revoked() {
    let mut ledger = new_test_ext();
    let ns1 = ledger.create_namespace::<NetworkPermission>(A, vec![1, 2, 3]).unwrap();
    assert_eq!(ledger.get_namespace(ns1).unwrap().delegates.len(), 0);
    assert_eq!(ledger.add_namespace_delegate(ns1, A, D1), Ok(()));
    let r1 = ledger.create_registry(ns1, D1, vec![4, 5]).unwrap();
    let e1 = ledger.create_entry(r1, D1, vec![0u8; 10]).unwrap();
    assert_eq!(ledger.revoke_entry(e1, X), Err(Error::NotAuthorized));
    assert_eq!(ledger.revoke_namespace(ns1, A), Ok(()));
    assert_eq!(ledger.create_entry(r1, D1, vec![0u8; 10]), Err(Error::NamespaceRevoked));
}

#[test]
fn oversized_entry_blob_is_rejected_and_no_identity_is_issued() {
    let mut ledger = new_test_ext();
    let ns1 = ledger.create_namespace::<NetworkPermission>(A, Vec::new()).unwrap();
    let r1 = ledger.create_registry(ns1, A, Vec::new()).unwrap();
    let before = ledger.next_identifier();
    let blob = vec![7u8; MAX_REGISTRY_ENTRY_BLOB_SIZE as usize + 1];
    assert_eq!(ledger.create_entry(r1, A, blob), Err(Error::BlobTooLarge));
    assert_eq!(ledger.next_identifier(), before);
    assert_eq!(ledger.get_entry(before).err(), Some(Error::NotFound));
    let fits = vec![7u8; MAX_REGISTRY_ENTRY_BLOB_SIZE as usize];
    assert_eq!(ledger.create_entry(r1, A, fits), Ok(before));
}
