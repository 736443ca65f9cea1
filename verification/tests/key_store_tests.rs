//! Tests of the key-info store, the opaque-id bookkeeping, and startup
//! reconciliation.

use parsec_core::key_info::{KeyInfo, KeyInfoStore, KeyTriple};
use parsec_core::key_metadata::{
    bytes_to_id, create_key_id, get_key_id, id_to_bytes, key_id_exists, reconcile_store,
    remove_key_id,
};
use parsec_core::operations::{KeyAlgorithm, KeyAttributes, KeyType, UsageFlags};
use parsec_core::requests::{ProviderId, ResponseStatus};

fn attrs() -> KeyAttributes {
    KeyAttributes {
        key_type: KeyType::RsaKeypair,
        algorithm: KeyAlgorithm::RsaPkcs1v15Sign,
        key_size: 2048,
        usage: UsageFlags { sign_hash: true, verify_hash: true, export: false },
    }
}

fn triple(app: &str, name: &str) -> KeyTriple {
    KeyTriple::new(app.to_string(), ProviderId::Pkcs11, name.to_string())
}

#[test]
fn store_insert_get_remove() {
    let mut store = KeyInfoStore::new();
    let t = triple("a", "k1");
    assert!(!store.contains_triple(&t));
    let prev = store.insert(t.duplicate(), KeyInfo { id: vec![0, 0, 0, 1], attributes: attrs() });
    assert!(prev.is_none());
    assert!(store.contains_triple(&t));
    assert_eq!(store.len(), 1);
    assert_eq!(store.get(&t).unwrap().id, vec![0, 0, 0, 1]);
    let removed = store.remove(&t).unwrap();
    assert_eq!(removed.id, vec![0, 0, 0, 1]);
    assert_eq!(store.len(), 0);
}

#[test]
fn key_names_are_scoped_by_application() {
    let mut store = KeyInfoStore::new();
    store.insert(triple("a", "k"), KeyInfo { id: vec![0, 0, 0, 1], attributes: attrs() });
    store.insert(triple("b", "k"), KeyInfo { id: vec![0, 0, 0, 2], attributes: attrs() });
    assert_eq!(store.len(), 2);
    assert_eq!(store.get(&triple("a", "k")).unwrap().id, vec![0, 0, 0, 1]);
    assert_eq!(store.get(&triple("b", "k")).unwrap().id, vec![0, 0, 0, 2]);
}

#[test]
fn opaque_id_bytes_round_trip() {
    let bytes = id_to_bytes(0xA1B2C3D4);
    assert_eq!(bytes, vec![0xA1, 0xB2, 0xC3, 0xD4]);
    assert_eq!(bytes_to_id(&bytes), 0xA1B2C3D4);
}

#[test]
fn malformed_stored_id_is_reported() {
    let mut store = KeyInfoStore::new();
    let t = triple("a", "bad");
    store.insert(t.duplicate(), KeyInfo { id: vec![1, 2], attributes: attrs() });
    assert_eq!(get_key_id(&t, &store), Err(ResponseStatus::KeyInfoManagerError));
    assert_eq!(
        get_key_id(&triple("a", "absent"), &store),
        Err(ResponseStatus::PsaErrorDoesNotExist)
    );
}

#[test]
fn create_destroy_round_trip() {
    let mut store = KeyInfoStore::new();
    let mut local_ids: Vec<u32> = Vec::new();
    let t = triple("a", "k1");
    let id = create_key_id(t.duplicate(), attrs(), &mut store, &mut local_ids);
    assert_eq!(store.len(), 1);
    assert_eq!(local_ids.len(), 1);
    assert_eq!(local_ids[0], id);
    assert!(key_id_exists(&t, &store));
    assert_eq!(get_key_id(&t, &store), Ok(id));
    remove_key_id(&t, id, &mut store, &mut local_ids);
    assert_eq!(store.len(), 0);
    assert_eq!(local_ids.len(), 0);
}

#[test]
fn fresh_ids_never_collide() {
    let mut store = KeyInfoStore::new();
    let mut local_ids: Vec<u32> = Vec::new();
    let mut seen: Vec<u32> = Vec::new();
    let mut i = 0;
    while i < 64 {
        let t = triple("a", &format!("k{}", i));
        let id = create_key_id(t, attrs(), &mut store, &mut local_ids);
        assert!(!seen.contains(&id));
        seen.push(id);
        i += 1;
    }
    assert_eq!(store.len(), 64);
    assert_eq!(local_ids.len(), 64);
}

#[test]
fn startup_reconciliation_drops_missing_triples() {
    // The store remembers triples A and B; the token only has A's object.
    let mut store = KeyInfoStore::new();
    let a = triple("a", "ka");
    let b = triple("a", "kb");
    store.insert(a.duplicate(), KeyInfo { id: id_to_bytes(7), attributes: attrs() });
    store.insert(b.duplicate(), KeyInfo { id: id_to_bytes(9), attributes: attrs() });
    let to_remove = vec![b.duplicate()];
    let (store2, local_ids) = reconcile_store(&store, &to_remove);
    assert!(store2.contains_triple(&a));
    assert!(!store2.contains_triple(&b));
    assert_eq!(store2.len(), 1);
    assert_eq!(local_ids, vec![7]);
}

#[test]
fn reconciliation_drops_malformed_ids_and_keeps_other_providers() {
    let mut store = KeyInfoStore::new();
    let good = triple("a", "good");
    let bad = triple("a", "bad");
    let core = KeyTriple::new("a".to_string(), ProviderId::Core, "c".to_string());
    store.insert(good.duplicate(), KeyInfo { id: id_to_bytes(3), attributes: attrs() });
    store.insert(bad.duplicate(), KeyInfo { id: vec![1], attributes: attrs() });
    store.insert(core.duplicate(), KeyInfo { id: vec![], attributes: attrs() });
    let (store2, local_ids) = reconcile_store(&store, &Vec::new());
    assert!(store2.contains_triple(&good));
    assert!(!store2.contains_triple(&bad));
    assert!(store2.contains_triple(&core));
    assert_eq!(local_ids, vec![3]);
}
