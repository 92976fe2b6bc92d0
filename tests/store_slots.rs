use tofnd::error::TofndError;
use tofnd::store::KvStore;

#[test]
fn reserve_twice_grants_one() {
    let mut kv = KvStore::new();
    let first = kv.reserve_key(b"id-1".to_vec());
    let second = kv.reserve_key(b"id-1".to_vec());
    assert!(first.is_ok());
    assert!(matches!(second, Err(TofndError::DuplicateKey)));
    assert_eq!(kv.get(&b"id-1".to_vec()), Some(&None));
}

#[test]
fn reserve_then_put_commits() {
    let mut kv = KvStore::new();
    let r = kv.reserve_key(b"id-1".to_vec()).unwrap();
    assert_eq!(kv.put(r, vec![1, 2, 3]), Ok(()));
    assert_eq!(kv.get(&b"id-1".to_vec()), Some(&Some(vec![1, 2, 3])));
}

#[test]
fn reserve_after_commit_is_duplicate() {
    let mut kv = KvStore::new();
    let r = kv.reserve_key(b"id-1".to_vec()).unwrap();
    kv.put(r, vec![9]).unwrap();
    assert!(matches!(
        kv.reserve_key(b"id-1".to_vec()),
        Err(TofndError::DuplicateKey)
    ));
    assert_eq!(kv.get(&b"id-1".to_vec()), Some(&Some(vec![9])));
}

#[test]
fn put_on_foreign_store_is_invalid() {
    let mut a = KvStore::new();
    let mut b = KvStore::new();
    let r = a.reserve_key(b"id-1".to_vec()).unwrap();
    assert_eq!(b.put(r, vec![1]), Err(TofndError::InvalidReservation));
    assert_eq!(b.get(&b"id-1".to_vec()), None);
}

#[test]
fn put_on_committed_slot_is_invalid() {
    let mut a = KvStore::new();
    let mut b = KvStore::new();
    let ra = a.reserve_key(b"id-1".to_vec()).unwrap();
    let rb = b.reserve_key(b"id-1".to_vec()).unwrap();
    b.put(rb, vec![5]).unwrap();
    assert_eq!(b.put(ra, vec![6]), Err(TofndError::InvalidReservation));
    assert_eq!(b.get(&b"id-1".to_vec()), Some(&Some(vec![5])));
}

#[test]
fn distinct_keys_are_independent() {
    let mut kv = KvStore::new();
    assert!(kv.reserve_key(b"a".to_vec()).is_ok());
    assert!(kv.reserve_key(b"b".to_vec()).is_ok());
    assert_eq!(kv.get(&b"c".to_vec()), None);
}

#[test]
fn seed_absent_is_uninitialized() {
    let kv = KvStore::new();
    assert_eq!(kv.seed(), Err(TofndError::Uninitialized));
}

#[test]
fn seed_present_is_returned() {
    let kv = KvStore::with_seed([3; 64]);
    assert_eq!(kv.seed(), Ok(&[3u8; 64]));
}
