use tofnd::error::TofndError;
use tofnd::keygen::{KeygenRequest, MultisigService};
use tofnd::store::KvStore;

fn seed(byte: u8) -> [u8; 64] {
    [byte; 64]
}

fn request(label: &str) -> KeygenRequest {
    KeygenRequest {
        key_uid: label.to_string(),
    }
}

fn service() -> MultisigService {
    MultisigService::new(KvStore::with_seed(seed(7)))
}

#[test]
fn keygen_returns_verifying_key_once_per_label() {
    let mut s = service();
    let vk1 = s.handle_keygen(&request("alice-1")).unwrap();
    assert_eq!(vk1.len(), 33);
    let again = s.handle_keygen(&request("alice-1"));
    assert_eq!(again, Err(TofndError::DuplicateKey));
    let vk2 = s.handle_keygen(&request("alice-2")).unwrap();
    assert_eq!(vk2.len(), 33);
    assert_ne!(vk1, vk2);
}

#[test]
fn keygen_matches_derivation() {
    let mut s = service();
    let vk = s.handle_keygen(&request("alice-1")).unwrap();
    let pair = tofnd::keygen::derive(&seed(7), b"alice-1").unwrap();
    assert_eq!(vk, pair.encoded_verifying_key().to_vec());
}

#[test]
fn keygen_commits_signing_key_before_returning() {
    let mut s = service();
    let vk = s.handle_keygen(&request("bob-0001")).unwrap();
    let stored = s.kv().get(&b"bob-0001".to_vec()).cloned();
    let committed = stored.unwrap().unwrap();
    assert!(!committed.is_empty());
    assert_ne!(committed, vk);
    assert_ne!(committed, b"bob-0001".to_vec());
}

#[test]
fn second_keygen_leaves_committed_key_unchanged() {
    let mut s = service();
    s.handle_keygen(&request("carol-1")).unwrap();
    let before = s.kv().get(&b"carol-1".to_vec()).cloned();
    assert_eq!(
        s.handle_keygen(&request("carol-1")),
        Err(TofndError::DuplicateKey)
    );
    let after = s.kv().get(&b"carol-1".to_vec()).cloned();
    assert_eq!(before, after);
}

#[test]
fn keygen_without_seed_is_uninitialized() {
    let mut s = MultisigService::new(KvStore::new());
    assert_eq!(
        s.handle_keygen(&request("alice-1")),
        Err(TofndError::Uninitialized)
    );
    assert!(s.kv().get(&b"alice-1".to_vec()).is_none());
}

#[test]
fn keygen_with_short_label_is_derivation_error() {
    let mut s = service();
    assert_eq!(
        s.handle_keygen(&request("abc")),
        Err(TofndError::Derivation)
    );
    assert!(s.kv().get(&b"abc".to_vec()).is_none());
}

#[test]
fn keygen_with_long_label_is_derivation_error() {
    let mut s = service();
    let label = "x".repeat(257);
    assert_eq!(
        s.handle_keygen(&request(&label)),
        Err(TofndError::Derivation)
    );
    assert!(s.kv().get(&label.as_bytes().to_vec()).is_none());
}

#[test]
fn keygen_accepts_label_length_bounds() {
    let mut s = service();
    assert!(s.handle_keygen(&request("abcd")).is_ok());
    let label = "y".repeat(256);
    assert!(s.handle_keygen(&request(&label)).is_ok());
}

#[test]
fn derive_is_deterministic() {
    let a = tofnd::keygen::derive(&seed(1), b"session-a").unwrap();
    let b = tofnd::keygen::derive(&seed(1), b"session-a").unwrap();
    assert_eq!(a.encoded_verifying_key(), b.encoded_verifying_key());
    let c = tofnd::keygen::derive(&seed(2), b"session-a").unwrap();
    assert_ne!(a.encoded_verifying_key(), c.encoded_verifying_key());
}

#[test]
fn derive_refuses_short_nonce() {
    assert!(matches!(tofnd::keygen::derive(&seed(1), b"ab"), Err(TofndError::Derivation)));
}

#[test]
fn commit_key_pair_reserves_commits_and_reveals() {
    let mut s = service();
    let pair = tofnd::keygen::derive(&seed(7), b"dave-1").unwrap();
    let vk = s.commit_key_pair(b"dave-1".to_vec(), &pair).unwrap();
    assert_eq!(vk, pair.encoded_verifying_key().to_vec());
    assert!(matches!(s.kv().get(&b"dave-1".to_vec()), Some(Some(_))));
    assert_eq!(
        s.commit_key_pair(b"dave-1".to_vec(), &pair),
        Err(TofndError::DuplicateKey)
    );
}
