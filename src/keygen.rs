use crate::error::TofndError;
use crate::store::{KvStore, Reservation};
use tofn::ecdsa::KeyPair;
use tofn::sdk::api::{SecretRecoveryKey, TofnFatal};
use vstd::prelude::*;
use vstd::slice::slice_to_vec;
use vstd::utf8::encode_utf8;

verus! {

#[verifier::external_type_specification]
#[verifier::external_body]
pub struct ExKeyPair(KeyPair);

#[verifier::external_type_specification]
#[verifier::external_body]
pub struct ExTofnFatal(TofnFatal);

/// The key pair that tofn derives from a 64-byte seed and a session nonce,
/// or `None` where it refuses them.
pub uninterp spec fn keygen_result(seed: Seq<u8>, nonce: Seq<u8>) -> Option<KeyPair>;

/// tofn's serialization of the signing key of a key pair, or `None` where it
/// cannot encode it.
pub uninterp spec fn signing_key_encoding(kp: KeyPair) -> Option<Seq<u8>>;

/// The SEC1-encoded compressed verifying key of a key pair.
pub uninterp spec fn verifying_key_of(kp: KeyPair) -> Seq<u8>;

/// Relies on `tofn::ecdsa::keygen`, after `SecretRecoveryKey::try_from` on
/// the 64 seed bytes: the pair depends on the seed and the nonce alone, and a
/// nonce shorter than 4 or longer than 256 bytes is refused.
#[verifier::external_body]
fn tofn_keygen(seed: &[u8; 64], nonce: &[u8]) -> (r: Result<KeyPair, TofnFatal>)
    ensures
        r is Ok <==> keygen_result(seed@, nonce@) is Some,
        r matches Ok(kp) ==> keygen_result(seed@, nonce@) == Some(kp),
        !(4 <= nonce@.len() <= 256) ==> r is Err,
{
    let key = SecretRecoveryKey::try_from(&seed[..]).map_err(|_| TofnFatal)?;
    tofn::ecdsa::keygen(&key, nonce)
}

/// Relies on `tofn::sdk::api::serialize` of `KeyPair::signing_key`: the
/// encoding depends on the key pair alone.
#[verifier::external_body]
fn tofn_serialize_signing_key(kp: &KeyPair) -> (r: Result<Vec<u8>, TofnFatal>)
    ensures
        r is Ok <==> signing_key_encoding(*kp) is Some,
        r matches Ok(b) ==> signing_key_encoding(*kp) == Some(b@),
{
    tofn::sdk::api::serialize(kp.signing_key())
}

/// Relies on `KeyPair::encoded_verifying_key`: a 33-byte array fixed by the
/// key pair.
#[verifier::external_body]
fn tofn_encoded_verifying_key(kp: &KeyPair) -> (r: Vec<u8>)
    ensures
        r@ == verifying_key_of(*kp),
        r@.len() == 33,
{
    kp.encoded_verifying_key().to_vec()
}

/// A request to create a key for one session.
pub struct KeygenRequest {
    pub key_uid: String,
}

/// The session nonce of a request: the UTF-8 bytes of its label.
pub open spec fn session_nonce(request: &KeygenRequest) -> Seq<u8> {
    encode_utf8(request.key_uid@)
}

/// A byte result as a value.
pub open spec fn bytes_result(r: Result<Vec<u8>, TofndError>) -> Result<Seq<u8>, TofndError> {
    match r {
        Ok(b) => Ok(b@),
        Err(e) => Err(e),
    }
}

/// Steps that follow derivation: reserve the slot of `nonce`, encode the
/// signing key, commit it, and only then hand out the verifying key. Gives
/// the result and the slots afterwards.
pub open spec fn commit_outcome(
    slots: Map<Seq<u8>, Option<Seq<u8>>>,
    nonce: Seq<u8>,
    kp: KeyPair,
) -> (Result<Seq<u8>, TofndError>, Map<Seq<u8>, Option<Seq<u8>>>) {
    if slots.contains_key(nonce) {
        (Err(TofndError::DuplicateKey), slots)
    } else {
        match signing_key_encoding(kp) {
            None => (Err(TofndError::Serialization), slots.insert(nonce, None)),
            Some(sk) => (Ok(verifying_key_of(kp)), slots.insert(nonce, Some(sk))),
        }
    }
}

/// One whole keygen request on a store with the given slots and seed: the
/// result and the slots afterwards.
pub open spec fn keygen_outcome(
    slots: Map<Seq<u8>, Option<Seq<u8>>>,
    seed: Option<Seq<u8>>,
    nonce: Seq<u8>,
) -> (Result<Seq<u8>, TofndError>, Map<Seq<u8>, Option<Seq<u8>>>) {
    match seed {
        None => (Err(TofndError::Uninitialized), slots),
        Some(s) => match keygen_result(s, nonce) {
            None => (Err(TofndError::Derivation), slots),
            Some(kp) => commit_outcome(slots, nonce, kp),
        },
    }
}

/// Derivation is deterministic: one seed and one nonce give one key pair,
/// with one verifying key and one signing key encoding.
pub proof fn lemma_derive_deterministic(seed: Seq<u8>, nonce: Seq<u8>, a: KeyPair, b: KeyPair)
    requires
        keygen_result(seed, nonce) == Some(a),
        keygen_result(seed, nonce) == Some(b),
    ensures
        a == b,
        verifying_key_of(a) == verifying_key_of(b),
        signing_key_encoding(a) == signing_key_encoding(b),
{
}

/// A second request with the same label never succeeds; after a first that
/// succeeded, it fails with `DuplicateKey` and leaves every slot, the
/// committed key included, as it was.
pub proof fn lemma_keygen_at_most_once(
    slots: Map<Seq<u8>, Option<Seq<u8>>>,
    seed: Option<Seq<u8>>,
    nonce: Seq<u8>,
)
    ensures
        keygen_outcome(keygen_outcome(slots, seed, nonce).1, seed, nonce).0 is Err,
        keygen_outcome(slots, seed, nonce).0 is Ok ==> keygen_outcome(
            keygen_outcome(slots, seed, nonce).1,
            seed,
            nonce,
        ) == (
            Err::<Seq<u8>, TofndError>(TofndError::DuplicateKey),
            keygen_outcome(slots, seed, nonce).1,
        ),
{
}

/// A request that returns a verifying key has committed, in the slot of its
/// label, the encoded signing key of the same key pair.
pub proof fn lemma_commit_before_reveal(
    slots: Map<Seq<u8>, Option<Seq<u8>>>,
    seed: Option<Seq<u8>>,
    nonce: Seq<u8>,
)
    requires
        keygen_outcome(slots, seed, nonce).0 is Ok,
    ensures
        seed is Some,
        keygen_result(seed->0, nonce) is Some,
        keygen_outcome(slots, seed, nonce).0 == Ok::<Seq<u8>, TofndError>(
            verifying_key_of(keygen_result(seed->0, nonce)->0),
        ),
        signing_key_encoding(keygen_result(seed->0, nonce)->0) is Some,
        keygen_outcome(slots, seed, nonce).1.get(nonce) == Some(
            signing_key_encoding(keygen_result(seed->0, nonce)->0),
        ),
        !slots.contains_key(nonce),
{
}

/// A request that fails commits nothing: every committed slot afterwards was
/// committed before, with the same value, so no signing key of the failed
/// request can be read from the store.
pub proof fn lemma_failure_commits_nothing(
    slots: Map<Seq<u8>, Option<Seq<u8>>>,
    seed: Option<Seq<u8>>,
    nonce: Seq<u8>,
)
    requires
        keygen_outcome(slots, seed, nonce).0 is Err,
    ensures
        forall|k: Seq<u8>|
            #[trigger] keygen_outcome(slots, seed, nonce).1.contains_key(k)
                && keygen_outcome(slots, seed, nonce).1[k] is Some ==> slots.contains_key(k)
                && slots[k] == keygen_outcome(slots, seed, nonce).1[k],
{
}

/// Derives the key pair of a session from the seed; fails with `Derivation`
/// exactly where tofn refuses the inputs.
pub fn derive(seed: &[u8; 64], session_nonce: &[u8]) -> (r: Result<KeyPair, TofndError>)
    ensures
        r is Ok <==> keygen_result(seed@, session_nonce@) is Some,
        r matches Ok(kp) ==> keygen_result(seed@, session_nonce@) == Some(kp),
        r is Err ==> r == Err::<KeyPair, TofndError>(TofndError::Derivation),
        !(4 <= session_nonce@.len() <= 256) ==> r is Err,
{
    match tofn_keygen(seed, session_nonce) {
        Ok(kp) => Ok(kp),
        Err(_) => Err(TofndError::Derivation),
    }
}

/// The keygen service: owns the store that its requests write to.
pub struct MultisigService {
    kv_manager: KvStore,
}

impl MultisigService {
    /// The service's invariant: its store is well formed.
    pub closed spec fn wf(&self) -> bool {
        self.kv_manager.wf()
    }

    /// The store's slots.
    pub closed spec fn slots(&self) -> Map<Seq<u8>, Option<Seq<u8>>> {
        self.kv_manager.slots()
    }

    /// The store's seed.
    pub closed spec fn seed_view(&self) -> Option<Seq<u8>> {
        self.kv_manager.seed_view()
    }

    /// A service over the given store.
    pub fn new(kv_manager: KvStore) -> (r: MultisigService)
        requires
            kv_manager.wf(),
        ensures
            r.wf(),
            r.slots() == kv_manager.slots(),
            r.seed_view() == kv_manager.seed_view(),
    {
        MultisigService { kv_manager }
    }

    /// The store.
    pub fn kv(&self) -> (r: &KvStore)
        ensures
            r.slots() == self.slots(),
            r.seed_view() == self.seed_view(),
            self.wf() ==> r.wf(),
    {
        &self.kv_manager
    }

    /// Reserves the slot of `session_nonce`, commits the encoded signing key
    /// of `key_pair` into it, and then returns the verifying key.
    pub fn commit_key_pair(&mut self, session_nonce: Vec<u8>, key_pair: &KeyPair) -> (r: Result<
        Vec<u8>,
        TofndError,
    >)
        requires
            old(self).wf(),
        ensures
            final(self).wf(),
            final(self).seed_view() == old(self).seed_view(),
            (bytes_result(r), final(self).slots()) == commit_outcome(
                old(self).slots(),
                session_nonce@,
                *key_pair,
            ),
    {
        let reservation = match self.kv_manager.reserve_key(session_nonce) {
            Ok(res) => res,
            Err(e) => return Err(e),
        };
        let signing_key_bytes = match tofn_serialize_signing_key(key_pair) {
            Ok(b) => b,
            Err(_) => return Err(TofndError::Serialization),
        };
        match self.kv_manager.put(reservation, signing_key_bytes) {
            Ok(()) => {},
            Err(e) => return Err(e),
        }
        Ok(tofn_encoded_verifying_key(key_pair))
    }

    /// Handles one keygen request: fetch the seed, derive the key pair of the
    /// request's label, reserve its slot, commit the signing key, and return
    /// the verifying key.
    pub fn handle_keygen(&mut self, request: &KeygenRequest) -> (r: Result<Vec<u8>, TofndError>)
        requires
            old(self).wf(),
        ensures
            final(self).wf(),
            final(self).seed_view() == old(self).seed_view(),
            (bytes_result(r), final(self).slots()) == keygen_outcome(
                old(self).slots(),
                old(self).seed_view(),
                session_nonce(request),
            ),
    {
        let session_nonce = slice_to_vec(request.key_uid.as_str().as_bytes());
        let seed: [u8; 64] = match self.kv_manager.seed() {
            Ok(s) => *s,
            Err(e) => return Err(e),
        };
        let key_pair = match derive(&seed, session_nonce.as_slice()) {
            Ok(kp) => kp,
            Err(e) => return Err(e),
        };
        self.commit_key_pair(session_nonce, &key_pair)
    }
}

} // verus!
