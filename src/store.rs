use crate::error::TofndError;
use vstd::prelude::*;

verus! {

/// One slot of the store: a key that is reserved, and the committed value
/// once there is one.
struct Slot {
    key: Vec<u8>,
    value: Option<Vec<u8>>,
}

/// The right to commit one value under one key, granted by `reserve_key`
/// and consumed by `put`.
pub struct Reservation {
    key: Vec<u8>,
}

impl Reservation {
    pub closed spec fn key(&self) -> Seq<u8> {
        self.key@
    }
}

/// A keyed store with a two-phase write (reserve, then commit) and the
/// process-wide secret seed.
pub struct KvStore {
    seed: Option<[u8; 64]>,
    slots: Vec<Slot>,
}

/// A reservation of `key` on a store with the given slots: whether it is
/// granted, and the slots afterwards.
pub open spec fn reserve_outcome(slots: Map<Seq<u8>, Option<Seq<u8>>>, key: Seq<u8>) -> (
    bool,
    Map<Seq<u8>, Option<Seq<u8>>>,
) {
    if slots.contains_key(key) {
        (false, slots)
    } else {
        (true, slots.insert(key, None))
    }
}

/// Of two reservations of one key in a row, the second is never granted, and
/// the first is granted exactly when the key was free: at most one of them
/// succeeds, and exactly one on a free key.
pub proof fn lemma_reserve_exclusive(slots: Map<Seq<u8>, Option<Seq<u8>>>, key: Seq<u8>)
    ensures
        reserve_outcome(slots, key).0 == !slots.contains_key(key),
        !reserve_outcome(reserve_outcome(slots, key).1, key).0,
        reserve_outcome(reserve_outcome(slots, key).1, key).1 == reserve_outcome(slots, key).1,
{
}

/// What a slot holds: `None` while it is reserved and empty, `Some(v)` once
/// `v` is committed.
pub open spec fn slot_value(v: Option<Vec<u8>>) -> Option<Seq<u8>> {
    match v {
        Some(b) => Some(b@),
        None => None,
    }
}

/// The map that a sequence of slots stands for, from key to slot state.
spec fn slot_map(s: Seq<Slot>) -> Map<Seq<u8>, Option<Seq<u8>>>
    decreases s.len(),
{
    if s.len() == 0 {
        Map::empty()
    } else {
        slot_map(s.drop_last()).insert(s.last().key@, slot_value(s.last().value))
    }
}

/// No key appears in two slots.
spec fn keys_unique(s: Seq<Slot>) -> bool {
    forall|i: int, j: int| 0 <= i < j < s.len() ==> s[i].key@ != s[j].key@
}

proof fn lemma_slot_map_lookup(s: Seq<Slot>, k: Seq<u8>)
    requires
        keys_unique(s),
    ensures
        slot_map(s).contains_key(k) <==> exists|i: int| 0 <= i < s.len() && s[i].key@ == k,
        forall|i: int|
            0 <= i < s.len() && s[i].key@ == k ==> slot_map(s)[k] == slot_value(s[i].value),
    decreases s.len(),
{
    if s.len() > 0 {
        let t = s.drop_last();
        assert(keys_unique(t));
        lemma_slot_map_lookup(t, k);
        if slot_map(s).contains_key(k) && k != s.last().key@ {
            let i = choose|i: int| 0 <= i < t.len() && t[i].key@ == k;
            assert(s[i].key@ == k);
        }
        if exists|i: int| 0 <= i < s.len() && s[i].key@ == k {
            if k != s.last().key@ {
                let i = choose|i: int| 0 <= i < s.len() && s[i].key@ == k;
                assert(t[i].key@ == k);
            }
        }
        assert forall|i: int| 0 <= i < s.len() && s[i].key@ == k implies slot_map(s)[k]
            == slot_value(s[i].value) by {
            if i < s.len() - 1 {
                assert(t[i] == s[i]);
            }
        }
    }
}

proof fn lemma_slot_map_update(s: Seq<Slot>, i: int, n: Slot)
    requires
        keys_unique(s),
        0 <= i < s.len(),
        n.key@ == s[i].key@,
    ensures
        keys_unique(s.update(i, n)),
        slot_map(s.update(i, n)) == slot_map(s).insert(n.key@, slot_value(n.value)),
    decreases s.len(),
{
    let u = s.update(i, n);
    assert forall|a: int, b: int| 0 <= a < b < u.len() implies u[a].key@ != u[b].key@ by {
        assert(u[a].key@ == s[a].key@ && u[b].key@ == s[b].key@);
    }
    if i == s.len() - 1 {
        assert(u.drop_last() =~= s.drop_last());
    } else {
        assert(u.drop_last() =~= s.drop_last().update(i, n));
        lemma_slot_map_update(s.drop_last(), i, n);
        assert(s.last().key@ != s[i].key@);
        assert(slot_map(u) =~= slot_map(s).insert(n.key@, slot_value(n.value)));
    }
}

fn bytes_equal(a: &Vec<u8>, b: &Vec<u8>) -> (r: bool)
    ensures
        r == (a@ == b@),
{
    if a.len() != b.len() {
        return false;
    }
    let mut i: usize = 0;
    while i < a.len()
        invariant
            a.len() == b.len(),
            0 <= i <= a.len(),
            forall|j: int| 0 <= j < i ==> a@[j] == b@[j],
        decreases a.len() - i,
    {
        if a[i] != b[i] {
            return false;
        }
        i = i + 1;
    }
    assert(a@ =~= b@);
    true
}

impl KvStore {
    /// The store's invariant: every key names one slot.
    pub closed spec fn wf(&self) -> bool {
        keys_unique(self.slots@)
    }

    /// The slots, from key to state.
    pub closed spec fn slots(&self) -> Map<Seq<u8>, Option<Seq<u8>>> {
        slot_map(self.slots@)
    }

    /// The seed, once it is established.
    pub closed spec fn seed_view(&self) -> Option<Seq<u8>> {
        match self.seed {
            Some(s) => Some(s@),
            None => None,
        }
    }

    /// An empty store whose seed is not established yet.
    pub fn new() -> (r: KvStore)
        ensures
            r.wf(),
            r.slots() == Map::<Seq<u8>, Option<Seq<u8>>>::empty(),
            r.seed_view() is None,
    {
        KvStore { seed: None, slots: Vec::new() }
    }

    /// An empty store with the given seed.
    pub fn with_seed(seed: [u8; 64]) -> (r: KvStore)
        ensures
            r.wf(),
            r.slots() == Map::<Seq<u8>, Option<Seq<u8>>>::empty(),
            r.seed_view() == Some(seed@),
    {
        KvStore { seed: Some(seed), slots: Vec::new() }
    }

    /// The process-wide secret seed.
    pub fn seed(&self) -> (r: Result<&[u8; 64], TofndError>)
        ensures
            self.seed_view() is None <==> r == Err::<&[u8; 64], TofndError>(
                TofndError::Uninitialized,
            ),
            r is Ok ==> self.seed_view() == Some(r->Ok_0@),
            r is Err ==> r == Err::<&[u8; 64], TofndError>(TofndError::Uninitialized),
    {
        match &self.seed {
            Some(s) => Ok(s),
            None => Err(TofndError::Uninitialized),
        }
    }

    /// Where `key` stands among the slots, if it does.
    fn find(&self, key: &Vec<u8>) -> (r: Option<usize>)
        requires
            self.wf(),
        ensures
            r is None <==> !self.slots().contains_key(key@),
            r matches Some(i) ==> i < self.slots@.len() && self.slots@[i as int].key@ == key@,
    {
        proof {
            lemma_slot_map_lookup(self.slots@, key@);
        }
        let mut i: usize = 0;
        while i < self.slots.len()
            invariant
                keys_unique(self.slots@),
                0 <= i <= self.slots@.len(),
                forall|j: int| 0 <= j < i ==> self.slots@[j].key@ != key@,
            decreases self.slots@.len() - i,
        {
            if bytes_equal(&self.slots[i].key, key) {
                proof {
                    lemma_slot_map_lookup(self.slots@, key@);
                    assert(self.slots@[i as int].key@ == key@);
                }
                return Some(i);
            }
            i = i + 1;
        }
        None
    }

    /// The state of the slot of `key`: `None` where it is free, `Some(None)`
    /// where it is reserved and empty, `Some(Some(v))` where `v` is committed.
    pub fn get(&self, key: &Vec<u8>) -> (r: Option<&Option<Vec<u8>>>)
        requires
            self.wf(),
        ensures
            match r {
                None => !self.slots().contains_key(key@),
                Some(v) => self.slots().get(key@) == Some(slot_value(*v)),
            },
    {
        match self.find(key) {
            Some(i) => {
                proof {
                    lemma_slot_map_lookup(self.slots@, key@);
                }
                Some(&self.slots[i].value)
            },
            None => None,
        }
    }

    /// Claims the slot of `key` if it is free; fails with `DuplicateKey`,
    /// and changes nothing, if it is reserved or committed.
    pub fn reserve_key(&mut self, key: Vec<u8>) -> (r: Result<Reservation, TofndError>)
        requires
            old(self).wf(),
        ensures
            final(self).wf(),
            final(self).seed_view() == old(self).seed_view(),
            (r is Ok, final(self).slots()) == reserve_outcome(old(self).slots(), key@),
            r matches Ok(res) ==> res.key() == key@,
            r is Err ==> r == Err::<Reservation, TofndError>(TofndError::DuplicateKey),
    {
        match self.find(&key) {
            Some(_) => Err(TofndError::DuplicateKey),
            None => {
                let ghost s0 = self.slots@;
                let res = Reservation { key: key.clone() };
                self.slots.push(Slot { key, value: None });
                proof {
                    let s1 = self.slots@;
                    assert(s1.drop_last() =~= s0);
                    lemma_slot_map_lookup(s0, res.key@);
                    assert forall|i: int, j: int| 0 <= i < j < s1.len() implies s1[i].key@
                        != s1[j].key@ by {
                        if j == s1.len() - 1 {
                            assert(s0[i] == s1[i]);
                        }
                    }
                }
                Ok(res)
            },
        }
    }

    /// Commits `value` into the slot that `reservation` names. Succeeds exactly
    /// when that slot is reserved and still empty; otherwise fails with
    /// `InvalidReservation` and changes nothing.
    pub fn put(&mut self, reservation: Reservation, value: Vec<u8>) -> (r: Result<(), TofndError>)
        requires
            old(self).wf(),
        ensures
            final(self).wf(),
            final(self).seed_view() == old(self).seed_view(),
            r is Ok <==> old(self).slots().get(reservation.key()) == Some(
                None::<Seq<u8>>,
            ),
            r is Ok ==> final(self).slots() == old(self).slots().insert(
                reservation.key(),
                Some(value@),
            ),
            r is Err ==> r == Err::<(), TofndError>(TofndError::InvalidReservation)
                && final(self).slots() == old(self).slots(),
    {
        proof {
            lemma_slot_map_lookup(self.slots@, reservation.key@);
        }
        match self.find(&reservation.key) {
            Some(i) => {
                if self.slots[i].value.is_some() {
                    return Err(TofndError::InvalidReservation);
                }
                let ghost s0 = self.slots@;
                let slot = Slot { key: reservation.key, value: Some(value) };
                proof {
                    lemma_slot_map_update(s0, i as int, slot);
                }
                self.slots.set(i, slot);
                Ok(())
            },
            None => Err(TofndError::InvalidReservation),
        }
    }
}

} // verus!
