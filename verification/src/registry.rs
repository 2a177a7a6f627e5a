use vstd::prelude::*;
use crate::key::MessageKey;

verus! {

/// The handlers an actor knows, each under its own key: a map from key names
/// to handlers, in which a key occurs at most once.
///
/// The entries are kept in a `Vec` and found by comparing keys, rather than
/// in a `HashMap`: vstd specifies `HashMap`'s methods only for key types that
/// obey its key model, which it establishes for integers and `bool` but not
/// for `String` keys or types built on them, so with a `MessageKey` key no
/// lookup could be tied to an insertion.
pub struct HandlerRegistry<H> {
    entries: Vec<(MessageKey, H)>,
}

impl<H> HandlerRegistry<H> {
    /// No key occurs twice among the entries.
    #[verifier::type_invariant]
    spec fn keys_distinct(self) -> bool {
        forall|i: int, j: int|
            0 <= i < j < self.entries@.len() ==> #[trigger] self.entries@[i].0@
                != #[trigger] self.entries@[j].0@
    }

    /// Whether some entry has the key `k`.
    spec fn has_key(self, k: Seq<char>) -> bool {
        exists|i: int| 0 <= i < self.entries@.len() && #[trigger] self.entries@[i].0@ == k
    }

    /// The position of the entry with key `k`, where there is one.
    spec fn position(self, k: Seq<char>) -> int {
        choose|i: int| 0 <= i < self.entries@.len() && #[trigger] self.entries@[i].0@ == k
    }

    /// The registry as a map from key names to handlers.
    pub closed spec fn as_map(self) -> Map<Seq<char>, H> {
        Map::new(|k: Seq<char>| self.has_key(k), |k: Seq<char>| self.entries@[self.position(k)].1)
    }

    /// The entry at `i` is the one that the map gives for its key.
    proof fn lemma_entry_in_map(self, i: int)
        requires
            self.keys_distinct(),
            0 <= i < self.entries@.len(),
        ensures
            self.as_map().contains_key(self.entries@[i].0@),
            self.as_map()[self.entries@[i].0@] == self.entries@[i].1,
    {
        let k = self.entries@[i].0@;
        assert(self.has_key(k));
        let p = self.position(k);
        if p != i {
            if p < i {
                assert(self.entries@[p].0@ != self.entries@[i].0@);
            } else {
                assert(self.entries@[i].0@ != self.entries@[p].0@);
            }
        }
    }

    /// A registry with no handlers.
    pub fn new() -> (r: Self)
        ensures
            r@ == Map::<Seq<char>, H>::empty(),
    {
        let r = HandlerRegistry { entries: Vec::new() };
        assert(r.as_map() =~= Map::<Seq<char>, H>::empty());
        r
    }

    /// The position of the entry with `key`, if any.
    fn find(&self, key: &MessageKey) -> (r: Option<usize>)
        ensures
            r is None ==> !self@.contains_key(key@),
            r matches Some(i) ==> i < self.entries@.len() && self.entries@[i as int].0@ == key@,
    {
        proof { use_type_invariant(self); }
        let mut i: usize = 0;
        while i < self.entries.len()
            invariant
                i <= self.entries@.len(),
                forall|j: int| 0 <= j < i ==> #[trigger] self.entries@[j].0@ != key@,
            decreases self.entries@.len() - i,
        {
            if self.entries[i].0.same(key) {
                return Some(i);
            }
            i = i + 1;
        }
        assert(!self.has_key(key@));
        None
    }

    /// Whether a handler is registered under `key`.
    pub fn contains_key(&self, key: &MessageKey) -> (r: bool)
        ensures
            r == self@.contains_key(key@),
    {
        proof { use_type_invariant(self); }
        match self.find(key) {
            Some(i) => {
                proof { self.lemma_entry_in_map(i as int); }
                true
            },
            None => false,
        }
    }

    /// The handler registered under `key`, if any.
    pub fn get(&self, key: &MessageKey) -> (r: Option<&H>)
        ensures
            r is Some == self@.contains_key(key@),
            r matches Some(h) ==> *h == self@[key@],
    {
        proof { use_type_invariant(self); }
        match self.find(key) {
            Some(i) => {
                proof { self.lemma_entry_in_map(i as int); }
                Some(&self.entries[i].1)
            },
            None => None,
        }
    }

    /// The number of registered handlers.
    pub fn len(&self) -> (r: usize)
        ensures
            r == self@.len(),
    {
        proof {
            use_type_invariant(self);
            self.lemma_len();
        }
        self.entries.len()
    }

    /// The map has one key per entry.
    proof fn lemma_len(self)
        requires
            self.keys_distinct(),
        ensures
            self.as_map().dom().finite(),
            self.as_map().len() == self.entries@.len(),
    {
        let keys = self.entries@.map_values(|e: (MessageKey, H)| e.0@);
        assert(self.as_map().dom() =~= keys.to_set()) by {
            assert forall|k: Seq<char>| self.as_map().dom().contains(k) implies keys.to_set().contains(k) by {
                let i = self.position(k);
                assert(keys[i] == k);
            }
            assert forall|k: Seq<char>| keys.to_set().contains(k) implies self.as_map().dom().contains(k) by {
                let i = choose|i: int| 0 <= i < keys.len() && keys[i] == k;
                assert(self.entries@[i].0@ == k);
            }
        }
        assert(keys.no_duplicates()) by {
            assert forall|i: int, j: int| 0 <= i < keys.len() && 0 <= j < keys.len() && i != j implies keys[i] != keys[j] by {
                if i < j {
                    assert(self.entries@[i].0@ != self.entries@[j].0@);
                } else {
                    assert(self.entries@[j].0@ != self.entries@[i].0@);
                }
            }
        }
        keys.unique_seq_to_set();
    }

    /// Registers `handler` under `key`, in place of any handler that was
    /// registered under it.
    pub fn insert(&mut self, key: MessageKey, handler: H)
        ensures
            final(self)@ == old(self)@.insert(key@, handler),
    {
        proof { use_type_invariant(&*self); }
        let ghost k = key@;
        let ghost before = self.entries@;
        let found = self.find(&key);
        let ghost pos: int = match found {
            Some(i) => i as int,
            None => before.len() as int,
        };
        let mut entries: Vec<(MessageKey, H)> = Vec::new();
        std::mem::swap(&mut entries, &mut self.entries);
        match found {
            Some(i) => {
                entries.set(i, (key, handler));
                proof {
                    assert forall|a: int, b: int| 0 <= a < b < entries@.len()
                        implies #[trigger] entries@[a].0@ != #[trigger] entries@[b].0@ by {
                        assert(before[a].0@ != before[b].0@);
                    }
                }
            },
            None => {
                entries.push((key, handler));
                proof {
                    assert forall|a: int, b: int| 0 <= a < b < entries@.len()
                        implies #[trigger] entries@[a].0@ != #[trigger] entries@[b].0@ by {
                        if b < before.len() {
                            assert(before[a].0@ != before[b].0@);
                        } else {
                            assert(!old(self).has_key(k));
                            assert(before[a].0@ == entries@[a].0@);
                        }
                    }
                }
            },
        }
        self.entries = entries;
        proof {
            let m = self.as_map();
            let om = old(self).as_map();
            assert forall|kk: Seq<char>| #[trigger] m.contains_key(kk) == om.insert(k, handler).contains_key(kk) by {
                if kk == k {
                    assert(self.entries@[pos].0@ == k);
                    assert(self.has_key(k));
                } else {
                    if self.has_key(kk) {
                        let j = self.position(kk);
                        assert(before[j].0@ == kk);
                    }
                    if old(self).has_key(kk) {
                        let j = old(self).position(kk);
                        assert(self.entries@[j].0@ == kk);
                    }
                }
            }
            assert forall|kk: Seq<char>| m.contains_key(kk) implies #[trigger] m[kk] == om.insert(k, handler)[kk] by {
                let j = self.position(kk);
                self.lemma_entry_in_map(j);
                if kk != k {
                    assert(before[j].0@ == kk);
                    old(self).lemma_entry_in_map(j);
                }
            }
            assert(m =~= om.insert(k, handler));
        }
    }
}

impl<H> View for HandlerRegistry<H> {
    type V = Map<Seq<char>, H>;

    open spec fn view(&self) -> Map<Seq<char>, H> {
        self.as_map()
    }
}

} // verus!
