//! The mapping from text keys to text values.
//!
//! A [`Store`] is modelled by two things: its view, a `Map` from key text to
//! value text, and its key order, the sequence in which enumeration visits
//! the keys. Lookups go through a hash table; the key order is kept beside
//! it so that every enumeration is a function of the store alone.

use vstd::prelude::*;
use vstd::hash_map::StringHashMap;
use crate::text::{text_pairs, texts, texts_of};

verus! {

/// A mapping from unique text keys to text values.
pub struct Store {
    data: StringHashMap<String>,
    order: Vec<String>,
}

impl View for Store {
    type V = Map<Seq<char>, Seq<char>>;

    closed spec fn view(&self) -> Map<Seq<char>, Seq<char>> {
        self.data@.map_values(|v: String| v@)
    }
}

impl Store {
    /// The keys in the order in which `keys`, `values` and `iter` visit them.
    pub closed spec fn key_order(&self) -> Seq<Seq<char>> {
        texts(self.order@)
    }

    /// Validity: every key is listed once in the key order, and nothing else
    /// is. `new` establishes it and every method keeps it.
    pub open spec fn wf(&self) -> bool {
        &&& self.key_order().no_duplicates()
        &&& forall|k: Seq<char>| self@.contains_key(k) <==> self.key_order().contains(k)
    }

    /// The values in key order.
    pub open spec fn value_order(&self) -> Seq<Seq<char>> {
        self.key_order().map_values(|k: Seq<char>| self@[k])
    }

    /// The entries in key order.
    pub open spec fn entries(&self) -> Seq<(Seq<char>, Seq<char>)> {
        self.key_order().map_values(|k: Seq<char>| (k, self@[k]))
    }

    /// What a lookup of `key` gives.
    pub open spec fn lookup(&self, key: Seq<char>) -> Option<Seq<char>> {
        if self@.contains_key(key) {
            Some(self@[key])
        } else {
            None
        }
    }

    /// A well-formed store holds finitely many entries, as many as its key
    /// order is long.
    pub proof fn lemma_len_is_order_len(&self)
        requires
            self.wf(),
        ensures
            self@.dom().finite(),
            self@.len() == self.key_order().len(),
    {
        let order = self.key_order();
        order.unique_seq_to_set();
        assert(self@.dom() =~= order.to_set());
    }

    /// Creates an empty store.
    pub fn new() -> (s: Self)
        ensures
            s.wf(),
            s@ == Map::<Seq<char>, Seq<char>>::empty(),
            s.key_order() == Seq::<Seq<char>>::empty(),
    {
        let s = Store { data: StringHashMap::new(), order: Vec::new() };
        s
    }

    /// Binds `key` to `value`. A key that is already bound keeps its place in
    /// the key order; a new key goes to the end.
    pub fn set(&mut self, key: String, value: String)
        requires
            old(self).wf(),
        ensures
            final(self).wf(),
            final(self)@ == old(self)@.insert(key@, value@),
            final(self).key_order() == if old(self)@.contains_key(key@) {
                old(self).key_order()
            } else {
                old(self).key_order().push(key@)
            },
    {
        let ghost before = self.key_order();
        let fresh = !self.data.contains_key(key.as_str());
        if fresh {
            self.order.push(key.clone());
        }
        self.data.insert(key, value);
        proof {
            let after = self.key_order();
            if fresh {
                assert(after =~= before.push(key@));
                assert(after[before.len() as int] == key@);
                assert(!before.contains(key@));
            }
            assert forall|k: Seq<char>| self@.contains_key(k) <==> after.contains(k) by {
                if k != key@ && before.contains(k) {
                    let i = choose|i: int| 0 <= i < before.len() && before[i] == k;
                    assert(after[i] == k);
                }
            }
        }
    }

    /// Looks `key` up and returns a copy of its value, if it has one.
    pub fn get(&self, key: String) -> (r: Option<String>)
        requires
            self.wf(),
        ensures
            texts_of(r) == self.lookup(key@),
    {
        match self.data.get(key.as_str()) {
            Some(v) => Some(v.clone()),
            None => None,
        }
    }

    /// Unbinds `key`. Nothing changes where it is not bound. Takes time in
    /// the number of entries, to find the key's place in the key order.
    pub fn remove(&mut self, key: String)
        requires
            old(self).wf(),
        ensures
            final(self).wf(),
            final(self)@ == old(self)@.remove(key@),
            final(self).key_order() == old(self).key_order().remove_value(key@),
    {
        let ghost before = self.key_order();
        proof {
            before.index_of_first_ensures(key@);
        }
        if self.data.contains_key(key.as_str()) {
            let mut i: usize = 0;
            while i < self.order.len() && !same_text(&self.order[i], &key)
                invariant
                    i <= self.order.len(),
                    *self == *old(self),
                    before == self.key_order(),
                    before.contains(key@),
                    forall|j: int| 0 <= j < i ==> before[j] != key@,
                decreases self.order.len() - i,
            {
                i += 1;
            }
            assert(before[i as int] == key@);
            self.order.remove(i);
            self.data.remove(key.as_str());
            proof {
                let after = self.key_order();
                assert(after =~= before.remove(i as int));
                assert forall|k: Seq<char>| self@.contains_key(k) <==> after.contains(k) by {
                    if before.contains(k) && k != key@ {
                        let j = choose|j: int| 0 <= j < before.len() && before[j] == k;
                        let dst = if j < i { j } else { j - 1 };
                        assert(after[dst] == k);
                    }
                }
            }
        }
    }

    /// Number of entries.
    pub fn len(&self) -> (n: usize)
        requires
            self.wf(),
        ensures
            n == self@.len(),
    {
        proof {
            self.lemma_len_is_order_len();
        }
        self.order.len()
    }

    /// Whether the store holds no entry.
    pub fn is_empty(&self) -> (b: bool)
        requires
            self.wf(),
        ensures
            b == (self@.len() == 0),
    {
        self.len() == 0
    }

    /// A copy of every key, in key order.
    pub fn keys(&self) -> (out: Vec<String>)
        requires
            self.wf(),
        ensures
            texts(out@) == self.key_order(),
            out@.len() == self@.len(),
    {
        proof {
            self.lemma_len_is_order_len();
        }
        let mut out: Vec<String> = Vec::new();
        let mut i: usize = 0;
        while i < self.order.len()
            invariant
                i <= self.order.len(),
                out@ == self.order@.take(i as int),
            decreases self.order.len() - i,
        {
            out.push(self.order[i].clone());
            i += 1;
        }
        out
    }

    /// A copy of every value, in key order.
    pub fn values(&self) -> (out: Vec<String>)
        requires
            self.wf(),
        ensures
            texts(out@) == self.value_order(),
            out@.len() == self@.len(),
    {
        proof {
            self.lemma_len_is_order_len();
        }
        let ghost order = self.key_order();
        let mut out: Vec<String> = Vec::new();
        let mut i: usize = 0;
        while i < self.order.len()
            invariant
                self.wf(),
                order == self.key_order(),
                i <= self.order.len(),
                texts(out@) == self.value_order().take(i as int),
            decreases self.order.len() - i,
        {
            let ghost k = order[i as int];
            assert(order.contains(k));
            match self.data.get(self.order[i].as_str()) {
                Some(v) => {
                    out.push(v.clone());
                },
                None => {},
            }
            assert(self.value_order().take(i + 1) =~= self.value_order().take(i as int).push(
                self@[k],
            ));
            i += 1;
        }
        out
    }

    /// A copy of every entry, key first, in key order.
    pub fn iter(&self) -> (out: Vec<(String, String)>)
        requires
            self.wf(),
        ensures
            text_pairs(out@) == self.entries(),
            out@.len() == self@.len(),
    {
        proof {
            self.lemma_len_is_order_len();
        }
        let ghost order = self.key_order();
        let mut out: Vec<(String, String)> = Vec::new();
        let mut i: usize = 0;
        while i < self.order.len()
            invariant
                self.wf(),
                order == self.key_order(),
                i <= self.order.len(),
                text_pairs(out@) == self.entries().take(i as int),
            decreases self.order.len() - i,
        {
            let ghost k = order[i as int];
            assert(order.contains(k));
            match self.data.get(self.order[i].as_str()) {
                Some(v) => {
                    out.push((self.order[i].clone(), v.clone()));
                },
                None => {},
            }
            assert(self.entries().take(i + 1) =~= self.entries().take(i as int).push(
                (k, self@[k]),
            ));
            i += 1;
        }
        out
    }

    /// Hands every entry out, in key order, and leaves the store empty.
    pub fn drain(&mut self) -> (out: Vec<(String, String)>)
        requires
            old(self).wf(),
        ensures
            final(self).wf(),
            text_pairs(out@) == old(self).entries(),
            out@.len() == old(self)@.len(),
            final(self)@ == Map::<Seq<char>, Seq<char>>::empty(),
            final(self).key_order() == Seq::<Seq<char>>::empty(),
    {
        let out = self.iter();
        self.clear();
        out
    }

    /// Unbinds every key.
    pub fn clear(&mut self)
        ensures
            final(self).wf(),
            final(self)@ == Map::<Seq<char>, Seq<char>>::empty(),
            final(self).key_order() == Seq::<Seq<char>>::empty(),
    {
        self.data.clear();
        self.order.clear();
    }
}

/// Whether two strings hold the same text.
fn same_text(a: &String, b: &String) -> (same: bool)
    ensures
        same == (a@ == b@),
{
    *a == *b
}

} // verus!
