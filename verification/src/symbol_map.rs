//! A map keyed by names, kept as a list of entries whose keys are distinct.
//! Its view is the finite map from each key's characters to the view of
//! the value stored under it.
use vstd::prelude::*;

verus! {

broadcast use vstd::string::group_string_axioms;

/// Types that can be copied into a value with the same view.
pub trait DeepClone: View + Sized {
    fn deep_clone(&self) -> (res: Self)
        ensures
            res@ == self@,
    ;
}

impl DeepClone for u32 {
    fn deep_clone(&self) -> (res: u32) {
        *self
    }
}

impl DeepClone for String {
    fn deep_clone(&self) -> (res: String) {
        self.clone()
    }
}

/// Copies a list of strings, keeping each element's view.
pub fn clone_strings(v: &Vec<String>) -> (res: Vec<String>)
    ensures
        res@.len() == v@.len(),
        forall|i: int| 0 <= i < v@.len() ==> #[trigger] res@[i] == v@[i],
{
    let mut res: Vec<String> = Vec::new();
    for i in 0..v.len()
        invariant
            res@.len() == i,
            forall|j: int| 0 <= j < i ==> #[trigger] res@[j] == v@[j],
    {
        res.push(v[i].clone());
    }
    res
}

/// The characters of each string of a list.
pub open spec fn strings_view(v: Seq<String>) -> Seq<Seq<char>> {
    Seq::new(v.len(), |i: int| v[i]@)
}

impl DeepClone for Vec<String> {
    fn deep_clone(&self) -> (res: Vec<String>) {
        let r = clone_strings(self);
        assert(r@ =~= self@);
        r
    }
}

/// The keys of a list of entries.
pub open spec fn entry_keys<V>(e: Seq<(String, V)>) -> Seq<Seq<char>> {
    Seq::new(e.len(), |i: int| e[i].0@)
}

/// No two entries of the list have the same key.
pub open spec fn entries_distinct<V>(e: Seq<(String, V)>) -> bool {
    forall|i: int, j: int|
        0 <= i < e.len() && 0 <= j < e.len() && i != j ==> e[i].0@ != e[j].0@
}

/// The map that a list of entries stands for.
pub open spec fn entries_map<V: View>(e: Seq<(String, V)>) -> Map<Seq<char>, V::V> {
    Map::new(
        |k: Seq<char>| entry_keys(e).contains(k),
        |k: Seq<char>| e[choose|i: int| 0 <= i < e.len() && e[i].0@ == k].1@,
    )
}

pub proof fn lemma_entries_map_at<V: View>(e: Seq<(String, V)>, i: int)
    requires
        entries_distinct(e),
        0 <= i < e.len(),
    ensures
        entries_map(e).dom().contains(e[i].0@),
        entries_map(e)[e[i].0@] == e[i].1@,
{
    assert(entry_keys(e)[i] == e[i].0@);
    let j = choose|j: int| 0 <= j < e.len() && e[j].0@ == e[i].0@;
    assert(j == i);
}

pub proof fn lemma_entries_map_dom<V: View>(e: Seq<(String, V)>, k: Seq<char>)
    ensures
        entries_map(e).dom().contains(k) <==> exists|i: int| 0 <= i < e.len() && e[i].0@ == k,
{
    if exists|i: int| 0 <= i < e.len() && e[i].0@ == k {
        let i = choose|i: int| 0 <= i < e.len() && e[i].0@ == k;
        assert(entry_keys(e)[i] == k);
    }
}

pub proof fn lemma_entries_map_finite<V: View>(e: Seq<(String, V)>)
    requires
        entries_distinct(e),
    ensures
        entries_map(e).dom().finite(),
        entries_map(e).dom().len() == e.len(),
        entry_keys(e).no_duplicates(),
{
    assert(entries_map(e).dom() =~= entry_keys(e).to_set());
    entry_keys(e).unique_seq_to_set();
}

pub proof fn lemma_entries_map_update<V: View>(e: Seq<(String, V)>, i: int, v: V)
    requires
        entries_distinct(e),
        0 <= i < e.len(),
    ensures
        entries_distinct(e.update(i, (e[i].0, v))),
        entries_map(e.update(i, (e[i].0, v))) == entries_map(e).insert(e[i].0@, v@),
{
    let e2 = e.update(i, (e[i].0, v));
    let m = entries_map(e).insert(e[i].0@, v@);
    assert forall|k: Seq<char>| #[trigger] entries_map(e2).dom().contains(k) <==> m.dom().contains(k) by {
        lemma_entries_map_dom(e, k);
        lemma_entries_map_dom(e2, k);
        if m.dom().contains(k) && k != e[i].0@ {
            let j = choose|j: int| 0 <= j < e.len() && e[j].0@ == k;
            assert(e2[j].0@ == k);
        }
        if m.dom().contains(k) && k == e[i].0@ {
            assert(e2[i].0@ == k);
        }
        if entries_map(e2).dom().contains(k) {
            let j = choose|j: int| 0 <= j < e2.len() && e2[j].0@ == k;
            assert(e[j].0@ == k);
        }
    }
    assert forall|k: Seq<char>| #[trigger] entries_map(e2).dom().contains(k) implies entries_map(e2)[k] == m[k] by {
        lemma_entries_map_dom(e2, k);
        let j = choose|j: int| 0 <= j < e2.len() && e2[j].0@ == k;
        lemma_entries_map_at(e2, j);
        if j != i {
            lemma_entries_map_at(e, j);
        }
    }
    assert(entries_map(e2) =~= m);
}

pub proof fn lemma_entries_map_push<V: View>(e: Seq<(String, V)>, k: String, v: V)
    requires
        entries_distinct(e),
        !entries_map(e).dom().contains(k@),
    ensures
        entries_distinct(e.push((k, v))),
        entries_map(e.push((k, v))) == entries_map(e).insert(k@, v@),
{
    let e2 = e.push((k, v));
    assert forall|a: int, b: int| 0 <= a < e2.len() && 0 <= b < e2.len() && a != b implies e2[a].0@
        != e2[b].0@ by {
        if a == e.len() {
            lemma_entries_map_dom(e, e2[b].0@);
        } else if b == e.len() {
            lemma_entries_map_dom(e, e2[a].0@);
        }
    }
    let m = entries_map(e).insert(k@, v@);
    assert forall|k2: Seq<char>| #[trigger] entries_map(e2).dom().contains(k2) <==> m.dom().contains(k2) by {
        lemma_entries_map_dom(e, k2);
        lemma_entries_map_dom(e2, k2);
        if m.dom().contains(k2) {
            if k2 == k@ {
                assert(e2[e.len() as int].0@ == k2);
            } else {
                let j = choose|j: int| 0 <= j < e.len() && e[j].0@ == k2;
                assert(e2[j].0@ == k2);
            }
        }
    }
    assert forall|k2: Seq<char>| #[trigger] entries_map(e2).dom().contains(k2) implies entries_map(e2)[k2] == m[k2] by {
        lemma_entries_map_dom(e2, k2);
        let j = choose|j: int| 0 <= j < e2.len() && e2[j].0@ == k2;
        lemma_entries_map_at(e2, j);
        if j != e.len() {
            lemma_entries_map_at(e, j);
        }
    }
    assert(entries_map(e2) =~= m);
}

pub proof fn lemma_entries_map_remove<V: View>(e: Seq<(String, V)>, i: int)
    requires
        entries_distinct(e),
        0 <= i < e.len(),
    ensures
        entries_distinct(e.remove(i)),
        entries_map(e.remove(i)) == entries_map(e).remove(e[i].0@),
{
    let e2 = e.remove(i);
    let m = entries_map(e).remove(e[i].0@);
    assert forall|a: int, b: int| 0 <= a < e2.len() && 0 <= b < e2.len() && a != b implies e2[a].0@
        != e2[b].0@ by {
        let a1 = if a < i { a } else { a + 1 };
        let b1 = if b < i { b } else { b + 1 };
        assert(e2[a] == e[a1] && e2[b] == e[b1]);
    }
    assert forall|k2: Seq<char>| #[trigger] entries_map(e2).dom().contains(k2) <==> m.dom().contains(k2) by {
        lemma_entries_map_dom(e, k2);
        lemma_entries_map_dom(e2, k2);
        if m.dom().contains(k2) {
            let j = choose|j: int| 0 <= j < e.len() && e[j].0@ == k2;
            if j < i {
                assert(e2[j].0@ == k2);
            } else {
                assert(e2[j - 1].0@ == k2);
            }
        }
        if entries_map(e2).dom().contains(k2) {
            let j = choose|j: int| 0 <= j < e2.len() && e2[j].0@ == k2;
            let j1 = if j < i { j } else { j + 1 };
            assert(e2[j] == e[j1]);
        }
    }
    assert forall|k2: Seq<char>| #[trigger] entries_map(e2).dom().contains(k2) implies entries_map(e2)[k2] == m[k2] by {
        lemma_entries_map_dom(e2, k2);
        let j = choose|j: int| 0 <= j < e2.len() && e2[j].0@ == k2;
        lemma_entries_map_at(e2, j);
        let j1 = if j < i { j } else { j + 1 };
        assert(e2[j] == e[j1]);
        lemma_entries_map_at(e, j1);
    }
    assert(entries_map(e2) =~= m);
}

#[derive(Debug)]
pub struct SymbolMap<V> {
    entries: Vec<(String, V)>,
}

impl<V> SymbolMap<V> {
    /// The keys in the order of the entries.
    pub closed spec fn key_seq(&self) -> Seq<Seq<char>> {
        entry_keys(self.entries@)
    }

    /// The number of entries.
    pub closed spec fn spec_len(&self) -> nat {
        self.entries@.len()
    }

    /// The values in the order of the entries.
    pub closed spec fn value_seq(&self) -> Seq<V> {
        Seq::new(self.entries@.len(), |i: int| self.entries@[i].1)
    }

    #[verifier::type_invariant]
    pub closed spec fn keys_distinct(&self) -> bool {
        entries_distinct(self.entries@)
    }
}

impl<V: View> View for SymbolMap<V> {
    type V = Map<Seq<char>, V::V>;

    closed spec fn view(&self) -> Map<Seq<char>, V::V> {
        entries_map(self.entries@)
    }
}

impl<V: View> SymbolMap<V> {
    /// What a map's view says of its entries: the keys are distinct, they
    /// form the map's domain, and each is mapped to the view of its value.
    pub proof fn lemma_entries(&self)
        requires
            self.keys_distinct(),
        ensures
            self.key_seq().len() == self.spec_len(),
            self.value_seq().len() == self.spec_len(),
            self.key_seq().no_duplicates(),
            self@.dom().finite(),
            self@.dom().len() == self.spec_len(),
            forall|i: int|
                0 <= i < self.spec_len() ==> #[trigger] self@.dom().contains(self.key_seq()[i]),
            forall|i: int|
                0 <= i < self.spec_len() ==> #[trigger] self@[self.key_seq()[i]]
                    == self.value_seq()[i]@,
            forall|k: Seq<char>|
                #[trigger] self@.dom().contains(k) ==> exists|i: int|
                    0 <= i < self.spec_len() && self.key_seq()[i] == k,
    {
        lemma_entries_map_finite(self.entries@);
        assert forall|i: int| 0 <= i < self.spec_len() implies #[trigger] self@.dom().contains(
            self.key_seq()[i],
        ) && self@[self.key_seq()[i]] == self.value_seq()[i]@ by {
            lemma_entries_map_at(self.entries@, i);
        }
        assert forall|k: Seq<char>| #[trigger] self@.dom().contains(k) implies exists|i: int|
            0 <= i < self.spec_len() && self.key_seq()[i] == k by {
            lemma_entries_map_dom(self.entries@, k);
            let i = choose|i: int| 0 <= i < self.entries@.len() && self.entries@[i].0@ == k;
            assert(self.key_seq()[i] == k);
        }
    }

    /// An empty map.
    pub fn new() -> (res: Self)
        ensures
            res@ == Map::<Seq<char>, V::V>::empty(),
            res.spec_len() == 0,
    {
        let res = SymbolMap { entries: Vec::new() };
        assert(res@ =~= Map::<Seq<char>, V::V>::empty());
        res
    }

    /// The position of `k` among the entries, if it is a key.
    fn find(&self, k: &String) -> (res: Option<usize>)
        ensures
            match res {
                Some(i) => i < self.spec_len() && self.entries@[i as int].0@ == k@,
                None => !self@.dom().contains(k@),
            },
    {
        let mut i: usize = 0;
        while i < self.entries.len()
            invariant
                i <= self.entries@.len(),
                forall|j: int| 0 <= j < i ==> self.entries@[j].0@ != k@,
            decreases self.entries@.len() - i,
        {
            if self.entries[i].0 == *k {
                return Some(i);
            }
            i = i + 1;
        }
        proof {
            lemma_entries_map_dom(self.entries@, k@);
        }
        None
    }

    /// The number of keys.
    pub fn len(&self) -> (res: usize)
        ensures
            res == self@.dom().len(),
            res == self.spec_len(),
    {
        proof {
            use_type_invariant(self);
            self.lemma_entries();
        }
        self.entries.len()
    }

    pub fn contains_key(&self, k: &str) -> (res: bool)
        ensures
            res == self@.dom().contains(k@),
    {
        proof {
            use_type_invariant(self);
        }
        let key = k.to_string();
        match self.find(&key) {
            Some(i) => {
                proof {
                    lemma_entries_map_at(self.entries@, i as int);
                }
                true
            },
            None => false,
        }
    }

    /// The value stored under `k`.
    pub fn get(&self, k: &str) -> (res: Option<&V>)
        ensures
            match res {
                Some(v) => self@.dom().contains(k@) && v@ == self@[k@],
                None => !self@.dom().contains(k@),
            },
    {
        proof {
            use_type_invariant(self);
        }
        let key = k.to_string();
        match self.find(&key) {
            Some(i) => {
                proof {
                    lemma_entries_map_at(self.entries@, i as int);
                }
                Some(&self.entries[i].1)
            },
            None => None,
        }
    }

    /// The key of the entry at position `i`.
    pub fn key_at(&self, i: usize) -> (res: &String)
        requires
            i < self.spec_len(),
        ensures
            res@ == self.key_seq()[i as int],
    {
        &self.entries[i].0
    }

    /// The value of the entry at position `i`.
    pub fn value_at(&self, i: usize) -> (res: &V)
        requires
            i < self.spec_len(),
        ensures
            *res == self.value_seq()[i as int],
            res@ == self@[self.key_seq()[i as int]],
    {
        proof {
            use_type_invariant(self);
            lemma_entries_map_at(self.entries@, i as int);
        }
        &self.entries[i].1
    }

    /// Stores `v` under `k`, and returns the value that was stored there.
    pub fn insert(&mut self, k: String, v: V) -> (res: Option<V>)
        ensures
            final(self)@ == old(self)@.insert(k@, v@),
            match res {
                Some(o) => old(self)@.dom().contains(k@) && o@ == old(self)@[k@],
                None => !old(self)@.dom().contains(k@),
            },
    {
        proof {
            use_type_invariant(&*self);
        }
        match self.find(&k) {
            Some(i) => {
                let ghost old_entries = self.entries@;
                let mut entries: Vec<(String, V)> = Vec::new();
                std::mem::swap(&mut entries, &mut self.entries);
                let (key, old) = entries.remove(i);
                entries.insert(i, (key, v));
                proof {
                    assert(entries@ =~= old_entries.update(i as int, (old_entries[i as int].0, v)));
                    lemma_entries_map_update(old_entries, i as int, v);
                    lemma_entries_map_at(old_entries, i as int);
                }
                self.entries = entries;
                Some(old)
            },
            None => {
                let ghost old_entries = self.entries@;
                let mut entries: Vec<(String, V)> = Vec::new();
                std::mem::swap(&mut entries, &mut self.entries);
                proof {
                    lemma_entries_map_push(old_entries, k, v);
                }
                entries.push((k, v));
                self.entries = entries;
                None
            },
        }
    }

    /// Removes the entry of `k`, and returns its value.
    pub fn remove(&mut self, k: &str) -> (res: Option<V>)
        ensures
            final(self)@ == old(self)@.remove(k@),
            match res {
                Some(o) => old(self)@.dom().contains(k@) && o@ == old(self)@[k@],
                None => !old(self)@.dom().contains(k@),
            },
    {
        proof {
            use_type_invariant(&*self);
        }
        let key = k.to_string();
        match self.find(&key) {
            Some(i) => {
                let ghost old_entries = self.entries@;
                let mut entries: Vec<(String, V)> = Vec::new();
                std::mem::swap(&mut entries, &mut self.entries);
                let (_, old) = entries.remove(i);
                proof {
                    lemma_entries_map_remove(old_entries, i as int);
                    lemma_entries_map_at(old_entries, i as int);
                }
                self.entries = entries;
                Some(old)
            },
            None => {
                assert(self@ =~= self@.remove(k@));
                None
            },
        }
    }
}

impl<V: DeepClone> SymbolMap<V> {
    /// A copy whose entries have the same keys and values of equal view.
    pub fn deep_copy(&self) -> (res: Self)
        ensures
            res@ == self@,
            res.key_seq() == self.key_seq(),
    {
        proof {
            use_type_invariant(self);
        }
        let mut entries: Vec<(String, V)> = Vec::new();
        for i in 0..self.entries.len()
            invariant
                entries@.len() == i,
                i <= self.entries@.len(),
                forall|j: int| 0 <= j < i ==> (#[trigger] entries@[j]).0@ == self.entries@[j].0@
                    && entries@[j].1@ == self.entries@[j].1@,
        {
            let k = self.entries[i].0.clone();
            let v = self.entries[i].1.deep_clone();
            entries.push((k, v));
        }
        proof {
            assert(entry_keys(entries@) =~= entry_keys(self.entries@));
            assert forall|k: Seq<char>| #[trigger] entries_map(entries@).dom().contains(k) <==> entries_map(self.entries@).dom().contains(k) by {}
            assert forall|k: Seq<char>| #[trigger] entries_map(entries@).dom().contains(k) implies entries_map(entries@)[k] == entries_map(self.entries@)[k] by {
                lemma_entries_map_dom(entries@, k);
                let j = choose|j: int| 0 <= j < entries@.len() && entries@[j].0@ == k;
                lemma_entries_map_at(entries@, j);
                lemma_entries_map_at(self.entries@, j);
            }
            assert(entries_map(entries@) =~= entries_map(self.entries@));
        }
        SymbolMap { entries }
    }
}

impl<V: DeepClone> DeepClone for SymbolMap<V> {
    fn deep_clone(&self) -> (res: Self) {
        self.deep_copy()
    }
}

} // verus!
