//! The remembered window classes and sizes: tables keyed by text, where each key occurs once.
use vstd::prelude::*;
use crate::structs::{ClassSize, FromClient, Parameters};
use crate::text::str_eq;

verus! {

/// A table from texts to values, with each key at most once.
#[derive(Debug)]
pub struct Keyed<V> {
    entries: Vec<(String, V)>,
}

/// Whether no key occurs twice.
pub open spec fn keys_distinct<V>(e: Seq<(String, V)>) -> bool {
    forall|i: int, j: int| 0 <= i < e.len() && 0 <= j < e.len() && i != j ==> e[i].0@ != e[j].0@
}

/// Whether `k` occurs as a key.
pub open spec fn has_key<V>(e: Seq<(String, V)>, k: Seq<char>) -> bool {
    exists|i: int| 0 <= i < e.len() && #[trigger] e[i].0@ == k
}

/// The value stored under `k`.
pub open spec fn lookup<V>(e: Seq<(String, V)>, k: Seq<char>) -> Option<V> {
    if has_key(e, k) {
        let i = choose|i: int| 0 <= i < e.len() && #[trigger] e[i].0@ == k;
        Some(e[i].1)
    } else {
        None
    }
}

proof fn lemma_lookup_at<V>(e: Seq<(String, V)>, i: int)
    requires
        keys_distinct(e),
        0 <= i < e.len(),
    ensures
        lookup(e, e[i].0@) == Some(e[i].1),
{
    let k = e[i].0@;
    assert(has_key(e, k));
    let j = choose|j: int| 0 <= j < e.len() && #[trigger] e[j].0@ == k;
    assert(j == i);
}

proof fn lemma_lookup_same<V>(a: Seq<(String, V)>, b: Seq<(String, V)>, k: Seq<char>, i: int)
    requires
        keys_distinct(a),
        keys_distinct(b),
        a.len() <= b.len(),
        0 <= i < b.len(),
        forall|j: int| 0 <= j < a.len() && j != i ==> #[trigger] b[j] == a[j],
        i < a.len() ==> a[i].0@ == b[i].0@,
        b[i].0@ != k,
        b.len() <= a.len() + 1,
        b.len() == a.len() + 1 ==> i == a.len(),
    ensures
        lookup(b, k) == lookup(a, k),
{
    if has_key(a, k) {
        let ja = choose|j: int| 0 <= j < a.len() && #[trigger] a[j].0@ == k;
        assert(ja != i);
        assert(b[ja] == a[ja]);
        lemma_lookup_at(b, ja);
        lemma_lookup_at(a, ja);
    } else {
        assert forall|j: int| 0 <= j < b.len() implies #[trigger] b[j].0@ != k by {
            if j != i {
                assert(b[j] == a[j]);
            }
        }
    }
}

impl<V> Keyed<V> {
    #[verifier::type_invariant]
    pub closed spec fn wf(self) -> bool {
        keys_distinct(self.entries@)
    }

    /// The entries, in the order they were added.
    pub closed spec fn spec_entries(self) -> Seq<(String, V)> {
        self.entries@
    }

    /// The value stored under a key.
    pub open spec fn get_spec(self, k: Seq<char>) -> Option<V> {
        lookup(self.spec_entries(), k)
    }

    /// An empty table.
    pub fn new() -> (r: Keyed<V>)
        ensures
            forall|k: Seq<char>| r.get_spec(k) is None,
            r.spec_entries().len() == 0,
    {
        Keyed { entries: Vec::new() }
    }

    /// The entries, in the order they were added; no key occurs twice.
    pub fn entries(&self) -> (r: &Vec<(String, V)>)
        ensures
            r@ == self.spec_entries(),
            keys_distinct(r@),
    {
        proof {
            use_type_invariant(self);
        }
        &self.entries
    }

    /// The position of a key.
    pub fn find(&self, k: &str) -> (r: Option<usize>)
        ensures
            match r {
                Some(i) => i < self.spec_entries().len() && self.spec_entries()[i as int].0@ == k@,
                None => !has_key(self.spec_entries(), k@),
            },
    {
        let mut i: usize = 0;
        while i < self.entries.len()
            invariant
                i <= self.entries@.len(),
                forall|j: int| 0 <= j < i ==> #[trigger] self.entries@[j].0@ != k@,
            decreases self.entries@.len() - i,
        {
            if str_eq(self.entries[i].0.as_str(), k) {
                return Some(i);
            }
            i = i + 1;
        }
        None
    }

    /// The value stored under a key.
    pub fn get(&self, k: &str) -> (r: Option<&V>)
        ensures
            match r {
                Some(v) => self.get_spec(k@) == Some(*v),
                None => self.get_spec(k@) is None,
            },
    {
        proof {
            use_type_invariant(self);
        }
        match self.find(k) {
            Some(i) => {
                proof {
                    lemma_lookup_at(self.entries@, i as int);
                }
                Some(&self.entries[i].1)
            },
            None => None,
        }
    }

    /// Stores `v` under `k`, replacing what was stored there.
    pub fn insert(&mut self, k: String, v: V)
        ensures
            final(self).get_spec(k@) == Some(v),
            forall|k2: Seq<char>| k2 != k@ ==> final(self).get_spec(k2) == old(self).get_spec(k2),
    {
        proof {
            use_type_invariant(&*self);
        }
        let ghost old_e = self.entries@;
        let ghost kv = k@;
        let found = self.find(k.as_str());
        let mut e: Vec<(String, V)> = Vec::new();
        std::mem::swap(&mut e, &mut self.entries);
        assert(e@ == old_e);
        match found {
            Some(i) => {
                e.set(i, (k, v));
                proof {
                    let ne = e@;
                    assert(keys_distinct(ne)) by {
                        assert forall|a: int, b: int|
                            0 <= a < ne.len() && 0 <= b < ne.len() && a != b implies ne[a].0@
                            != ne[b].0@ by {
                            if a != i && b != i {
                                assert(ne[a] == old_e[a] && ne[b] == old_e[b]);
                            } else if a == i {
                                assert(ne[b] == old_e[b]);
                                assert(old_e[a].0@ == kv);
                            } else {
                                assert(ne[a] == old_e[a]);
                                assert(old_e[b].0@ == kv);
                            }
                        }
                    }
                    lemma_lookup_at(ne, i as int);
                    assert forall|k2: Seq<char>| k2 != kv implies lookup(ne, k2) == lookup(
                        old_e,
                        k2,
                    ) by {
                        lemma_lookup_same(old_e, ne, k2, i as int);
                    }
                }
            },
            None => {
                e.push((k, v));
                proof {
                    let ne = e@;
                    let n = old_e.len() as int;
                    assert(keys_distinct(ne)) by {
                        assert forall|a: int, b: int|
                            0 <= a < ne.len() && 0 <= b < ne.len() && a != b implies ne[a].0@
                            != ne[b].0@ by {
                            if a < n && b < n {
                                assert(ne[a] == old_e[a] && ne[b] == old_e[b]);
                            } else if a == n {
                                assert(ne[b] == old_e[b]);
                            } else {
                                assert(ne[a] == old_e[a]);
                            }
                        }
                    }
                    lemma_lookup_at(ne, n);
                    assert forall|k2: Seq<char>| k2 != kv implies lookup(ne, k2) == lookup(
                        old_e,
                        k2,
                    ) by {
                        lemma_lookup_same(old_e, ne, k2, n);
                    }
                }
            },
        }
        self.entries = e;
    }
}

/// The classes remembered for each program: program name to window class.
pub type ClassCache = Keyed<String>;

/// The sizes remembered for each window class.
pub type SizeCache = Keyed<ClassSize>;

/// The size remembered for a class.
pub fn get_size_data_by_class(cache: &SizeCache, class: &str) -> (r: Option<(i16, i16)>)
    ensures
        r == (match cache.get_spec(class@) {
            Some(c) => Some(c.size),
            None => None,
        }),
{
    match cache.get(class) {
        Some(c) => Some(c.size),
        None => None,
    }
}

/// The class remembered for a program, empty when there is none.
pub fn class_of_binary(cache: &ClassCache, binary: &str) -> (r: String)
    ensures
        r@ == (match cache.get_spec(binary@) {
            Some(c) => c@,
            None => Seq::<char>::empty(),
        }),
{
    match cache.get(binary) {
        Some(c) => c.clone(),
        None => String::new(),
    }
}

/// The size the caches remember for a window: its size on each axis.
pub open spec fn window_class_size(client: FromClient) -> ClassSize {
    ClassSize { size: (client.axis_data.x.window_size, client.axis_data.y.window_size) }
}

/// Records the active window in the caches. When the class of the program was not known, the
/// window's own class is remembered for the program, and the window counts as opened small;
/// the size of the window is remembered for the class. The result says whether the class
/// table changed.
pub fn write_class_data_into_cache(
    params: &mut Parameters,
    bin: String,
    class: String,
    client: &FromClient,
    classes: &mut ClassCache,
    sizes: &mut SizeCache,
) -> (classes_changed: bool)
    ensures
        classes_changed == (class@.len() == 0),
        class@.len() == 0 ==> {
            &&& final(params).origin_size
            &&& final(classes).get_spec(bin@) == Some(client.class)
            &&& forall|k: Seq<char>|
                k != bin@ ==> #[trigger] final(classes).get_spec(k) == old(classes).get_spec(k)
            &&& final(sizes).get_spec(client.class@) == Some(window_class_size(*client))
            &&& forall|k: Seq<char>|
                k != client.class@ ==> #[trigger] final(sizes).get_spec(k) == old(sizes).get_spec(k)
        },
        class@.len() != 0 ==> {
            &&& final(params).origin_size == old(params).origin_size
            &&& forall|k: Seq<char>| #[trigger] final(classes).get_spec(k) == old(classes).get_spec(k)
            &&& final(sizes).get_spec(class@) == Some(window_class_size(*client))
            &&& forall|k: Seq<char>|
                k != class@ ==> #[trigger] final(sizes).get_spec(k) == old(sizes).get_spec(k)
        },
        *final(params) == (Parameters { origin_size: final(params).origin_size, ..*old(params) }),
{
    let size = ClassSize {
        size: (client.axis_data.x.window_size, client.axis_data.y.window_size),
    };
    if class.as_str().is_empty() {
        params.origin_size = true;
        classes.insert(bin, client.class.clone());
        sizes.insert(client.class.clone(), size);
        true
    } else {
        sizes.insert(class, size);
        false
    }
}

} // verus!
