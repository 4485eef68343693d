//! A map from strings to values that keeps its entries sorted by key, the
//! way a `BTreeMap<String, V>` walks them. It stands for the string-keyed
//! maps of the package manager (dependency tables, lockfile sections, the
//! configuration file), whose contents the contracts speak of entry by entry.
use vstd::prelude::*;

use crate::text::chars_of;

verus! {

/// Strict lexicographic order on texts, character by character (the order
/// of `String` in a `BTreeMap`: UTF-8 keeps the order of code points).
pub open spec fn text_lt(a: Seq<char>, b: Seq<char>) -> bool
    decreases a.len(),
{
    if a.len() == 0 {
        b.len() > 0
    } else if b.len() == 0 {
        false
    } else if a[0] != b[0] {
        a[0] < b[0]
    } else {
        text_lt(a.drop_first(), b.drop_first())
    }
}

pub proof fn lemma_text_lt_irreflexive(a: Seq<char>)
    ensures
        !text_lt(a, a),
    decreases a.len(),
{
    if a.len() > 0 {
        lemma_text_lt_irreflexive(a.drop_first());
    }
}

pub proof fn lemma_text_lt_transitive(a: Seq<char>, b: Seq<char>, c: Seq<char>)
    requires
        text_lt(a, b),
        text_lt(b, c),
    ensures
        text_lt(a, c),
    decreases a.len(),
{
    if a.len() > 0 && b.len() > 0 && c.len() > 0 {
        if a[0] == b[0] && b[0] == c[0] {
            lemma_text_lt_transitive(a.drop_first(), b.drop_first(), c.drop_first());
        }
    }
}

pub proof fn lemma_text_lt_total(a: Seq<char>, b: Seq<char>)
    ensures
        a == b || text_lt(a, b) || text_lt(b, a),
    decreases a.len(),
{
    if a.len() > 0 && b.len() > 0 && a[0] == b[0] {
        lemma_text_lt_total(a.drop_first(), b.drop_first());
        if a.drop_first() == b.drop_first() {
            assert(a =~= seq![a[0]] + a.drop_first());
            assert(b =~= seq![b[0]] + b.drop_first());
        }
    } else if a.len() == 0 && b.len() == 0 {
        assert(a =~= b);
    }
}

pub proof fn lemma_text_lt_asymmetric(a: Seq<char>, b: Seq<char>)
    requires
        text_lt(a, b),
    ensures
        !text_lt(b, a),
{
    if text_lt(b, a) {
        lemma_text_lt_transitive(a, b, a);
        lemma_text_lt_irreflexive(a);
    }
}

/// `text_lt` on the characters of two vectors.
pub fn chars_less(a: &Vec<char>, b: &Vec<char>) -> (r: bool)
    ensures
        r == text_lt(a@, b@),
{
    let mut i: usize = 0;
    assert(a@.skip(0) =~= a@ && b@.skip(0) =~= b@);
    while i < a.len() && i < b.len() && a[i] == b[i]
        invariant
            i <= a@.len(),
            i <= b@.len(),
            forall|k: int| 0 <= k < i ==> a@[k] == b@[k],
            text_lt(a@, b@) == text_lt(a@.skip(i as int), b@.skip(i as int)),
        decreases a@.len() - i,
    {
        assert(a@.skip(i as int).drop_first() =~= a@.skip(i + 1));
        assert(b@.skip(i as int).drop_first() =~= b@.skip(i + 1));
        i = i + 1;
    }
    if i == a.len() {
        i < b.len()
    } else if i == b.len() {
        false
    } else {
        a[i] < b[i]
    }
}

/// `text_lt` on two string slices.
pub fn text_less(a: &str, b: &str) -> (r: bool)
    ensures
        r == text_lt(a@, b@),
{
    let x = chars_of(a);
    let y = chars_of(b);
    chars_less(&x, &y)
}

/// Keys strictly increasing.
pub open spec fn keys_sorted<V>(s: Seq<(Seq<char>, V)>) -> bool {
    forall|i: int, j: int| 0 <= i < j < s.len() ==> text_lt(#[trigger] s[i].0, #[trigger] s[j].0)
}

/// The value stored under `k`: that of the first entry with key `k`.
pub open spec fn lookup<V>(s: Seq<(Seq<char>, V)>, k: Seq<char>) -> Option<V>
    decreases s.len(),
{
    if s.len() == 0 {
        None
    } else if s[0].0 == k {
        Some(s[0].1)
    } else {
        lookup(s.drop_first(), k)
    }
}

/// The entries after `k` is set to `v`: the entry with key `k` takes the
/// new value, or a new entry goes before the first larger key.
pub open spec fn inserted<V>(s: Seq<(Seq<char>, V)>, k: Seq<char>, v: V) -> Seq<(Seq<char>, V)>
    decreases s.len(),
{
    if s.len() == 0 {
        seq![(k, v)]
    } else if s[0].0 == k {
        seq![(k, v)] + s.drop_first()
    } else if text_lt(k, s[0].0) {
        seq![(k, v)] + s
    } else {
        seq![s[0]] + inserted(s.drop_first(), k, v)
    }
}

/// Setting a key and reading it back gives the value set.
pub proof fn lemma_lookup_inserted_same<V>(s: Seq<(Seq<char>, V)>, k: Seq<char>, v: V)
    ensures
        lookup(inserted(s, k, v), k) == Some(v),
    decreases s.len(),
{
    if s.len() > 0 && s[0].0 != k && !text_lt(k, s[0].0) {
        lemma_lookup_inserted_same(s.drop_first(), k, v);
        assert((seq![s[0]] + inserted(s.drop_first(), k, v)).drop_first() =~= inserted(
            s.drop_first(),
            k,
            v,
        ));
    } else if s.len() > 0 && s[0].0 != k {
        assert((seq![(k, v)] + s)[0] == (k, v));
    }
}

/// Setting a key leaves the other keys as they were.
pub proof fn lemma_lookup_inserted_other<V>(
    s: Seq<(Seq<char>, V)>,
    k: Seq<char>,
    v: V,
    other: Seq<char>,
)
    requires
        other != k,
    ensures
        lookup(inserted(s, k, v), other) == lookup(s, other),
    decreases s.len(),
{
    let r = inserted(s, k, v);
    if s.len() == 0 {
        assert(r == seq![(k, v)]);
        assert(r[0] == (k, v));
        assert(r.drop_first() =~= Seq::<(Seq<char>, V)>::empty());
        assert(lookup(r, other) == lookup(r.drop_first(), other));
    } else if s[0].0 == k {
        assert(r == seq![(k, v)] + s.drop_first());
        assert(r[0] == (k, v));
        assert(r.drop_first() =~= s.drop_first());
        assert(lookup(r, other) == lookup(r.drop_first(), other));
    } else if text_lt(k, s[0].0) {
        assert(r == seq![(k, v)] + s);
        assert(r[0] == (k, v));
        assert(r.drop_first() =~= s);
        assert(lookup(r, other) == lookup(r.drop_first(), other));
    } else {
        lemma_lookup_inserted_other(s.drop_first(), k, v, other);
        assert(r == seq![s[0]] + inserted(s.drop_first(), k, v));
        assert(r[0] == s[0]);
        assert(r.drop_first() =~= inserted(s.drop_first(), k, v));
    }
}

proof fn lemma_sorted_tail<V>(s: Seq<(Seq<char>, V)>)
    requires
        keys_sorted(s),
        s.len() > 0,
    ensures
        keys_sorted(s.drop_first()),
{
    assert forall|i: int, j: int| 0 <= i < j < s.drop_first().len() implies text_lt(
        #[trigger] s.drop_first()[i].0,
        #[trigger] s.drop_first()[j].0,
    ) by {
        assert(s.drop_first()[i] == s[i + 1]);
        assert(s.drop_first()[j] == s[j + 1]);
    }
}

/// Where `k` stands in sorted entries: the first index whose key is not
/// smaller than `k`; the spec insertion replaces or inserts there.
proof fn lemma_inserted_at<V>(s: Seq<(Seq<char>, V)>, k: Seq<char>, v: V, p: int)
    requires
        keys_sorted(s),
        0 <= p <= s.len(),
        forall|i: int| 0 <= i < p ==> text_lt(#[trigger] s[i].0, k),
        p < s.len() ==> !text_lt(s[p].0, k),
    ensures
        p < s.len() && s[p].0 == k ==> inserted(s, k, v) == s.update(p, (k, v)),
        !(p < s.len() && s[p].0 == k) ==> inserted(s, k, v) == s.insert(p, (k, v)),
    decreases p,
{
    if p == 0 {
        if s.len() > 0 {
            if s[0].0 != k {
                lemma_text_lt_total(s[0].0, k);
                assert(seq![(k, v)] + s =~= s.insert(0, (k, v)));
            } else {
                assert(seq![(k, v)] + s.drop_first() =~= s.update(0, (k, v)));
            }
        } else {
            assert(seq![(k, v)] =~= s.insert(0, (k, v)));
        }
    } else {
        let t = s.drop_first();
        lemma_sorted_tail(s);
        assert forall|i: int| 0 <= i < p - 1 implies text_lt(#[trigger] t[i].0, k) by {
            assert(t[i] == s[i + 1]);
        }
        assert(s[0].0 != k) by {
            lemma_text_lt_irreflexive(k);
        }
        assert(!text_lt(k, s[0].0)) by {
            lemma_text_lt_asymmetric(s[0].0, k);
        }
        lemma_inserted_at(t, k, v, p - 1);
        if p < s.len() && s[p].0 == k {
            assert(seq![s[0]] + t.update(p - 1, (k, v)) =~= s.update(p, (k, v)));
        } else {
            assert(seq![s[0]] + t.insert(p - 1, (k, v)) =~= s.insert(p, (k, v)));
        }
    }
}

/// Changing the value of an entry leaves the other keys as they were.
pub proof fn lemma_lookup_update_other<V>(s: Seq<(Seq<char>, V)>, i: int, v: V, other: Seq<char>)
    requires
        0 <= i < s.len(),
        other != s[i].0,
    ensures
        lookup(s.update(i, (s[i].0, v)), other) == lookup(s, other),
    decreases s.len(),
{
    let t = s.update(i, (s[i].0, v));
    if i > 0 {
        assert(t.drop_first() =~= s.drop_first().update(i - 1, (s[i].0, v)));
        lemma_lookup_update_other(s.drop_first(), i - 1, v, other);
    } else {
        assert(t.drop_first() =~= s.drop_first());
    }
}

/// Every entry after an insertion is an earlier entry or the new one, so a
/// property of all of those holds of all entries after it.
pub proof fn lemma_inserted_all<V>(s: Seq<(Seq<char>, V)>, k: Seq<char>, v: V, p: spec_fn((Seq<char>, V)) -> bool)
    requires
        forall|i: int| 0 <= i < s.len() ==> p(#[trigger] s[i]),
        p((k, v)),
    ensures
        forall|i: int| 0 <= i < inserted(s, k, v).len() ==> p(#[trigger] inserted(s, k, v)[i]),
    decreases s.len(),
{
    let r = inserted(s, k, v);
    if s.len() == 0 {
    } else if s[0].0 == k {
        assert forall|i: int| 0 <= i < r.len() implies p(#[trigger] r[i]) by {
            if i > 0 {
                assert(r[i] == s[i]);
            }
        }
    } else if text_lt(k, s[0].0) {
        assert forall|i: int| 0 <= i < r.len() implies p(#[trigger] r[i]) by {
            if i > 0 {
                assert(r[i] == s[i - 1]);
            }
        }
    } else {
        let t = s.drop_first();
        assert forall|i: int| 0 <= i < t.len() implies p(#[trigger] t[i]) by {
            assert(t[i] == s[i + 1]);
        }
        lemma_inserted_all(t, k, v, p);
        assert forall|i: int| 0 <= i < r.len() implies p(#[trigger] r[i]) by {
            if i > 0 {
                assert(r[i] == inserted(t, k, v)[i - 1]);
            }
        }
    }
}

/// Inserting keeps the keys sorted.
pub proof fn lemma_inserted_sorted_keys<V>(s: Seq<(Seq<char>, V)>, k: Seq<char>, v: V)
    requires
        keys_sorted(s),
    ensures
        keys_sorted(inserted(s, k, v)),
    decreases s.len(),
{
    let r = inserted(s, k, v);
    if s.len() == 0 {
    } else if s[0].0 == k {
        assert forall|i: int, j: int| 0 <= i < j < r.len() implies text_lt(#[trigger] r[i].0, #[trigger] r[j].0) by {
            assert(r[j] == s[j]);
            if i > 0 {
                assert(r[i] == s[i]);
            }
        }
    } else if text_lt(k, s[0].0) {
        assert forall|i: int, j: int| 0 <= i < j < r.len() implies text_lt(#[trigger] r[i].0, #[trigger] r[j].0) by {
            assert(r[j] == s[j - 1]);
            if i > 0 {
                assert(r[i] == s[i - 1]);
            } else if j - 1 > 0 {
                lemma_text_lt_transitive(k, s[0].0, s[j - 1].0);
            }
        }
    } else {
        let t = s.drop_first();
        assert forall|i: int, j: int| 0 <= i < j < t.len() implies text_lt(#[trigger] t[i].0, #[trigger] t[j].0) by {
            assert(t[i] == s[i + 1] && t[j] == s[j + 1]);
        }
        lemma_inserted_sorted_keys(t, k, v);
        lemma_text_lt_total(s[0].0, k);
        let a = s[0].0;
        let p = |e: (Seq<char>, V)| text_lt(a, e.0);
        assert forall|i: int| 0 <= i < t.len() implies p(#[trigger] t[i]) by {
            assert(t[i] == s[i + 1]);
        }
        lemma_inserted_all(t, k, v, p);
        let it = inserted(t, k, v);
        assert forall|i: int, j: int| 0 <= i < j < r.len() implies text_lt(#[trigger] r[i].0, #[trigger] r[j].0) by {
            assert(r[j] == it[j - 1]);
            if i > 0 {
                assert(r[i] == it[i - 1]);
            } else {
                assert(p(it[j - 1]));
            }
        }
    }
}

proof fn lemma_lookup_some_index<V>(s: Seq<(Seq<char>, V)>, k: Seq<char>)
    requires
        lookup(s, k) is Some,
    ensures
        exists|i: int| 0 <= i < s.len() && s[i].0 == k && lookup(s, k) == Some(#[trigger] s[i].1),
    decreases s.len(),
{
    if s[0].0 != k {
        lemma_lookup_some_index(s.drop_first(), k);
        let i = choose|i: int| 0 <= i < s.drop_first().len() && s.drop_first()[i].0 == k && lookup(s.drop_first(), k) == Some(#[trigger] s.drop_first()[i].1);
        assert(s[i + 1] == s.drop_first()[i]);
    } else {
        assert(s[0].1 == s[0].1);
    }
}

proof fn lemma_lookup_of_index<V>(s: Seq<(Seq<char>, V)>, i: int)
    requires
        keys_sorted(s),
        0 <= i < s.len(),
    ensures
        lookup(s, s[i].0) == Some(s[i].1),
    decreases i,
{
    if i > 0 {
        lemma_text_lt_irreflexive(s[i].0);
        assert(s[0].0 != s[i].0);
        let t = s.drop_first();
        assert forall|a: int, b: int| 0 <= a < b < t.len() implies text_lt(#[trigger] t[a].0, #[trigger] t[b].0) by {
            assert(t[a] == s[a + 1] && t[b] == s[b + 1]);
        }
        assert(t[i - 1] == s[i]);
        lemma_lookup_of_index(t, i - 1);
    }
}

/// Two sorted maps that give the same value for every key are the same.
pub proof fn lemma_sorted_ext<V>(s: Seq<(Seq<char>, V)>, t: Seq<(Seq<char>, V)>)
    requires
        keys_sorted(s),
        keys_sorted(t),
        forall|k: Seq<char>| #[trigger] lookup(s, k) == lookup(t, k),
    ensures
        s == t,
    decreases s.len() + t.len(),
{
    if s.len() == 0 && t.len() == 0 {
        assert(s =~= t);
    } else if s.len() == 0 {
        lemma_lookup_of_index(t, 0);
        assert(lookup(s, t[0].0) is None);
    } else if t.len() == 0 {
        lemma_lookup_of_index(s, 0);
        assert(lookup(t, s[0].0) is None);
    } else {
        lemma_lookup_of_index(s, 0);
        lemma_lookup_of_index(t, 0);
        assert(lookup(t, s[0].0) is Some);
        lemma_lookup_some_index(t, s[0].0);
        let j = choose|j: int| 0 <= j < t.len() && t[j].0 == s[0].0 && lookup(t, s[0].0) == Some(#[trigger] t[j].1);
        assert(lookup(s, t[0].0) is Some);
        lemma_lookup_some_index(s, t[0].0);
        let i = choose|i: int| 0 <= i < s.len() && s[i].0 == t[0].0 && lookup(s, t[0].0) == Some(#[trigger] s[i].1);
        if j > 0 {
            if i > 0 {
                lemma_text_lt_transitive(s[0].0, s[i].0, t[j].0);
                lemma_text_lt_irreflexive(s[0].0);
            } else {
                lemma_text_lt_irreflexive(s[0].0);
            }
        }
        assert(t[0].0 == s[0].0);
        assert(t[0].1 == s[0].1);
        let s1 = s.drop_first();
        let t1 = t.drop_first();
        assert forall|a: int, b: int| 0 <= a < b < s1.len() implies text_lt(#[trigger] s1[a].0, #[trigger] s1[b].0) by {
            assert(s1[a] == s[a + 1] && s1[b] == s[b + 1]);
        }
        assert forall|a: int, b: int| 0 <= a < b < t1.len() implies text_lt(#[trigger] t1[a].0, #[trigger] t1[b].0) by {
            assert(t1[a] == t[a + 1] && t1[b] == t[b + 1]);
        }
        assert forall|k: Seq<char>| #[trigger] lookup(s1, k) == lookup(t1, k) by {
            if k != s[0].0 {
                assert(lookup(s, k) == lookup(s1, k));
                assert(lookup(t, k) == lookup(t1, k));
            } else {
                if lookup(s1, k) is Some {
                    lemma_lookup_some_index(s1, k);
                    let a = choose|a: int| 0 <= a < s1.len() && s1[a].0 == k && lookup(s1, k) == Some(#[trigger] s1[a].1);
                    assert(s1[a] == s[a + 1]);
                    lemma_text_lt_irreflexive(k);
                }
                if lookup(t1, k) is Some {
                    lemma_lookup_some_index(t1, k);
                    let a = choose|a: int| 0 <= a < t1.len() && t1[a].0 == k && lookup(t1, k) == Some(#[trigger] t1[a].1);
                    assert(t1[a] == t[a + 1]);
                    lemma_text_lt_irreflexive(k);
                }
            }
        }
        lemma_sorted_ext(s1, t1);
        assert(s =~= t) by {
            assert forall|a: int| 0 <= a < s.len() implies s[a] == t[a] by {
                if a > 0 {
                    assert(s[a] == s1[a - 1] && t[a] == t1[a - 1]);
                }
            }
        }
    }
}

/// A string-keyed map, sorted by key.
pub struct StrMap<V> {
    entries: Vec<(String, V)>,
}

impl<V> View for StrMap<V> {
    type V = Seq<(Seq<char>, V)>;

    /// The entries in key order, each key by its characters.
    closed spec fn view(&self) -> Seq<(Seq<char>, V)> {
        self.entries@.map_values(|e: (String, V)| (e.0@, e.1))
    }
}

impl<V> StrMap<V> {
    #[verifier::type_invariant]
    closed spec fn sorted(self) -> bool {
        keys_sorted(self@)
    }

    /// The empty map.
    pub fn new() -> (m: Self)
        ensures
            m@ == Seq::<(Seq<char>, V)>::empty(),
    {
        let m = StrMap { entries: Vec::new() };
        assert(m@ =~= Seq::<(Seq<char>, V)>::empty());
        m
    }

    /// Number of entries.
    pub fn len(&self) -> (n: usize)
        ensures
            n == self@.len(),
    {
        self.entries.len()
    }

    /// The key of the `i`-th entry in key order.
    pub fn key_at(&self, i: usize) -> (k: &String)
        requires
            i < self@.len(),
        ensures
            k@ == self@[i as int].0,
    {
        &self.entries[i].0
    }

    /// The value of the `i`-th entry in key order.
    pub fn value_at(&self, i: usize) -> (v: &V)
        requires
            i < self@.len(),
        ensures
            *v == self@[i as int].1,
    {
        &self.entries[i].1
    }

    /// The entries are sorted by key, so no key occurs twice.
    pub fn keys_are_sorted(&self)
        ensures
            keys_sorted(self@),
    {
        proof {
            use_type_invariant(self);
        }
    }

    /// The first index whose key is not smaller than `key`.
    fn position(&self, key: &Vec<char>) -> (p: usize)
        ensures
            p <= self@.len(),
            forall|i: int| 0 <= i < p ==> text_lt(#[trigger] self@[i].0, key@),
            p < self@.len() ==> !text_lt(self@[p as int].0, key@),
    {
        let mut i: usize = 0;
        while i < self.entries.len()
            invariant
                i <= self@.len(),
                self@.len() == self.entries@.len(),
                forall|j: int| 0 <= j < i ==> text_lt(#[trigger] self@[j].0, key@),
            decreases self@.len() - i,
        {
            let k = chars_of(self.entries[i].0.as_str());
            assert(k@ == self@[i as int].0);
            if !chars_less(&k, key) {
                return i;
            }
            i = i + 1;
        }
        i
    }

    /// The index of the entry with key `key`, if there is one.
    pub fn find(&self, key: &str) -> (r: Option<usize>)
        ensures
            match r {
                Some(i) => i < self@.len() && self@[i as int].0 == key@ && lookup(self@, key@)
                    == Some(self@[i as int].1),
                None => lookup(self@, key@) is None,
            },
    {
        proof {
            use_type_invariant(self);
        }
        let kv = chars_of(key);
        let p = self.position(&kv);
        if p < self.entries.len() {
            let k = chars_of(self.entries[p].0.as_str());
            if chars_less(&kv, &k) {
                proof {
                    lemma_lookup_absent(self@, key@, p as int);
                }
                return None;
            }
            proof {
                lemma_text_lt_total(self@[p as int].0, key@);
                lemma_lookup_at(self@, key@, p as int);
            }
            Some(p)
        } else {
            proof {
                lemma_lookup_absent(self@, key@, p as int);
            }
            None
        }
    }

    /// The value stored under `key`.
    pub fn get(&self, key: &str) -> (r: Option<&V>)
        ensures
            match r {
                Some(v) => lookup(self@, key@) == Some(*v),
                None => lookup(self@, key@) is None,
            },
    {
        match self.find(key) {
            Some(i) => Some(&self.entries[i].1),
            None => None,
        }
    }

    /// Whether an entry has key `key`.
    pub fn contains_key(&self, key: &str) -> (r: bool)
        ensures
            r == lookup(self@, key@) is Some,
    {
        self.find(key).is_some()
    }

    /// Puts `value` in the `i`-th entry; its former value comes back.
    pub fn replace_value_at(&mut self, i: usize, value: V) -> (r: V)
        requires
            i < old(self)@.len(),
        ensures
            r == old(self)@[i as int].1,
            final(self)@ == old(self)@.update(i as int, (old(self)@[i as int].0, value)),
    {
        proof {
            use_type_invariant(&*self);
        }
        let mut entries: Vec<(String, V)> = Vec::new();
        std::mem::swap(&mut entries, &mut self.entries);
        let ghost s = old(self)@;
        assert(entries@.map_values(|e: (String, V)| (e.0@, e.1)) == s);
        let (k, v) = entries.remove(i);
        entries.insert(i, (k, value));
        assert(entries@.map_values(|e: (String, V)| (e.0@, e.1)) =~= s.update(i as int, (s[i as int].0, value)));
        assert(keys_sorted(s.update(i as int, (s[i as int].0, value)))) by {
            let t = s.update(i as int, (s[i as int].0, value));
            assert forall|a: int, b: int| 0 <= a < b < t.len() implies text_lt(#[trigger] t[a].0, #[trigger] t[b].0) by {
                assert(t[a].0 == s[a].0 && t[b].0 == s[b].0);
            }
        }
        self.entries = entries;
        v
    }

    /// Sets `key` to `value`, as `BTreeMap::insert` does.
    pub fn insert(&mut self, key: String, value: V)
        ensures
            final(self)@ == inserted(old(self)@, key@, value),
    {
        proof {
            use_type_invariant(&*self);
        }
        let kv = chars_of(key.as_str());
        let p = self.position(&kv);
        let mut entries: Vec<(String, V)> = Vec::new();
        std::mem::swap(&mut entries, &mut self.entries);
        let ghost s = old(self)@;
        assert(entries@.map_values(|e: (String, V)| (e.0@, e.1)) == s);
        let ghost ks = key@;
        let ghost vv = value;
        proof {
            lemma_inserted_at(s, ks, vv, p as int);
        }
        let same = if p < entries.len() {
            let k = chars_of(entries[p].0.as_str());
            assert(k@ == s[p as int].0);
            !chars_less(&kv, &k)
        } else {
            false
        };
        if same {
            proof {
                lemma_text_lt_total(s[p as int].0, ks);
            }
            entries.set(p, (key, value));
            assert(entries@.map_values(|e: (String, V)| (e.0@, e.1)) =~= s.update(p as int, (ks, vv)));
        } else {
            entries.insert(p, (key, value));
            assert(entries@.map_values(|e: (String, V)| (e.0@, e.1)) =~= s.insert(p as int, (ks, vv)));
        }
        proof {
            lemma_inserted_sorted(s, ks, vv, p as int);
        }
        self.entries = entries;
    }
}

proof fn lemma_lookup_at<V>(s: Seq<(Seq<char>, V)>, k: Seq<char>, p: int)
    requires
        keys_sorted(s),
        0 <= p < s.len(),
        s[p].0 == k,
    ensures
        lookup(s, k) == Some(s[p].1),
    decreases p,
{
    if p > 0 {
        lemma_sorted_tail(s);
        assert(s[0].0 != k) by {
            lemma_text_lt_irreflexive(k);
        }
        assert(s.drop_first()[p - 1] == s[p]);
        lemma_lookup_at(s.drop_first(), k, p - 1);
    }
}

proof fn lemma_lookup_absent<V>(s: Seq<(Seq<char>, V)>, k: Seq<char>, p: int)
    requires
        keys_sorted(s),
        0 <= p <= s.len(),
        forall|i: int| 0 <= i < p ==> text_lt(#[trigger] s[i].0, k),
        p < s.len() ==> text_lt(k, s[p].0),
    ensures
        lookup(s, k) is None,
    decreases s.len(),
{
    if s.len() > 0 {
        lemma_sorted_tail(s);
        let t = s.drop_first();
        if p == 0 {
            assert(s[0].0 != k) by {
                lemma_text_lt_irreflexive(k);
            }
            assert forall|i: int| 0 <= i < t.len() implies text_lt(k, #[trigger] t[i].0) by {
                assert(t[i] == s[i + 1]);
                lemma_text_lt_transitive(k, s[0].0, s[i + 1].0);
            }
            lemma_lookup_absent_all(t, k);
        } else {
            assert(s[0].0 != k) by {
                lemma_text_lt_irreflexive(k);
            }
            assert forall|i: int| 0 <= i < p - 1 implies text_lt(#[trigger] t[i].0, k) by {
                assert(t[i] == s[i + 1]);
            }
            if p < s.len() {
                assert(t[p - 1] == s[p]);
            }
            lemma_lookup_absent(t, k, p - 1);
        }
    }
}

proof fn lemma_lookup_absent_all<V>(s: Seq<(Seq<char>, V)>, k: Seq<char>)
    requires
        forall|i: int| 0 <= i < s.len() ==> text_lt(k, #[trigger] s[i].0),
    ensures
        lookup(s, k) is None,
    decreases s.len(),
{
    if s.len() > 0 {
        assert(s[0].0 != k) by {
            lemma_text_lt_irreflexive(k);
        }
        assert forall|i: int| 0 <= i < s.drop_first().len() implies text_lt(
            k,
            #[trigger] s.drop_first()[i].0,
        ) by {
            assert(s.drop_first()[i] == s[i + 1]);
        }
        lemma_lookup_absent_all(s.drop_first(), k);
    }
}

proof fn lemma_inserted_sorted<V>(s: Seq<(Seq<char>, V)>, k: Seq<char>, v: V, p: int)
    requires
        keys_sorted(s),
        0 <= p <= s.len(),
        forall|i: int| 0 <= i < p ==> text_lt(#[trigger] s[i].0, k),
        p < s.len() ==> !text_lt(s[p].0, k),
    ensures
        keys_sorted(inserted(s, k, v)),
{
    lemma_inserted_at(s, k, v, p);
    let r = inserted(s, k, v);
    if p < s.len() && s[p].0 == k {
        assert forall|i: int, j: int| 0 <= i < j < r.len() implies text_lt(
            #[trigger] r[i].0,
            #[trigger] r[j].0,
        ) by {
            assert(r[i].0 == s[i].0);
            assert(r[j].0 == s[j].0);
        }
    } else {
        if p < s.len() {
            lemma_text_lt_total(s[p].0, k);
        }
        assert forall|i: int, j: int| 0 <= i < j < r.len() implies text_lt(
            #[trigger] r[i].0,
            #[trigger] r[j].0,
        ) by {
            if j < p {
                assert(r[i] == s[i] && r[j] == s[j]);
            } else if j == p {
                assert(r[i] == s[i]);
            } else if i < p {
                assert(r[i] == s[i] && r[j] == s[j - 1]);
                lemma_text_lt_transitive(s[i].0, k, s[p].0);
                if j - 1 > p {
                    lemma_text_lt_transitive(s[i].0, s[p].0, s[j - 1].0);
                }
            } else if i == p {
                assert(r[j] == s[j - 1]);
                if j - 1 > p {
                    lemma_text_lt_transitive(k, s[p].0, s[j - 1].0);
                }
            } else {
                assert(r[i] == s[i - 1] && r[j] == s[j - 1]);
            }
        }
    }
}

} // verus!
