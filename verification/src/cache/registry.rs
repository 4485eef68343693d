//! The registry cache: what the registry said of each version of each
//! package, and the choice of a version for a range.
use vstd::prelude::*;

use crate::package::NpmPackage;
use crate::strmap::{
    inserted, lemma_lookup_inserted_other, lemma_lookup_inserted_same, lemma_lookup_update_other,
    lookup, StrMap,
};
use crate::text::{
    first_index, first_index_of, is_digit, lemma_first_index_of, push_char, push_str,
    string_of_range, chars_of,
};

verus! {

/// A package by name and version.
#[derive(Debug)]
pub struct RegistryKey {
    pub name: String,
    pub version: String,
}

impl Clone for RegistryKey {
    fn clone(&self) -> (r: Self)
        ensures
            r == *self,
    {
        RegistryKey { name: self.name.clone(), version: self.version.clone() }
    }
}

/// `name@version`.
pub open spec fn key_text(name: Seq<char>, version: Seq<char>) -> Seq<char> {
    name + seq!['@'] + version
}

impl RegistryKey {
    /// `name@version`.
    pub fn to_string(&self) -> (r: String)
        ensures
            r@ == key_text(self.name@, self.version@),
    {
        let mut r = String::new();
        push_str(&mut r, self.name.as_str());
        push_char(&mut r, '@');
        push_str(&mut r, self.version.as_str());
        assert(r@ =~= key_text(self.name@, self.version@));
        r
    }

    /// Whether two keys name the same package version.
    pub fn same_as(&self, other: &RegistryKey) -> (r: bool)
        ensures
            r == (self.name@ == other.name@ && self.version@ == other.version@),
    {
        self.name == other.name && self.version == other.version
    }
}

/// The text split at `@`: the key of the first two parts, as
/// `convert_to_registry_key` reads it.
pub open spec fn key_parts(s: Seq<char>) -> (Seq<char>, Seq<char>) {
    let a = first_index_of(s, '@');
    let rest = s.subrange(a + 1, s.len() as int);
    let b = first_index_of(rest, '@');
    (s.subrange(0, a), if b < 0 {
        rest
    } else {
        rest.subrange(0, b)
    })
}

/// Reads `name@version`; the text must hold an `@`.
pub fn convert_to_registry_key(key: &str) -> (r: RegistryKey)
    requires
        first_index_of(key@, '@') >= 0,
    ensures
        (r.name@, r.version@) == key_parts(key@),
{
    let s = chars_of(key);
    let n = s.len();
    proof {
        lemma_first_index_of(s@, '@');
    }
    let a = first_index(&s, '@').unwrap();
    let rest_v = {
        let mut v: Vec<char> = Vec::new();
        let mut i = a + 1;
        while i < n
            invariant
                a + 1 <= i <= n,
                n == s@.len(),
                v@ == s@.subrange(a + 1, i as int),
            decreases n - i,
        {
            v.push(s[i]);
            i = i + 1;
            assert(v@ =~= s@.subrange(a + 1, i as int));
        }
        v
    };
    proof {
        lemma_first_index_of(rest_v@, '@');
    }
    let name = string_of_range(&s, 0, a);
    let version = match first_index(&rest_v, '@') {
        Some(b) => string_of_range(&rest_v, 0, b),
        None => string_of_range(&rest_v, 0, rest_v.len()),
    };
    assert(rest_v@.subrange(0, rest_v@.len() as int) =~= rest_v@);
    RegistryKey { name, version }
}

/// A key written out and read back is the same key, when neither part holds
/// an `@`.
pub proof fn lemma_key_text_roundtrip(name: Seq<char>, version: Seq<char>)
    requires
        !name.contains('@'),
        !version.contains('@'),
    ensures
        first_index_of(key_text(name, version), '@') >= 0,
        key_parts(key_text(name, version)) == (name, version),
{
    let s = key_text(name, version);
    lemma_first_index_of(s, '@');
    assert(s[name.len() as int] == '@');
    let a = first_index_of(s, '@');
    if a < name.len() {
        assert(s[a] == name[a]);
    }
    assert(a == name.len());
    let rest = s.subrange(a + 1, s.len() as int);
    assert(rest =~= version);
    lemma_first_index_of(rest, '@');
    if first_index_of(rest, '@') >= 0 {
        assert(version.contains(rest[first_index_of(rest, '@')]));
    }
    assert(s.subrange(0, a) =~= name);
}

// ---------------------------------------------------------------------
// Versions and ranges (nodejs-semver)
// ---------------------------------------------------------------------

/// Whether `nodejs_semver::Range::parse` reads the text.
pub uninterp spec fn semver_range_ok(range: Seq<char>) -> bool;

/// Whether `nodejs_semver::Version::parse` reads the text.
pub uninterp spec fn semver_version_ok(version: Seq<char>) -> bool;

/// `Range::satisfies` on the range and version the texts give.
pub uninterp spec fn semver_satisfies(range: Seq<char>, version: Seq<char>) -> bool;

/// `>` on the versions the texts give.
pub uninterp spec fn semver_greater(a: Seq<char>, b: Seq<char>) -> bool;

/// `nodejs_semver::Range::parse`: whether it accepts the text.
#[verifier::external_body]
fn range_parses(range: &str) -> (r: bool)
    ensures
        r == semver_range_ok(range@),
{
    nodejs_semver::Range::parse(range).is_ok()
}

/// `nodejs_semver::Version::parse`: whether it accepts the text.
#[verifier::external_body]
fn version_parses(version: &str) -> (r: bool)
    ensures
        r == semver_version_ok(version@),
{
    nodejs_semver::Version::parse(version).is_ok()
}

/// `nodejs_semver::Range::satisfies` on the parsed range and version; both
/// texts parse, so neither parse fails here.
#[verifier::external_body]
fn range_satisfies(range: &str, version: &str) -> (r: bool)
    requires
        semver_range_ok(range@),
        semver_version_ok(version@),
    ensures
        r == semver_satisfies(range@, version@),
{
    let range = nodejs_semver::Range::parse(range).unwrap();
    let version = nodejs_semver::Version::parse(version).unwrap();
    range.satisfies(&version)
}

/// `>` of `nodejs_semver::Version` (its `Ord`) on two parsed versions.
#[verifier::external_body]
fn version_greater(a: &str, b: &str) -> (r: bool)
    requires
        semver_version_ok(a@),
        semver_version_ok(b@),
    ensures
        r == semver_greater(a@, b@),
{
    let a = nodejs_semver::Version::parse(a).unwrap();
    let b = nodejs_semver::Version::parse(b).unwrap();
    a > b
}

/// The versions of the entries of a map of packages, in key order.
pub open spec fn entry_versions(m: Seq<(Seq<char>, NpmPackage)>) -> Seq<Seq<char>> {
    m.map_values(|e: (Seq<char>, NpmPackage)| e.1.version@)
}

/// The version chosen for a range: walking the versions in order, the first
/// that satisfies it, replaced by each later one that satisfies it and is
/// greater than the one kept.
pub open spec fn pick_version(range: Seq<char>, vs: Seq<Seq<char>>) -> Option<int>
    decreases vs.len(),
{
    if vs.len() == 0 {
        None
    } else {
        let prev = pick_version(range, vs.drop_last());
        let k = vs.len() - 1;
        if !semver_satisfies(range, vs[k]) {
            prev
        } else {
            match prev {
                None => Some(k),
                Some(j) => if semver_greater(vs[k], vs[j]) {
                    Some(k)
                } else {
                    Some(j)
                },
            }
        }
    }
}

/// The version chosen for a range satisfies it.
pub proof fn lemma_pick_in_range(range: Seq<char>, vs: Seq<Seq<char>>)
    ensures
        match pick_version(range, vs) {
            Some(i) => 0 <= i < vs.len() && semver_satisfies(range, vs[i]),
            None => true,
        },
    decreases vs.len(),
{
    if vs.len() > 0 {
        lemma_pick_in_range(range, vs.drop_last());
    }
}

/// The versions known for `name`, none if the name is unknown.
pub open spec fn known_versions(cache: Seq<(Seq<char>, StrMap<NpmPackage>)>, name: Seq<char>) -> Seq<
    (Seq<char>, NpmPackage),
> {
    match lookup(cache, name) {
        Some(m) => m@,
        None => Seq::empty(),
    }
}

/// `semver_greater` ordered as a strict order: no version is greater than
/// itself, and greater than greater is greater.
pub open spec fn greater_is_strict_order() -> bool {
    &&& forall|a: Seq<char>| !#[trigger] semver_greater(a, a)
    &&& forall|a: Seq<char>, b: Seq<char>, c: Seq<char>|
        #[trigger] semver_greater(a, b) && #[trigger] semver_greater(b, c) ==> semver_greater(a, c)
}

/// Under a strict order, the version chosen for a range is a greatest one:
/// no version that satisfies the range is greater; and none is chosen only
/// when none satisfies it.
pub proof fn lemma_pick_is_greatest(range: Seq<char>, vs: Seq<Seq<char>>)
    requires
        greater_is_strict_order(),
    ensures
        match pick_version(range, vs) {
            Some(i) => forall|j: int|
                0 <= j < vs.len() && #[trigger] semver_satisfies(range, vs[j]) ==> !semver_greater(vs[j], vs[i]),
            None => forall|j: int| 0 <= j < vs.len() ==> !#[trigger] semver_satisfies(range, vs[j]),
        },
    decreases vs.len(),
{
    if vs.len() > 0 {
        let d = vs.drop_last();
        lemma_pick_is_greatest(range, d);
        lemma_pick_in_range(range, d);
        let k = vs.len() - 1;
        assert forall|j: int| 0 <= j < k implies vs[j] == d[j] by {}
        match pick_version(range, d) {
            Some(i) => {
                if semver_satisfies(range, vs[k]) && semver_greater(vs[k], vs[i]) {
                    assert forall|j: int|
                        0 <= j < vs.len() && #[trigger] semver_satisfies(range, vs[j]) implies !semver_greater(vs[j], vs[k]) by {
                        if j < k && semver_greater(vs[j], vs[k]) {
                            assert(vs[j] == d[j]);
                            assert(semver_greater(vs[j], vs[i]));
                        }
                    }
                } else {
                    assert forall|j: int|
                        0 <= j < vs.len() && #[trigger] semver_satisfies(range, vs[j]) implies !semver_greater(vs[j], vs[i]) by {
                        if j < k {
                            assert(vs[j] == d[j]);
                        }
                    }
                }
            },
            None => {
                assert forall|j: int| 0 <= j < k implies !#[trigger] semver_satisfies(range, vs[j]) by {
                    assert(vs[j] == d[j]);
                }
            },
        }
    }
}

/// A version text that names one version: it starts with a digit.
pub open spec fn is_exact(version: Seq<char>) -> bool {
    version.len() > 0 && is_digit(version[0])
}

/// The versions known for a package name.
pub struct RegistryCache {
    /// Where the cache lives on disk.
    pub directory: String,
    /// Package name, then version, then what the registry said.
    pub cache: StrMap<StrMap<NpmPackage>>,
}

impl RegistryCache {
    /// An empty cache kept in `directory`.
    pub fn new(directory: String) -> (r: Self)
        ensures
            r.directory == directory,
            r.cache@.len() == 0,
    {
        RegistryCache { directory, cache: StrMap::new() }
    }

    /// A name whose versions are known to be on disk but not read yet has an
    /// empty entry.
    pub open spec fn preload_needed(self, name: Seq<char>) -> bool {
        match lookup(self.cache@, name) {
            Some(m) => m@.len() == 0,
            None => false,
        }
    }

    /// Whether the versions of `key`'s package are still to be read from disk.
    pub fn needs_preload(&self, key: &RegistryKey) -> (r: bool)
        ensures
            r == self.preload_needed(key.name@),
    {
        match self.cache.get(key.name.as_str()) {
            Some(m) => m.len() == 0,
            None => false,
        }
    }

    /// Puts the versions read from disk in place of an empty entry; a
    /// cache without such an entry stays as it is.
    pub fn perform_preload(&mut self, key: &RegistryKey, loaded: StrMap<NpmPackage>)
        ensures
            old(self).preload_needed(key.name@) ==> final(self).cache@ == inserted(
                old(self).cache@,
                key.name@,
                loaded,
            ),
            !old(self).preload_needed(key.name@) ==> final(self).cache@ == old(self).cache@,
            final(self).directory == old(self).directory,
    {
        if self.needs_preload(key) {
            self.cache.insert(key.name.clone(), loaded);
        }
    }

    /// Whether `get` can answer for `key` (a version text that does not
    /// parse stops it): a nonempty version; for a range, one that parses and
    /// known versions that all parse.
    pub open spec fn get_defined(self, key: RegistryKey) -> bool {
        &&& key.version@.len() > 0
        &&& !is_exact(key.version@) ==> {
            &&& semver_range_ok(key.version@)
            &&& match lookup(self.cache@, key.name@) {
                Some(m) => forall|i: int|
                    0 <= i < m@.len() ==> semver_version_ok(#[trigger] m@[i].1.version@),
                None => true,
            }
        }
    }

    /// What `get` answers: an exact version is looked up; for a range, the
    /// version `pick_version` chooses among those known.
    pub open spec fn get_model(self, key: RegistryKey) -> Option<NpmPackage> {
        match lookup(self.cache@, key.name@) {
            None => None,
            Some(m) => if is_exact(key.version@) {
                lookup(m@, key.version@)
            } else {
                match pick_version(key.version@, entry_versions(m@)) {
                    Some(i) => Some(m@[i].1),
                    None => None,
                }
            },
        }
    }

    /// The package version that `key` asks for.
    pub fn get(&self, key: &RegistryKey) -> (r: Option<&NpmPackage>)
        requires
            self.get_defined(*key),
        ensures
            match r {
                Some(p) => self.get_model(*key) == Some(*p),
                None => self.get_model(*key) is None,
            },
    {
        let v = chars_of(key.version.as_str());
        let c = v[0];
        if '0' <= c && c <= '9' {
            match self.cache.get(key.name.as_str()) {
                Some(m) => m.get(key.version.as_str()),
                None => None,
            }
        } else {
            let m = match self.cache.get(key.name.as_str()) {
                Some(m) => m,
                None => {
                    return None;
                },
            };
            let ghost vs = entry_versions(m@);
            let mut selected: Option<usize> = None;
            let mut i: usize = 0;
            while i < m.len()
                invariant
                    i <= m@.len(),
                    vs == entry_versions(m@),
                    semver_range_ok(key.version@),
                    forall|k: int| 0 <= k < m@.len() ==> semver_version_ok(#[trigger] m@[k].1.version@),
                    match selected {
                        Some(j) => pick_version(key.version@, vs.take(i as int)) == Some(j as int),
                        None => pick_version(key.version@, vs.take(i as int)) is None,
                    },
                decreases m@.len() - i,
            {
                proof {
                    lemma_pick_in_range(key.version@, vs.take(i as int));
                }
                let candidate = m.value_at(i);
                assert(vs.take(i + 1).drop_last() =~= vs.take(i as int));
                assert(vs.take(i + 1)[i as int] == candidate.version@);
                if range_satisfies(key.version.as_str(), candidate.version.as_str()) {
                    match selected {
                        Some(j) => {
                            assert(vs.take(i as int)[j as int] == m@[j as int].1.version@);
                            if version_greater(
                                candidate.version.as_str(),
                                m.value_at(j).version.as_str(),
                            ) {
                                selected = Some(i);
                            }
                        },
                        None => {
                            selected = Some(i);
                        },
                    }
                }
                i = i + 1;
            }
            assert(vs.take(m@.len() as int) =~= vs);
            match selected {
                Some(j) => {
                    proof {
                        lemma_pick_in_range(key.version@, vs);
                    }
                    Some(m.value_at(j))
                },
                None => None,
            }
        }
    }

    /// Whether `get` can answer for `key`.
    pub fn can_get(&self, key: &RegistryKey) -> (r: bool)
        ensures
            r == self.get_defined(*key),
    {
        let v = chars_of(key.version.as_str());
        if v.len() == 0 {
            return false;
        }
        if '0' <= v[0] && v[0] <= '9' {
            return true;
        }
        if !range_parses(key.version.as_str()) {
            return false;
        }
        assert(!is_exact(key.version@));
        match self.cache.get(key.name.as_str()) {
            Some(m) => {
                let mut i: usize = 0;
                while i < m.len()
                    invariant
                        i <= m@.len(),
                        key.version@.len() > 0,
                        !is_exact(key.version@),
                        semver_range_ok(key.version@),
                        lookup(self.cache@, key.name@) == Some(*m),
                        forall|k: int| 0 <= k < i ==> semver_version_ok(#[trigger] m@[k].1.version@),
                    decreases m@.len() - i,
                {
                    if !version_parses(m.value_at(i).version.as_str()) {
                        assert(!semver_version_ok(m@[i as int].1.version@));
                        return false;
                    }
                    i = i + 1;
                }
                true
            },
            None => true,
        }
    }

    /// `get` where it can answer; `None` where it would stop on a version
    /// text that does not parse.
    pub fn try_get(&self, key: &RegistryKey) -> (r: Option<Option<&NpmPackage>>)
        ensures
            r is Some == self.get_defined(*key),
            match r {
                Some(Some(p)) => self.get_model(*key) == Some(*p),
                Some(None) => self.get_model(*key) is None,
                None => true,
            },
    {
        if self.can_get(key) {
            Some(self.get(key))
        } else {
            None
        }
    }

    /// Records what the registry said of `key`'s version.
    pub fn set(&mut self, key: &RegistryKey, value: NpmPackage)
        ensures
            final(self).directory == old(self).directory,
            match lookup(final(self).cache@, key.name@) {
                Some(m) => m@ == inserted(known_versions(old(self).cache@, key.name@), key.version@, value),
                None => false,
            },
            forall|k: Seq<char>|
                k != key.name@ ==> #[trigger] lookup(final(self).cache@, k) == lookup(old(self).cache@, k),
    {
        match self.cache.find(key.name.as_str()) {
            Some(i) => {
                let ghost s = self.cache@;
                let empty: StrMap<NpmPackage> = StrMap::new();
                let ghost e = empty;
                let mut m = self.cache.replace_value_at(i, empty);
                let ghost mid = self.cache@;
                m.insert(key.version.clone(), value);
                self.cache.insert(key.name.clone(), m);
                proof {
                    lemma_lookup_inserted_same(mid, key.name@, m);
                    assert forall|k: Seq<char>| k != key.name@ implies #[trigger] lookup(self.cache@, k) == lookup(s, k) by {
                        lemma_lookup_inserted_other(mid, key.name@, m, k);
                        lemma_lookup_update_other(s, i as int, e, k);
                    }
                }
            },
            None => {
                let mut m = StrMap::new();
                m.insert(key.version.clone(), value);
                let ghost s = self.cache@;
                self.cache.insert(key.name.clone(), m);
                proof {
                    lemma_lookup_inserted_same(s, key.name@, m);
                    assert forall|k: Seq<char>| k != key.name@ implies #[trigger] lookup(self.cache@, k) == lookup(s, k) by {
                        lemma_lookup_inserted_other(s, key.name@, m, k);
                    }
                }
            },
        }
    }

    /// Whether the version of `key` is known.
    pub fn has(&self, key: &RegistryKey) -> (r: bool)
        ensures
            r == match lookup(self.cache@, key.name@) {
                Some(m) => lookup(m@, key.version@) is Some,
                None => false,
            },
    {
        match self.cache.get(key.name.as_str()) {
            Some(m) => m.contains_key(key.version.as_str()),
            None => false,
        }
    }
}

/// A version recorded by `set` is what `get` answers for that exact version.
pub proof fn lemma_get_after_set(before: RegistryCache, after: RegistryCache, key: RegistryKey, value: NpmPackage)
    requires
        is_exact(key.version@),
        match lookup(after.cache@, key.name@) {
            Some(m) => m@ == inserted(known_versions(before.cache@, key.name@), key.version@, value),
            None => false,
        },
    ensures
        after.get_model(key) == Some(value),
{
    crate::strmap::lemma_lookup_inserted_same(known_versions(before.cache@, key.name@), key.version@, value);
}

/// What `get` answers for a range satisfies the range.
pub proof fn lemma_get_range_satisfies(c: RegistryCache, key: RegistryKey)
    requires
        !is_exact(key.version@),
        c.get_model(key) is Some,
    ensures
        semver_satisfies(key.version@, c.get_model(key)->0.version@),
{
    let m = lookup(c.cache@, key.name@)->0;
    lemma_pick_in_range(key.version@, entry_versions(m@));
}

/// The text with every `.json` taken out, left to right.
pub open spec fn without_json(s: Seq<char>) -> Seq<char>
    decreases s.len(),
{
    if s.len() == 0 {
        s
    } else if s.len() >= 5 && s.take(5) == ".json"@ {
        without_json(s.skip(5))
    } else {
        seq![s[0]] + without_json(s.skip(1))
    }
}

/// The package a registry cache file is for: its name without `.json`.
pub fn cache_name_of_file(file_name: &str) -> (r: String)
    ensures
        r@ == without_json(file_name@),
{
    proof {
        reveal_strlit(".json");
    }
    let s = chars_of(file_name);
    let n = s.len();
    let mut out = String::new();
    let mut i: usize = 0;
    assert(s@.subrange(0, n as int) =~= s@);
    while i < n
        invariant
            i <= n,
            n == s@.len(),
            s@ == file_name@,
            without_json(file_name@) == out@ + without_json(s@.subrange(i as int, n as int)),
        decreases n - i,
    {
        let ghost t = s@.subrange(i as int, n as int);
        proof {
            reveal_strlit(".json");
        }
        if n - i >= 5 && s[i] == '.' && s[i + 1] == 'j' && s[i + 2] == 's' && s[i + 3] == 'o' && s[i + 4] == 'n' {
            assert(t.take(5) =~= ".json"@);
            assert(t.skip(5) =~= s@.subrange(i + 5, n as int));
            i = i + 5;
        } else {
            assert(!(t.len() >= 5 && t.take(5) == ".json"@)) by {
                if t.len() >= 5 && t.take(5) == ".json"@ {
                    assert(t.take(5)[0] == '.' && t.take(5)[1] == 'j' && t.take(5)[2] == 's' && t.take(5)[3] == 'o' && t.take(5)[4] == 'n');
                }
            }
            assert(t.skip(1) =~= s@.subrange(i + 1, n as int));
            push_char(&mut out, s[i]);
            i = i + 1;
            assert(out@ + without_json(s@.subrange(i as int, n as int)) =~= out@.drop_last() + (seq![t[0]]
                + without_json(t.skip(1))));
        }
    }
    assert(s@.subrange(n as int, n as int) =~= Seq::<char>::empty());
    assert(out@ + Seq::<char>::empty() =~= out@);
    out
}

/// The registry cache file of `key`'s package: `name.json`.
pub fn cache_file_name(key: &RegistryKey) -> (r: String)
    ensures
        r@ == key.name@ + ".json"@,
{
    let mut r = String::new();
    push_str(&mut r, key.name.as_str());
    push_str(&mut r, ".json");
    r
}

/// Under a strict order, what `get` answers for a range is a greatest
/// known version that satisfies it.
pub proof fn lemma_get_range_greatest(c: RegistryCache, key: RegistryKey)
    requires
        greater_is_strict_order(),
        !is_exact(key.version@),
        c.get_model(key) is Some,
    ensures
        semver_satisfies(key.version@, c.get_model(key)->0.version@),
        forall|i: int|
            0 <= i < known_versions(c.cache@, key.name@).len() && #[trigger] semver_satisfies(
                key.version@,
                known_versions(c.cache@, key.name@)[i].1.version@,
            ) ==> !semver_greater(
                known_versions(c.cache@, key.name@)[i].1.version@,
                c.get_model(key)->0.version@,
            ),
{
    let m = lookup(c.cache@, key.name@)->0;
    let vs = entry_versions(m@);
    lemma_pick_in_range(key.version@, vs);
    lemma_pick_is_greatest(key.version@, vs);
    assert forall|i: int|
        0 <= i < known_versions(c.cache@, key.name@).len() && #[trigger] semver_satisfies(
            key.version@,
            known_versions(c.cache@, key.name@)[i].1.version@,
        ) implies !semver_greater(
        known_versions(c.cache@, key.name@)[i].1.version@,
        c.get_model(key)->0.version@,
    ) by {
        assert(vs[i] == m@[i].1.version@);
    }
}

} // verus!
