//! The cache of unpacked packages: which package versions are on disk.
use vstd::prelude::*;

use crate::cache::registry::{convert_to_registry_key, key_parts, key_text, RegistryKey};
use crate::text::{first_index_of, push_char, push_str};

verus! {

/// A path joined to a relative one, as `Path::join` does: an absolute
/// `rel` replaces the path, and a separator is put between the two unless
/// the path is empty or ends with one.
pub open spec fn path_join(dir: Seq<char>, rel: Seq<char>) -> Seq<char> {
    if rel.len() > 0 && rel[0] == '/' {
        rel
    } else if dir.len() == 0 || dir.last() == '/' {
        dir + rel
    } else {
        dir + seq!['/'] + rel
    }
}

pub fn join_path(dir: &str, rel: &str) -> (r: String)
    ensures
        r@ == path_join(dir@, rel@),
{
    let mut r = String::new();
    let rel_chars = crate::text::chars_of(rel);
    if rel_chars.len() > 0 && rel_chars[0] == '/' {
        push_str(&mut r, rel);
        return r;
    }
    let d = crate::text::chars_of(dir);
    push_str(&mut r, dir);
    if !(d.len() == 0 || d[d.len() - 1] == '/') {
        push_char(&mut r, '/');
    }
    push_str(&mut r, rel);
    assert(r@ =~= path_join(dir@, rel@));
    r
}

/// The package versions that are unpacked in the cache directory.
pub struct PackagesCache {
    pub directory: String,
    /// The versions on disk, each once.
    pub cache: Vec<RegistryKey>,
    /// The names of the entries of the directory, each once.
    pub downloaded_modules: Vec<String>,
}

pub open spec fn key_in(v: Seq<RegistryKey>, key: RegistryKey) -> bool {
    exists|i: int| 0 <= i < v.len() && #[trigger] v[i].name@ == key.name@ && v[i].version@ == key.version@
}

impl PackagesCache {
    /// An empty cache kept in `directory`.
    pub fn new(directory: String) -> (r: Self)
        ensures
            r.directory == directory,
            r.cache@.len() == 0,
            r.downloaded_modules@.len() == 0,
    {
        PackagesCache { directory, cache: Vec::new(), downloaded_modules: Vec::new() }
    }

    pub fn get_cache_directory(&self) -> (r: &String)
        ensures
            *r == self.directory,
    {
        &self.directory
    }

    /// Whether `key`'s version is on disk.
    pub fn has(&self, key: &RegistryKey) -> (r: bool)
        ensures
            r == key_in(self.cache@, *key),
    {
        let mut i: usize = 0;
        while i < self.cache.len()
            invariant
                i <= self.cache@.len(),
                forall|k: int| 0 <= k < i ==> !(#[trigger] self.cache@[k].name@ == key.name@
                    && self.cache@[k].version@ == key.version@),
            decreases self.cache@.len() - i,
        {
            if self.cache[i].same_as(key) {
                return true;
            }
            i = i + 1;
        }
        false
    }

    /// Where `key`'s version is unpacked, if it is on disk: the directory
    /// joined with `name@version`.
    pub fn get(&self, key: &RegistryKey) -> (r: Option<String>)
        ensures
            match r {
                Some(p) => key_in(self.cache@, *key) && p@ == path_join(
                    self.directory@,
                    key_text(key.name@, key.version@),
                ),
                None => !key_in(self.cache@, *key),
            },
    {
        if self.has(key) {
            let k = key.to_string();
            return Some(join_path(self.directory.as_str(), k.as_str()));
        }
        None
    }

    /// Records that `key`'s version is on disk.
    pub fn set(&mut self, key: &RegistryKey)
        ensures
            final(self).directory == old(self).directory,
            final(self).downloaded_modules == old(self).downloaded_modules,
            key_in(old(self).cache@, *key) ==> final(self).cache@ == old(self).cache@,
            !key_in(old(self).cache@, *key) ==> final(self).cache@ == old(self).cache@.push(*key),
    {
        if !self.has(key) {
            self.cache.push(key.clone());
        }
    }
}

/// The key of an entry of a scope directory (`@types/node@1.0.0` under
/// `@types`): the directory, `/`, and the entry's key, read again.
pub fn nested_key(dirname: &str, key: &RegistryKey) -> (r: RegistryKey)
    requires
        first_index_of(dirname@ + seq!['/'] + key_text(key.name@, key.version@), '@') >= 0,
    ensures
        (r.name@, r.version@) == key_parts(dirname@ + seq!['/'] + key_text(key.name@, key.version@)),
{
    let mut s = String::new();
    push_str(&mut s, dirname);
    push_char(&mut s, '/');
    let k = key.to_string();
    push_str(&mut s, k.as_str());
    assert(s@ =~= dirname@ + seq!['/'] + key_text(key.name@, key.version@));
    convert_to_registry_key(s.as_str())
}

/// After `set`, the version is in the cache.
pub proof fn lemma_has_after_set(before: Seq<RegistryKey>, after: Seq<RegistryKey>, key: RegistryKey)
    requires
        key_in(before, key) ==> after == before,
        !key_in(before, key) ==> after == before.push(key),
    ensures
        key_in(after, key),
{
    if !key_in(before, key) {
        assert(after[before.len() as int] == key);
        assert(after[before.len() as int].name@ == key.name@);
    }
}

} // verus!
