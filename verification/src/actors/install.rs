//! What `craft install` is asked to install.
use vstd::prelude::*;

use crate::text::{
    count_char, count_of, last_index, last_index_of, chars_of, lemma_count_absent, lemma_count_concat,
    lemma_last_at_split, lemma_last_index_of, owned, string_of_range,
};

verus! {

/// A package asked for, as `name` or `name@version`, with the kind of
/// dependency it becomes.
#[derive(Debug, Clone)]
pub enum PackageType {
    Dev(String),
    Optional(String),
    Prod(String),
    Peer(String),
    Global(String),
}

/// Whether `s` names a scoped package (`@scope/name`).
pub open spec fn is_scoped(s: Seq<char>) -> bool {
    s.len() > 0 && s[0] == '@'
}

/// Whether `s` carries a version after its last `@`: one `@` in a plain
/// name, two in a scoped one.
pub open spec fn has_version(s: Seq<char>) -> bool {
    (!is_scoped(s) && count_char(s, '@') == 1) || (is_scoped(s) && count_char(s, '@') == 2)
}

/// The specifications that `get_parts` accepts: at most one `@`, or two in
/// a scoped name (more `@` are refused).
pub open spec fn well_formed_spec(s: Seq<char>) -> bool {
    count_char(s, '@') <= 1 || (is_scoped(s) && count_char(s, '@') == 2)
}

/// Name and version of a specification: split at the last `@` when it
/// carries a version, else the whole text and `*` (any version).
pub open spec fn spec_parts(s: Seq<char>) -> (Seq<char>, Seq<char>) {
    if has_version(s) {
        let p = last_index_of(s, '@');
        (s.take(p), s.skip(p + 1))
    } else {
        (s, "*"@)
    }
}

/// Whether `get_parts` accepts the specification `s`.
pub fn spec_is_well_formed(s: &str) -> (r: bool)
    ensures
        r == well_formed_spec(s@),
{
    let v = chars_of(s);
    let n = count_of(&v, '@');
    n <= 1 || (v.len() > 0 && v[0] == '@' && n == 2)
}

impl PackageType {
    /// The specification text, whatever the kind.
    pub open spec fn text(&self) -> Seq<char> {
        match self {
            PackageType::Dev(d) => d@,
            PackageType::Optional(o) => o@,
            PackageType::Prod(p) => p@,
            PackageType::Peer(p) => p@,
            PackageType::Global(g) => g@,
        }
    }

    /// Name and version (`*` when none is given) of the package asked for.
    pub fn get_parts(&self) -> (r: (String, String))
        requires
            well_formed_spec(self.text()),
        ensures
            (r.0@, r.1@) == spec_parts(self.text()),
            has_version(self.text()) ==> r.0@ + seq!['@'] + r.1@ == self.text(),
            !has_version(self.text()) ==> r.0@ == self.text() && r.1@ == "*"@,
    {
        match self {
            PackageType::Dev(d) => split_name(d.as_str()),
            PackageType::Optional(o) => split_name(o.as_str()),
            PackageType::Prod(p) => split_name(p.as_str()),
            PackageType::Peer(peer) => split_name(peer.as_str()),
            PackageType::Global(g) => split_name(g.as_str()),
        }
    }
}

fn split_name(key: &str) -> (r: (String, String))
    requires
        well_formed_spec(key@),
    ensures
        (r.0@, r.1@) == spec_parts(key@),
        has_version(key@) ==> r.0@ + seq!['@'] + r.1@ == key@,
{
    let v = chars_of(key);
    let nums_of_ats = count_of(&v, '@');
    let is_scoped_package = v.len() > 0 && v[0] == '@';
    if (!is_scoped_package && nums_of_ats == 1) || (is_scoped_package && nums_of_ats == 2) {
        proof {
            lemma_last_index_of(v@, '@');
            assert(count_char(v@, '@') > 0);
            lemma_count_positive_has_index(v@, '@');
        }
        match last_index(&v, '@') {
            Some(p) => {
                let name = string_of_range(&v, 0, p);
                let version = string_of_range(&v, p + 1, v.len());
                assert(v@.subrange(0, p as int) =~= v@.take(p as int));
                assert(v@.subrange(p + 1, v@.len() as int) =~= v@.skip(p + 1));
                assert(v@.take(p as int) + seq!['@'] + v@.skip(p + 1) =~= v@);
                (name, version)
            },
            None => {
                proof {
                    assert(false);
                }
                (owned(key), owned("*"))
            },
        }
    } else {
        (owned(key), owned("*"))
    }
}

proof fn lemma_count_positive_has_index(s: Seq<char>, c: char)
    requires
        count_char(s, c) > 0,
    ensures
        last_index_of(s, c) >= 0,
    decreases s.len(),
{
    if s.len() > 0 && s.last() != c {
        lemma_count_positive_has_index(s.drop_last(), c);
    }
}

/// Installs the packages asked for.
pub struct InstallActor {
    packages: Vec<PackageType>,
}

impl InstallActor {
    pub fn new(packages: Vec<PackageType>) -> (r: Self)
        ensures
            r.packages() == packages@,
    {
        Self { packages }
    }

    pub closed spec fn packages(&self) -> Seq<PackageType> {
        self.packages@
    }
}

/// A name and a version joined by `@` split back into the two: for a name
/// without `@`, or a scoped name (`@scope/name`) with no other `@`, and a
/// version without `@`.
pub proof fn lemma_get_parts_roundtrip(name: Seq<char>, version: Seq<char>)
    requires
        name.len() > 0,
        !version.contains('@'),
        !name.contains('@') || (name[0] == '@' && !name.drop_first().contains('@')),
    ensures
        well_formed_spec(name + seq!['@'] + version),
        has_version(name + seq!['@'] + version),
        spec_parts(name + seq!['@'] + version) == (name, version),
{
    let s = name + seq!['@'] + version;
    lemma_count_concat(name + seq!['@'], version, '@');
    lemma_count_concat(name, seq!['@'], '@');
    lemma_count_absent(version, '@');
    assert(count_char(seq!['@'], '@') == 1) by {
        assert(seq!['@'].drop_last() =~= Seq::<char>::empty());
        assert(count_char(Seq::<char>::empty(), '@') == 0);
    }
    if name.contains('@') {
        assert(name =~= seq![name[0]] + name.drop_first());
        lemma_count_concat(seq![name[0]], name.drop_first(), '@');
        lemma_count_absent(name.drop_first(), '@');
        assert(count_char(seq![name[0]], '@') == 1) by {
            assert(seq![name[0]].drop_last() =~= Seq::<char>::empty());
            assert(count_char(Seq::<char>::empty(), '@') == 0);
        }
        assert(s[0] == name[0]);
    } else {
        lemma_count_absent(name, '@');
        assert(s[0] == name[0]);
        assert(name[0] != '@') by {
            if name[0] == '@' {
                assert(name.contains(name[0]));
            }
        }
    }
    lemma_last_at_split(name, version);
    assert(s.take(name.len() as int) =~= name);
    assert(s.skip(name.len() as int + 1) =~= version);
}

} // verus!
