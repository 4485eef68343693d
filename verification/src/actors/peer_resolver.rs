//! Recording, in each package, its resolved dependencies and the binaries
//! they bring.
use vstd::prelude::*;

use crate::cache::RegistryKey;
use crate::package::{BinType, PackageMetaRecorder, PackageRecorder, ResolvedBinary};
use crate::strmap::{inserted, StrMap};
use crate::text::{chars_of, last_index, last_index_of, lemma_last_index_of, push_char, push_str};

verus! {

/// Records, in each package, the dependencies that name it as their direct
/// parent.
pub struct PeerResolver {
    pub recorder: PackageRecorder,
}

/// A binary by its texts: command name, path, package.
pub open spec fn binary_view(b: ResolvedBinary) -> (Seq<char>, Seq<char>, Seq<char>) {
    (b.name@, b.path@, b.package_name@)
}

pub open spec fn binaries_view(v: Seq<ResolvedBinary>) -> Seq<(Seq<char>, Seq<char>, Seq<char>)> {
    v.map_values(|b: ResolvedBinary| binary_view(b))
}

/// The text with every `.js` taken out, left to right.
pub open spec fn without_js(s: Seq<char>) -> Seq<char>
    decreases s.len(),
{
    if s.len() == 0 {
        s
    } else if s.len() >= 3 && s[0] == '.' && s[1] == 'j' && s[2] == 's' {
        without_js(s.skip(3))
    } else {
        seq![s[0]] + without_js(s.skip(1))
    }
}

/// The command a single binary file gives: its file name without `.js`.
pub open spec fn bin_command(path: Seq<char>) -> Seq<char> {
    without_js(path.subrange(last_index_of(path, '/') + 1, path.len() as int))
}

/// `without_js` keeps no character that the text does not have.
proof fn lemma_without_js_chars(s: Seq<char>, c: char)
    requires
        forall|i: int| 0 <= i < s.len() ==> s[i] != c,
    ensures
        forall|i: int| 0 <= i < without_js(s).len() ==> without_js(s)[i] != c,
    decreases s.len(),
{
    if s.len() == 0 {
    } else if s.len() >= 3 && s[0] == '.' && s[1] == 'j' && s[2] == 's' {
        assert forall|i: int| 0 <= i < s.skip(3).len() implies s.skip(3)[i] != c by {
            assert(s.skip(3)[i] == s[i + 3]);
        }
        lemma_without_js_chars(s.skip(3), c);
        assert(without_js(s) == without_js(s.skip(3)));
    } else {
        assert forall|i: int| 0 <= i < s.skip(1).len() implies s.skip(1)[i] != c by {
            assert(s.skip(1)[i] == s[i + 1]);
        }
        lemma_without_js_chars(s.skip(1), c);
        let r = without_js(s.skip(1));
        assert(without_js(s) == seq![s[0]] + r);
        assert forall|i: int| 0 <= i < without_js(s).len() implies without_js(s)[i] != c by {
            if i > 0 {
                assert(without_js(s)[i] == r[i - 1]);
            } else {
                assert(without_js(s)[0] == s[0]);
            }
        }
    }
}

/// The command that a single binary file gives has no `/`: it is the file
/// name, the part of the path after its last `/` (the whole path where it
/// has none), with `.js` taken out.
pub proof fn lemma_bin_command_is_file_name(path: Seq<char>, j: int)
    requires
        0 <= j <= path.len(),
        j == 0 || path[j - 1] == '/',
        forall|i: int| j <= i < path.len() ==> path[i] != '/',
    ensures
        bin_command(path) == without_js(path.subrange(j, path.len() as int)),
        forall|i: int| 0 <= i < bin_command(path).len() ==> bin_command(path)[i] != '/',
{
    lemma_last_index_of(path, '/');
    let p = last_index_of(path, '/');
    if p + 1 < j {
        assert(path[j - 1] != '/');
    }
    if j < p + 1 {
        assert(path[p] != '/');
    }
    assert(p + 1 == j);
    let f = path.subrange(j, path.len() as int);
    lemma_without_js_chars(f, '/');
}

/// `package/path`.
pub open spec fn bin_path(package: Seq<char>, path: Seq<char>) -> Seq<char> {
    package + seq!['/'] + path
}

pub open spec fn mapping_binaries(package: Seq<char>, m: Seq<(Seq<char>, String)>) -> Seq<
    (Seq<char>, Seq<char>, Seq<char>),
>
    decreases m.len(),
{
    if m.len() == 0 {
        Seq::empty()
    } else {
        mapping_binaries(package, m.drop_last()).push(
            (m.last().0, bin_path(package, m.last().1@), package),
        )
    }
}

/// The binaries a dependency brings to the package that needs it.
pub open spec fn binaries_of(package: Seq<char>, bin: BinType) -> Seq<(Seq<char>, Seq<char>, Seq<char>)> {
    match bin {
        BinType::Bin(s) => seq![(bin_command(s@), bin_path(package, s@), package)],
        BinType::BinMappings(m) => mapping_binaries(package, m@),
    }
}

/// The dependencies of a package after `key` is recorded among them.
pub open spec fn deps_after(deps: Option<StrMap<String>>, key: RegistryKey) -> Seq<(Seq<char>, String)> {
    inserted(
        match deps {
            Some(d) => d@,
            None => Seq::empty(),
        },
        key.name@,
        key.version,
    )
}

/// The binaries of a package after those of a dependency are added.
pub open spec fn bins_after(
    bins: Option<Vec<ResolvedBinary>>,
    added: Option<Seq<(Seq<char>, Seq<char>, Seq<char>)>>,
) -> Option<Seq<(Seq<char>, Seq<char>, Seq<char>)>> {
    match added {
        None => match bins {
            Some(b) => Some(binaries_view(b@)),
            None => None,
        },
        Some(a) => Some(
            match bins {
                Some(b) => binaries_view(b@),
                None => Seq::empty(),
            } + a,
        ),
    }
}

pub open spec fn opt_binaries_view(b: Option<Vec<ResolvedBinary>>) -> Option<Seq<(Seq<char>, Seq<char>, Seq<char>)>> {
    match b {
        Some(v) => Some(binaries_view(v@)),
        None => None,
    }
}

/// What recording a dependency changes in a package, and only that.
pub open spec fn inserted_into(
    before: PackageMetaRecorder,
    after: PackageMetaRecorder,
    key: RegistryKey,
    added: Option<Seq<(Seq<char>, Seq<char>, Seq<char>)>>,
) -> bool {
    &&& after.name == before.name
    &&& after.bin == before.bin
    &&& after.depth_traces == before.depth_traces
    &&& after.resolved_dependencies is Some
    &&& after.resolved_dependencies->0@ == deps_after(before.resolved_dependencies, key)
    &&& opt_binaries_view(after.resolved_binaries) == bins_after(before.resolved_binaries, added)
}

fn strip_js(s: &Vec<char>, from: usize) -> (r: String)
    requires
        from <= s@.len(),
    ensures
        r@ == without_js(s@.subrange(from as int, s@.len() as int)),
{
    let n = s.len();
    let mut out = String::new();
    let mut i = from;
    while i < n
        invariant
            from <= i <= n,
            n == s@.len(),
            without_js(s@.subrange(from as int, n as int)) == out@ + without_js(
                s@.subrange(i as int, n as int),
            ),
        decreases n - i,
    {
        let ghost t = s@.subrange(i as int, n as int);
        if n - i > 2 && s[i] == '.' && s[i + 1] == 'j' && s[i + 2] == 's' {
            assert(t.skip(3) =~= s@.subrange(i + 3, n as int));
            i = i + 3;
        } else {
            assert(t.skip(1) =~= s@.subrange(i + 1, n as int));
            push_char(&mut out, s[i]);
            i = i + 1;
            assert(out@ + without_js(s@.subrange(i as int, n as int)) =~= out@.drop_last() + (seq![t[0]]
                + without_js(t.skip(1))));
        }
    }
    assert(s@.subrange(n as int, n as int) =~= Seq::<char>::empty());
    assert(out@ + Seq::<char>::empty() =~= out@);
    out
}

fn path_in(package: &str, path: &str) -> (r: String)
    ensures
        r@ == bin_path(package@, path@),
{
    let mut r = String::new();
    push_str(&mut r, package);
    push_char(&mut r, '/');
    push_str(&mut r, path);
    assert(r@ =~= bin_path(package@, path@));
    r
}

/// The binaries that `bin` of package `package` brings.
fn new_binaries(package: &String, bin: &BinType) -> (r: Vec<ResolvedBinary>)
    ensures
        binaries_view(r@) == binaries_of(package@, *bin),
{
    let mut out: Vec<ResolvedBinary> = Vec::new();
    match bin {
        BinType::Bin(s) => {
            let cs = chars_of(s.as_str());
            proof {
                lemma_last_index_of(cs@, '/');
            }
            let start = match last_index(&cs, '/') {
                Some(p) => p + 1,
                None => 0,
            };
            let name = strip_js(&cs, start);
            out.push(
                ResolvedBinary {
                    name,
                    path: path_in(package.as_str(), s.as_str()),
                    package_name: package.clone(),
                },
            );
            assert(binaries_view(out@) =~= binaries_of(package@, *bin));
        },
        BinType::BinMappings(a) => {
            let mut i: usize = 0;
            while i < a.len()
                invariant
                    i <= a@.len(),
                    binaries_view(out@) == mapping_binaries(package@, a@.take(i as int)),
                decreases a@.len() - i,
            {
                out.push(
                    ResolvedBinary {
                        name: a.key_at(i).clone(),
                        path: path_in(package.as_str(), a.value_at(i).as_str()),
                        package_name: package.clone(),
                    },
                );
                assert(a@.take(i + 1).drop_last() =~= a@.take(i as int));
                assert(binaries_view(out@) =~= mapping_binaries(package@, a@.take(i + 1)));
                i = i + 1;
            }
            assert(a@.take(a@.len() as int) =~= a@);
        },
    }
    out
}

fn append_binaries(b: &mut Vec<ResolvedBinary>, more: Vec<ResolvedBinary>)
    ensures
        binaries_view(final(b)@) == binaries_view(old(b)@) + binaries_view(more@),
{
    let mut more = more;
    let ghost m = more@;
    b.append(&mut more);
    assert(binaries_view(b@) =~= binaries_view(old(b)@) + binaries_view(m));
}

/// What resolving keeps of a package: its dependencies and binaries.
pub struct MetaSummary {
    pub deps: Option<Seq<(Seq<char>, String)>>,
    pub bins: Option<Seq<(Seq<char>, Seq<char>, Seq<char>)>>,
}

pub open spec fn summary(m: PackageMetaRecorder) -> MetaSummary {
    MetaSummary {
        deps: match m.resolved_dependencies {
            Some(d) => Some(d@),
            None => None,
        },
        bins: opt_binaries_view(m.resolved_binaries),
    }
}

/// A summary after a dependency `key` bringing `added` is recorded.
pub open spec fn summary_after(
    s: MetaSummary,
    key: RegistryKey,
    added: Option<Seq<(Seq<char>, Seq<char>, Seq<char>)>>,
) -> MetaSummary {
    MetaSummary {
        deps: Some(
            inserted(
                match s.deps {
                    Some(d) => d,
                    None => Seq::empty(),
                },
                key.name@,
                key.version,
            ),
        ),
        bins: match added {
            None => s.bins,
            Some(a) => Some(
                match s.bins {
                    Some(b) => b,
                    None => Seq::empty(),
                } + a,
            ),
        },
    }
}

/// The binaries a package's `bin` brings, if it has one.
pub open spec fn added_binaries(m: PackageMetaRecorder) -> Option<Seq<(Seq<char>, Seq<char>, Seq<char>)>> {
    match m.bin {
        Some(b) => Some(binaries_of(m.name@, b)),
        None => None,
    }
}

impl PeerResolver {
    pub fn new(recorder: PackageRecorder) -> (r: Self)
        ensures
            r.recorder == recorder,
    {
        PeerResolver { recorder }
    }

    fn apply_insert(req: &mut PackageMetaRecorder, key: &RegistryKey, added: Option<Vec<ResolvedBinary>>)
        ensures
            final(req).name == old(req).name,
            final(req).bin == old(req).bin,
            final(req).depth_traces == old(req).depth_traces,
            summary(*final(req)) == summary_after(
                summary(*old(req)),
                *key,
                match added {
                    Some(a) => Some(binaries_view(a@)),
                    None => None,
                },
            ),
    {
        let deps = match req.resolved_dependencies.take() {
            Some(d) => d,
            None => StrMap::new(),
        };
        let mut deps = deps;
        deps.insert(key.name.clone(), key.version.clone());
        req.resolved_dependencies = Some(deps);
        if let Some(a) = added {
            match req.resolved_binaries.take() {
                Some(b) => {
                    let mut b = b;
                    append_binaries(&mut b, a);
                    req.resolved_binaries = Some(b);
                },
                None => {
                    req.resolved_binaries = Some(a);
                },
            }
        }
        assert(summary(*req) =~~= summary_after(
            summary(*old(req)),
            *key,
            match added {
                Some(a) => Some(binaries_view(a@)),
                None => None,
            },
        ));
    }

    fn added_of(outer: &PackageMetaRecorder) -> (r: Option<Vec<ResolvedBinary>>)
        ensures
            match r {
                Some(a) => added_binaries(*outer) == Some(binaries_view(a@)),
                None => added_binaries(*outer) is None,
            },
    {
        match &outer.bin {
            Some(bin) => Some(new_binaries(&outer.name, bin)),
            None => None,
        }
    }

    /// Records `outer_key` among the dependencies of `req`, and the binaries
    /// `outer` declares among its binaries.
    pub fn handle_insert(req: &mut PackageMetaRecorder, outer_key: &RegistryKey, outer: &PackageMetaRecorder)
        ensures
            final(req).name == old(req).name,
            final(req).bin == old(req).bin,
            final(req).depth_traces == old(req).depth_traces,
            summary(*final(req)) == summary_after(summary(*old(req)), *outer_key, added_binaries(*outer)),
    {
        let added = Self::added_of(outer);
        Self::apply_insert(req, outer_key, added);
    }
}


// ---------------------------------------------------------------------
// Resolving a whole recording
// ---------------------------------------------------------------------

pub open spec fn same_key(a: RegistryKey, b: RegistryKey) -> bool {
    a.name@ == b.name@ && a.version@ == b.version@
}

/// The first position of `k` among the keys, or -1.
pub open spec fn key_index(keys: Seq<RegistryKey>, k: RegistryKey) -> int
    decreases keys.len(),
{
    if keys.len() == 0 {
        -1
    } else {
        let p = key_index(keys.drop_last(), k);
        if p >= 0 {
            p
        } else if same_key(keys.last(), k) {
            keys.len() - 1
        } else {
            -1
        }
    }
}

proof fn lemma_key_index(keys: Seq<RegistryKey>, k: RegistryKey)
    ensures
        -1 <= key_index(keys, k) < keys.len(),
    decreases keys.len(),
{
    if keys.len() > 0 {
        lemma_key_index(keys.drop_last(), k);
    }
}

pub open spec fn keys_of(v: Seq<(RegistryKey, PackageMetaRecorder)>) -> Seq<RegistryKey> {
    v.map_values(|e: (RegistryKey, PackageMetaRecorder)| e.0)
}

pub open spec fn summaries(v: Seq<(RegistryKey, PackageMetaRecorder)>) -> Seq<MetaSummary> {
    v.map_values(|e: (RegistryKey, PackageMetaRecorder)| summary(e.1))
}

/// A step of resolving: the dependency at `outer` of the snapshot is
/// recorded in its direct parent, found first among the dependencies, then
/// among the main packages.
pub open spec fn trace_events(traces: Seq<Vec<RegistryKey>>, outer: int) -> Seq<(RegistryKey, int)>
    decreases traces.len(),
{
    if traces.len() == 0 {
        Seq::empty()
    } else {
        let e = trace_events(traces.drop_last(), outer);
        let t = traces.last()@;
        if t.len() > 0 {
            e.push((t.last(), outer))
        } else {
            e
        }
    }
}

pub open spec fn entry_events(sub: Seq<(RegistryKey, PackageMetaRecorder)>, j: int) -> Seq<(RegistryKey, int)> {
    match sub[j].1.depth_traces {
        Some(ts) => trace_events(ts@, j),
        None => Seq::empty(),
    }
}

/// The steps of resolving, dependency after dependency, trace after trace.
pub open spec fn all_events(sub: Seq<(RegistryKey, PackageMetaRecorder)>, n: int) -> Seq<(RegistryKey, int)>
    decreases n,
{
    if n <= 0 {
        Seq::empty()
    } else {
        all_events(sub, n - 1) + entry_events(sub, n - 1)
    }
}

pub open spec fn resolve_step(
    main0: Seq<(RegistryKey, PackageMetaRecorder)>,
    sub0: Seq<(RegistryKey, PackageMetaRecorder)>,
    state: (Seq<MetaSummary>, Seq<MetaSummary>),
    e: (RegistryKey, int),
) -> (Seq<MetaSummary>, Seq<MetaSummary>) {
    let key = sub0[e.1].0;
    let added = added_binaries(sub0[e.1].1);
    let si = key_index(keys_of(sub0), e.0);
    if si >= 0 {
        (state.0, state.1.update(si, summary_after(state.1[si], key, added)))
    } else {
        let mi = key_index(keys_of(main0), e.0);
        if mi >= 0 {
            (state.0.update(mi, summary_after(state.0[mi], key, added)), state.1)
        } else {
            state
        }
    }
}

/// The summaries of the main packages and of the dependencies after the
/// steps.
pub open spec fn resolve_events(
    main0: Seq<(RegistryKey, PackageMetaRecorder)>,
    sub0: Seq<(RegistryKey, PackageMetaRecorder)>,
    events: Seq<(RegistryKey, int)>,
) -> (Seq<MetaSummary>, Seq<MetaSummary>)
    decreases events.len(),
{
    if events.len() == 0 {
        (summaries(main0), summaries(sub0))
    } else {
        resolve_step(main0, sub0, resolve_events(main0, sub0, events.drop_last()), events.last())
    }
}

/// The entries keep their keys, names, binaries and traces.
pub open spec fn same_frame(a: Seq<(RegistryKey, PackageMetaRecorder)>, b: Seq<(RegistryKey, PackageMetaRecorder)>) -> bool {
    &&& a.len() == b.len()
    &&& forall|i: int|
        0 <= i < a.len() ==> {
            &&& #[trigger] a[i].0 == b[i].0
            &&& a[i].1.name == b[i].1.name
            &&& a[i].1.bin == b[i].1.bin
            &&& a[i].1.depth_traces == b[i].1.depth_traces
        }
}

fn find_key(v: &Vec<(RegistryKey, PackageMetaRecorder)>, k: &RegistryKey) -> (r: Option<usize>)
    ensures
        match r {
            Some(i) => i as int == key_index(keys_of(v@), *k) && i < v@.len(),
            None => key_index(keys_of(v@), *k) == -1,
        },
{
    let mut i: usize = 0;
    while i < v.len()
        invariant
            i <= v@.len(),
            key_index(keys_of(v@).take(i as int), *k) == -1,
        decreases v@.len() - i,
    {
        assert(keys_of(v@).take(i + 1).drop_last() =~= keys_of(v@).take(i as int));
        if v[i].0.same_as(k) {
            assert(key_index(keys_of(v@).take(i + 1), *k) == i);
            proof {
                lemma_key_index_prefix(keys_of(v@), *k, i + 1);
            }
            return Some(i);
        }
        i = i + 1;
    }
    assert(keys_of(v@).take(i as int) =~= keys_of(v@));
    None
}

proof fn lemma_key_index_prefix(keys: Seq<RegistryKey>, k: RegistryKey, n: int)
    requires
        0 <= n <= keys.len(),
        key_index(keys.take(n), k) >= 0,
    ensures
        key_index(keys, k) == key_index(keys.take(n), k),
    decreases keys.len() - n,
{
    if n < keys.len() {
        assert(keys.take(n + 1).drop_last() =~= keys.take(n));
        lemma_key_index_prefix(keys, k, n + 1);
    } else {
        assert(keys.take(n) =~= keys);
    }
}

fn update_entry(
    v: &mut Vec<(RegistryKey, PackageMetaRecorder)>,
    i: usize,
    key: &RegistryKey,
    added: Option<Vec<ResolvedBinary>>,
)
    requires
        i < old(v)@.len(),
    ensures
        same_frame(final(v)@, old(v)@),
        summaries(final(v)@) == summaries(old(v)@).update(
            i as int,
            summary_after(
                summaries(old(v)@)[i as int],
                *key,
                match added {
                    Some(a) => Some(binaries_view(a@)),
                    None => None,
                },
            ),
        ),
{
    let (k, m) = v.remove(i);
    let mut m = m;
    PeerResolver::apply_insert(&mut m, key, added);
    v.insert(i, (k, m));
    assert(summaries(v@) =~= summaries(old(v)@).update(
        i as int,
        summary_after(
            summaries(old(v)@)[i as int],
            *key,
            match added {
                Some(a) => Some(binaries_view(a@)),
                None => None,
            },
        ),
    ));
}

/// The direct parent of each trace: its last key, if it has one.
fn trace_parents(traces: &Vec<Vec<RegistryKey>>) -> (r: Vec<Option<RegistryKey>>)
    ensures
        r@.len() == traces@.len(),
        forall|t: int|
            0 <= t < r@.len() ==> match #[trigger] r@[t] {
                Some(p) => traces@[t]@.len() > 0 && p == traces@[t]@.last(),
                None => traces@[t]@.len() == 0,
            },
{
    let mut r: Vec<Option<RegistryKey>> = Vec::new();
    let mut t: usize = 0;
    while t < traces.len()
        invariant
            t <= traces@.len(),
            r@.len() == t,
            forall|u: int|
                0 <= u < t ==> match #[trigger] r@[u] {
                    Some(p) => traces@[u]@.len() > 0 && p == traces@[u]@.last(),
                    None => traces@[u]@.len() == 0,
                },
        decreases traces@.len() - t,
    {
        let tr = &traces[t];
        if tr.len() > 0 {
            r.push(Some(tr[tr.len() - 1].clone()));
        } else {
            r.push(None);
        }
        t = t + 1;
    }
    r
}

impl PeerResolver {
    /// Records every dependency in its direct parent (the last key of each
    /// of its traces), as `resolve_events` describes.
    pub fn run(self) -> (r: Result<PackageRecorder, crate::errors::ExecutionError>)
        ensures
            r is Ok,
            same_frame(r->Ok_0.main_packages@, self.recorder.main_packages@),
            same_frame(r->Ok_0.sub_dependencies@, self.recorder.sub_dependencies@),
            (summaries(r->Ok_0.main_packages@), summaries(r->Ok_0.sub_dependencies@))
                == resolve_events(
                self.recorder.main_packages@,
                self.recorder.sub_dependencies@,
                all_events(self.recorder.sub_dependencies@, self.recorder.sub_dependencies@.len() as int),
            ),
    {
        let mut rec = self.recorder;
        let ghost main0 = rec.main_packages@;
        let ghost sub0 = rec.sub_dependencies@;
        let n = rec.sub_dependencies.len();
        let mut j: usize = 0;
        while j < n
            invariant
                j <= n,
                n == sub0.len(),
                same_frame(rec.main_packages@, main0),
                same_frame(rec.sub_dependencies@, sub0),
                (summaries(rec.main_packages@), summaries(rec.sub_dependencies@)) == resolve_events(
                    main0,
                    sub0,
                    all_events(sub0, j as int),
                ),
            decreases n - j,
        {
            assert(rec.sub_dependencies@[j as int].0 == sub0[j as int].0);
            let parents = match &rec.sub_dependencies[j].1.depth_traces {
                Some(ts) => trace_parents(ts),
                None => Vec::new(),
            };
            let ghost base = all_events(sub0, j as int);
            let ghost traces: Seq<Vec<RegistryKey>> = match sub0[j as int].1.depth_traces {
                Some(ts) => ts@,
                None => Seq::empty(),
            };
            assert(parents@.len() == traces.len());
            let mut t: usize = 0;
            while t < parents.len()
                invariant
                    j < n,
                    n == sub0.len(),
                    t <= parents@.len(),
                    parents@.len() == traces.len(),
                    traces == match sub0[j as int].1.depth_traces {
                        Some(ts) => ts@,
                        None => Seq::<Vec<RegistryKey>>::empty(),
                    },
                    forall|u: int|
                        0 <= u < parents@.len() ==> match #[trigger] parents@[u] {
                            Some(p) => traces[u]@.len() > 0 && p == traces[u]@.last(),
                            None => traces[u]@.len() == 0,
                        },
                    base == all_events(sub0, j as int),
                    same_frame(rec.main_packages@, main0),
                    same_frame(rec.sub_dependencies@, sub0),
                    (summaries(rec.main_packages@), summaries(rec.sub_dependencies@)) == resolve_events(
                        main0,
                        sub0,
                        base + trace_events(traces.take(t as int), j as int),
                    ),
                decreases parents@.len() - t,
            {
                let ghost before = base + trace_events(traces.take(t as int), j as int);
                assert(traces.take(t + 1).drop_last() =~= traces.take(t as int));
                assert(traces.take(t + 1).last() == traces[t as int]);
                if let Some(p) = &parents[t] {
                    let ghost e = (*p, j as int);
                    assert(base + trace_events(traces.take(t + 1), j as int) =~= before.push(e));
                    assert(rec.sub_dependencies@[j as int].0 == sub0[j as int].0);
                    let key = rec.sub_dependencies[j].0.clone();
                    let added = Self::added_of(&rec.sub_dependencies[j].1);
                    assert(keys_of(rec.sub_dependencies@) =~= keys_of(sub0));
                    assert(keys_of(rec.main_packages@) =~= keys_of(main0));
                    let ghost st = (summaries(rec.main_packages@), summaries(rec.sub_dependencies@));
                    assert(st == resolve_events(main0, sub0, before));
                    assert(added_binaries(rec.sub_dependencies@[j as int].1) == added_binaries(sub0[j as int].1));
                    match find_key(&rec.sub_dependencies, p) {
                        Some(si) => {
                            update_entry(&mut rec.sub_dependencies, si, &key, added);
                            assert(summaries(rec.sub_dependencies@) == resolve_step(main0, sub0, st, e).1);
                        },
                        None => {
                            match find_key(&rec.main_packages, p) {
                                Some(mi) => {
                                    update_entry(&mut rec.main_packages, mi, &key, added);
                                    assert(summaries(rec.main_packages@) == resolve_step(main0, sub0, st, e).0);
                                },
                                None => {},
                            }
                        },
                    }
                    assert(resolve_events(main0, sub0, before.push(e)) == resolve_step(main0, sub0, st, e)) by {
                        assert(before.push(e).drop_last() =~= before);
                    }
                } else {
                    assert(base + trace_events(traces.take(t + 1), j as int) =~= before);
                }
                t = t + 1;
            }
            assert(traces.take(parents@.len() as int) =~= traces);
            assert(all_events(sub0, j + 1) =~= base + entry_events(sub0, j as int));
            j = j + 1;
        }
        Ok(rec)
    }
}

} // verus!
