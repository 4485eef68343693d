//! The lockfile (`pnpm-lock.yaml`, version 9) and its YAML text.
use vstd::prelude::*;

use crate::strmap::StrMap;
use crate::text::{bool_text, bool_word, i32_text, owned, push_char, push_str, signed_decimal};

verus! {

/// One dependency of an importer: what was asked for and what was resolved.
#[derive(Debug, Clone)]
pub struct ResolvedDependency {
    pub specifier: String,
    pub version: String,
}

/// Dependencies by name.
pub type ResolvedDependencies = StrMap<ResolvedDependency>;

/// Where a package comes from.
pub enum LockfileResolution {
    Directory(DirectoryResolution),
    GitRepository(GitRepositoryResolution),
    Tarball(TarballResolution),
    Integrity(IntegrityResolution),
}

/// A tarball hosted remotely.
pub struct TarballResolution {
    /// The field `type` of the lockfile.
    pub resolution_type: Option<String>,
    pub tarball: Option<String>,
    pub integrity: Option<String>,
    pub path: Option<String>,
}

pub struct DirectoryResolution {
    directory: String,
}

pub struct GitRepositoryResolution {
    repo: String,
    commit: String,
    path: Option<String>,
}

pub struct IntegrityResolution {
    pub integrity: String,
}

pub struct ResolvedCatalogEntry {
    pub specifier: String,
    pub version: String,
}

pub struct PackageSnapshot {
    pub id: Option<String>,
    pub optional: Option<bool>,
    pub patched: Option<bool>,
    pub has_bin: Option<bool>,
    pub name: Option<String>,
    pub version: Option<String>,
    pub resolution: LockfileResolution,
}

pub struct PatchFile {
    pub path: String,
    pub hash: String,
}

pub struct PatchInfo {
    strict: bool,
    file: PatchFile,
}

#[derive(Clone)]
pub struct LockfileSettings {
    pub auto_install_peers: Option<bool>,
    pub exclude_links_from_lockfile: Option<bool>,
    pub peers_suffix_max_length: Option<i32>,
}

pub struct DependencyMeta {
    injected: Option<bool>,
    node: Option<String>,
    patch: Option<String>,
}

/// Whether a peer dependency may be missing.
pub struct PeerDependencyMeta {
    pub optional: Option<bool>,
}

/// The engines a package runs on: by name with a version range, or a list.
pub enum EnginesType {
    EngineMap(StrMap<String>),
    Engine(Vec<String>),
}

/// What the lockfile records of a package.
pub struct PackageMetaHandler {
    pub dependencies: Option<StrMap<String>>,
    pub peer_dependencies: Option<StrMap<String>>,
    pub peer_dependencies_meta: Option<StrMap<PeerDependencyMeta>>,
    pub resolved_dependencies: Option<StrMap<String>>,
    pub has_bin: Option<bool>,
    pub resolution: Option<IntegrityResolution>,
    pub engines: Option<EnginesType>,
    pub cpu: Option<Vec<String>>,
    pub os: Option<Vec<String>>,
}

/// The dependencies of one importer (project), by kind.
pub struct ImporterSections {
    pub dependencies: Option<ResolvedDependencies>,
    pub dev_dependencies: Option<ResolvedDependencies>,
    pub optional_dependencies: Option<ResolvedDependencies>,
    pub peer_dependencies: Option<ResolvedDependencies>,
}

/// The lockfile.
pub struct LockfileStructure {
    pub lockfile_version: String,
    pub settings: Option<LockfileSettings>,
    pub importers: Option<StrMap<ImporterSections>>,
    pub time: Option<StrMap<String>>,
    pub catalogs: Option<StrMap<StrMap<ResolvedCatalogEntry>>>,
    pub packages: Option<StrMap<PackageMetaHandler>>,
    pub never_built_dependencies: Option<Vec<String>>,
    pub only_built_dependencies: Option<Vec<String>>,
    pub overrides: Option<StrMap<String>>,
    pub package_extensions_checksum: Option<String>,
    pub ignored_optional_dependencies: Option<Vec<String>>,
    pub patched_dependencies: Option<StrMap<PatchFile>>,
    pub pnpmfile_checksum: Option<String>,
}

/// The lockfile version written when a file does not give one.
pub fn default_lockfile_version() -> (r: String)
    ensures
        r@ == "9.0"@,
{
    owned("9.0")
}

// ---------------------------------------------------------------------
// The YAML text, piece by piece
// ---------------------------------------------------------------------

/// Texts starting with one of `@ < > *` are quoted.
pub open spec fn starts_illegal(s: Seq<char>) -> bool {
    s.len() > 0 && (s[0] == '@' || s[0] == '<' || s[0] == '>' || s[0] == '*')
}

/// A scalar: quoted with `'` when it starts with one of `@ < > *`.
pub open spec fn yaml_scalar(s: Seq<char>) -> Seq<char> {
    if starts_illegal(s) {
        seq!['\''] + s + seq!['\'']
    } else {
        s
    }
}

/// A written scalar never starts with one of the YAML indicators `@ < > *`,
/// and reads back as the text: it is the text itself, or the text in single
/// quotes; a text that starts with none of them is written as it is.
pub proof fn lemma_scalar_is_safe(s: Seq<char>)
    ensures
        yaml_scalar(s) == s || yaml_scalar(s) == seq!['\''] + s + seq!['\''],
        yaml_scalar(s).len() > 0 ==> yaml_scalar(s)[0] != '@' && yaml_scalar(s)[0] != '<'
            && yaml_scalar(s)[0] != '>' && yaml_scalar(s)[0] != '*',
        s.len() == 0 || (s[0] != '@' && s[0] != '<' && s[0] != '>' && s[0] != '*') ==> yaml_scalar(s)
            == s,
{
    if starts_illegal(s) {
        assert((seq!['\''] + s + seq!['\''])[0] == '\'');
    }
}

pub open spec fn spaces(n: nat) -> Seq<char>
    decreases n,
{
    if n == 0 {
        Seq::empty()
    } else {
        spaces((n - 1) as nat).push(' ')
    }
}

/// The indentation of a line: two spaces per level.
pub open spec fn indentation(indent: int) -> Seq<char> {
    if indent > 0 {
        spaces((2 * indent) as nat)
    } else {
        Seq::empty()
    }
}

/// One line `key: value` or `key:`.
#[verifier::opaque]
pub open spec fn yaml_line(key: Seq<char>, value: Option<Seq<char>>, indent: int) -> Seq<char> {
    indentation(indent) + yaml_scalar(key) + match value {
        Some(v) => seq![':', ' '] + yaml_scalar(v) + seq!['\n'],
        None => seq![':', '\n'],
    }
}

/// Indentation levels whose count of spaces, twice the level, fits an
/// `i32`; a level below one writes no spaces.
pub open spec fn indent_fits(indent: int) -> bool {
    -0x4000_0000 <= indent <= 0x3FFF_FFFF
}

/// Lines `key: value` for each entry, in key order.
pub open spec fn pair_lines(s: Seq<(Seq<char>, String)>, indent: int) -> Seq<char>
    decreases s.len(),
{
    if s.len() == 0 {
        Seq::empty()
    } else {
        pair_lines(s.drop_last(), indent) + yaml_line(s.last().0, Some(s.last().1@), indent)
    }
}

/// For each dependency: its name, then its specifier and version one level
/// deeper.
pub open spec fn dependency_lines(s: Seq<(Seq<char>, ResolvedDependency)>, indent: int) -> Seq<char>
    decreases s.len(),
{
    if s.len() == 0 {
        Seq::empty()
    } else {
        dependency_lines(s.drop_last(), indent) + yaml_line(s.last().0, None, indent) + yaml_line(
            "specifier"@,
            Some(s.last().1.specifier@),
            indent + 1,
        ) + yaml_line("version"@, Some(s.last().1.version@), indent + 1)
    }
}

/// A titled section of dependencies.
pub open spec fn dependencies_text(title: Seq<char>, indent: int, deps: Seq<(Seq<char>, ResolvedDependency)>) -> Seq<char> {
    yaml_line(title, None, indent) + dependency_lines(deps, indent + 1)
}

pub open spec fn optional_section(title: Seq<char>, deps: Option<ResolvedDependencies>) -> Seq<char> {
    match deps {
        Some(d) => dependencies_text(title, 2, d@),
        None => Seq::empty(),
    }
}

/// One importer: its name, then its sections of dependencies.
pub open spec fn importer_text(name: Seq<char>, sections: ImporterSections) -> Seq<char> {
    yaml_line(name, None, 1) + optional_section("dependencies"@, sections.dependencies)
        + optional_section("devDependencies"@, sections.dev_dependencies) + optional_section(
        "peerDependencies"@,
        sections.peer_dependencies,
    ) + optional_section("optionalDependencies"@, sections.optional_dependencies)
}

pub open spec fn importer_lines(s: Seq<(Seq<char>, ImporterSections)>) -> Seq<char>
    decreases s.len(),
{
    if s.len() == 0 {
        Seq::empty()
    } else {
        importer_lines(s.drop_last()) + importer_text(s.last().0, s.last().1)
    }
}

/// The items of a list, separated by `, `.
pub open spec fn comma_joined(v: Seq<String>) -> Seq<char>
    decreases v.len(),
{
    if v.len() == 0 {
        Seq::empty()
    } else if v.len() == 1 {
        v[0]@
    } else {
        comma_joined(v.drop_last()) + seq![',', ' '] + v.last()@
    }
}

/// A list written inline: `[a, b]`.
pub open spec fn inline_list(v: Seq<String>) -> Seq<char> {
    seq!['['] + comma_joined(v) + seq![']']
}

pub open spec fn meta_lines(s: Seq<(Seq<char>, PeerDependencyMeta)>, indent: int) -> Seq<char>
    decreases s.len(),
{
    if s.len() == 0 {
        Seq::empty()
    } else {
        meta_lines(s.drop_last(), indent) + yaml_line(s.last().0, None, indent) + match s.last().1.optional {
            Some(o) => yaml_line("optional"@, Some(bool_word(o)), indent + 1),
            None => Seq::empty(),
        }
    }
}

/// The first line of a package; in the snapshots a package without
/// dependencies, peers or binaries is written `key: {}`.
pub open spec fn package_head(key: Seq<char>, m: PackageMetaHandler, index: int, snapshot: bool) -> Seq<char> {
    if snapshot && m.dependencies is None && m.peer_dependencies is None && m.has_bin is None {
        yaml_line(key, Some("{}"@), index)
    } else {
        yaml_line(key, None, index)
    }
}

pub open spec fn resolution_part(m: PackageMetaHandler, index: int, snapshot: bool) -> Seq<char> {
    match m.resolution {
        Some(res) => if !snapshot {
            yaml_line("resolution"@, Some("{integrity: "@ + res.integrity@ + seq!['}']), index + 1)
        } else {
            Seq::empty()
        },
        None => Seq::empty(),
    }
}

pub open spec fn resolved_part(m: PackageMetaHandler, index: int, snapshot: bool) -> Seq<char> {
    match m.resolved_dependencies {
        Some(d) => if snapshot {
            yaml_line("dependencies"@, None, index + 1) + pair_lines(d@, index + 2)
        } else {
            Seq::empty()
        },
        None => Seq::empty(),
    }
}

pub open spec fn peers_part(m: PackageMetaHandler, index: int) -> Seq<char> {
    match m.peer_dependencies {
        Some(p) => yaml_line("peerDependencies"@, None, index + 1) + pair_lines(p@, index + 2),
        None => Seq::empty(),
    }
}

pub open spec fn peers_meta_part(m: PackageMetaHandler, index: int) -> Seq<char> {
    match m.peer_dependencies_meta {
        Some(pm) => yaml_line("peerDependenciesMeta"@, None, index + 1) + meta_lines(pm@, index + 2),
        None => Seq::empty(),
    }
}

/// Engines: one engine inline as `{name: range}`, several one per line, a
/// list inline.
pub open spec fn engines_part(m: PackageMetaHandler, index: int, snapshot: bool) -> Seq<char> {
    match m.engines {
        Some(e) => if snapshot {
            Seq::empty()
        } else {
            match e {
                EnginesType::EngineMap(map) => if map@.len() == 1 {
                    yaml_line(
                        "engines"@,
                        Some(seq!['{'] + map@[0].0 + seq![':', ' '] + yaml_scalar(map@[0].1@) + seq!['}']),
                        index + 1,
                    )
                } else {
                    yaml_line("engines"@, None, index + 1) + pair_lines(map@, index + 2)
                },
                EnginesType::Engine(v) => yaml_line("engines"@, Some(inline_list(v@)), index + 1),
            }
        },
        None => Seq::empty(),
    }
}

pub open spec fn list_part(title: Seq<char>, v: Option<Vec<String>>, index: int) -> Seq<char> {
    match v {
        Some(l) => yaml_line(title, Some(inline_list(l@)), index + 1),
        None => Seq::empty(),
    }
}

pub open spec fn has_bin_part(m: PackageMetaHandler, index: int) -> Seq<char> {
    match m.has_bin {
        Some(b) => yaml_line("hasBin"@, Some(bool_word(b)), index + 1),
        None => Seq::empty(),
    }
}

/// One package, in the packages section or (`snapshot`) in the snapshots.
pub open spec fn package_text(key: Seq<char>, m: PackageMetaHandler, index: int, snapshot: bool) -> Seq<char> {
    seq!['\n'] + package_head(key, m, index, snapshot) + resolution_part(m, index, snapshot)
        + resolved_part(m, index, snapshot) + peers_part(m, index) + peers_meta_part(m, index)
        + engines_part(m, index, snapshot) + list_part("cpu"@, m.cpu, index) + list_part(
        "os"@,
        m.os,
        index,
    ) + has_bin_part(m, index)
}

pub open spec fn package_lines(s: Seq<(Seq<char>, PackageMetaHandler)>, snapshot: bool) -> Seq<char>
    decreases s.len(),
{
    if s.len() == 0 {
        Seq::empty()
    } else {
        package_lines(s.drop_last(), snapshot) + package_text(s.last().0, s.last().1, 1, snapshot)
    }
}

pub open spec fn settings_text(s: LockfileSettings) -> Seq<char> {
    yaml_line("settings"@, None, 0) + match s.auto_install_peers {
        Some(a) => yaml_line("autoInstallPeers"@, Some(bool_word(a)), 1),
        None => Seq::empty(),
    } + match s.exclude_links_from_lockfile {
        Some(e) => yaml_line("excludeLinksFromLockfile"@, Some(bool_word(e)), 1),
        None => Seq::empty(),
    } + match s.peers_suffix_max_length {
        Some(p) => yaml_line("peersSuffixMaxLength"@, Some(signed_decimal(p as int)), 1),
        None => Seq::empty(),
    }
}

pub open spec fn version_text(l: LockfileStructure) -> Seq<char> {
    yaml_line("lockfileVersion"@, Some(seq!['\''] + l.lockfile_version@ + seq!['\'']), 0)
}

pub open spec fn settings_section(l: LockfileStructure) -> Seq<char> {
    match l.settings {
        Some(s) => seq!['\n'] + settings_text(s),
        None => Seq::empty(),
    }
}

pub open spec fn importers_section(l: LockfileStructure) -> Seq<char> {
    match l.importers {
        Some(i) => seq!['\n'] + yaml_line("importers"@, Some(seq!['\n']), 0) + importer_lines(i@),
        None => Seq::empty(),
    }
}

/// The packages, then the snapshots: the same packages seen from their
/// resolved dependencies.
pub open spec fn packages_section(l: LockfileStructure) -> Seq<char> {
    match l.packages {
        Some(p) => seq!['\n'] + "packages"@ + seq![':', '\n'] + package_lines(p@, false) + seq!['\n']
            + "snapshots"@ + seq![':', '\n'] + package_lines(p@, true),
        None => Seq::empty(),
    }
}

/// The whole lockfile: its version, then settings, importers, packages and
/// snapshots where present, each after an empty line.
pub open spec fn lockfile_text(l: LockfileStructure) -> Seq<char> {
    version_text(l) + settings_section(l) + importers_section(l) + packages_section(l)
}

impl LockfileStructure {
    fn starts_with_illegal_character(s: &str) -> (r: bool)
        ensures
            r == starts_illegal(s@),
    {
        if s.is_empty() {
            return false;
        }
        let c = s.get_char(0);
        c == '@' || c == '<' || c == '>' || c == '*'
    }

    fn format_string(s: &str) -> (r: String)
        ensures
            r@ == yaml_scalar(s@),
    {
        if Self::starts_with_illegal_character(s) {
            let mut r = String::new();
            push_char(&mut r, '\'');
            push_str(&mut r, s);
            push_char(&mut r, '\'');
            assert(r@ =~= yaml_scalar(s@));
            return r;
        }
        owned(s)
    }

    fn format_line(key: &str, value: Option<&str>, indent: i32) -> (r: String)
        requires
            indent_fits(indent as int),
        ensures
            r@ == yaml_line(
                key@,
                match value {
                    Some(v) => Some(v@),
                    None => None,
                },
                indent as int,
            ),
    {
        let mut s = String::new();
        let mut i: i32 = 0;
        while i < indent * 2
            invariant
                indent_fits(indent as int),
                0 <= i,
                indent > 0 ==> i <= indent * 2,
                indent <= 0 ==> i == 0,
                s@ == spaces(i as nat),
            decreases indent * 2 - i,
        {
            push_char(&mut s, ' ');
            i = i + 1;
        }
        proof {
            reveal(yaml_line);
        }
        let key = Self::format_string(key);
        push_str(&mut s, key.as_str());
        match value {
            Some(v) => {
                let v = Self::format_string(v);
                push_char(&mut s, ':');
                push_char(&mut s, ' ');
                push_str(&mut s, v.as_str());
                push_char(&mut s, '\n');
            },
            None => {
                push_char(&mut s, ':');
                push_char(&mut s, '\n');
            },
        }
        assert(s@ =~= yaml_line(
            key@,
            match value {
                Some(v) => Some(v@),
                None => None,
            },
            indent as int,
        ));
        s
    }

    fn format_settings(&self) -> (r: String)
        requires
            self.settings is Some,
        ensures
            r@ == settings_text(self.settings->0),
    {
        let setting = self.settings.as_ref().unwrap();
        let mut out = Self::format_line("settings", None, 0);
        if let Some(a) = setting.auto_install_peers {
            let t = bool_text(a);
            let line = Self::format_line("autoInstallPeers", Some(t.as_str()), 1);
            push_str(&mut out, line.as_str());
        }
        if let Some(e) = setting.exclude_links_from_lockfile {
            let t = bool_text(e);
            let line = Self::format_line("excludeLinksFromLockfile", Some(t.as_str()), 1);
            push_str(&mut out, line.as_str());
        }
        if let Some(peer) = setting.peers_suffix_max_length {
            let t = i32_text(peer);
            let line = Self::format_line("peersSuffixMaxLength", Some(t.as_str()), 1);
            push_str(&mut out, line.as_str());
        }
        assert(out@ =~= settings_text(self.settings->0));
        out
    }

    fn format_lockfile_version(&self) -> (r: String)
        ensures
            r@ == yaml_line(
                "lockfileVersion"@,
                Some(seq!['\''] + self.lockfile_version@ + seq!['\'']),
                0,
            ),
    {
        let mut v = String::new();
        push_char(&mut v, '\'');
        push_str(&mut v, self.lockfile_version.as_str());
        push_char(&mut v, '\'');
        assert(v@ =~= seq!['\''] + self.lockfile_version@ + seq!['\'']);
        Self::format_line("lockfileVersion", Some(v.as_str()), 0)
    }

    /// Appends `key: value` lines, one per entry.
    fn push_pair_lines(out: &mut String, m: &StrMap<String>, indent: i32)
        requires
            indent_fits(indent as int),
        ensures
            final(out)@ == old(out)@ + pair_lines(m@, indent as int),
    {
        let n = m.len();
        let mut i: usize = 0;
        while i < n
            invariant
                indent_fits(indent as int),
                n == m@.len(),
                i <= n,
                out@ == old(out)@ + pair_lines(m@.take(i as int), indent as int),
            decreases n - i,
        {
            let line = Self::format_line(m.key_at(i).as_str(), Some(m.value_at(i).as_str()), indent);
            push_str(out, line.as_str());
            assert(m@.take(i + 1).drop_last() =~= m@.take(i as int));
            i = i + 1;
        }
        assert(m@.take(n as int) =~= m@);
    }

    fn format_dependencies(title: &str, indent: i32, deps: &ResolvedDependencies) -> (r: String)
        requires
            -0x4000_0000 <= indent <= 0x3FFF_FFFD,
        ensures
            r@ == dependencies_text(title@, indent as int, deps@),
    {
        let mut out = Self::format_line(title, None, indent);
        let ghost head = out@;
        let n = deps.len();
        let mut i: usize = 0;
        while i < n
            invariant
                -0x4000_0000 <= indent <= 0x3FFF_FFFD,
                n == deps@.len(),
                i <= n,
                out@ == head + dependency_lines(deps@.take(i as int), indent + 1),
            decreases n - i,
        {
            let name = Self::format_line(deps.key_at(i).as_str(), None, indent + 1);
            push_str(&mut out, name.as_str());
            let d = deps.value_at(i);
            let spec_line = Self::format_line("specifier", Some(d.specifier.as_str()), indent + 2);
            push_str(&mut out, spec_line.as_str());
            let version_line = Self::format_line("version", Some(d.version.as_str()), indent + 2);
            push_str(&mut out, version_line.as_str());
            assert(deps@.take(i + 1).drop_last() =~= deps@.take(i as int));
            assert(out@ =~= head + dependency_lines(deps@.take(i + 1), indent + 1));
            i = i + 1;
        }
        assert(deps@.take(n as int) =~= deps@);
        out
    }

    fn format_importer(name: &str, sections: &ImporterSections) -> (r: String)
        ensures
            r@ == importer_text(name@, *sections),
    {
        let mut out = Self::format_line(name, None, 1);
        if let Some(dep) = &sections.dependencies {
            let t = Self::format_dependencies("dependencies", 2, dep);
            push_str(&mut out, t.as_str());
        }
        if let Some(dev_deps) = &sections.dev_dependencies {
            let t = Self::format_dependencies("devDependencies", 2, dev_deps);
            push_str(&mut out, t.as_str());
        }
        if let Some(peer_deps) = &sections.peer_dependencies {
            let t = Self::format_dependencies("peerDependencies", 2, peer_deps);
            push_str(&mut out, t.as_str());
        }
        if let Some(opt_deps) = &sections.optional_dependencies {
            let t = Self::format_dependencies("optionalDependencies", 2, opt_deps);
            push_str(&mut out, t.as_str());
        }
        assert(out@ =~= importer_text(name@, *sections));
        out
    }

    fn format_importers(&self) -> (r: String)
        requires
            self.importers is Some,
        ensures
            r@ == yaml_line("importers"@, Some(seq!['\n']), 0) + importer_lines(self.importers->0@),
    {
        let mut out = Self::format_line("importers", Some("\n"), 0);
        proof {
            reveal_strlit("\n");
            assert("\n"@ =~= seq!['\n']);
        }
        let ghost head = out@;
        let importers = match &self.importers {
            Some(i) => i,
            None => {
                return out;
            },
        };
        let n = importers.len();
        let mut i: usize = 0;
        while i < n
            invariant
                n == importers@.len(),
                i <= n,
                out@ == head + importer_lines(importers@.take(i as int)),
            decreases n - i,
        {
            let t = Self::format_importer(importers.key_at(i).as_str(), importers.value_at(i));
            push_str(&mut out, t.as_str());
            assert(importers@.take(i + 1).drop_last() =~= importers@.take(i as int));
            assert(out@ =~= head + importer_lines(importers@.take(i + 1)));
            i = i + 1;
        }
        assert(importers@.take(n as int) =~= importers@);
        out
    }

    fn format_inline_vector(vec: &[String]) -> (r: String)
        ensures
            r@ == inline_list(vec@),
    {
        let mut out = String::new();
        push_char(&mut out, '[');
        let ghost head = out@;
        let n = vec.len();
        let mut i: usize = 0;
        while i < n
            invariant
                n == vec@.len(),
                i <= n,
                out@ == head + comma_joined(vec@.take(i as int)),
            decreases n - i,
        {
            if i > 0 {
                push_char(&mut out, ',');
                push_char(&mut out, ' ');
            }
            push_str(&mut out, vec[i].as_str());
            assert(vec@.take(i + 1).drop_last() =~= vec@.take(i as int));
            assert(out@ =~= head + comma_joined(vec@.take(i + 1)));
            i = i + 1;
        }
        assert(vec@.take(n as int) =~= vec@);
        push_char(&mut out, ']');
        assert(out@ =~= inline_list(vec@));
        out
    }

    /// Appends, for each peer, its name and whether it is optional.
    fn push_meta_lines(out: &mut String, m: &StrMap<PeerDependencyMeta>, indent: i32)
        requires
            -0x4000_0000 <= indent <= 0x3FFF_FFFE,
        ensures
            final(out)@ == old(out)@ + meta_lines(m@, indent as int),
    {
        let n = m.len();
        let mut i: usize = 0;
        while i < n
            invariant
                -0x4000_0000 <= indent <= 0x3FFF_FFFE,
                n == m@.len(),
                i <= n,
                out@ == old(out)@ + meta_lines(m@.take(i as int), indent as int),
            decreases n - i,
        {
            let line = Self::format_line(m.key_at(i).as_str(), None, indent);
            push_str(out, line.as_str());
            if let Some(opt) = m.value_at(i).optional {
                let t = bool_text(opt);
                let o = Self::format_line("optional", Some(t.as_str()), indent + 1);
                push_str(out, o.as_str());
            }
            assert(m@.take(i + 1).drop_last() =~= m@.take(i as int));
            assert(out@ =~= old(out)@ + meta_lines(m@.take(i + 1), indent as int));
            i = i + 1;
        }
        assert(m@.take(n as int) =~= m@);
    }

    fn push_engines(out: &mut String, meta: &PackageMetaHandler, index: i32, snapshot: bool)
        requires
            -0x4000_0000 <= index <= 0x3FFF_FFFC,
        ensures
            final(out)@ == old(out)@ + engines_part(*meta, index as int, snapshot),
    {
        if snapshot {
            return;
        }
        match &meta.engines {
            Some(EnginesType::EngineMap(engines)) => {
                if engines.len() == 1 {
                    let mut node = String::new();
                    push_char(&mut node, '{');
                    push_str(&mut node, engines.key_at(0).as_str());
                    push_char(&mut node, ':');
                    push_char(&mut node, ' ');
                    let v = Self::format_string(engines.value_at(0).as_str());
                    push_str(&mut node, v.as_str());
                    push_char(&mut node, '}');
                    let line = Self::format_line("engines", Some(node.as_str()), index + 1);
                    push_str(out, line.as_str());
                    assert(node@ =~= seq!['{'] + engines@[0].0 + seq![':', ' '] + yaml_scalar(
                        engines@[0].1@,
                    ) + seq!['}']);
                } else {
                    let line = Self::format_line("engines", None, index + 1);
                    push_str(out, line.as_str());
                    Self::push_pair_lines(out, engines, index + 2);
                }
            },
            Some(EnginesType::Engine(e)) => {
                let list = Self::format_inline_vector(e.as_slice());
                let line = Self::format_line("engines", Some(list.as_str()), index + 1);
                push_str(out, line.as_str());
            },
            None => {},
        }
        assert(final(out)@ =~= old(out)@ + engines_part(*meta, index as int, snapshot));
    }

    fn push_list(out: &mut String, title: &str, v: &Option<Vec<String>>, index: i32)
        requires
            -0x4000_0000 <= index <= 0x3FFF_FFFC,
        ensures
            final(out)@ == old(out)@ + list_part(title@, *v, index as int),
    {
        if let Some(l) = v {
            let list = Self::format_inline_vector(l.as_slice());
            let line = Self::format_line(title, Some(list.as_str()), index + 1);
            push_str(out, line.as_str());
        }
        assert(final(out)@ =~= old(out)@ + list_part(title@, *v, index as int));
    }

    fn push_package_head(out: &mut String, key: &str, meta: &PackageMetaHandler, index: i32, snapshot: bool)
        requires
            -0x4000_0000 <= index <= 0x3FFF_FFFC,
        ensures
            final(out)@ == old(out)@ + seq!['\n'] + package_head(key@, *meta, index as int, snapshot),
    {
        push_char(out, '\n');
        if snapshot && meta.dependencies.is_none() && meta.peer_dependencies.is_none()
            && meta.has_bin.is_none() {
            let line = Self::format_line(key, Some("{}"), index);
            push_str(out, line.as_str());
        } else {
            let line = Self::format_line(key, None, index);
            push_str(out, line.as_str());
        }
        assert(final(out)@ =~= old(out)@ + seq!['\n'] + package_head(key@, *meta, index as int, snapshot));
    }

    fn push_resolution(out: &mut String, meta: &PackageMetaHandler, index: i32, snapshot: bool)
        requires
            -0x4000_0000 <= index <= 0x3FFF_FFFC,
        ensures
            final(out)@ == old(out)@ + resolution_part(*meta, index as int, snapshot),
    {
        if !snapshot {
            if let Some(res) = &meta.resolution {
                let mut integrity = String::new();
                push_str(&mut integrity, "{integrity: ");
                push_str(&mut integrity, res.integrity.as_str());
                push_char(&mut integrity, '}');
                let line = Self::format_line("resolution", Some(integrity.as_str()), index + 1);
                push_str(out, line.as_str());
                assert(integrity@ =~= "{integrity: "@ + res.integrity@ + seq!['}']);
            }
        }
        assert(final(out)@ =~= old(out)@ + resolution_part(*meta, index as int, snapshot));
    }

    fn push_resolved(out: &mut String, meta: &PackageMetaHandler, index: i32, snapshot: bool)
        requires
            -0x4000_0000 <= index <= 0x3FFF_FFFC,
        ensures
            final(out)@ == old(out)@ + resolved_part(*meta, index as int, snapshot),
    {
        if snapshot {
            if let Some(deps) = &meta.resolved_dependencies {
                let line = Self::format_line("dependencies", None, index + 1);
                push_str(out, line.as_str());
                Self::push_pair_lines(out, deps, index + 2);
            }
        }
        assert(final(out)@ =~= old(out)@ + resolved_part(*meta, index as int, snapshot));
    }

    fn push_peers(out: &mut String, meta: &PackageMetaHandler, index: i32)
        requires
            -0x4000_0000 <= index <= 0x3FFF_FFFC,
        ensures
            final(out)@ == old(out)@ + peers_part(*meta, index as int),
    {
        if let Some(peer) = &meta.peer_dependencies {
            let line = Self::format_line("peerDependencies", None, index + 1);
            push_str(out, line.as_str());
            Self::push_pair_lines(out, peer, index + 2);
        }
        assert(final(out)@ =~= old(out)@ + peers_part(*meta, index as int));
    }

    fn push_peers_meta(out: &mut String, meta: &PackageMetaHandler, index: i32)
        requires
            -0x4000_0000 <= index <= 0x3FFF_FFFC,
        ensures
            final(out)@ == old(out)@ + peers_meta_part(*meta, index as int),
    {
        if let Some(peer_meta) = &meta.peer_dependencies_meta {
            let line = Self::format_line("peerDependenciesMeta", None, index + 1);
            push_str(out, line.as_str());
            Self::push_meta_lines(out, peer_meta, index + 2);
        }
        assert(final(out)@ =~= old(out)@ + peers_meta_part(*meta, index as int));
    }

    fn push_has_bin(out: &mut String, meta: &PackageMetaHandler, index: i32)
        requires
            -0x4000_0000 <= index <= 0x3FFF_FFFC,
        ensures
            final(out)@ == old(out)@ + has_bin_part(*meta, index as int),
    {
        if let Some(bin) = meta.has_bin {
            let t = bool_text(bin);
            let line = Self::format_line("hasBin", Some(t.as_str()), index + 1);
            push_str(out, line.as_str());
        }
        assert(final(out)@ =~= old(out)@ + has_bin_part(*meta, index as int));
    }

    fn format_package(
        packages_serialized: &mut String,
        key: &str,
        meta: &PackageMetaHandler,
        index: i32,
        snapshot: bool,
    )
        requires
            -0x4000_0000 <= index <= 0x3FFF_FFFC,
        ensures
            final(packages_serialized)@ == old(packages_serialized)@ + package_text(
                key@,
                *meta,
                index as int,
                snapshot,
            ),
    {
        Self::push_package_head(packages_serialized, key, meta, index, snapshot);
        Self::push_resolution(packages_serialized, meta, index, snapshot);
        Self::push_resolved(packages_serialized, meta, index, snapshot);
        Self::push_peers(packages_serialized, meta, index);
        Self::push_peers_meta(packages_serialized, meta, index);
        Self::push_engines(packages_serialized, meta, index, snapshot);
        Self::push_list(packages_serialized, "cpu", &meta.cpu, index);
        Self::push_list(packages_serialized, "os", &meta.os, index);
        Self::push_has_bin(packages_serialized, meta, index);
        assert(packages_serialized@ =~= old(packages_serialized)@ + package_text(
            key@,
            *meta,
            index as int,
            snapshot,
        ));
    }

    fn push_package_lines(out: &mut String, packages: &StrMap<PackageMetaHandler>, snapshot: bool)
        ensures
            final(out)@ == old(out)@ + package_lines(packages@, snapshot),
    {
        let n = packages.len();
        let mut i: usize = 0;
        while i < n
            invariant
                n == packages@.len(),
                i <= n,
                out@ == old(out)@ + package_lines(packages@.take(i as int), snapshot),
            decreases n - i,
        {
            Self::format_package(out, packages.key_at(i).as_str(), packages.value_at(i), 1, snapshot);
            assert(packages@.take(i + 1).drop_last() =~= packages@.take(i as int));
            assert(out@ =~= old(out)@ + package_lines(packages@.take(i + 1), snapshot));
            i = i + 1;
        }
        assert(packages@.take(n as int) =~= packages@);
    }

    fn format_packages(&self) -> (r: String)
        requires
            self.packages is Some,
        ensures
            r@ == "packages"@ + seq![':', '\n'] + package_lines(self.packages->0@, false),
    {
        let mut out = owned("packages");
        push_char(&mut out, ':');
        push_char(&mut out, '\n');
        if let Some(packages) = &self.packages {
            Self::push_package_lines(&mut out, packages, false);
        }
        out
    }

    fn format_snapshots(&self) -> (r: String)
        requires
            self.packages is Some,
        ensures
            r@ == "snapshots"@ + seq![':', '\n'] + package_lines(self.packages->0@, true),
    {
        let mut out = owned("snapshots");
        push_char(&mut out, ':');
        push_char(&mut out, '\n');
        if let Some(packages) = &self.packages {
            Self::push_package_lines(&mut out, packages, true);
        }
        out
    }

    /// The lockfile as YAML text.
    fn push_settings_section(&self, out: &mut String)
        ensures
            final(out)@ == old(out)@ + settings_section(*self),
    {
        if self.settings.is_some() {
            push_char(out, '\n');
            let t = self.format_settings();
            push_str(out, t.as_str());
        }
        assert(final(out)@ =~= old(out)@ + settings_section(*self));
    }

    fn push_importers_section(&self, out: &mut String)
        ensures
            final(out)@ == old(out)@ + importers_section(*self),
    {
        if self.importers.is_some() {
            push_char(out, '\n');
            let t = self.format_importers();
            push_str(out, t.as_str());
        }
        assert(final(out)@ =~= old(out)@ + importers_section(*self));
    }

    fn push_packages_section(&self, out: &mut String)
        ensures
            final(out)@ == old(out)@ + packages_section(*self),
    {
        if self.packages.is_some() {
            push_char(out, '\n');
            let t = self.format_packages();
            push_str(out, t.as_str());
            push_char(out, '\n');
            let t = self.format_snapshots();
            push_str(out, t.as_str());
        }
        assert(final(out)@ =~= old(out)@ + packages_section(*self));
    }

    /// The lockfile as YAML text.
    pub fn write_to_string(&self) -> (r: String)
        ensures
            r@ == lockfile_text(*self),
    {
        let mut out = self.format_lockfile_version();
        self.push_settings_section(&mut out);
        self.push_importers_section(&mut out);
        self.push_packages_section(&mut out);
        out
    }
}

/// The settings of a new lockfile: peers installed automatically, links kept.
pub open spec fn default_settings() -> LockfileSettings {
    LockfileSettings {
        auto_install_peers: Some(true),
        exclude_links_from_lockfile: Some(false),
        peers_suffix_max_length: None,
    }
}

impl Default for LockfileStructure {
    fn default() -> (r: Self)
        ensures
            r.lockfile_version@ == "9.0"@,
            r.settings == Some(default_settings()),
            r.importers is None,
            r.time is None,
            r.catalogs is None,
            r.packages is None,
            r.never_built_dependencies is None,
            r.only_built_dependencies is None,
            r.overrides is None,
            r.package_extensions_checksum is None,
            r.ignored_optional_dependencies is None,
            r.patched_dependencies is None,
            r.pnpmfile_checksum is None,
    {
        let default_settings = LockfileSettings {
            auto_install_peers: Some(true),
            exclude_links_from_lockfile: Some(false),
            peers_suffix_max_length: None,
        };
        LockfileStructure {
            lockfile_version: owned("9.0"),
            importers: None,
            ignored_optional_dependencies: None,
            overrides: None,
            catalogs: None,
            only_built_dependencies: None,
            package_extensions_checksum: None,
            settings: Some(default_settings),
            time: None,
            patched_dependencies: None,
            pnpmfile_checksum: None,
            never_built_dependencies: None,
            packages: None,
        }
    }
}

} // verus!
