//! Which dependencies of `package.json` an install without arguments takes.
use vstd::prelude::*;

use crate::actors::install::PackageType;
use crate::command::ProgramDesire;
use crate::package::PackageJson;
use crate::strmap::StrMap;
use crate::text::{push_char, push_str};

verus! {

/// `name@version` for each entry, in key order.
pub open spec fn specs_of(m: Seq<(Seq<char>, String)>) -> Seq<Seq<char>> {
    m.map_values(|e: (Seq<char>, String)| e.0 + seq!['@'] + e.1@)
}

pub open spec fn package_type_view(p: PackageType) -> (int, Seq<char>) {
    match p {
        PackageType::Dev(s) => (0, s@),
        PackageType::Prod(s) => (1, s@),
        PackageType::Optional(s) => (2, s@),
        PackageType::Peer(s) => (3, s@),
        PackageType::Global(s) => (4, s@),
    }
}

pub open spec fn strings_view(v: Seq<String>) -> Seq<Seq<char>> {
    v.map_values(|s: String| s@)
}

pub open spec fn types_view(v: Seq<PackageType>) -> Seq<(int, Seq<char>)> {
    v.map_values(|p: PackageType| package_type_view(p))
}

pub open spec fn section(kind: int, wanted: bool, deps: Option<StrMap<String>>) -> Seq<(int, Seq<char>)> {
    if wanted {
        match deps {
            Some(d) => specs_of(d@).map_values(|s: Seq<char>| (kind, s)),
            None => Seq::empty(),
        }
    } else {
        Seq::empty()
    }
}

/// The dependencies to install, dev ones, then production ones, then
/// optional ones; what an install wants is additive: a dev install takes dev
/// and production dependencies, a production install production ones, an
/// optional install optional, dev and production ones.
pub open spec fn dependencies_to_install(d: ProgramDesire, p: PackageJson) -> Seq<(int, Seq<char>)> {
    section(0, d.dev_install || d.optional_install, p.dev_dependencies) + section(
        1,
        d.dev_install || d.prod_install || d.optional_install,
        p.dependencies,
    ) + section(2, d.optional_install, p.optional_dependencies)
}

/// An install that wants neither dev nor optional dependencies (a
/// production install) lists production dependencies only.
pub proof fn lemma_production_lists_production_only(d: ProgramDesire, p: PackageJson)
    requires
        !d.dev_install,
        !d.optional_install,
    ensures
        forall|i: int|
            0 <= i < dependencies_to_install(d, p).len() ==> (#[trigger] dependencies_to_install(
                d,
                p,
            )[i]).0 == 1,
{
    let r = dependencies_to_install(d, p);
    let mid = section(1, d.prod_install, p.dependencies);
    assert(section(0, false, p.dev_dependencies) =~= Seq::<(int, Seq<char>)>::empty());
    assert(section(2, false, p.optional_dependencies) =~= Seq::<(int, Seq<char>)>::empty());
    assert(r =~= mid);
    assert forall|i: int| 0 <= i < mid.len() implies (#[trigger] mid[i]).0 == 1 by {
        match p.dependencies {
            Some(m) => {
                if d.prod_install {
                    assert(mid == specs_of(m@).map_values(|s: Seq<char>| (1int, s)));
                }
            },
            None => {},
        }
    }
}

/// Turns what an install wants into the packages to install.
pub struct PreprocessDependencyInstall {
    pub program_desire: ProgramDesire,
}

impl PreprocessDependencyInstall {
    pub fn new(program_desire: ProgramDesire) -> (r: PreprocessDependencyInstall)
        ensures
            r.program_desire == program_desire,
    {
        PreprocessDependencyInstall { program_desire }
    }

    /// `name@version` for each dependency.
    pub fn format_dependencies(&self, dependencies: &StrMap<String>) -> (r: Vec<String>)
        ensures
            strings_view(r@) == specs_of(dependencies@),
    {
        let mut packages: Vec<String> = Vec::new();
        let mut i: usize = 0;
        while i < dependencies.len()
            invariant
                i <= dependencies@.len(),
                strings_view(packages@) == specs_of(dependencies@).take(i as int),
            decreases dependencies@.len() - i,
        {
            let mut p = String::new();
            push_str(&mut p, dependencies.key_at(i).as_str());
            push_char(&mut p, '@');
            push_str(&mut p, dependencies.value_at(i).as_str());
            assert(p@ =~= dependencies@[i as int].0 + seq!['@'] + dependencies@[i as int].1@);
            let ghost before = packages@;
            let ghost ps = p@;
            packages.push(p);
            assert(strings_view(packages@) =~= strings_view(before).push(ps));
            assert(specs_of(dependencies@).take(i + 1) =~= specs_of(dependencies@).take(i as int).push(
                specs_of(dependencies@)[i as int],
            ));
            i = i + 1;
        }
        assert(specs_of(dependencies@).take(i as int) =~= specs_of(dependencies@));
        packages
    }

    fn push_section(&self, out: &mut Vec<PackageType>, kind: u8, deps: &Option<StrMap<String>>, wanted: bool)
        requires
            kind <= 2,
        ensures
            types_view(final(out)@) == types_view(old(out)@) + section(kind as int, wanted, *deps),
    {
        let ghost start = types_view(out@);
        if !wanted {
            assert(types_view(out@) =~= start + section(
                kind as int,
                wanted,
                *deps,
            ));
            return;
        }
        match deps {
            Some(d) => {
                let specs = self.format_dependencies(d);
                let ghost target = section(kind as int, wanted, *deps);
                let mut i: usize = 0;
                while i < specs.len()
                    invariant
                        kind <= 2,
                        i <= specs@.len(),
                        strings_view(specs@) == specs_of(d@),
                        target == specs_of(d@).map_values(|s: Seq<char>| (kind as int, s)),
                        types_view(out@) == start + target.take(
                            i as int,
                        ),
                    decreases specs@.len() - i,
                {
                    let s = specs[i].clone();
                    assert(strings_view(specs@)[i as int] == specs@[i as int]@);
                    assert(target[i as int] == (kind as int, specs@[i as int]@));
                    let ghost before = out@;
                    if kind == 0 {
                        out.push(PackageType::Dev(s));
                    } else if kind == 1 {
                        out.push(PackageType::Prod(s));
                    } else {
                        out.push(PackageType::Optional(s));
                    }
                    assert(types_view(out@) =~= types_view(before).push(target[i as int]));
                    assert(target.take(i + 1) =~= target.take(i as int).push(target[i as int]));
                    i = i + 1;
                }
                assert(target.take(i as int) =~= target);
            },
            None => {
                assert(types_view(out@) =~= start + section(
                    kind as int,
                    wanted,
                    *deps,
                ));
            },
        }
    }

    /// The dependencies of `package_json` to install, each with its kind.
    pub fn calculate_dependencies(&self, package_json: &PackageJson) -> (r: Vec<PackageType>)
        ensures
            types_view(r@) == dependencies_to_install(
                self.program_desire,
                *package_json,
            ),
    {
        let mut dependencies: Vec<PackageType> = Vec::new();
        assert(types_view(dependencies@) =~= Seq::empty());
        let d = self.program_desire;
        self.push_section(&mut dependencies, 0, &package_json.dev_dependencies, d.dev_install || d.optional_install);
        self.push_section(
            &mut dependencies,
            1,
            &package_json.dependencies,
            d.dev_install || d.prod_install || d.optional_install,
        );
        self.push_section(
            &mut dependencies,
            2,
            &package_json.optional_dependencies,
            self.program_desire.optional_install,
        );
        assert(types_view(dependencies@) =~= dependencies_to_install(
            self.program_desire,
            *package_json,
        ));
        dependencies
    }

    /// The scripts of `package.json`, none if it has none.
    pub fn get_script(package_json: PackageJson) -> (r: StrMap<String>)
        ensures
            r@ == match package_json.scripts {
                Some(s) => s@,
                None => Seq::empty(),
            },
    {
        match package_json.scripts {
            Some(s) => s,
            None => StrMap::new(),
        }
    }
}

} // verus!
