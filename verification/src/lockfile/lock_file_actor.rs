//! Recording the installed packages in the lockfile.
use vstd::prelude::*;

use crate::lockfile::lockfile_structure::{
    ImporterSections, LockfileStructure, ResolvedDependencies, ResolvedDependency,
};
use crate::package::NpmPackage;
use crate::strmap::{inserted, keys_sorted, lookup, StrMap};
use crate::text::owned;

verus! {

/// A package the resolver settled on: the version, the package that needed
/// it (none for one the project asked for), and what was asked.
pub struct ResolvedItem {
    pub package: NpmPackage,
    pub parent: Option<String>,
    pub specifier: String,
}

/// The lockfile's entry for a dependency resolved as `item`.
pub open spec fn dependency_of(item: ResolvedItem) -> ResolvedDependency {
    ResolvedDependency { specifier: item.specifier, version: item.package.version }
}

/// The dependencies after each item the project asked for is set, in turn.
pub open spec fn with_direct_dependencies(
    deps: Seq<(Seq<char>, ResolvedDependency)>,
    items: Seq<ResolvedItem>,
) -> Seq<(Seq<char>, ResolvedDependency)>
    decreases items.len(),
{
    if items.len() == 0 {
        deps
    } else {
        let before = with_direct_dependencies(deps, items.drop_last());
        let item = items.last();
        if item.parent is None {
            inserted(before, item.package.name@, dependency_of(item))
        } else {
            before
        }
    }
}

/// The importer of the project itself.
pub open spec fn current_importer() -> Seq<char> {
    "."@
}

/// Writes the resolved packages to the lockfile.
pub struct LockFileActor {
    sender: std::sync::mpsc::Sender<crate::contracts::ProgressAction>,
    resolved_items: Vec<ResolvedItem>,
}

/// `std::sync::mpsc::Sender`, carried through unread.
#[verifier::external_type_specification]
#[verifier::external_body]
#[verifier::reject_recursive_types(T)]
pub struct ExSender<T>(std::sync::mpsc::Sender<T>);

impl LockFileActor {
    pub fn new(
        sender: std::sync::mpsc::Sender<crate::contracts::ProgressAction>,
        resolved_items: Vec<ResolvedItem>,
    ) -> (r: LockFileActor)
        ensures
            r.items() == resolved_items@,
    {
        LockFileActor { resolved_items, sender }
    }

    pub closed spec fn items(&self) -> Seq<ResolvedItem> {
        self.resolved_items@
    }

    /// The dependencies of the project: those given, with each package the
    /// project asked for (no parent) set to its specifier and version.
    fn create_importers(packages: &Vec<ResolvedItem>, map: Option<ResolvedDependencies>) -> (r:
        ResolvedDependencies)
        ensures
            r@ == with_direct_dependencies(
                match map {
                    Some(m) => m@,
                    None => Seq::empty(),
                },
                packages@,
            ),
    {
        let mut map_to_use = match map {
            Some(m) => m,
            None => StrMap::new(),
        };
        let ghost start = map_to_use@;
        let mut i: usize = 0;
        while i < packages.len()
            invariant
                i <= packages@.len(),
                map_to_use@ == with_direct_dependencies(start, packages@.take(i as int)),
            decreases packages@.len() - i,
        {
            let item = &packages[i];
            assert(packages@.take(i + 1).drop_last() =~= packages@.take(i as int));
            if item.parent.is_none() {
                map_to_use.insert(
                    item.package.name.clone(),
                    ResolvedDependency {
                        version: item.package.version.clone(),
                        specifier: item.specifier.clone(),
                    },
                );
            }
            i = i + 1;
        }
        assert(packages@.take(packages@.len() as int) =~= packages@);
        map_to_use
    }

    /// Sets the dependencies of the project's importer (`.`) from the
    /// resolved packages, keeping those it had and its other sections.
    pub fn handle_importers(&self, lockfile_structure: &mut LockfileStructure) -> (r: Result<
        (),
        crate::errors::LockfileError,
    >)
        ensures
            r is Ok,
            final(lockfile_structure).importers is Some,
            ({
                let before = match old(lockfile_structure).importers {
                    Some(m) => lookup(m@, current_importer()),
                    None => None,
                };
                let previous = match before {
                    Some(sections) => match sections.dependencies {
                        Some(d) => d@,
                        None => Seq::empty(),
                    },
                    None => Seq::empty(),
                };
                match lookup(final(lockfile_structure).importers->0@, current_importer()) {
                    Some(sections) => sections.dependencies is Some
                        && sections.dependencies->0@ == with_direct_dependencies(previous, self.items()),
                    None => false,
                }
            }),
            forall|k: Seq<char>|
                k != current_importer() ==> #[trigger] lookup(
                    final(lockfile_structure).importers->0@,
                    k,
                ) == match old(lockfile_structure).importers {
                    Some(m) => lookup(m@, k),
                    None => None,
                },
            final(lockfile_structure).lockfile_version == old(lockfile_structure).lockfile_version,
            final(lockfile_structure).settings == old(lockfile_structure).settings,
            final(lockfile_structure).packages == old(lockfile_structure).packages,
    {
        let mut importers = match lockfile_structure.importers.take() {
            Some(e) => e,
            None => StrMap::new(),
        };
        let ghost old_map = importers@;
        let ghost mut idx: int = -1;
        let sections = match importers.find(".") {
            Some(i) => {
                proof {
                    idx = i as int;
                }
                let empty = ImporterSections {
                    dependencies: None,
                    dev_dependencies: None,
                    optional_dependencies: None,
                    peer_dependencies: None,
                };
                importers.replace_value_at(i, empty)
            },
            None => ImporterSections {
                dependencies: None,
                dev_dependencies: None,
                optional_dependencies: None,
                peer_dependencies: None,
            },
        };
        let ImporterSections {
            dependencies,
            dev_dependencies,
            optional_dependencies,
            peer_dependencies,
        } = sections;
        let deps = Self::create_importers(&self.resolved_items, dependencies);
        let updated = ImporterSections {
            dependencies: Some(deps),
            dev_dependencies,
            optional_dependencies,
            peer_dependencies,
        };
        let ghost mid = importers@;
        importers.insert(owned("."), updated);
        proof {
            crate::strmap::lemma_lookup_inserted_same(mid, "."@, updated);
            assert forall|k: Seq<char>| k != current_importer() implies #[trigger] lookup(importers@, k)
                == lookup(old_map, k) by {
                crate::strmap::lemma_lookup_inserted_other(mid, "."@, updated, k);
                if idx >= 0 {
                    crate::strmap::lemma_lookup_update_other(old_map, idx, mid[idx].1, k);
                }
            }
        }
        lockfile_structure.importers = Some(importers);
        Ok(())
    }
}

/// The entry of the last item the project asked for under `name`.
pub open spec fn last_direct(items: Seq<ResolvedItem>, name: Seq<char>) -> Option<ResolvedDependency>
    decreases items.len(),
{
    if items.len() == 0 {
        None
    } else if items.last().parent is None && items.last().package.name@ == name {
        Some(dependency_of(items.last()))
    } else {
        last_direct(items.drop_last(), name)
    }
}

proof fn lemma_direct_lookup(deps: Seq<(Seq<char>, ResolvedDependency)>, items: Seq<ResolvedItem>, x: Seq<char>)
    ensures
        lookup(with_direct_dependencies(deps, items), x) == match last_direct(items, x) {
            Some(v) => Some(v),
            None => lookup(deps, x),
        },
    decreases items.len(),
{
    if items.len() > 0 {
        lemma_direct_lookup(deps, items.drop_last(), x);
        let before = with_direct_dependencies(deps, items.drop_last());
        let item = items.last();
        if item.parent is None {
            if item.package.name@ == x {
                crate::strmap::lemma_lookup_inserted_same(before, x, dependency_of(item));
            } else {
                crate::strmap::lemma_lookup_inserted_other(before, item.package.name@, dependency_of(item), x);
            }
        }
    }
}

proof fn lemma_direct_sorted(deps: Seq<(Seq<char>, ResolvedDependency)>, items: Seq<ResolvedItem>)
    requires
        keys_sorted(deps),
    ensures
        keys_sorted(with_direct_dependencies(deps, items)),
    decreases items.len(),
{
    if items.len() > 0 {
        lemma_direct_sorted(deps, items.drop_last());
        let item = items.last();
        if item.parent is None {
            crate::strmap::lemma_inserted_sorted_keys(
                with_direct_dependencies(deps, items.drop_last()),
                item.package.name@,
                dependency_of(item),
            );
        }
    }
}

/// Recording the same resolved packages twice gives the dependencies that
/// recording them once gives.
pub proof fn lemma_importers_idempotent(deps: Seq<(Seq<char>, ResolvedDependency)>, items: Seq<ResolvedItem>)
    requires
        keys_sorted(deps),
    ensures
        with_direct_dependencies(with_direct_dependencies(deps, items), items) == with_direct_dependencies(
            deps,
            items,
        ),
{
    let once = with_direct_dependencies(deps, items);
    let twice = with_direct_dependencies(once, items);
    lemma_direct_sorted(deps, items);
    lemma_direct_sorted(once, items);
    assert forall|k: Seq<char>| #[trigger] lookup(twice, k) == lookup(once, k) by {
        lemma_direct_lookup(once, items, k);
        lemma_direct_lookup(deps, items, k);
    }
    crate::strmap::lemma_sorted_ext(twice, once);
}

} // verus!
