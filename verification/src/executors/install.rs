//! Installing packages into a `node_modules` directory.
use vstd::prelude::*;

use crate::common::remote_package::RemotePackage;
use crate::fs::NodeModules;
use crate::strmap::{inserted, StrMap};
use crate::registry::NpmRegistry;

verus! {

/// The entries of `more` set in `s`, in order.
pub open spec fn inserted_all(s: Seq<(Seq<char>, String)>, more: Seq<(Seq<char>, String)>) -> Seq<(Seq<char>, String)>
    decreases more.len(),
{
    if more.len() == 0 {
        s
    } else {
        inserted(inserted_all(s, more.drop_last()), more.last().0, more.last().1)
    }
}

fn insert_all(m: &mut StrMap<String>, more: &StrMap<String>)
    ensures
        final(m)@ == inserted_all(old(m)@, more@),
{
    let mut i: usize = 0;
    while i < more.len()
        invariant
            i <= more@.len(),
            m@ == inserted_all(old(m)@, more@.take(i as int)),
        decreases more@.len() - i,
    {
        assert(more@.take(i + 1).drop_last() =~= more@.take(i as int));
        m.insert(more.key_at(i).clone(), more.value_at(i).clone());
        i = i + 1;
    }
    assert(more@.take(more@.len() as int) =~= more@);
}

/// The registry to ask and the directory to install into.
#[derive(Debug)]
pub struct InstallActions {
    pub registry: NpmRegistry,
    pub modules: NodeModules,
}

impl InstallActions {
    /// Installs into `base_dir`, `./node_modules` when none is given.
    pub fn new(base_dir: Option<&str>) -> (r: Self)
        ensures
            r.registry.url is None,
            r.modules.path@ == match base_dir {
                Some(b) => b@,
                None => "./node_modules"@,
            },
    {
        let base_dir = match base_dir {
            Some(base_dir) => base_dir,
            None => "./node_modules",
        };
        Self { registry: NpmRegistry::new(None), modules: NodeModules::new(base_dir) }
    }

    /// The packages to install after `remote`: its dependencies, then its
    /// dev dependencies, a dev dependency taking the place of a dependency
    /// of the same name.
    pub fn dependencies_of(remote: &RemotePackage) -> (r: StrMap<String>)
        ensures
            r@ == inserted_all(
                inserted_all(Seq::empty(), remote.dependencies@),
                remote.dev_dependencies@,
            ),
    {
        let mut m: StrMap<String> = StrMap::new();
        insert_all(&mut m, &remote.dependencies);
        insert_all(&mut m, &remote.dev_dependencies);
        m
    }
}

} // verus!
