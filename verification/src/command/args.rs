//! The command line of the package manager, and what an install is to do.
use vstd::prelude::*;

use crate::text::str_eq;

verus! {

/// The command line.
#[derive(Debug, Clone)]
pub struct Command {
    pub command: SubCommand,
}

/// What to do.
#[derive(Debug, Clone)]
pub enum SubCommand {
    /// `install`, also `add`.
    Install(Install),
    Run(Run),
    Cache(CacheAction),
    Exec(Exec),
    Config(ConfigSubCommand),
}

#[derive(Debug, Clone)]
pub enum ConfigSubCommand {
    /// `config set`.
    SetValue(ConfigSet),
    Get(ConfigGet),
    Delete,
    List(ConfigList),
}

#[derive(Debug, Clone)]
pub struct ConfigGet {
    pub key: String,
}

#[derive(Debug, Clone)]
pub struct ConfigList {
    /// `--json`.
    pub json: Option<bool>,
}

#[derive(Debug, Clone)]
pub struct ConfigSet {
    pub key: String,
    pub value: String,
    pub location: Option<String>,
    pub json: Option<String>,
    pub global: Option<String>,
}

/// `install [packages]` and its flags.
#[derive(Debug, Clone)]
pub struct Install {
    /// `--global`, `-g`.
    pub save_global: bool,
    /// Save as dev dependency.
    pub save_dev: bool,
    pub offline: bool,
    pub prod: bool,
    pub dev: bool,
    pub no_optional: bool,
    pub no_peers: bool,
    /// Save as production dependency.
    pub save_prod: bool,
    /// Save as optional dependency.
    pub save_optional: bool,
    /// The packages to install; none means those of `package.json`.
    pub packages: Option<Vec<String>>,
}

/// `run <script> [dir]`.
#[derive(Debug, Clone)]
pub struct Run {
    pub directory: Option<String>,
    pub script: String,
}

/// `exec <command> [args...]`.
#[derive(Debug, Clone)]
pub struct Exec {
    pub command: String,
    pub args: Option<Vec<String>>,
}

#[derive(Debug, Clone, Copy, PartialEq, Eq, Structural)]
pub enum CacheAction {
    Clean,
}

impl Command {
    /// An `install` that names no package.
    pub fn is_install_without_args(&self) -> (r: bool)
        ensures
            r == (self.command matches SubCommand::Install(i) && i.packages is None),
    {
        if let SubCommand::Install(install) = &self.command {
            return install.packages.is_none();
        }
        false
    }
}

/// What an install is to install, and what the project directory holds.
/// The flags are additive: `dev_install` takes dev and production
/// dependencies, `prod_install` production ones, `optional_install`
/// optional, dev and production ones.
#[derive(Debug, Clone, Copy, PartialEq, Eq, Structural)]
pub struct ProgramDesire {
    pub dev_install: bool,
    pub prod_install: bool,
    pub optional_install: bool,
    pub package_json_available: bool,
    pub craft_lock_available: bool,
}

/// `--dev` installs dev dependencies only, `--prod` production ones only;
/// otherwise `--no-optional` leaves optional ones out, `--global` all three,
/// and `NODE_ENV=production` dev and optional ones.
pub open spec fn desire_of(
    install: Install,
    node_env: Seq<char>,
    package_json_available: bool,
    craft_lock_available: bool,
) -> ProgramDesire {
    if install.dev {
        ProgramDesire {
            dev_install: true,
            prod_install: false,
            optional_install: false,
            package_json_available,
            craft_lock_available,
        }
    } else if install.prod {
        ProgramDesire {
            dev_install: false,
            prod_install: true,
            optional_install: false,
            package_json_available,
            craft_lock_available,
        }
    } else {
        let production = node_env == "production"@;
        ProgramDesire {
            dev_install: !install.save_global && !production,
            prod_install: !install.save_global,
            optional_install: !install.no_optional && !install.save_global && !production,
            package_json_available,
            craft_lock_available,
        }
    }
}

/// What each mode installs: `--dev` only dev dependencies; `--prod`
/// (without `--dev`) production dependencies and no dev or optional ones;
/// `NODE_ENV=production` no dev or optional dependencies; a global install
/// (without `--dev` or `--prod`) nothing from `package.json`.
pub proof fn lemma_install_modes(install: Install, node_env: Seq<char>, package_json_available: bool, craft_lock_available: bool)
    ensures
        ({
            let d = desire_of(install, node_env, package_json_available, craft_lock_available);
            &&& install.dev ==> d.dev_install && !d.prod_install && !d.optional_install
            &&& !install.dev && install.prod ==> !d.dev_install && d.prod_install && !d.optional_install
            &&& !install.dev && node_env == "production"@ ==> !d.dev_install && !d.optional_install
            &&& !install.dev && !install.prod && install.save_global ==> !d.dev_install && !d.prod_install
                && !d.optional_install
            &&& d.package_json_available == package_json_available
            &&& d.craft_lock_available == craft_lock_available
        }),
{
}

impl ProgramDesire {
    /// What `install` is to install, given `NODE_ENV` (`development` when
    /// unset) and whether `package.json` and `craft-lock.yaml` exist.
    pub fn from_install(
        val: &Install,
        node_env: &str,
        package_json_available: bool,
        craft_lock_available: bool,
    ) -> (r: ProgramDesire)
        ensures
            r == desire_of(*val, node_env@, package_json_available, craft_lock_available),
    {
        let mut program_desire = ProgramDesire {
            dev_install: true,
            prod_install: true,
            optional_install: true,
            package_json_available: false,
            craft_lock_available: false,
        };
        program_desire.package_json_available = package_json_available;
        program_desire.craft_lock_available = craft_lock_available;
        if val.dev {
            program_desire.prod_install = false;
            program_desire.optional_install = false;
            return program_desire;
        }
        if val.prod {
            program_desire.dev_install = false;
            program_desire.optional_install = false;
            return program_desire;
        }
        if val.no_optional {
            program_desire.optional_install = false;
        }
        if val.save_global {
            program_desire.dev_install = false;
            program_desire.prod_install = false;
            program_desire.optional_install = false;
        }
        if str_eq(node_env, "production") {
            program_desire.dev_install = false;
            program_desire.optional_install = false;
        }
        program_desire
    }
}

} // verus!
