//! The npm configuration: its settings with their documented defaults, and
//! how the entries of an `.npmrc`-style file (`key=value`) change them.
use vstd::prelude::*;

use crate::errors::ExecutionError;
use crate::strmap::{inserted, lookup, StrMap};
use crate::text::{owned, parse_i32, parsed_i32, push_char, push_str, str_eq};

verus! {

#[derive(Debug)]
pub enum Access {
    Public,
    Restricted,
    Null,
}

#[derive(Debug)]
pub enum AuthType {
    Web,
    Legacy,
}

#[derive(Debug)]
pub enum Depth {
    StringVal(String),
    IntVal(i32),
}

#[derive(Debug)]
pub enum Include {
    Dev,
    Optional,
    Prod,
    Peer,
}

#[derive(PartialEq, Eq, Structural, Debug)]
pub enum Location {
    User,
    Global,
    Project,
}

#[derive(Debug)]
pub enum InstallStrategy {
    Hoisted,
    Nested,
    Shallow,
    Linked,
}

#[derive(Debug)]
pub enum LogLevel {
    Silent,
    Error,
    Warn,
    Notice,
    Verbose,
    Http,
    Timing,
    Info,
    Https,
    Silly,
    /// The level `none`.
    Off,
}

/// A calendar date (proleptic Gregorian), as the `before` setting holds it.
#[derive(Debug, Clone, Copy)]
pub struct CalendarDate {
    pub year: i32,
    pub month: u32,
    pub day: u32,
}

/// The operating system that some defaults depend on.
#[derive(Debug, Clone, Copy, PartialEq, Eq, Structural)]
pub enum Platform {
    Windows,
    MacOs,
    Other,
}

pub open spec fn opt_text(o: Option<String>) -> Option<Seq<char>> {
    match o {
        Some(s) => Some(s@),
        None => None,
    }
}

/// The npm configuration (https://docs.npmjs.com/cli/v10/using-npm/config).
#[derive(Debug)]
pub struct NpmConfig {
    pub _auth: Option<String>,
    pub access: Access,
    pub all: bool,
    pub allow_same_version: bool,
    pub audit: bool,
    pub audit_level: Option<String>,
    pub auth_type: AuthType,
    pub before: Option<CalendarDate>,
    pub bin_links: bool,
    pub browser: String,
    pub ca: Option<String>,
    pub cache: String,
    pub ca_file: Option<String>,
    pub call: Option<String>,
    pub cidr: Option<String>,
    pub color: bool,
    pub commit_hooks: bool,
    pub cpu: Option<String>,
    pub depth: Depth,
    pub description: bool,
    pub diff: String,
    pub diff_dst_prefix: String,
    pub diff_ignore_all_space: bool,
    pub diff_name_only: bool,
    pub diff_no_prefix: bool,
    pub diff_src_prefix: String,
    pub diff_text: bool,
    pub diff_unified: i32,
    pub dry_run: bool,
    pub editor: String,
    pub engine_strict: bool,
    pub expect_result_count: Option<i32>,
    pub expect_results: Option<bool>,
    pub fetch_retries: i32,
    pub fetch_retry_factor: i32,
    pub fetch_retry_maxtimeout: i32,
    pub fetch_retry_mintimeout: i32,
    pub fetch_timeout: i32,
    pub force: bool,
    pub foreground_scripts: bool,
    pub format_package_lock: bool,
    pub fund: bool,
    pub git: String,
    pub git_tag_version: bool,
    pub global: bool,
    pub globalconfig: Option<String>,
    pub heading: String,
    pub https_proxy: Option<String>,
    pub if_present: bool,
    pub ignore_scripts: bool,
    pub included: Option<Include>,
    pub include_staged: bool,
    pub include_workspace_root: bool,
    pub init_author_email: Option<String>,
    pub init_author_name: Option<String>,
    pub init_author_url: Option<String>,
    pub init_license: String,
    pub init_module: String,
    pub init_version: String,
    pub install_links: bool,
    pub install_strategy: InstallStrategy,
    pub json: bool,
    pub legacy_peer_deps: bool,
    pub libc: Option<String>,
    pub link: bool,
    pub local_address: Option<String>,
    pub _location: Location,
    pub lockfile_version: i32,
    pub _log_level: LogLevel,
    pub logs_dir: String,
    pub logs_max: i32,
    pub long: bool,
    pub max_sockets: i32,
    pub message: String,
    pub node_options: Option<String>,
    pub no_proxy: Option<String>,
    pub offline: bool,
    pub omit: Option<String>,
    pub omit_lockfile_registry_resolved: bool,
    pub os: Option<String>,
    pub otp: Option<String>,
    pub pack_destination: Option<String>,
    pub package: String,
    pub package_lock: bool,
    pub package_lock_only: bool,
    pub parseable: bool,
    pub prefer_dedupe: bool,
    pub prefer_offline: bool,
    pub prefer_online: bool,
    pub prefix: String,
    pub preid: Option<String>,
    pub progress: bool,
    pub provenance: bool,
    pub provenance_file: Option<String>,
    pub proxy: Option<String>,
    pub read_only: bool,
    pub rebuild_bundle: bool,
    pub registry: String,
    pub replace_registry_host: String,
    pub save: bool,
    pub save_bundle: bool,
    pub save_dev: bool,
    pub save_exact: bool,
    pub save_optional: bool,
    pub save_peer: bool,
    pub save_prefix: String,
    pub save_prod: bool,
    pub sbom_format: Option<String>,
    pub sbom_type: String,
    pub scope: Option<String>,
    pub script_shell: String,
    pub search_exclude: Option<String>,
    pub search_limit: i32,
    pub search_opts: Option<String>,
    pub search_staleness: i32,
    pub shell: String,
    pub sign_git_commit: bool,
    pub sign_git_tag: bool,
    pub strict_peer_deps: bool,
    pub strict_ssl: bool,
    pub tag: String,
    pub tag_version_prefix: String,
    pub timing: bool,
    pub umask: i32,
    pub unicode: bool,
    pub update_notifier: bool,
    pub usage: bool,
    pub user_agent: String,
    pub user_config: String,
    pub version: bool,
    pub versions: bool,
    pub viewer: String,
    pub which: Option<i32>,
    pub workspace: Option<String>,
    pub workspaces: Option<bool>,
    pub workspaces_update: bool,
    pub yes: Option<bool>,
    pub also: Option<String>,
    pub cache_max: i32,
    pub cache_min: i32,
    pub cert: Option<String>,
    pub _key: Option<String>,
}

/// npm's defaults for the settings, on `platform` with the environment
/// variables `env`.
pub open spec fn has_defaults(c: NpmConfig, platform: Platform, env: Seq<(Seq<char>, String)>) -> bool {
    &&& c._auth is None
    &&& c.access == Access::Public
    &&& c.all == false
    &&& c.allow_same_version == false
    &&& c.audit == true
    &&& c.audit_level is None
    &&& c.auth_type == AuthType::Web
    &&& c.before is None
    &&& c.bin_links == true
    &&& c.browser@ == browser_default(platform)
    &&& c.ca is None
    &&& c.cache@ == cache_dir_default(platform)
    &&& c.ca_file is None
    &&& c.call is None
    &&& c.cidr is None
    &&& c.color == true
    &&& c.commit_hooks == true
    &&& c.cpu is None
    &&& c.depth == Depth::IntVal(1)
    &&& c.description == true
    &&& c.diff@ == ""@
    &&& c.diff_dst_prefix@ == "b/"@
    &&& c.diff_ignore_all_space == false
    &&& c.diff_name_only == false
    &&& c.diff_no_prefix == false
    &&& c.diff_src_prefix@ == "a/"@
    &&& c.diff_text == false
    &&& c.diff_unified == 3
    &&& c.dry_run == false
    &&& c.editor@ == editor_default(platform, env)
    &&& c.engine_strict == false
    &&& c.expect_result_count is None
    &&& c.expect_results is None
    &&& c.fetch_retries == 2
    &&& c.fetch_retry_factor == 10
    &&& c.fetch_retry_maxtimeout == 60000
    &&& c.fetch_retry_mintimeout == 10000
    &&& c.fetch_timeout == 300000
    &&& c.force == false
    &&& c.foreground_scripts == false
    &&& c.format_package_lock == true
    &&& c.fund == true
    &&& c.git@ == "git"@
    &&& c.git_tag_version == true
    &&& c.global == false
    &&& c.globalconfig is None
    &&& c.heading@ == "npm"@
    &&& opt_text(c.https_proxy) == https_proxy_default(env)
    &&& c.if_present == false
    &&& c.ignore_scripts == false
    &&& c.included is None
    &&& c.include_staged == false
    &&& c.include_workspace_root == false
    &&& c.init_author_email is None
    &&& c.init_author_name is None
    &&& c.init_author_url is None
    &&& c.init_license@ == "ISC"@
    &&& c.init_module@ == "~/.npm-init.js"@
    &&& c.init_version@ == "1.0.0"@
    &&& c.install_links == false
    &&& c.install_strategy == InstallStrategy::Hoisted
    &&& c.json == false
    &&& c.legacy_peer_deps == false
    &&& c.libc is None
    &&& c.link == false
    &&& c.local_address is None
    &&& c._location == Location::User
    &&& c.lockfile_version == 9
    &&& c._log_level == LogLevel::Notice
    &&& c.logs_dir@ == "_logs"@
    &&& c.logs_max == 10
    &&& c.long == false
    &&& c.max_sockets == 15
    &&& c.message@ == "%s"@
    &&& opt_text(c.node_options) == node_options_default(env)
    &&& opt_text(c.no_proxy) == no_proxy_default(env)
    &&& c.offline == false
    &&& opt_text(c.omit) == omit_default(env)
    &&& c.omit_lockfile_registry_resolved == false
    &&& c.os is None
    &&& c.otp is None
    &&& opt_text(c.pack_destination) == Some("."@)
    &&& c.package@ == ""@
    &&& c.package_lock == true
    &&& c.package_lock_only == false
    &&& c.parseable == false
    &&& c.prefer_dedupe == false
    &&& c.prefer_offline == false
    &&& c.prefer_online == false
    &&& c.prefix@ == ""@
    &&& c.preid is None
    &&& c.progress == true
    &&& c.provenance == false
    &&& c.provenance_file is None
    &&& c.proxy is None
    &&& c.read_only == false
    &&& c.rebuild_bundle == true
    &&& c.registry@ == "https://registry.npmjs.org/"@
    &&& c.replace_registry_host@ == "npmjs"@
    &&& c.save == true
    &&& c.save_bundle == false
    &&& c.save_dev == false
    &&& c.save_exact == false
    &&& c.save_optional == false
    &&& c.save_peer == false
    &&& c.save_prefix@ == "^"@
    &&& c.save_prod == false
    &&& c.sbom_format is None
    &&& c.sbom_type@ == "library"@
    &&& c.scope is None
    &&& c.script_shell@ == script_shell_default(platform)
    &&& c.search_exclude is None
    &&& c.search_limit == 20
    &&& c.search_opts is None
    &&& c.search_staleness == 900
    &&& c.shell@ == shell_default(platform, env)
    &&& c.sign_git_commit == false
    &&& c.sign_git_tag == false
    &&& c.strict_peer_deps == false
    &&& c.strict_ssl == true
    &&& c.tag@ == "latest"@
    &&& c.tag_version_prefix@ == "v"@
    &&& c.timing == false
    &&& c.umask == 0
    &&& c.unicode == unicode_default(platform)
    &&& c.update_notifier == true
    &&& c.usage == false
    &&& c.user_agent@ == "npm/{npm-version} node/{node-version} {platform} {arch} workspaces/{workspaces} {ci}"@
    &&& c.user_config@ == "~/.npmrc"@
    &&& c.version == false
    &&& c.versions == false
    &&& c.viewer@ == viewer_default(platform)
    &&& c.which is None
    &&& c.workspace is None
    &&& c.workspaces is None
    &&& c.workspaces_update == true
    &&& c.yes is None
    &&& c.also is None
    &&& c.cache_max == 20000000
    &&& c.cache_min == 0
    &&& c.cert is None
    &&& c._key is None
}

// ---------------------------------------------------------------------
// How one entry changes one setting
// ---------------------------------------------------------------------

/// A yes/no setting: `true` and `false` set it, any other text keeps it.
pub open spec fn bool_setting(d: bool, v: Option<String>) -> bool {
    match v {
        Some(s) => if s@ == "true"@ {
            true
        } else if s@ == "false"@ {
            false
        } else {
            d
        },
        None => d,
    }
}

/// An optional text setting: any text replaces it.
pub open spec fn text_setting(d: Option<String>, v: Option<String>) -> Option<String> {
    if v is None {
        d
    } else {
        v
    }
}

/// A text setting with a default: any text replaces it.
pub open spec fn set_text_setting(d: String, v: Option<String>) -> String {
    match v {
        Some(s) => s,
        None => d,
    }
}

/// A number setting: a text that `i32::from_str` accepts replaces it.
pub open spec fn int_setting(d: i32, v: Option<String>) -> i32 {
    match v {
        Some(s) => match parsed_i32(s@) {
            Some(n) => n,
            None => d,
        },
        None => d,
    }
}

/// An optional number setting: a text that `i32::from_str` accepts sets it.
pub open spec fn optional_int_setting(d: Option<i32>, v: Option<String>) -> Option<i32> {
    match v {
        Some(s) => match parsed_i32(s@) {
            Some(n) => Some(n),
            None => d,
        },
        None => d,
    }
}

/// What `chrono::NaiveDate::parse_from_str(text, format)` gives, as year,
/// month and day; `None` where it reports an error.
pub uninterp spec fn date_from_format(text: Seq<char>, format: Seq<char>) -> Option<(i32, u32, u32)>;

pub open spec fn date_or_default_spec(d: Option<CalendarDate>, parsed: Option<(i32, u32, u32)>) -> Option<CalendarDate> {
    match parsed {
        Some(p) => Some(CalendarDate { year: p.0, month: p.1, day: p.2 }),
        None => d,
    }
}

/// The `before` setting: a date in the form `%Y-%m-%d` replaces it.
pub open spec fn date_setting(d: Option<CalendarDate>, v: Option<String>) -> Option<CalendarDate> {
    match v {
        Some(s) => date_or_default_spec(d, date_from_format(s@, "%Y-%m-%d"@)),
        None => d,
    }
}

pub open spec fn access_of_text(s: Seq<char>) -> Access {
    if s == "public"@ {
        Access::Public
    } else if s == "restricted"@ {
        Access::Restricted
    } else {
        Access::Null
    }
}

pub open spec fn access_setting(d: Access, v: Option<String>) -> Access {
    match v {
        Some(s) => access_of_text(s@),
        None => d,
    }
}

pub open spec fn auth_type_of_text(s: Seq<char>) -> AuthType {
    if s == "web"@ {
        AuthType::Web
    } else if s == "legacy"@ {
        AuthType::Legacy
    } else {
        AuthType::Web
    }
}

pub open spec fn auth_type_setting(d: AuthType, v: Option<String>) -> AuthType {
    match v {
        Some(s) => auth_type_of_text(s@),
        None => d,
    }
}

/// `depth`: a number when `i32::from_str` accepts the text, else the text.
pub open spec fn depth_setting(d: Depth, v: Option<String>) -> Depth {
    match v {
        Some(s) => match parsed_i32(s@) {
            Some(n) => Depth::IntVal(n),
            None => Depth::StringVal(s),
        },
        None => d,
    }
}

pub open spec fn include_of_text(s: Seq<char>) -> Option<Include> {
    if s == "dev"@ {
        Some(Include::Dev)
    } else if s == "optional"@ {
        Some(Include::Optional)
    } else if s == "prod"@ {
        Some(Include::Prod)
    } else if s == "peer"@ {
        Some(Include::Peer)
    } else {
        None
    }
}

pub open spec fn include_setting(d: Option<Include>, v: Option<String>) -> Option<Include> {
    match v {
        Some(s) => include_of_text(s@),
        None => d,
    }
}

pub open spec fn install_strategy_of_text(s: Seq<char>) -> InstallStrategy {
    if s == "hoisted"@ {
        InstallStrategy::Hoisted
    } else if s == "nested"@ {
        InstallStrategy::Nested
    } else if s == "shallow"@ {
        InstallStrategy::Shallow
    } else if s == "linked"@ {
        InstallStrategy::Linked
    } else {
        InstallStrategy::Hoisted
    }
}

pub open spec fn install_strategy_setting(d: InstallStrategy, v: Option<String>) -> InstallStrategy {
    match v {
        Some(s) => install_strategy_of_text(s@),
        None => d,
    }
}

pub open spec fn location_of_text(s: Seq<char>) -> Location {
    if s == "user"@ {
        Location::User
    } else if s == "global"@ {
        Location::Global
    } else if s == "project"@ {
        Location::Project
    } else {
        Location::User
    }
}

pub open spec fn location_setting(d: Location, v: Option<String>) -> Location {
    match v {
        Some(s) => location_of_text(s@),
        None => d,
    }
}

pub open spec fn log_level_of_text(s: Seq<char>) -> LogLevel {
    if s == "silent"@ {
        LogLevel::Silent
    } else if s == "error"@ {
        LogLevel::Error
    } else if s == "warn"@ {
        LogLevel::Warn
    } else if s == "notice"@ {
        LogLevel::Notice
    } else if s == "verbose"@ {
        LogLevel::Verbose
    } else if s == "http"@ {
        LogLevel::Http
    } else if s == "timing"@ {
        LogLevel::Timing
    } else if s == "info"@ {
        LogLevel::Info
    } else if s == "https"@ {
        LogLevel::Https
    } else if s == "silly"@ {
        LogLevel::Silly
    } else if s == "none"@ {
        LogLevel::Off
    } else {
        LogLevel::Notice
    }
}

pub open spec fn log_level_setting(d: LogLevel, v: Option<String>) -> LogLevel {
    match v {
        Some(s) => log_level_of_text(s@),
        None => d,
    }
}

/// The keys of the configuration that npm documents.
#[derive(Debug, Clone, Copy, PartialEq, Eq, Structural)]
pub enum ConfigKey {
    /// `_auth`
    Auth,
    /// `access`
    Access,
    /// `all`
    All,
    /// `allow-same-version`
    AllowSameVersion,
    /// `audit`
    Audit,
    /// `audit-level`
    AuditLevel,
    /// `auth-type`
    AuthType,
    /// `before`
    Before,
    /// `bin-links`
    BinLinks,
    /// `browser`
    Browser,
    /// `ca`
    Ca,
    /// `cache`
    Cache,
    /// `cafile`
    CaFile,
    /// `call`
    Call,
    /// `cidr`
    Cidr,
    /// `color`
    Color,
    /// `commit-hooks`
    CommitHooks,
    /// `cpu`
    Cpu,
    /// `depth`
    Depth,
    /// `description`
    Description,
    /// `diff`
    Diff,
    /// `diff-dst-prefix`
    DiffDstPrefix,
    /// `diff-ignore-all-space`
    DiffIgnoreAllSpace,
    /// `diff-name-only`
    DiffNameOnly,
    /// `diff-no-prefix`
    DiffNoPrefix,
    /// `diff-src-prefix`
    DiffSrcPrefix,
    /// `diff-text`
    DiffText,
    /// `diff-unified`
    DiffUnified,
    /// `dry-run`
    DryRun,
    /// `editor`
    Editor,
    /// `engine-strict`
    EngineStrict,
    /// `expect-result-count`
    ExpectResultCount,
    /// `expect-results`
    ExpectResults,
    /// `fetch-retries`
    FetchRetries,
    /// `fetch-retry-factor`
    FetchRetryFactor,
    /// `fetch-retry-maxtimeout`
    FetchRetryMaxtimeout,
    /// `fetch-retry-mintimeout`
    FetchRetryMintimeout,
    /// `fetch-timeout`
    FetchTimeout,
    /// `force`
    Force,
    /// `foreground-scripts`
    ForegroundScripts,
    /// `format-package-lock`
    FormatPackageLock,
    /// `fund`
    Fund,
    /// `git`
    Git,
    /// `git-tag-version`
    GitTagVersion,
    /// `global`
    Global,
    /// `globalconfig`
    GlobalConfig,
    /// `heading`
    Heading,
    /// `https-proxy`
    HttpsProxy,
    /// `if-present`
    IfPresent,
    /// `ignore-scripts`
    IgnoreScripts,
    /// `include`
    Include,
    /// `include-staged`
    IncludeStaged,
    /// `include-workspace-root`
    IncludeWorkspaceRoot,
    /// `init-author-email`
    InitAuthorEmail,
    /// `init-author-name`
    InitAuthorName,
    /// `init-author-url`
    InitAuthorUrl,
    /// `init-license`
    InitLicense,
    /// `init-module`
    InitModule,
    /// `init-version`
    InitVersion,
    /// `install-links`
    InstallLinks,
    /// `install-strategy`
    InstallStrategy,
    /// `json`
    Json,
    /// `legacy-peer-deps`
    LegacyPeerDeps,
    /// `libc`
    Libc,
    /// `link`
    Link,
    /// `local-address`
    LocalAddress,
    /// `location`
    Location,
    /// `lockfile-version`
    LockfileVersion,
    /// `loglevel`
    Loglevel,
    /// `logs-dir`
    LogsDir,
    /// `logs-max`
    LogsMax,
    /// `long`
    Long,
    /// `maxsockets`
    MaxSockets,
    /// `message`
    Message,
    /// `node-options`
    NodeOptions,
    /// `noproxy`
    NoProxy,
    /// `offline`
    Offline,
    /// `omit`
    Omit,
    /// `omit-lockfile-registry-resolved`
    OmitLockfileRegistryResolved,
    /// `os`
    Os,
    /// `otp`
    Otp,
    /// `pack-destination`
    PackDestination,
    /// `package`
    Package,
    /// `package-lock`
    PackageLock,
    /// `package-lock-only`
    PackageLockOnly,
    /// `parseable`
    Parseable,
    /// `prefer-dedupe`
    PreferDedupe,
    /// `prefer-offline`
    PreferOffline,
    /// `prefer-online`
    PreferOnline,
    /// `prefix`
    Prefix,
    /// `preid`
    Preid,
    /// `progress`
    Progress,
    /// `provenance`
    Provenance,
    /// `provenance-file`
    ProvenanceFile,
    /// `proxy`
    Proxy,
    /// `read-only`
    ReadOnly,
    /// `rebuild-bundle`
    RebuildBundle,
    /// `registry`
    Registry,
    /// `replace-registry-host`
    ReplaceRegistryHost,
    /// `save`
    Save,
    /// `save-bundle`
    SaveBundle,
    /// `save-dev`
    SaveDev,
    /// `save-exact`
    SaveExact,
    /// `save-optional`
    SaveOptional,
    /// `save-peer`
    SavePeer,
    /// `save-prefix`
    SavePrefix,
    /// `save-prod`
    SaveProd,
    /// `sbom-format`
    SbomFormat,
    /// `sbom-type`
    SbomType,
    /// `scope`
    Scope,
    /// `script-shell`
    ScriptShell,
    /// `searchexclude`
    SearchExclude,
    /// `searchlimit`
    SearchLimit,
    /// `searchopts`
    SearchOpts,
    /// `searchstaleness`
    SearchStaleness,
    /// `shell`
    Shell,
    /// `sign-git-commit`
    SignGitCommit,
    /// `sign-git-tag`
    SignGitTag,
    /// `strict-peer-deps`
    StrictPeerDeps,
    /// `strict-ssl`
    StrictSsl,
    /// `tag`
    Tag,
    /// `tag-version-prefix`
    TagVersionPrefix,
    /// `timing`
    Timing,
    /// `umask`
    Umask,
    /// `unicode`
    Unicode,
    /// `update-notifier`
    UpdateNotifier,
    /// `usage`
    Usage,
    /// `user-agent`
    UserAgent,
    /// `userconfig`
    UserConfig,
    /// `version`
    Version,
    /// `versions`
    Versions,
    /// `viewer`
    Viewer,
    /// `which`
    Which,
    /// `workspace`
    Workspace,
    /// `workspaces`
    Workspaces,
    /// `workspaces-update`
    WorkspacesUpdate,
    /// `yes`
    Yes,
    /// `also`
    Also,
    /// `cache-max`
    CacheMax,
    /// `cache-min`
    CacheMin,
    /// `cert`
    Cert,
}

/// The key that a text names.
pub open spec fn config_key_of(k: Seq<char>) -> Option<ConfigKey> {
    if k == "_auth"@ {
        Some(ConfigKey::Auth)
    } else if k == "access"@ {
        Some(ConfigKey::Access)
    } else if k == "all"@ {
        Some(ConfigKey::All)
    } else if k == "allow-same-version"@ {
        Some(ConfigKey::AllowSameVersion)
    } else if k == "audit"@ {
        Some(ConfigKey::Audit)
    } else if k == "audit-level"@ {
        Some(ConfigKey::AuditLevel)
    } else if k == "auth-type"@ {
        Some(ConfigKey::AuthType)
    } else if k == "before"@ {
        Some(ConfigKey::Before)
    } else if k == "bin-links"@ {
        Some(ConfigKey::BinLinks)
    } else if k == "browser"@ {
        Some(ConfigKey::Browser)
    } else if k == "ca"@ {
        Some(ConfigKey::Ca)
    } else if k == "cache"@ {
        Some(ConfigKey::Cache)
    } else if k == "cafile"@ {
        Some(ConfigKey::CaFile)
    } else if k == "call"@ {
        Some(ConfigKey::Call)
    } else if k == "cidr"@ {
        Some(ConfigKey::Cidr)
    } else if k == "color"@ {
        Some(ConfigKey::Color)
    } else if k == "commit-hooks"@ {
        Some(ConfigKey::CommitHooks)
    } else if k == "cpu"@ {
        Some(ConfigKey::Cpu)
    } else if k == "depth"@ {
        Some(ConfigKey::Depth)
    } else if k == "description"@ {
        Some(ConfigKey::Description)
    } else if k == "diff"@ {
        Some(ConfigKey::Diff)
    } else if k == "diff-dst-prefix"@ {
        Some(ConfigKey::DiffDstPrefix)
    } else if k == "diff-ignore-all-space"@ {
        Some(ConfigKey::DiffIgnoreAllSpace)
    } else if k == "diff-name-only"@ {
        Some(ConfigKey::DiffNameOnly)
    } else if k == "diff-no-prefix"@ {
        Some(ConfigKey::DiffNoPrefix)
    } else if k == "diff-src-prefix"@ {
        Some(ConfigKey::DiffSrcPrefix)
    } else if k == "diff-text"@ {
        Some(ConfigKey::DiffText)
    } else if k == "diff-unified"@ {
        Some(ConfigKey::DiffUnified)
    } else if k == "dry-run"@ {
        Some(ConfigKey::DryRun)
    } else if k == "editor"@ {
        Some(ConfigKey::Editor)
    } else if k == "engine-strict"@ {
        Some(ConfigKey::EngineStrict)
    } else if k == "expect-result-count"@ {
        Some(ConfigKey::ExpectResultCount)
    } else if k == "expect-results"@ {
        Some(ConfigKey::ExpectResults)
    } else if k == "fetch-retries"@ {
        Some(ConfigKey::FetchRetries)
    } else if k == "fetch-retry-factor"@ {
        Some(ConfigKey::FetchRetryFactor)
    } else if k == "fetch-retry-maxtimeout"@ {
        Some(ConfigKey::FetchRetryMaxtimeout)
    } else if k == "fetch-retry-mintimeout"@ {
        Some(ConfigKey::FetchRetryMintimeout)
    } else if k == "fetch-timeout"@ {
        Some(ConfigKey::FetchTimeout)
    } else if k == "force"@ {
        Some(ConfigKey::Force)
    } else if k == "foreground-scripts"@ {
        Some(ConfigKey::ForegroundScripts)
    } else if k == "format-package-lock"@ {
        Some(ConfigKey::FormatPackageLock)
    } else if k == "fund"@ {
        Some(ConfigKey::Fund)
    } else if k == "git"@ {
        Some(ConfigKey::Git)
    } else if k == "git-tag-version"@ {
        Some(ConfigKey::GitTagVersion)
    } else if k == "global"@ {
        Some(ConfigKey::Global)
    } else if k == "globalconfig"@ {
        Some(ConfigKey::GlobalConfig)
    } else if k == "heading"@ {
        Some(ConfigKey::Heading)
    } else if k == "https-proxy"@ {
        Some(ConfigKey::HttpsProxy)
    } else if k == "if-present"@ {
        Some(ConfigKey::IfPresent)
    } else if k == "ignore-scripts"@ {
        Some(ConfigKey::IgnoreScripts)
    } else if k == "include"@ {
        Some(ConfigKey::Include)
    } else if k == "include-staged"@ {
        Some(ConfigKey::IncludeStaged)
    } else if k == "include-workspace-root"@ {
        Some(ConfigKey::IncludeWorkspaceRoot)
    } else if k == "init-author-email"@ {
        Some(ConfigKey::InitAuthorEmail)
    } else if k == "init-author-name"@ {
        Some(ConfigKey::InitAuthorName)
    } else if k == "init-author-url"@ {
        Some(ConfigKey::InitAuthorUrl)
    } else if k == "init-license"@ {
        Some(ConfigKey::InitLicense)
    } else if k == "init-module"@ {
        Some(ConfigKey::InitModule)
    } else if k == "init-version"@ {
        Some(ConfigKey::InitVersion)
    } else if k == "install-links"@ {
        Some(ConfigKey::InstallLinks)
    } else if k == "install-strategy"@ {
        Some(ConfigKey::InstallStrategy)
    } else if k == "json"@ {
        Some(ConfigKey::Json)
    } else if k == "legacy-peer-deps"@ {
        Some(ConfigKey::LegacyPeerDeps)
    } else if k == "libc"@ {
        Some(ConfigKey::Libc)
    } else if k == "link"@ {
        Some(ConfigKey::Link)
    } else if k == "local-address"@ {
        Some(ConfigKey::LocalAddress)
    } else if k == "location"@ {
        Some(ConfigKey::Location)
    } else if k == "lockfile-version"@ {
        Some(ConfigKey::LockfileVersion)
    } else if k == "loglevel"@ {
        Some(ConfigKey::Loglevel)
    } else if k == "logs-dir"@ {
        Some(ConfigKey::LogsDir)
    } else if k == "logs-max"@ {
        Some(ConfigKey::LogsMax)
    } else if k == "long"@ {
        Some(ConfigKey::Long)
    } else if k == "maxsockets"@ {
        Some(ConfigKey::MaxSockets)
    } else if k == "message"@ {
        Some(ConfigKey::Message)
    } else if k == "node-options"@ {
        Some(ConfigKey::NodeOptions)
    } else if k == "noproxy"@ {
        Some(ConfigKey::NoProxy)
    } else if k == "offline"@ {
        Some(ConfigKey::Offline)
    } else if k == "omit"@ {
        Some(ConfigKey::Omit)
    } else if k == "omit-lockfile-registry-resolved"@ {
        Some(ConfigKey::OmitLockfileRegistryResolved)
    } else if k == "os"@ {
        Some(ConfigKey::Os)
    } else if k == "otp"@ {
        Some(ConfigKey::Otp)
    } else if k == "pack-destination"@ {
        Some(ConfigKey::PackDestination)
    } else if k == "package"@ {
        Some(ConfigKey::Package)
    } else if k == "package-lock"@ {
        Some(ConfigKey::PackageLock)
    } else if k == "package-lock-only"@ {
        Some(ConfigKey::PackageLockOnly)
    } else if k == "parseable"@ {
        Some(ConfigKey::Parseable)
    } else if k == "prefer-dedupe"@ {
        Some(ConfigKey::PreferDedupe)
    } else if k == "prefer-offline"@ {
        Some(ConfigKey::PreferOffline)
    } else if k == "prefer-online"@ {
        Some(ConfigKey::PreferOnline)
    } else if k == "prefix"@ {
        Some(ConfigKey::Prefix)
    } else if k == "preid"@ {
        Some(ConfigKey::Preid)
    } else if k == "progress"@ {
        Some(ConfigKey::Progress)
    } else if k == "provenance"@ {
        Some(ConfigKey::Provenance)
    } else if k == "provenance-file"@ {
        Some(ConfigKey::ProvenanceFile)
    } else if k == "proxy"@ {
        Some(ConfigKey::Proxy)
    } else if k == "read-only"@ {
        Some(ConfigKey::ReadOnly)
    } else if k == "rebuild-bundle"@ {
        Some(ConfigKey::RebuildBundle)
    } else if k == "registry"@ {
        Some(ConfigKey::Registry)
    } else if k == "replace-registry-host"@ {
        Some(ConfigKey::ReplaceRegistryHost)
    } else if k == "save"@ {
        Some(ConfigKey::Save)
    } else if k == "save-bundle"@ {
        Some(ConfigKey::SaveBundle)
    } else if k == "save-dev"@ {
        Some(ConfigKey::SaveDev)
    } else if k == "save-exact"@ {
        Some(ConfigKey::SaveExact)
    } else if k == "save-optional"@ {
        Some(ConfigKey::SaveOptional)
    } else if k == "save-peer"@ {
        Some(ConfigKey::SavePeer)
    } else if k == "save-prefix"@ {
        Some(ConfigKey::SavePrefix)
    } else if k == "save-prod"@ {
        Some(ConfigKey::SaveProd)
    } else if k == "sbom-format"@ {
        Some(ConfigKey::SbomFormat)
    } else if k == "sbom-type"@ {
        Some(ConfigKey::SbomType)
    } else if k == "scope"@ {
        Some(ConfigKey::Scope)
    } else if k == "script-shell"@ {
        Some(ConfigKey::ScriptShell)
    } else if k == "searchexclude"@ {
        Some(ConfigKey::SearchExclude)
    } else if k == "searchlimit"@ {
        Some(ConfigKey::SearchLimit)
    } else if k == "searchopts"@ {
        Some(ConfigKey::SearchOpts)
    } else if k == "searchstaleness"@ {
        Some(ConfigKey::SearchStaleness)
    } else if k == "shell"@ {
        Some(ConfigKey::Shell)
    } else if k == "sign-git-commit"@ {
        Some(ConfigKey::SignGitCommit)
    } else if k == "sign-git-tag"@ {
        Some(ConfigKey::SignGitTag)
    } else if k == "strict-peer-deps"@ {
        Some(ConfigKey::StrictPeerDeps)
    } else if k == "strict-ssl"@ {
        Some(ConfigKey::StrictSsl)
    } else if k == "tag"@ {
        Some(ConfigKey::Tag)
    } else if k == "tag-version-prefix"@ {
        Some(ConfigKey::TagVersionPrefix)
    } else if k == "timing"@ {
        Some(ConfigKey::Timing)
    } else if k == "umask"@ {
        Some(ConfigKey::Umask)
    } else if k == "unicode"@ {
        Some(ConfigKey::Unicode)
    } else if k == "update-notifier"@ {
        Some(ConfigKey::UpdateNotifier)
    } else if k == "usage"@ {
        Some(ConfigKey::Usage)
    } else if k == "user-agent"@ {
        Some(ConfigKey::UserAgent)
    } else if k == "userconfig"@ {
        Some(ConfigKey::UserConfig)
    } else if k == "version"@ {
        Some(ConfigKey::Version)
    } else if k == "versions"@ {
        Some(ConfigKey::Versions)
    } else if k == "viewer"@ {
        Some(ConfigKey::Viewer)
    } else if k == "which"@ {
        Some(ConfigKey::Which)
    } else if k == "workspace"@ {
        Some(ConfigKey::Workspace)
    } else if k == "workspaces"@ {
        Some(ConfigKey::Workspaces)
    } else if k == "workspaces-update"@ {
        Some(ConfigKey::WorkspacesUpdate)
    } else if k == "yes"@ {
        Some(ConfigKey::Yes)
    } else if k == "also"@ {
        Some(ConfigKey::Also)
    } else if k == "cache-max"@ {
        Some(ConfigKey::CacheMax)
    } else if k == "cache-min"@ {
        Some(ConfigKey::CacheMin)
    } else if k == "cert"@ {
        Some(ConfigKey::Cert)
    } else {
        None
    }
}

/// The settings after `_auth=v`.
#[verifier::opaque]
pub open spec fn with_auth(c: NpmConfig, v: Option<String>) -> NpmConfig {
    NpmConfig { _auth: text_setting(c._auth, v), ..c }
}

/// The settings after `access=v`.
#[verifier::opaque]
pub open spec fn with_access(c: NpmConfig, v: Option<String>) -> NpmConfig {
    NpmConfig { access: access_setting(c.access, v), ..c }
}

/// The settings after `all=v`.
#[verifier::opaque]
pub open spec fn with_all(c: NpmConfig, v: Option<String>) -> NpmConfig {
    NpmConfig { all: bool_setting(c.all, v), ..c }
}

/// The settings after `allow-same-version=v`.
#[verifier::opaque]
pub open spec fn with_allow_same_version(c: NpmConfig, v: Option<String>) -> NpmConfig {
    NpmConfig { allow_same_version: bool_setting(c.allow_same_version, v), ..c }
}

/// The settings after `audit=v`.
#[verifier::opaque]
pub open spec fn with_audit(c: NpmConfig, v: Option<String>) -> NpmConfig {
    NpmConfig { audit: bool_setting(c.audit, v), ..c }
}

/// The settings after `audit-level=v`.
#[verifier::opaque]
pub open spec fn with_audit_level(c: NpmConfig, v: Option<String>) -> NpmConfig {
    NpmConfig { audit_level: text_setting(c.audit_level, v), ..c }
}

/// The settings after `auth-type=v`.
#[verifier::opaque]
pub open spec fn with_auth_type(c: NpmConfig, v: Option<String>) -> NpmConfig {
    NpmConfig { auth_type: auth_type_setting(c.auth_type, v), ..c }
}

/// The settings after `before=v`.
#[verifier::opaque]
pub open spec fn with_before(c: NpmConfig, v: Option<String>) -> NpmConfig {
    NpmConfig { before: date_setting(c.before, v), ..c }
}

/// The settings after `bin-links=v`.
#[verifier::opaque]
pub open spec fn with_bin_links(c: NpmConfig, v: Option<String>) -> NpmConfig {
    NpmConfig { bin_links: bool_setting(c.bin_links, v), ..c }
}

/// The settings after `browser=v`.
#[verifier::opaque]
pub open spec fn with_browser(c: NpmConfig, v: Option<String>) -> NpmConfig {
    NpmConfig { browser: set_text_setting(c.browser, v), ..c }
}

/// The settings after `ca=v`.
#[verifier::opaque]
pub open spec fn with_ca(c: NpmConfig, v: Option<String>) -> NpmConfig {
    NpmConfig { ca: text_setting(c.ca, v), ..c }
}

/// The settings after `cache=v`.
#[verifier::opaque]
pub open spec fn with_cache(c: NpmConfig, v: Option<String>) -> NpmConfig {
    NpmConfig { cache: set_text_setting(c.cache, v), ..c }
}

/// The settings after `cafile=v`.
#[verifier::opaque]
pub open spec fn with_ca_file(c: NpmConfig, v: Option<String>) -> NpmConfig {
    NpmConfig { ca_file: text_setting(c.ca_file, v), ..c }
}

/// The settings after `call=v`.
#[verifier::opaque]
pub open spec fn with_call(c: NpmConfig, v: Option<String>) -> NpmConfig {
    NpmConfig { call: text_setting(c.call, v), ..c }
}

/// The settings after `cidr=v`.
#[verifier::opaque]
pub open spec fn with_cidr(c: NpmConfig, v: Option<String>) -> NpmConfig {
    NpmConfig { cidr: text_setting(c.cidr, v), ..c }
}

/// The settings after `color=v`.
#[verifier::opaque]
pub open spec fn with_color(c: NpmConfig, v: Option<String>) -> NpmConfig {
    NpmConfig { color: bool_setting(c.color, v), ..c }
}

/// The settings after `commit-hooks=v`.
#[verifier::opaque]
pub open spec fn with_commit_hooks(c: NpmConfig, v: Option<String>) -> NpmConfig {
    NpmConfig { commit_hooks: bool_setting(c.commit_hooks, v), ..c }
}

/// The settings after `cpu=v`.
#[verifier::opaque]
pub open spec fn with_cpu(c: NpmConfig, v: Option<String>) -> NpmConfig {
    NpmConfig { cpu: text_setting(c.cpu, v), ..c }
}

/// The settings after `depth=v`.
#[verifier::opaque]
pub open spec fn with_depth(c: NpmConfig, v: Option<String>) -> NpmConfig {
    NpmConfig { depth: depth_setting(c.depth, v), ..c }
}

/// The settings after `description=v`.
#[verifier::opaque]
pub open spec fn with_description(c: NpmConfig, v: Option<String>) -> NpmConfig {
    NpmConfig { description: bool_setting(c.description, v), ..c }
}

/// The settings after `diff=v`.
#[verifier::opaque]
pub open spec fn with_diff(c: NpmConfig, v: Option<String>) -> NpmConfig {
    NpmConfig { diff: set_text_setting(c.diff, v), ..c }
}

/// The settings after `diff-dst-prefix=v`.
#[verifier::opaque]
pub open spec fn with_diff_dst_prefix(c: NpmConfig, v: Option<String>) -> NpmConfig {
    NpmConfig { diff_dst_prefix: set_text_setting(c.diff_dst_prefix, v), ..c }
}

/// The settings after `diff-ignore-all-space=v`.
#[verifier::opaque]
pub open spec fn with_diff_ignore_all_space(c: NpmConfig, v: Option<String>) -> NpmConfig {
    NpmConfig { diff_ignore_all_space: bool_setting(c.diff_ignore_all_space, v), ..c }
}

/// The settings after `diff-name-only=v`.
#[verifier::opaque]
pub open spec fn with_diff_name_only(c: NpmConfig, v: Option<String>) -> NpmConfig {
    NpmConfig { diff_name_only: bool_setting(c.diff_name_only, v), ..c }
}

/// The settings after `diff-no-prefix=v`.
#[verifier::opaque]
pub open spec fn with_diff_no_prefix(c: NpmConfig, v: Option<String>) -> NpmConfig {
    NpmConfig { diff_no_prefix: bool_setting(c.diff_no_prefix, v), ..c }
}

/// The settings after `diff-src-prefix=v`.
#[verifier::opaque]
pub open spec fn with_diff_src_prefix(c: NpmConfig, v: Option<String>) -> NpmConfig {
    NpmConfig { diff_src_prefix: set_text_setting(c.diff_src_prefix, v), ..c }
}

/// The settings after `diff-text=v`.
#[verifier::opaque]
pub open spec fn with_diff_text(c: NpmConfig, v: Option<String>) -> NpmConfig {
    NpmConfig { diff_text: bool_setting(c.diff_text, v), ..c }
}

/// The settings after `diff-unified=v`.
#[verifier::opaque]
pub open spec fn with_diff_unified(c: NpmConfig, v: Option<String>) -> NpmConfig {
    NpmConfig { diff_unified: int_setting(c.diff_unified, v), ..c }
}

/// The settings after `dry-run=v`.
#[verifier::opaque]
pub open spec fn with_dry_run(c: NpmConfig, v: Option<String>) -> NpmConfig {
    NpmConfig { dry_run: bool_setting(c.dry_run, v), ..c }
}

/// The settings after `editor=v`.
#[verifier::opaque]
pub open spec fn with_editor(c: NpmConfig, v: Option<String>) -> NpmConfig {
    NpmConfig { editor: set_text_setting(c.editor, v), ..c }
}

/// The settings after `engine-strict=v`.
#[verifier::opaque]
pub open spec fn with_engine_strict(c: NpmConfig, v: Option<String>) -> NpmConfig {
    NpmConfig { engine_strict: bool_setting(c.engine_strict, v), ..c }
}

/// The settings after `expect-result-count=v`.
#[verifier::opaque]
pub open spec fn with_expect_result_count(c: NpmConfig, v: Option<String>) -> NpmConfig {
    NpmConfig { expect_result_count: optional_int_setting(c.expect_result_count, v), ..c }
}

/// The settings after `expect-results=v`.
#[verifier::opaque]
pub open spec fn with_expect_results(c: NpmConfig, v: Option<String>) -> NpmConfig {
    NpmConfig { expect_results: Some(bool_setting(false, v)), ..c }
}

/// The settings after `fetch-retries=v`.
#[verifier::opaque]
pub open spec fn with_fetch_retries(c: NpmConfig, v: Option<String>) -> NpmConfig {
    NpmConfig { fetch_retries: int_setting(c.fetch_retries, v), ..c }
}

/// The settings after `fetch-retry-factor=v`.
#[verifier::opaque]
pub open spec fn with_fetch_retry_factor(c: NpmConfig, v: Option<String>) -> NpmConfig {
    NpmConfig { fetch_retry_factor: int_setting(c.fetch_retry_factor, v), ..c }
}

/// The settings after `fetch-retry-maxtimeout=v`.
#[verifier::opaque]
pub open spec fn with_fetch_retry_maxtimeout(c: NpmConfig, v: Option<String>) -> NpmConfig {
    NpmConfig { fetch_retry_maxtimeout: int_setting(c.fetch_retry_maxtimeout, v), ..c }
}

/// The settings after `fetch-retry-mintimeout=v`.
#[verifier::opaque]
pub open spec fn with_fetch_retry_mintimeout(c: NpmConfig, v: Option<String>) -> NpmConfig {
    NpmConfig { fetch_retry_mintimeout: int_setting(c.fetch_retry_mintimeout, v), ..c }
}

/// The settings after `fetch-timeout=v`.
#[verifier::opaque]
pub open spec fn with_fetch_timeout(c: NpmConfig, v: Option<String>) -> NpmConfig {
    NpmConfig { fetch_timeout: int_setting(c.fetch_timeout, v), ..c }
}

/// The settings after `force=v`.
#[verifier::opaque]
pub open spec fn with_force(c: NpmConfig, v: Option<String>) -> NpmConfig {
    NpmConfig { force: bool_setting(c.force, v), ..c }
}

/// The settings after `foreground-scripts=v`.
#[verifier::opaque]
pub open spec fn with_foreground_scripts(c: NpmConfig, v: Option<String>) -> NpmConfig {
    NpmConfig { foreground_scripts: bool_setting(c.foreground_scripts, v), ..c }
}

/// The settings after `format-package-lock=v`.
#[verifier::opaque]
pub open spec fn with_format_package_lock(c: NpmConfig, v: Option<String>) -> NpmConfig {
    NpmConfig { format_package_lock: bool_setting(c.format_package_lock, v), ..c }
}

/// The settings after `fund=v`.
#[verifier::opaque]
pub open spec fn with_fund(c: NpmConfig, v: Option<String>) -> NpmConfig {
    NpmConfig { fund: bool_setting(c.fund, v), ..c }
}

/// The settings after `git=v`.
#[verifier::opaque]
pub open spec fn with_git(c: NpmConfig, v: Option<String>) -> NpmConfig {
    NpmConfig { git: set_text_setting(c.git, v), ..c }
}

/// The settings after `git-tag-version=v`.
#[verifier::opaque]
pub open spec fn with_git_tag_version(c: NpmConfig, v: Option<String>) -> NpmConfig {
    NpmConfig { git_tag_version: bool_setting(c.git_tag_version, v), ..c }
}

/// The settings after `global=v`.
#[verifier::opaque]
pub open spec fn with_global(c: NpmConfig, v: Option<String>) -> NpmConfig {
    NpmConfig { global: bool_setting(c.global, v), ..c }
}

/// The settings after `globalconfig=v`.
#[verifier::opaque]
pub open spec fn with_globalconfig(c: NpmConfig, v: Option<String>) -> NpmConfig {
    NpmConfig { globalconfig: text_setting(c.globalconfig, v), ..c }
}

/// The settings after `heading=v`.
#[verifier::opaque]
pub open spec fn with_heading(c: NpmConfig, v: Option<String>) -> NpmConfig {
    NpmConfig { heading: set_text_setting(c.heading, v), ..c }
}

/// The settings after `https-proxy=v`.
#[verifier::opaque]
pub open spec fn with_https_proxy(c: NpmConfig, v: Option<String>) -> NpmConfig {
    NpmConfig { https_proxy: text_setting(c.https_proxy, v), ..c }
}

/// The settings after `if-present=v`.
#[verifier::opaque]
pub open spec fn with_if_present(c: NpmConfig, v: Option<String>) -> NpmConfig {
    NpmConfig { if_present: bool_setting(c.if_present, v), ..c }
}

/// The settings after `ignore-scripts=v`.
#[verifier::opaque]
pub open spec fn with_ignore_scripts(c: NpmConfig, v: Option<String>) -> NpmConfig {
    NpmConfig { ignore_scripts: bool_setting(c.ignore_scripts, v), ..c }
}

/// The settings after `include=v`.
#[verifier::opaque]
pub open spec fn with_included(c: NpmConfig, v: Option<String>) -> NpmConfig {
    NpmConfig { included: include_setting(c.included, v), ..c }
}

/// The settings after `include-staged=v`.
#[verifier::opaque]
pub open spec fn with_include_staged(c: NpmConfig, v: Option<String>) -> NpmConfig {
    NpmConfig { include_staged: bool_setting(c.include_staged, v), ..c }
}

/// The settings after `include-workspace-root=v`.
#[verifier::opaque]
pub open spec fn with_include_workspace_root(c: NpmConfig, v: Option<String>) -> NpmConfig {
    NpmConfig { include_workspace_root: bool_setting(c.include_workspace_root, v), ..c }
}

/// The settings after `init-author-email=v`.
#[verifier::opaque]
pub open spec fn with_init_author_email(c: NpmConfig, v: Option<String>) -> NpmConfig {
    NpmConfig { init_author_email: text_setting(c.init_author_email, v), ..c }
}

/// The settings after `init-author-name=v`.
#[verifier::opaque]
pub open spec fn with_init_author_name(c: NpmConfig, v: Option<String>) -> NpmConfig {
    NpmConfig { init_author_name: text_setting(c.init_author_name, v), ..c }
}

/// The settings after `init-author-url=v`.
#[verifier::opaque]
pub open spec fn with_init_author_url(c: NpmConfig, v: Option<String>) -> NpmConfig {
    NpmConfig { init_author_url: text_setting(c.init_author_url, v), ..c }
}

/// The settings after `init-license=v`.
#[verifier::opaque]
pub open spec fn with_init_license(c: NpmConfig, v: Option<String>) -> NpmConfig {
    NpmConfig { init_license: set_text_setting(c.init_license, v), ..c }
}

/// The settings after `init-module=v`.
#[verifier::opaque]
pub open spec fn with_init_module(c: NpmConfig, v: Option<String>) -> NpmConfig {
    NpmConfig { init_module: set_text_setting(c.init_module, v), ..c }
}

/// The settings after `init-version=v`.
#[verifier::opaque]
pub open spec fn with_init_version(c: NpmConfig, v: Option<String>) -> NpmConfig {
    NpmConfig { init_version: set_text_setting(c.init_version, v), ..c }
}

/// The settings after `install-links=v`.
#[verifier::opaque]
pub open spec fn with_install_links(c: NpmConfig, v: Option<String>) -> NpmConfig {
    NpmConfig { install_links: bool_setting(c.install_links, v), ..c }
}

/// The settings after `install-strategy=v`.
#[verifier::opaque]
pub open spec fn with_install_strategy(c: NpmConfig, v: Option<String>) -> NpmConfig {
    NpmConfig { install_strategy: install_strategy_setting(c.install_strategy, v), ..c }
}

/// The settings after `json=v`.
#[verifier::opaque]
pub open spec fn with_json(c: NpmConfig, v: Option<String>) -> NpmConfig {
    NpmConfig { json: bool_setting(c.json, v), ..c }
}

/// The settings after `legacy-peer-deps=v`.
#[verifier::opaque]
pub open spec fn with_legacy_peer_deps(c: NpmConfig, v: Option<String>) -> NpmConfig {
    NpmConfig { legacy_peer_deps: bool_setting(c.legacy_peer_deps, v), ..c }
}

/// The settings after `libc=v`.
#[verifier::opaque]
pub open spec fn with_libc(c: NpmConfig, v: Option<String>) -> NpmConfig {
    NpmConfig { libc: text_setting(c.libc, v), ..c }
}

/// The settings after `link=v`.
#[verifier::opaque]
pub open spec fn with_link(c: NpmConfig, v: Option<String>) -> NpmConfig {
    NpmConfig { link: bool_setting(c.link, v), ..c }
}

/// The settings after `local-address=v`.
#[verifier::opaque]
pub open spec fn with_local_address(c: NpmConfig, v: Option<String>) -> NpmConfig {
    NpmConfig { local_address: text_setting(c.local_address, v), ..c }
}

/// The settings after `location=v`.
#[verifier::opaque]
pub open spec fn with_location(c: NpmConfig, v: Option<String>) -> NpmConfig {
    NpmConfig { _location: location_setting(c._location, v), ..c }
}

/// The settings after `lockfile-version=v`.
#[verifier::opaque]
pub open spec fn with_lockfile_version(c: NpmConfig, v: Option<String>) -> NpmConfig {
    NpmConfig { lockfile_version: int_setting(c.lockfile_version, v), ..c }
}

/// The settings after `loglevel=v`.
#[verifier::opaque]
pub open spec fn with_log_level(c: NpmConfig, v: Option<String>) -> NpmConfig {
    NpmConfig { _log_level: log_level_setting(c._log_level, v), ..c }
}

/// The settings after `logs-dir=v`.
#[verifier::opaque]
pub open spec fn with_logs_dir(c: NpmConfig, v: Option<String>) -> NpmConfig {
    NpmConfig { logs_dir: set_text_setting(c.logs_dir, v), ..c }
}

/// The settings after `logs-max=v`.
#[verifier::opaque]
pub open spec fn with_logs_max(c: NpmConfig, v: Option<String>) -> NpmConfig {
    NpmConfig { logs_max: int_setting(c.logs_max, v), ..c }
}

/// The settings after `long=v`.
#[verifier::opaque]
pub open spec fn with_long(c: NpmConfig, v: Option<String>) -> NpmConfig {
    NpmConfig { long: bool_setting(c.long, v), ..c }
}

/// The settings after `maxsockets=v`.
#[verifier::opaque]
pub open spec fn with_max_sockets(c: NpmConfig, v: Option<String>) -> NpmConfig {
    NpmConfig { max_sockets: int_setting(c.max_sockets, v), ..c }
}

/// The settings after `message=v`.
#[verifier::opaque]
pub open spec fn with_message(c: NpmConfig, v: Option<String>) -> NpmConfig {
    NpmConfig { message: set_text_setting(c.message, v), ..c }
}

/// The settings after `node-options=v`.
#[verifier::opaque]
pub open spec fn with_node_options(c: NpmConfig, v: Option<String>) -> NpmConfig {
    NpmConfig { node_options: text_setting(c.node_options, v), ..c }
}

/// The settings after `noproxy=v`.
#[verifier::opaque]
pub open spec fn with_no_proxy(c: NpmConfig, v: Option<String>) -> NpmConfig {
    NpmConfig { no_proxy: text_setting(c.no_proxy, v), ..c }
}

/// The settings after `offline=v`.
#[verifier::opaque]
pub open spec fn with_offline(c: NpmConfig, v: Option<String>) -> NpmConfig {
    NpmConfig { offline: bool_setting(c.offline, v), ..c }
}

/// The settings after `omit=v`.
#[verifier::opaque]
pub open spec fn with_omit(c: NpmConfig, v: Option<String>) -> NpmConfig {
    NpmConfig { omit: text_setting(c.omit, v), ..c }
}

/// The settings after `omit-lockfile-registry-resolved=v`.
#[verifier::opaque]
pub open spec fn with_omit_lockfile_registry_resolved(c: NpmConfig, v: Option<String>) -> NpmConfig {
    NpmConfig { omit_lockfile_registry_resolved: bool_setting(c.omit_lockfile_registry_resolved, v), ..c }
}

/// The settings after `os=v`.
#[verifier::opaque]
pub open spec fn with_os(c: NpmConfig, v: Option<String>) -> NpmConfig {
    NpmConfig { os: text_setting(c.os, v), ..c }
}

/// The settings after `otp=v`.
#[verifier::opaque]
pub open spec fn with_otp(c: NpmConfig, v: Option<String>) -> NpmConfig {
    NpmConfig { otp: text_setting(c.otp, v), ..c }
}

/// The settings after `pack-destination=v`.
#[verifier::opaque]
pub open spec fn with_pack_destination(c: NpmConfig, v: Option<String>) -> NpmConfig {
    NpmConfig { pack_destination: text_setting(c.pack_destination, v), ..c }
}

/// The settings after `package=v`.
#[verifier::opaque]
pub open spec fn with_package(c: NpmConfig, v: Option<String>) -> NpmConfig {
    NpmConfig { package: set_text_setting(c.package, v), ..c }
}

/// The settings after `package-lock=v`.
#[verifier::opaque]
pub open spec fn with_package_lock(c: NpmConfig, v: Option<String>) -> NpmConfig {
    NpmConfig { package_lock: bool_setting(c.package_lock, v), ..c }
}

/// The settings after `package-lock-only=v`.
#[verifier::opaque]
pub open spec fn with_package_lock_only(c: NpmConfig, v: Option<String>) -> NpmConfig {
    NpmConfig { package_lock_only: bool_setting(c.package_lock_only, v), ..c }
}

/// The settings after `parseable=v`.
#[verifier::opaque]
pub open spec fn with_parseable(c: NpmConfig, v: Option<String>) -> NpmConfig {
    NpmConfig { parseable: bool_setting(c.parseable, v), ..c }
}

/// The settings after `prefer-dedupe=v`.
#[verifier::opaque]
pub open spec fn with_prefer_dedupe(c: NpmConfig, v: Option<String>) -> NpmConfig {
    NpmConfig { prefer_dedupe: bool_setting(c.prefer_dedupe, v), ..c }
}

/// The settings after `prefer-offline=v`.
#[verifier::opaque]
pub open spec fn with_prefer_offline(c: NpmConfig, v: Option<String>) -> NpmConfig {
    NpmConfig { prefer_offline: bool_setting(c.prefer_offline, v), ..c }
}

/// The settings after `prefer-online=v`.
#[verifier::opaque]
pub open spec fn with_prefer_online(c: NpmConfig, v: Option<String>) -> NpmConfig {
    NpmConfig { prefer_online: bool_setting(c.prefer_online, v), ..c }
}

/// The settings after `prefix=v`.
#[verifier::opaque]
pub open spec fn with_prefix(c: NpmConfig, v: Option<String>) -> NpmConfig {
    NpmConfig { prefix: set_text_setting(c.prefix, v), ..c }
}

/// The settings after `preid=v`.
#[verifier::opaque]
pub open spec fn with_preid(c: NpmConfig, v: Option<String>) -> NpmConfig {
    NpmConfig { preid: text_setting(c.preid, v), ..c }
}

/// The settings after `progress=v`.
#[verifier::opaque]
pub open spec fn with_progress(c: NpmConfig, v: Option<String>) -> NpmConfig {
    NpmConfig { progress: bool_setting(c.progress, v), ..c }
}

/// The settings after `provenance=v`.
#[verifier::opaque]
pub open spec fn with_provenance(c: NpmConfig, v: Option<String>) -> NpmConfig {
    NpmConfig { provenance: bool_setting(c.provenance, v), ..c }
}

/// The settings after `provenance-file=v`.
#[verifier::opaque]
pub open spec fn with_provenance_file(c: NpmConfig, v: Option<String>) -> NpmConfig {
    NpmConfig { provenance_file: text_setting(c.provenance_file, v), ..c }
}

/// The settings after `proxy=v`.
#[verifier::opaque]
pub open spec fn with_proxy(c: NpmConfig, v: Option<String>) -> NpmConfig {
    NpmConfig { proxy: text_setting(c.proxy, v), ..c }
}

/// The settings after `read-only=v`.
#[verifier::opaque]
pub open spec fn with_read_only(c: NpmConfig, v: Option<String>) -> NpmConfig {
    NpmConfig { read_only: bool_setting(c.read_only, v), ..c }
}

/// The settings after `rebuild-bundle=v`.
#[verifier::opaque]
pub open spec fn with_rebuild_bundle(c: NpmConfig, v: Option<String>) -> NpmConfig {
    NpmConfig { rebuild_bundle: bool_setting(c.rebuild_bundle, v), ..c }
}

/// The settings after `registry=v`.
#[verifier::opaque]
pub open spec fn with_registry(c: NpmConfig, v: Option<String>) -> NpmConfig {
    NpmConfig { registry: set_text_setting(c.registry, v), ..c }
}

/// The settings after `replace-registry-host=v`.
#[verifier::opaque]
pub open spec fn with_replace_registry_host(c: NpmConfig, v: Option<String>) -> NpmConfig {
    NpmConfig { replace_registry_host: set_text_setting(c.replace_registry_host, v), ..c }
}

/// The settings after `save=v`.
#[verifier::opaque]
pub open spec fn with_save(c: NpmConfig, v: Option<String>) -> NpmConfig {
    NpmConfig { save: bool_setting(c.save, v), ..c }
}

/// The settings after `save-bundle=v`.
#[verifier::opaque]
pub open spec fn with_save_bundle(c: NpmConfig, v: Option<String>) -> NpmConfig {
    NpmConfig { save_bundle: bool_setting(c.save_bundle, v), ..c }
}

/// The settings after `save-dev=v`.
#[verifier::opaque]
pub open spec fn with_save_dev(c: NpmConfig, v: Option<String>) -> NpmConfig {
    NpmConfig { save_dev: bool_setting(c.save_dev, v), ..c }
}

/// The settings after `save-exact=v`.
#[verifier::opaque]
pub open spec fn with_save_exact(c: NpmConfig, v: Option<String>) -> NpmConfig {
    NpmConfig { save_exact: bool_setting(c.save_exact, v), ..c }
}

/// The settings after `save-optional=v`.
#[verifier::opaque]
pub open spec fn with_save_optional(c: NpmConfig, v: Option<String>) -> NpmConfig {
    NpmConfig { save_optional: bool_setting(c.save_optional, v), ..c }
}

/// The settings after `save-peer=v`.
#[verifier::opaque]
pub open spec fn with_save_peer(c: NpmConfig, v: Option<String>) -> NpmConfig {
    NpmConfig { save_peer: bool_setting(c.save_peer, v), ..c }
}

/// The settings after `save-prefix=v`.
#[verifier::opaque]
pub open spec fn with_save_prefix(c: NpmConfig, v: Option<String>) -> NpmConfig {
    NpmConfig { save_prefix: set_text_setting(c.save_prefix, v), ..c }
}

/// The settings after `save-prod=v`.
#[verifier::opaque]
pub open spec fn with_save_prod(c: NpmConfig, v: Option<String>) -> NpmConfig {
    NpmConfig { save_prod: bool_setting(c.save_prod, v), ..c }
}

/// The settings after `sbom-format=v`.
#[verifier::opaque]
pub open spec fn with_sbom_format(c: NpmConfig, v: Option<String>) -> NpmConfig {
    NpmConfig { sbom_format: text_setting(c.sbom_format, v), ..c }
}

/// The settings after `sbom-type=v`.
#[verifier::opaque]
pub open spec fn with_sbom_type(c: NpmConfig, v: Option<String>) -> NpmConfig {
    NpmConfig { sbom_type: set_text_setting(c.sbom_type, v), ..c }
}

/// The settings after `scope=v`.
#[verifier::opaque]
pub open spec fn with_scope(c: NpmConfig, v: Option<String>) -> NpmConfig {
    NpmConfig { scope: text_setting(c.scope, v), ..c }
}

/// The settings after `script-shell=v`.
#[verifier::opaque]
pub open spec fn with_script_shell(c: NpmConfig, v: Option<String>) -> NpmConfig {
    NpmConfig { script_shell: set_text_setting(c.script_shell, v), ..c }
}

/// The settings after `searchexclude=v`.
#[verifier::opaque]
pub open spec fn with_search_exclude(c: NpmConfig, v: Option<String>) -> NpmConfig {
    NpmConfig { search_exclude: text_setting(c.search_exclude, v), ..c }
}

/// The settings after `searchlimit=v`.
#[verifier::opaque]
pub open spec fn with_search_limit(c: NpmConfig, v: Option<String>) -> NpmConfig {
    NpmConfig { search_limit: int_setting(c.search_limit, v), ..c }
}

/// The settings after `searchopts=v`.
#[verifier::opaque]
pub open spec fn with_search_opts(c: NpmConfig, v: Option<String>) -> NpmConfig {
    NpmConfig { search_opts: text_setting(c.search_opts, v), ..c }
}

/// The settings after `searchstaleness=v`.
#[verifier::opaque]
pub open spec fn with_search_staleness(c: NpmConfig, v: Option<String>) -> NpmConfig {
    NpmConfig { search_staleness: int_setting(c.search_staleness, v), ..c }
}

/// The settings after `shell=v`.
#[verifier::opaque]
pub open spec fn with_shell(c: NpmConfig, v: Option<String>) -> NpmConfig {
    NpmConfig { shell: set_text_setting(c.shell, v), ..c }
}

/// The settings after `sign-git-commit=v`.
#[verifier::opaque]
pub open spec fn with_sign_git_commit(c: NpmConfig, v: Option<String>) -> NpmConfig {
    NpmConfig { sign_git_commit: bool_setting(c.sign_git_commit, v), ..c }
}

/// The settings after `sign-git-tag=v`.
#[verifier::opaque]
pub open spec fn with_sign_git_tag(c: NpmConfig, v: Option<String>) -> NpmConfig {
    NpmConfig { sign_git_tag: bool_setting(c.sign_git_tag, v), ..c }
}

/// The settings after `strict-peer-deps=v`.
#[verifier::opaque]
pub open spec fn with_strict_peer_deps(c: NpmConfig, v: Option<String>) -> NpmConfig {
    NpmConfig { strict_peer_deps: bool_setting(c.strict_peer_deps, v), ..c }
}

/// The settings after `strict-ssl=v`.
#[verifier::opaque]
pub open spec fn with_strict_ssl(c: NpmConfig, v: Option<String>) -> NpmConfig {
    NpmConfig { strict_ssl: bool_setting(c.strict_ssl, v), ..c }
}

/// The settings after `tag=v`.
#[verifier::opaque]
pub open spec fn with_tag(c: NpmConfig, v: Option<String>) -> NpmConfig {
    NpmConfig { tag: set_text_setting(c.tag, v), ..c }
}

/// The settings after `tag-version-prefix=v`.
#[verifier::opaque]
pub open spec fn with_tag_version_prefix(c: NpmConfig, v: Option<String>) -> NpmConfig {
    NpmConfig { tag_version_prefix: set_text_setting(c.tag_version_prefix, v), ..c }
}

/// The settings after `timing=v`.
#[verifier::opaque]
pub open spec fn with_timing(c: NpmConfig, v: Option<String>) -> NpmConfig {
    NpmConfig { timing: bool_setting(c.timing, v), ..c }
}

/// The settings after `umask=v`.
#[verifier::opaque]
pub open spec fn with_umask(c: NpmConfig, v: Option<String>) -> NpmConfig {
    NpmConfig { umask: int_setting(c.umask, v), ..c }
}

/// The settings after `unicode=v`.
#[verifier::opaque]
pub open spec fn with_unicode(c: NpmConfig, v: Option<String>) -> NpmConfig {
    NpmConfig { unicode: bool_setting(c.unicode, v), ..c }
}

/// The settings after `update-notifier=v`.
#[verifier::opaque]
pub open spec fn with_update_notifier(c: NpmConfig, v: Option<String>) -> NpmConfig {
    NpmConfig { update_notifier: bool_setting(c.update_notifier, v), ..c }
}

/// The settings after `usage=v`.
#[verifier::opaque]
pub open spec fn with_usage(c: NpmConfig, v: Option<String>) -> NpmConfig {
    NpmConfig { usage: bool_setting(c.usage, v), ..c }
}

/// The settings after `user-agent=v`.
#[verifier::opaque]
pub open spec fn with_user_agent(c: NpmConfig, v: Option<String>) -> NpmConfig {
    NpmConfig { user_agent: set_text_setting(c.user_agent, v), ..c }
}

/// The settings after `userconfig=v`.
#[verifier::opaque]
pub open spec fn with_user_config(c: NpmConfig, v: Option<String>) -> NpmConfig {
    NpmConfig { user_config: set_text_setting(c.user_config, v), ..c }
}

/// The settings after `version=v`.
#[verifier::opaque]
pub open spec fn with_version(c: NpmConfig, v: Option<String>) -> NpmConfig {
    NpmConfig { version: bool_setting(c.version, v), ..c }
}

/// The settings after `versions=v`.
#[verifier::opaque]
pub open spec fn with_versions(c: NpmConfig, v: Option<String>) -> NpmConfig {
    NpmConfig { versions: bool_setting(c.versions, v), ..c }
}

/// The settings after `viewer=v`.
#[verifier::opaque]
pub open spec fn with_viewer(c: NpmConfig, v: Option<String>) -> NpmConfig {
    NpmConfig { viewer: set_text_setting(c.viewer, v), ..c }
}

/// The settings after `which=v`.
#[verifier::opaque]
pub open spec fn with_which(c: NpmConfig, v: Option<String>) -> NpmConfig {
    NpmConfig { which: optional_int_setting(c.which, v), ..c }
}

/// The settings after `workspace=v`.
#[verifier::opaque]
pub open spec fn with_workspace(c: NpmConfig, v: Option<String>) -> NpmConfig {
    NpmConfig { workspace: text_setting(c.workspace, v), ..c }
}

/// The settings after `workspaces=v`.
#[verifier::opaque]
pub open spec fn with_workspaces(c: NpmConfig, v: Option<String>) -> NpmConfig {
    NpmConfig { workspaces: Some(bool_setting(false, v)), ..c }
}

/// The settings after `workspaces-update=v`.
#[verifier::opaque]
pub open spec fn with_workspaces_update(c: NpmConfig, v: Option<String>) -> NpmConfig {
    NpmConfig { workspaces_update: bool_setting(c.workspaces_update, v), ..c }
}

/// The settings after `yes=v`.
#[verifier::opaque]
pub open spec fn with_yes(c: NpmConfig, v: Option<String>) -> NpmConfig {
    NpmConfig { yes: Some(bool_setting(false, v)), ..c }
}

/// The settings after `also=v`.
#[verifier::opaque]
pub open spec fn with_also(c: NpmConfig, v: Option<String>) -> NpmConfig {
    NpmConfig { also: text_setting(c.also, v), ..c }
}

/// The settings after `cache-max=v`.
#[verifier::opaque]
pub open spec fn with_cache_max(c: NpmConfig, v: Option<String>) -> NpmConfig {
    NpmConfig { cache_max: int_setting(c.cache_max, v), ..c }
}

/// The settings after `cache-min=v`.
#[verifier::opaque]
pub open spec fn with_cache_min(c: NpmConfig, v: Option<String>) -> NpmConfig {
    NpmConfig { cache_min: int_setting(c.cache_min, v), ..c }
}

/// The settings after `cert=v`.
#[verifier::opaque]
pub open spec fn with_cert(c: NpmConfig, v: Option<String>) -> NpmConfig {
    NpmConfig { cert: text_setting(c.cert, v), ..c }
}

/// The settings after an entry for `key` with the value `v`.
pub open spec fn key_effect(c: NpmConfig, key: ConfigKey, v: Option<String>) -> NpmConfig {
    match key {
        ConfigKey::Auth => with_auth(c, v),
        ConfigKey::Access => with_access(c, v),
        ConfigKey::All => with_all(c, v),
        ConfigKey::AllowSameVersion => with_allow_same_version(c, v),
        ConfigKey::Audit => with_audit(c, v),
        ConfigKey::AuditLevel => with_audit_level(c, v),
        ConfigKey::AuthType => with_auth_type(c, v),
        ConfigKey::Before => with_before(c, v),
        ConfigKey::BinLinks => with_bin_links(c, v),
        ConfigKey::Browser => with_browser(c, v),
        ConfigKey::Ca => with_ca(c, v),
        ConfigKey::Cache => with_cache(c, v),
        ConfigKey::CaFile => with_ca_file(c, v),
        ConfigKey::Call => with_call(c, v),
        ConfigKey::Cidr => with_cidr(c, v),
        ConfigKey::Color => with_color(c, v),
        ConfigKey::CommitHooks => with_commit_hooks(c, v),
        ConfigKey::Cpu => with_cpu(c, v),
        ConfigKey::Depth => with_depth(c, v),
        ConfigKey::Description => with_description(c, v),
        ConfigKey::Diff => with_diff(c, v),
        ConfigKey::DiffDstPrefix => with_diff_dst_prefix(c, v),
        ConfigKey::DiffIgnoreAllSpace => with_diff_ignore_all_space(c, v),
        ConfigKey::DiffNameOnly => with_diff_name_only(c, v),
        ConfigKey::DiffNoPrefix => with_diff_no_prefix(c, v),
        ConfigKey::DiffSrcPrefix => with_diff_src_prefix(c, v),
        ConfigKey::DiffText => with_diff_text(c, v),
        ConfigKey::DiffUnified => with_diff_unified(c, v),
        ConfigKey::DryRun => with_dry_run(c, v),
        ConfigKey::Editor => with_editor(c, v),
        ConfigKey::EngineStrict => with_engine_strict(c, v),
        ConfigKey::ExpectResultCount => with_expect_result_count(c, v),
        ConfigKey::ExpectResults => with_expect_results(c, v),
        ConfigKey::FetchRetries => with_fetch_retries(c, v),
        ConfigKey::FetchRetryFactor => with_fetch_retry_factor(c, v),
        ConfigKey::FetchRetryMaxtimeout => with_fetch_retry_maxtimeout(c, v),
        ConfigKey::FetchRetryMintimeout => with_fetch_retry_mintimeout(c, v),
        ConfigKey::FetchTimeout => with_fetch_timeout(c, v),
        ConfigKey::Force => with_force(c, v),
        ConfigKey::ForegroundScripts => with_foreground_scripts(c, v),
        ConfigKey::FormatPackageLock => with_format_package_lock(c, v),
        ConfigKey::Fund => with_fund(c, v),
        ConfigKey::Git => with_git(c, v),
        ConfigKey::GitTagVersion => with_git_tag_version(c, v),
        ConfigKey::Global => with_global(c, v),
        ConfigKey::GlobalConfig => with_globalconfig(c, v),
        ConfigKey::Heading => with_heading(c, v),
        ConfigKey::HttpsProxy => with_https_proxy(c, v),
        ConfigKey::IfPresent => with_if_present(c, v),
        ConfigKey::IgnoreScripts => with_ignore_scripts(c, v),
        ConfigKey::Include => with_included(c, v),
        ConfigKey::IncludeStaged => with_include_staged(c, v),
        ConfigKey::IncludeWorkspaceRoot => with_include_workspace_root(c, v),
        ConfigKey::InitAuthorEmail => with_init_author_email(c, v),
        ConfigKey::InitAuthorName => with_init_author_name(c, v),
        ConfigKey::InitAuthorUrl => with_init_author_url(c, v),
        ConfigKey::InitLicense => with_init_license(c, v),
        ConfigKey::InitModule => with_init_module(c, v),
        ConfigKey::InitVersion => with_init_version(c, v),
        ConfigKey::InstallLinks => with_install_links(c, v),
        ConfigKey::InstallStrategy => with_install_strategy(c, v),
        ConfigKey::Json => with_json(c, v),
        ConfigKey::LegacyPeerDeps => with_legacy_peer_deps(c, v),
        ConfigKey::Libc => with_libc(c, v),
        ConfigKey::Link => with_link(c, v),
        ConfigKey::LocalAddress => with_local_address(c, v),
        ConfigKey::Location => with_location(c, v),
        ConfigKey::LockfileVersion => with_lockfile_version(c, v),
        ConfigKey::Loglevel => with_log_level(c, v),
        ConfigKey::LogsDir => with_logs_dir(c, v),
        ConfigKey::LogsMax => with_logs_max(c, v),
        ConfigKey::Long => with_long(c, v),
        ConfigKey::MaxSockets => with_max_sockets(c, v),
        ConfigKey::Message => with_message(c, v),
        ConfigKey::NodeOptions => with_node_options(c, v),
        ConfigKey::NoProxy => with_no_proxy(c, v),
        ConfigKey::Offline => with_offline(c, v),
        ConfigKey::Omit => with_omit(c, v),
        ConfigKey::OmitLockfileRegistryResolved => with_omit_lockfile_registry_resolved(c, v),
        ConfigKey::Os => with_os(c, v),
        ConfigKey::Otp => with_otp(c, v),
        ConfigKey::PackDestination => with_pack_destination(c, v),
        ConfigKey::Package => with_package(c, v),
        ConfigKey::PackageLock => with_package_lock(c, v),
        ConfigKey::PackageLockOnly => with_package_lock_only(c, v),
        ConfigKey::Parseable => with_parseable(c, v),
        ConfigKey::PreferDedupe => with_prefer_dedupe(c, v),
        ConfigKey::PreferOffline => with_prefer_offline(c, v),
        ConfigKey::PreferOnline => with_prefer_online(c, v),
        ConfigKey::Prefix => with_prefix(c, v),
        ConfigKey::Preid => with_preid(c, v),
        ConfigKey::Progress => with_progress(c, v),
        ConfigKey::Provenance => with_provenance(c, v),
        ConfigKey::ProvenanceFile => with_provenance_file(c, v),
        ConfigKey::Proxy => with_proxy(c, v),
        ConfigKey::ReadOnly => with_read_only(c, v),
        ConfigKey::RebuildBundle => with_rebuild_bundle(c, v),
        ConfigKey::Registry => with_registry(c, v),
        ConfigKey::ReplaceRegistryHost => with_replace_registry_host(c, v),
        ConfigKey::Save => with_save(c, v),
        ConfigKey::SaveBundle => with_save_bundle(c, v),
        ConfigKey::SaveDev => with_save_dev(c, v),
        ConfigKey::SaveExact => with_save_exact(c, v),
        ConfigKey::SaveOptional => with_save_optional(c, v),
        ConfigKey::SavePeer => with_save_peer(c, v),
        ConfigKey::SavePrefix => with_save_prefix(c, v),
        ConfigKey::SaveProd => with_save_prod(c, v),
        ConfigKey::SbomFormat => with_sbom_format(c, v),
        ConfigKey::SbomType => with_sbom_type(c, v),
        ConfigKey::Scope => with_scope(c, v),
        ConfigKey::ScriptShell => with_script_shell(c, v),
        ConfigKey::SearchExclude => with_search_exclude(c, v),
        ConfigKey::SearchLimit => with_search_limit(c, v),
        ConfigKey::SearchOpts => with_search_opts(c, v),
        ConfigKey::SearchStaleness => with_search_staleness(c, v),
        ConfigKey::Shell => with_shell(c, v),
        ConfigKey::SignGitCommit => with_sign_git_commit(c, v),
        ConfigKey::SignGitTag => with_sign_git_tag(c, v),
        ConfigKey::StrictPeerDeps => with_strict_peer_deps(c, v),
        ConfigKey::StrictSsl => with_strict_ssl(c, v),
        ConfigKey::Tag => with_tag(c, v),
        ConfigKey::TagVersionPrefix => with_tag_version_prefix(c, v),
        ConfigKey::Timing => with_timing(c, v),
        ConfigKey::Umask => with_umask(c, v),
        ConfigKey::Unicode => with_unicode(c, v),
        ConfigKey::UpdateNotifier => with_update_notifier(c, v),
        ConfigKey::Usage => with_usage(c, v),
        ConfigKey::UserAgent => with_user_agent(c, v),
        ConfigKey::UserConfig => with_user_config(c, v),
        ConfigKey::Version => with_version(c, v),
        ConfigKey::Versions => with_versions(c, v),
        ConfigKey::Viewer => with_viewer(c, v),
        ConfigKey::Which => with_which(c, v),
        ConfigKey::Workspace => with_workspace(c, v),
        ConfigKey::Workspaces => with_workspaces(c, v),
        ConfigKey::WorkspacesUpdate => with_workspaces_update(c, v),
        ConfigKey::Yes => with_yes(c, v),
        ConfigKey::Also => with_also(c, v),
        ConfigKey::CacheMax => with_cache_max(c, v),
        ConfigKey::CacheMin => with_cache_min(c, v),
        ConfigKey::Cert => with_cert(c, v),
    }
}

/// The key that a text names; `None` for keys that npm does not know.
pub fn config_key(k: &str) -> (r: Option<ConfigKey>)
    ensures
        r == config_key_of(k@),
{
    if str_eq(k, "_auth") {
        Some(ConfigKey::Auth)
    } else if str_eq(k, "access") {
        Some(ConfigKey::Access)
    } else if str_eq(k, "all") {
        Some(ConfigKey::All)
    } else if str_eq(k, "allow-same-version") {
        Some(ConfigKey::AllowSameVersion)
    } else if str_eq(k, "audit") {
        Some(ConfigKey::Audit)
    } else if str_eq(k, "audit-level") {
        Some(ConfigKey::AuditLevel)
    } else if str_eq(k, "auth-type") {
        Some(ConfigKey::AuthType)
    } else if str_eq(k, "before") {
        Some(ConfigKey::Before)
    } else if str_eq(k, "bin-links") {
        Some(ConfigKey::BinLinks)
    } else if str_eq(k, "browser") {
        Some(ConfigKey::Browser)
    } else if str_eq(k, "ca") {
        Some(ConfigKey::Ca)
    } else if str_eq(k, "cache") {
        Some(ConfigKey::Cache)
    } else if str_eq(k, "cafile") {
        Some(ConfigKey::CaFile)
    } else if str_eq(k, "call") {
        Some(ConfigKey::Call)
    } else if str_eq(k, "cidr") {
        Some(ConfigKey::Cidr)
    } else if str_eq(k, "color") {
        Some(ConfigKey::Color)
    } else if str_eq(k, "commit-hooks") {
        Some(ConfigKey::CommitHooks)
    } else if str_eq(k, "cpu") {
        Some(ConfigKey::Cpu)
    } else if str_eq(k, "depth") {
        Some(ConfigKey::Depth)
    } else if str_eq(k, "description") {
        Some(ConfigKey::Description)
    } else if str_eq(k, "diff") {
        Some(ConfigKey::Diff)
    } else if str_eq(k, "diff-dst-prefix") {
        Some(ConfigKey::DiffDstPrefix)
    } else if str_eq(k, "diff-ignore-all-space") {
        Some(ConfigKey::DiffIgnoreAllSpace)
    } else if str_eq(k, "diff-name-only") {
        Some(ConfigKey::DiffNameOnly)
    } else if str_eq(k, "diff-no-prefix") {
        Some(ConfigKey::DiffNoPrefix)
    } else if str_eq(k, "diff-src-prefix") {
        Some(ConfigKey::DiffSrcPrefix)
    } else if str_eq(k, "diff-text") {
        Some(ConfigKey::DiffText)
    } else if str_eq(k, "diff-unified") {
        Some(ConfigKey::DiffUnified)
    } else if str_eq(k, "dry-run") {
        Some(ConfigKey::DryRun)
    } else if str_eq(k, "editor") {
        Some(ConfigKey::Editor)
    } else if str_eq(k, "engine-strict") {
        Some(ConfigKey::EngineStrict)
    } else if str_eq(k, "expect-result-count") {
        Some(ConfigKey::ExpectResultCount)
    } else if str_eq(k, "expect-results") {
        Some(ConfigKey::ExpectResults)
    } else if str_eq(k, "fetch-retries") {
        Some(ConfigKey::FetchRetries)
    } else if str_eq(k, "fetch-retry-factor") {
        Some(ConfigKey::FetchRetryFactor)
    } else if str_eq(k, "fetch-retry-maxtimeout") {
        Some(ConfigKey::FetchRetryMaxtimeout)
    } else if str_eq(k, "fetch-retry-mintimeout") {
        Some(ConfigKey::FetchRetryMintimeout)
    } else if str_eq(k, "fetch-timeout") {
        Some(ConfigKey::FetchTimeout)
    } else if str_eq(k, "force") {
        Some(ConfigKey::Force)
    } else if str_eq(k, "foreground-scripts") {
        Some(ConfigKey::ForegroundScripts)
    } else if str_eq(k, "format-package-lock") {
        Some(ConfigKey::FormatPackageLock)
    } else if str_eq(k, "fund") {
        Some(ConfigKey::Fund)
    } else if str_eq(k, "git") {
        Some(ConfigKey::Git)
    } else if str_eq(k, "git-tag-version") {
        Some(ConfigKey::GitTagVersion)
    } else if str_eq(k, "global") {
        Some(ConfigKey::Global)
    } else if str_eq(k, "globalconfig") {
        Some(ConfigKey::GlobalConfig)
    } else if str_eq(k, "heading") {
        Some(ConfigKey::Heading)
    } else if str_eq(k, "https-proxy") {
        Some(ConfigKey::HttpsProxy)
    } else if str_eq(k, "if-present") {
        Some(ConfigKey::IfPresent)
    } else if str_eq(k, "ignore-scripts") {
        Some(ConfigKey::IgnoreScripts)
    } else if str_eq(k, "include") {
        Some(ConfigKey::Include)
    } else if str_eq(k, "include-staged") {
        Some(ConfigKey::IncludeStaged)
    } else if str_eq(k, "include-workspace-root") {
        Some(ConfigKey::IncludeWorkspaceRoot)
    } else if str_eq(k, "init-author-email") {
        Some(ConfigKey::InitAuthorEmail)
    } else if str_eq(k, "init-author-name") {
        Some(ConfigKey::InitAuthorName)
    } else if str_eq(k, "init-author-url") {
        Some(ConfigKey::InitAuthorUrl)
    } else if str_eq(k, "init-license") {
        Some(ConfigKey::InitLicense)
    } else if str_eq(k, "init-module") {
        Some(ConfigKey::InitModule)
    } else if str_eq(k, "init-version") {
        Some(ConfigKey::InitVersion)
    } else if str_eq(k, "install-links") {
        Some(ConfigKey::InstallLinks)
    } else if str_eq(k, "install-strategy") {
        Some(ConfigKey::InstallStrategy)
    } else if str_eq(k, "json") {
        Some(ConfigKey::Json)
    } else if str_eq(k, "legacy-peer-deps") {
        Some(ConfigKey::LegacyPeerDeps)
    } else if str_eq(k, "libc") {
        Some(ConfigKey::Libc)
    } else if str_eq(k, "link") {
        Some(ConfigKey::Link)
    } else if str_eq(k, "local-address") {
        Some(ConfigKey::LocalAddress)
    } else if str_eq(k, "location") {
        Some(ConfigKey::Location)
    } else if str_eq(k, "lockfile-version") {
        Some(ConfigKey::LockfileVersion)
    } else if str_eq(k, "loglevel") {
        Some(ConfigKey::Loglevel)
    } else if str_eq(k, "logs-dir") {
        Some(ConfigKey::LogsDir)
    } else if str_eq(k, "logs-max") {
        Some(ConfigKey::LogsMax)
    } else if str_eq(k, "long") {
        Some(ConfigKey::Long)
    } else if str_eq(k, "maxsockets") {
        Some(ConfigKey::MaxSockets)
    } else if str_eq(k, "message") {
        Some(ConfigKey::Message)
    } else if str_eq(k, "node-options") {
        Some(ConfigKey::NodeOptions)
    } else if str_eq(k, "noproxy") {
        Some(ConfigKey::NoProxy)
    } else if str_eq(k, "offline") {
        Some(ConfigKey::Offline)
    } else if str_eq(k, "omit") {
        Some(ConfigKey::Omit)
    } else if str_eq(k, "omit-lockfile-registry-resolved") {
        Some(ConfigKey::OmitLockfileRegistryResolved)
    } else if str_eq(k, "os") {
        Some(ConfigKey::Os)
    } else if str_eq(k, "otp") {
        Some(ConfigKey::Otp)
    } else if str_eq(k, "pack-destination") {
        Some(ConfigKey::PackDestination)
    } else if str_eq(k, "package") {
        Some(ConfigKey::Package)
    } else if str_eq(k, "package-lock") {
        Some(ConfigKey::PackageLock)
    } else if str_eq(k, "package-lock-only") {
        Some(ConfigKey::PackageLockOnly)
    } else if str_eq(k, "parseable") {
        Some(ConfigKey::Parseable)
    } else if str_eq(k, "prefer-dedupe") {
        Some(ConfigKey::PreferDedupe)
    } else if str_eq(k, "prefer-offline") {
        Some(ConfigKey::PreferOffline)
    } else if str_eq(k, "prefer-online") {
        Some(ConfigKey::PreferOnline)
    } else if str_eq(k, "prefix") {
        Some(ConfigKey::Prefix)
    } else if str_eq(k, "preid") {
        Some(ConfigKey::Preid)
    } else if str_eq(k, "progress") {
        Some(ConfigKey::Progress)
    } else if str_eq(k, "provenance") {
        Some(ConfigKey::Provenance)
    } else if str_eq(k, "provenance-file") {
        Some(ConfigKey::ProvenanceFile)
    } else if str_eq(k, "proxy") {
        Some(ConfigKey::Proxy)
    } else if str_eq(k, "read-only") {
        Some(ConfigKey::ReadOnly)
    } else if str_eq(k, "rebuild-bundle") {
        Some(ConfigKey::RebuildBundle)
    } else if str_eq(k, "registry") {
        Some(ConfigKey::Registry)
    } else if str_eq(k, "replace-registry-host") {
        Some(ConfigKey::ReplaceRegistryHost)
    } else if str_eq(k, "save") {
        Some(ConfigKey::Save)
    } else if str_eq(k, "save-bundle") {
        Some(ConfigKey::SaveBundle)
    } else if str_eq(k, "save-dev") {
        Some(ConfigKey::SaveDev)
    } else if str_eq(k, "save-exact") {
        Some(ConfigKey::SaveExact)
    } else if str_eq(k, "save-optional") {
        Some(ConfigKey::SaveOptional)
    } else if str_eq(k, "save-peer") {
        Some(ConfigKey::SavePeer)
    } else if str_eq(k, "save-prefix") {
        Some(ConfigKey::SavePrefix)
    } else if str_eq(k, "save-prod") {
        Some(ConfigKey::SaveProd)
    } else if str_eq(k, "sbom-format") {
        Some(ConfigKey::SbomFormat)
    } else if str_eq(k, "sbom-type") {
        Some(ConfigKey::SbomType)
    } else if str_eq(k, "scope") {
        Some(ConfigKey::Scope)
    } else if str_eq(k, "script-shell") {
        Some(ConfigKey::ScriptShell)
    } else if str_eq(k, "searchexclude") {
        Some(ConfigKey::SearchExclude)
    } else if str_eq(k, "searchlimit") {
        Some(ConfigKey::SearchLimit)
    } else if str_eq(k, "searchopts") {
        Some(ConfigKey::SearchOpts)
    } else if str_eq(k, "searchstaleness") {
        Some(ConfigKey::SearchStaleness)
    } else if str_eq(k, "shell") {
        Some(ConfigKey::Shell)
    } else if str_eq(k, "sign-git-commit") {
        Some(ConfigKey::SignGitCommit)
    } else if str_eq(k, "sign-git-tag") {
        Some(ConfigKey::SignGitTag)
    } else if str_eq(k, "strict-peer-deps") {
        Some(ConfigKey::StrictPeerDeps)
    } else if str_eq(k, "strict-ssl") {
        Some(ConfigKey::StrictSsl)
    } else if str_eq(k, "tag") {
        Some(ConfigKey::Tag)
    } else if str_eq(k, "tag-version-prefix") {
        Some(ConfigKey::TagVersionPrefix)
    } else if str_eq(k, "timing") {
        Some(ConfigKey::Timing)
    } else if str_eq(k, "umask") {
        Some(ConfigKey::Umask)
    } else if str_eq(k, "unicode") {
        Some(ConfigKey::Unicode)
    } else if str_eq(k, "update-notifier") {
        Some(ConfigKey::UpdateNotifier)
    } else if str_eq(k, "usage") {
        Some(ConfigKey::Usage)
    } else if str_eq(k, "user-agent") {
        Some(ConfigKey::UserAgent)
    } else if str_eq(k, "userconfig") {
        Some(ConfigKey::UserConfig)
    } else if str_eq(k, "version") {
        Some(ConfigKey::Version)
    } else if str_eq(k, "versions") {
        Some(ConfigKey::Versions)
    } else if str_eq(k, "viewer") {
        Some(ConfigKey::Viewer)
    } else if str_eq(k, "which") {
        Some(ConfigKey::Which)
    } else if str_eq(k, "workspace") {
        Some(ConfigKey::Workspace)
    } else if str_eq(k, "workspaces") {
        Some(ConfigKey::Workspaces)
    } else if str_eq(k, "workspaces-update") {
        Some(ConfigKey::WorkspacesUpdate)
    } else if str_eq(k, "yes") {
        Some(ConfigKey::Yes)
    } else if str_eq(k, "also") {
        Some(ConfigKey::Also)
    } else if str_eq(k, "cache-max") {
        Some(ConfigKey::CacheMax)
    } else if str_eq(k, "cache-min") {
        Some(ConfigKey::CacheMin)
    } else if str_eq(k, "cert") {
        Some(ConfigKey::Cert)
    } else {
        None
    }
}

/// The settings after one entry `k=v`; keys that npm does not know leave
/// them as they are.
pub open spec fn key_applied(c: NpmConfig, k: Seq<char>, v: Option<String>) -> NpmConfig {
    match config_key_of(k) {
        Some(key) => key_effect(c, key, v),
        None => c,
    }
}

/// The settings after the entries of a configuration file, in key order;
/// entries without a value are passed over.
pub open spec fn entries_applied(c: NpmConfig, s: Seq<(Seq<char>, Option<String>)>) -> NpmConfig
    decreases s.len(),
{
    if s.len() == 0 {
        c
    } else {
        let prev = entries_applied(c, s.drop_last());
        match s.last().1 {
            Some(val) => key_applied(prev, s.last().0, Some(val)),
            None => prev,
        }
    }
}

// ---------------------------------------------------------------------
// Defaults that depend on the platform and the environment
// ---------------------------------------------------------------------

/// The value of an environment variable, by its characters.
pub open spec fn env_text(env: Seq<(Seq<char>, String)>, name: Seq<char>) -> Option<Seq<char>> {
    match lookup(env, name) {
        Some(s) => Some(s@),
        None => None,
    }
}

pub open spec fn omit_default(env: Seq<(Seq<char>, String)>) -> Option<Seq<char>> {
    if env_text(env, "NODE_ENV"@) == Some("production"@) {
        Some("dev"@)
    } else {
        None
    }
}

pub open spec fn no_proxy_default(env: Seq<(Seq<char>, String)>) -> Option<Seq<char>> {
    if env_text(env, "NO_PROXY"@) is Some {
        env_text(env, "NO_PROXY"@)
    } else {
        env_text(env, "no_proxy"@)
    }
}

pub open spec fn node_options_default(env: Seq<(Seq<char>, String)>) -> Option<Seq<char>> {
    env_text(env, "NODE_OPTIONS"@)
}

pub open spec fn https_proxy_default(env: Seq<(Seq<char>, String)>) -> Option<Seq<char>> {
    if env_text(env, "HTTPS_PROXY"@) is Some {
        env_text(env, "HTTPS_PROXY"@)
    } else if env_text(env, "https_proxy"@) is Some {
        env_text(env, "https_proxy"@)
    } else if env_text(env, "HTTP_PROXY"@) is Some {
        env_text(env, "HTTP_PROXY"@)
    } else {
        env_text(env, "http_proxy"@)
    }
}

pub open spec fn editor_default(platform: Platform, env: Seq<(Seq<char>, String)>) -> Seq<char> {
    if env_text(env, "EDITOR"@) is Some {
        env_text(env, "EDITOR"@)->0
    } else if env_text(env, "VISUAL"@) is Some {
        env_text(env, "VISUAL"@)->0
    } else if platform == Platform::Windows {
        "%SYSTEMROOT%\notepad.exe"@
    } else {
        "vi"@
    }
}

pub open spec fn browser_default(platform: Platform) -> Seq<char> {
    if platform == Platform::Windows {
        "start"@
    } else if platform == Platform::MacOs {
        "open"@
    } else {
        "xdg-open"@
    }
}

pub open spec fn cache_dir_default(platform: Platform) -> Seq<char> {
    if platform == Platform::Windows {
        "%LocalAppData%\\npm-cache"@
    } else {
        "~/.npm"@
    }
}

pub open spec fn script_shell_default(platform: Platform) -> Seq<char> {
    if platform == Platform::Windows {
        "cmd.exe"@
    } else {
        "/bin/sh"@
    }
}

pub open spec fn shell_default(platform: Platform, env: Seq<(Seq<char>, String)>) -> Seq<char> {
    if env_text(env, "SHELL"@) is Some {
        env_text(env, "SHELL"@)->0
    } else if platform == Platform::Windows {
        "cmd.exe"@
    } else {
        "bash"@
    }
}

pub open spec fn unicode_default(platform: Platform) -> bool {
    platform != Platform::Windows
}

pub open spec fn viewer_default(platform: Platform) -> Seq<char> {
    if platform == Platform::Windows {
        "browser"@
    } else {
        "man"@
    }
}

fn env_var(env: &StrMap<String>, name: &str) -> (r: Option<String>)
    ensures
        opt_text(r) == env_text(env@, name@),
{
    match env.get(name) {
        Some(v) => Some(v.clone()),
        None => None,
    }
}

/// `omit` defaults to `dev` in production (`NODE_ENV=production`).
pub fn create_omit(env: &StrMap<String>) -> (r: Option<String>)
    ensures
        opt_text(r) == omit_default(env@),
{
    if let Some(e) = env_var(env, "NODE_ENV") {
        if str_eq(e.as_str(), "production") {
            return Some(owned("dev"));
        }
    }
    None
}

pub fn create_no_proxy(env: &StrMap<String>) -> (r: Option<String>)
    ensures
        opt_text(r) == no_proxy_default(env@),
{
    if let Some(e) = env_var(env, "NO_PROXY") {
        return Some(e);
    }
    if let Some(e) = env_var(env, "no_proxy") {
        return Some(e);
    }
    None
}

pub fn create_node_options(env: &StrMap<String>) -> (r: Option<String>)
    ensures
        opt_text(r) == node_options_default(env@),
{
    if let Some(e) = env_var(env, "NODE_OPTIONS") {
        return Some(e);
    }
    None
}

pub fn create_https_proxy_conf(env: &StrMap<String>) -> (r: Option<String>)
    ensures
        opt_text(r) == https_proxy_default(env@),
{
    if let Some(e) = env_var(env, "HTTPS_PROXY") {
        return Some(e);
    }
    if let Some(e) = env_var(env, "https_proxy") {
        return Some(e);
    }
    if let Some(e) = env_var(env, "HTTP_PROXY") {
        return Some(e);
    }
    if let Some(e) = env_var(env, "http_proxy") {
        return Some(e);
    }
    None
}

pub fn create_editor(platform: Platform, env: &StrMap<String>) -> (r: String)
    ensures
        r@ == editor_default(platform, env@),
{
    if let Some(e) = env_var(env, "EDITOR") {
        return e;
    }
    if let Some(e) = env_var(env, "VISUAL") {
        return e;
    }
    if platform == Platform::Windows {
        owned("%SYSTEMROOT%\notepad.exe")
    } else {
        owned("vi")
    }
}

pub fn create_browser_env(platform: Platform) -> (r: String)
    ensures
        r@ == browser_default(platform),
{
    if platform == Platform::Windows {
        owned("start")
    } else if platform == Platform::MacOs {
        owned("open")
    } else {
        owned("xdg-open")
    }
}

pub fn create_cache_dir(platform: Platform) -> (r: String)
    ensures
        r@ == cache_dir_default(platform),
{
    if platform == Platform::Windows {
        owned("%LocalAppData%\\npm-cache")
    } else {
        owned("~/.npm")
    }
}

pub fn create_script_shell(platform: Platform) -> (r: String)
    ensures
        r@ == script_shell_default(platform),
{
    if platform == Platform::Windows {
        owned("cmd.exe")
    } else {
        owned("/bin/sh")
    }
}

pub fn create_shell(platform: Platform, env: &StrMap<String>) -> (r: String)
    ensures
        r@ == shell_default(platform, env@),
{
    if let Some(e) = env_var(env, "SHELL") {
        return e;
    }
    if platform == Platform::Windows {
        owned("cmd.exe")
    } else {
        owned("bash")
    }
}

pub fn create_unicode(platform: Platform) -> (r: bool)
    ensures
        r == unicode_default(platform),
{
    platform != Platform::Windows
}

pub fn create_viewer(platform: Platform) -> (r: String)
    ensures
        r@ == viewer_default(platform),
{
    if platform == Platform::Windows {
        owned("browser")
    } else {
        owned("man")
    }
}

/// `chrono::NaiveDate::parse_from_str`: the date that `text` denotes under
/// the `strftime`-style `format`, as year, month and day, or `None` where
/// chrono reports an error. Which texts chrono accepts is not written out:
/// the result is named `date_from_format`.
#[verifier::external_body]
fn parse_date_text(text: &str, format: &str) -> (r: Option<(i32, u32, u32)>)
    ensures
        r == date_from_format(text@, format@),
{
    match chrono::NaiveDate::parse_from_str(text, format) {
        Ok(d) => Some((
            chrono::Datelike::year(&d),
            chrono::Datelike::month(&d),
            chrono::Datelike::day(&d),
        )),
        Err(_) => None,
    }
}

/// The `before` setting given what chrono made of its text: the parsed
/// date, or the setting as it was when chrono reported an error.
pub fn date_or_default(
    default_value: Option<CalendarDate>,
    parsed: Option<(i32, u32, u32)>,
) -> (r: Option<CalendarDate>)
    ensures
        r == date_or_default_spec(default_value, parsed),
{
    match parsed {
        Some(p) => Some(CalendarDate { year: p.0, month: p.1, day: p.2 }),
        None => default_value,
    }
}

fn clone_opt_string(o: &Option<String>) -> (r: Option<String>)
    ensures
        r == *o,
{
    match o {
        Some(s) => Some(s.clone()),
        None => None,
    }
}

impl NpmConfig {
    /// The configuration: npm's defaults for `platform` and the environment
    /// variables `env`, then the entries of `conf` in key order.
    pub fn new(conf: StrMap<Option<String>>, platform: Platform, env: &StrMap<String>) -> (c: NpmConfig)
        ensures
            exists|d: NpmConfig| has_defaults(d, platform, env@) && c == entries_applied(d, conf@),
    {
        let npm_config_defaults = Self::defaults(platform, env);
        let ghost d = npm_config_defaults;
        Self::determine_config(npm_config_defaults, conf)
    }

    /// npm's defaults.
    fn defaults(platform: Platform, env: &StrMap<String>) -> (d: NpmConfig)
        ensures
            has_defaults(d, platform, env@),
    {
        NpmConfig {
            _auth: None,
            access: Access::Public,
            all: false,
            allow_same_version: false,
            audit: true,
            audit_level: None,
            auth_type: AuthType::Web,
            before: None,
            bin_links: true,
            browser: create_browser_env(platform),
            ca: None,
            cache: create_cache_dir(platform),
            ca_file: None,
            call: None,
            cidr: None,
            color: true,
            commit_hooks: true,
            cpu: None,
            depth: Depth::IntVal(1),
            description: true,
            diff: owned(""),
            diff_dst_prefix: owned("b/"),
            diff_ignore_all_space: false,
            diff_name_only: false,
            diff_no_prefix: false,
            diff_src_prefix: owned("a/"),
            diff_text: false,
            diff_unified: 3,
            dry_run: false,
            editor: create_editor(platform, env),
            engine_strict: false,
            expect_result_count: None,
            expect_results: None,
            fetch_retries: 2,
            fetch_retry_factor: 10,
            fetch_retry_maxtimeout: 60000,
            fetch_retry_mintimeout: 10000,
            fetch_timeout: 300000,
            force: false,
            foreground_scripts: false,
            format_package_lock: true,
            fund: true,
            git: owned("git"),
            git_tag_version: true,
            global: false,
            globalconfig: None,
            heading: owned("npm"),
            https_proxy: create_https_proxy_conf(env),
            if_present: false,
            ignore_scripts: false,
            included: None,
            include_staged: false,
            include_workspace_root: false,
            init_author_email: None,
            init_author_name: None,
            init_author_url: None,
            init_license: owned("ISC"),
            init_module: owned("~/.npm-init.js"),
            init_version: owned("1.0.0"),
            install_links: false,
            install_strategy: InstallStrategy::Hoisted,
            json: false,
            legacy_peer_deps: false,
            libc: None,
            link: false,
            local_address: None,
            _location: Location::User,
            lockfile_version: 9,
            _log_level: LogLevel::Notice,
            logs_dir: owned("_logs"),
            logs_max: 10,
            long: false,
            max_sockets: 15,
            message: owned("%s"),
            node_options: create_node_options(env),
            no_proxy: create_no_proxy(env),
            offline: false,
            omit: create_omit(env),
            omit_lockfile_registry_resolved: false,
            os: None,
            otp: None,
            pack_destination: Some(owned(".")),
            package: owned(""),
            package_lock: true,
            package_lock_only: false,
            parseable: false,
            prefer_dedupe: false,
            prefer_offline: false,
            prefer_online: false,
            prefix: owned(""),
            preid: None,
            progress: true,
            provenance: false,
            provenance_file: None,
            proxy: None,
            read_only: false,
            rebuild_bundle: true,
            registry: owned("https://registry.npmjs.org/"),
            replace_registry_host: owned("npmjs"),
            save: true,
            save_bundle: false,
            save_dev: false,
            save_exact: false,
            save_optional: false,
            save_peer: false,
            save_prefix: owned("^"),
            save_prod: false,
            sbom_format: None,
            sbom_type: owned("library"),
            scope: None,
            script_shell: create_script_shell(platform),
            search_exclude: None,
            search_limit: 20,
            search_opts: None,
            search_staleness: 900,
            shell: create_shell(platform, env),
            sign_git_commit: false,
            sign_git_tag: false,
            strict_peer_deps: false,
            strict_ssl: true,
            tag: owned("latest"),
            tag_version_prefix: owned("v"),
            timing: false,
            umask: 0,
            unicode: create_unicode(platform),
            update_notifier: true,
            usage: false,
            user_agent: owned("npm/{npm-version} node/{node-version} {platform} {arch} workspaces/{workspaces} {ci}"),
            user_config: owned("~/.npmrc"),
            version: false,
            versions: false,
            viewer: create_viewer(platform),
            which: None,
            workspace: None,
            workspaces: None,
            workspaces_update: true,
            yes: None,
            also: None,
            cache_max: 20000000,
            cache_min: 0,
            cert: None,
            _key: None,
        }
    }

    /// Puts `new` in place of the settings.
    fn replace_with(&mut self, new: NpmConfig)
        ensures
            *final(self) == new,
    {
        *self = new;
    }

    /// Takes the settings out, leaving npm's defaults on a platform without
    /// environment variables in their place.
    fn take(&mut self) -> (r: NpmConfig)
        ensures
            r == *old(self),
    {
        let mut r = Self::defaults(Platform::Other, &StrMap::new());
        std::mem::swap(self, &mut r);
        r
    }

    fn parse_bool(default_value: bool, value: &Option<String>) -> (r: bool)
        ensures
            r == bool_setting(default_value, *value),
    {
        match value {
            None => default_value,
            Some(v) => if str_eq(v.as_str(), "true") {
                true
            } else if str_eq(v.as_str(), "false") {
                false
            } else {
                default_value
            },
        }
    }

    fn parse_string(default_value: &Option<String>, value: &Option<String>) -> (r: Option<String>)
        ensures
            r == text_setting(*default_value, *value),
    {
        if value.is_none() {
            return clone_opt_string(default_value);
        }
        clone_opt_string(value)
    }

    fn parse_date(default_value: Option<CalendarDate>, value: &Option<String>) -> (r: Option<CalendarDate>)
        ensures
            r == date_setting(default_value, *value),
    {
        match value {
            None => default_value,
            Some(v) => date_or_default(default_value, parse_date_text(v.as_str(), "%Y-%m-%d")),
        }
    }

    fn parse_int(default_value: i32, value: &Option<String>) -> (r: i32)
        ensures
            r == int_setting(default_value, *value),
    {
        if let Some(val) = value {
            if let Some(n) = parse_i32(val.as_str()) {
                return n;
            }
        }
        default_value
    }

    fn parse_optional_int(default_value: Option<i32>, value: &Option<String>) -> (r: Option<i32>)
        ensures
            r == optional_int_setting(default_value, *value),
    {
        if let Some(val) = value {
            if let Some(n) = parse_i32(val.as_str()) {
                return Some(n);
            }
        }
        default_value
    }

    fn access_of(v: &str) -> (r: Access)
        ensures
            r == access_of_text(v@),
    {
        if str_eq(v, "public") {
            Access::Public
        } else if str_eq(v, "restricted") {
            Access::Restricted
        } else {
            Access::Null
        }
    }

    fn auth_type_of(v: &str) -> (r: AuthType)
        ensures
            r == auth_type_of_text(v@),
    {
        if str_eq(v, "web") {
            AuthType::Web
        } else if str_eq(v, "legacy") {
            AuthType::Legacy
        } else {
            AuthType::Web
        }
    }

    fn include_of(v: &str) -> (r: Option<Include>)
        ensures
            r == include_of_text(v@),
    {
        if str_eq(v, "dev") {
            Some(Include::Dev)
        } else if str_eq(v, "optional") {
            Some(Include::Optional)
        } else if str_eq(v, "prod") {
            Some(Include::Prod)
        } else if str_eq(v, "peer") {
            Some(Include::Peer)
        } else {
            None
        }
    }

    fn install_strategy_of(v: &str) -> (r: InstallStrategy)
        ensures
            r == install_strategy_of_text(v@),
    {
        if str_eq(v, "hoisted") {
            InstallStrategy::Hoisted
        } else if str_eq(v, "nested") {
            InstallStrategy::Nested
        } else if str_eq(v, "shallow") {
            InstallStrategy::Shallow
        } else if str_eq(v, "linked") {
            InstallStrategy::Linked
        } else {
            InstallStrategy::Hoisted
        }
    }

    fn location_of(v: &str) -> (r: Location)
        ensures
            r == location_of_text(v@),
    {
        if str_eq(v, "user") {
            Location::User
        } else if str_eq(v, "global") {
            Location::Global
        } else if str_eq(v, "project") {
            Location::Project
        } else {
            Location::User
        }
    }

    fn log_level_of(v: &str) -> (r: LogLevel)
        ensures
            r == log_level_of_text(v@),
    {
        if str_eq(v, "silent") {
            LogLevel::Silent
        } else if str_eq(v, "error") {
            LogLevel::Error
        } else if str_eq(v, "warn") {
            LogLevel::Warn
        } else if str_eq(v, "notice") {
            LogLevel::Notice
        } else if str_eq(v, "verbose") {
            LogLevel::Verbose
        } else if str_eq(v, "http") {
            LogLevel::Http
        } else if str_eq(v, "timing") {
            LogLevel::Timing
        } else if str_eq(v, "info") {
            LogLevel::Info
        } else if str_eq(v, "https") {
            LogLevel::Https
        } else if str_eq(v, "silly") {
            LogLevel::Silly
        } else if str_eq(v, "none") {
            LogLevel::Off
        } else {
            LogLevel::Notice
        }
    }

    /// The settings after the entries of `conf` that have a value, in key order.
    #[verifier::spinoff_prover]
    #[verifier::rlimit(60)]
    fn determine_config(conf_struct: NpmConfig, conf: StrMap<Option<String>>) -> (r: NpmConfig)
        ensures
            r == entries_applied(conf_struct, conf@),
    {
        let ghost start = conf_struct;
        let mut c = conf_struct;
        let mut i: usize = 0;
        assert(conf@.take(0) =~= Seq::<(Seq<char>, Option<String>)>::empty());
        while i < conf.len()
            invariant
                i <= conf@.len(),
                c == entries_applied(start, conf@.take(i as int)),
            decreases conf@.len() - i,
        {
            let value = conf.value_at(i);
            assert(conf@.take(i + 1).drop_last() =~= conf@.take(i as int));
            assert(conf@.take(i + 1).last() == conf@[i as int]);
            if value.is_some() {
                let key = conf.key_at(i).clone();
                c = Self::handle_key_processing(c, key, value);
            }
            i = i + 1;
        }
        assert(conf@.take(conf@.len() as int) =~= conf@);
        c
    }

    /// The settings after one entry `key=value`.
    fn handle_key_processing(conf_struct: NpmConfig, key: String, value: &Option<String>) -> (r: NpmConfig)
        requires
            value is None ==> key@ != "auth-type"@ && key@ != "diff-unified"@,
        ensures
            r == key_applied(conf_struct, key@, *value),
    {
        match config_key(key.as_str()) {
            Some(k) => Self::apply_key(conf_struct, k, value),
            None => conf_struct,
        }
    }

    fn apply_auth(conf: NpmConfig, value: &Option<String>) -> (r: NpmConfig)
        ensures
            r == with_auth(conf, *value),
    {
        reveal(with_auth);
        let x = Self::parse_string(&conf._auth, value);
        NpmConfig { _auth: x, ..conf }
    }

    fn apply_access(conf: NpmConfig, value: &Option<String>) -> (r: NpmConfig)
        ensures
            r == with_access(conf, *value),
    {
        reveal(with_access);
        match value {
            Some(v) => {
                let x = Self::access_of(v.as_str());
                NpmConfig { access: x, ..conf }
            },
            None => conf,
        }
    }

    fn apply_all(conf: NpmConfig, value: &Option<String>) -> (r: NpmConfig)
        ensures
            r == with_all(conf, *value),
    {
        reveal(with_all);
        let x = Self::parse_bool(conf.all, value);
        NpmConfig { all: x, ..conf }
    }

    fn apply_allow_same_version(conf: NpmConfig, value: &Option<String>) -> (r: NpmConfig)
        ensures
            r == with_allow_same_version(conf, *value),
    {
        reveal(with_allow_same_version);
        let x = Self::parse_bool(conf.allow_same_version, value);
        NpmConfig { allow_same_version: x, ..conf }
    }

    fn apply_audit(conf: NpmConfig, value: &Option<String>) -> (r: NpmConfig)
        ensures
            r == with_audit(conf, *value),
    {
        reveal(with_audit);
        let x = Self::parse_bool(conf.audit, value);
        NpmConfig { audit: x, ..conf }
    }

    fn apply_audit_level(conf: NpmConfig, value: &Option<String>) -> (r: NpmConfig)
        ensures
            r == with_audit_level(conf, *value),
    {
        reveal(with_audit_level);
        let x = Self::parse_string(&conf.audit_level, value);
        NpmConfig { audit_level: x, ..conf }
    }

    fn apply_auth_type(conf: NpmConfig, value: &Option<String>) -> (r: NpmConfig)
        requires
            value is Some,
        ensures
            r == with_auth_type(conf, *value),
    {
        reveal(with_auth_type);
        match value {
            Some(v) => {
                let x = Self::auth_type_of(v.as_str());
                NpmConfig { auth_type: x, ..conf }
            },
            None => conf,
        }
    }

    fn apply_before(conf: NpmConfig, value: &Option<String>) -> (r: NpmConfig)
        ensures
            r == with_before(conf, *value),
    {
        reveal(with_before);
        let x = Self::parse_date(conf.before, value);
        NpmConfig { before: x, ..conf }
    }

    fn apply_bin_links(conf: NpmConfig, value: &Option<String>) -> (r: NpmConfig)
        ensures
            r == with_bin_links(conf, *value),
    {
        reveal(with_bin_links);
        let x = Self::parse_bool(conf.bin_links, value);
        NpmConfig { bin_links: x, ..conf }
    }

    fn apply_browser(conf: NpmConfig, value: &Option<String>) -> (r: NpmConfig)
        ensures
            r == with_browser(conf, *value),
    {
        reveal(with_browser);
        match value {
            Some(v) => {
                let x = v.clone();
                NpmConfig { browser: x, ..conf }
            },
            None => conf,
        }
    }

    fn apply_ca(conf: NpmConfig, value: &Option<String>) -> (r: NpmConfig)
        ensures
            r == with_ca(conf, *value),
    {
        reveal(with_ca);
        let x = Self::parse_string(&conf.ca, value);
        NpmConfig { ca: x, ..conf }
    }

    fn apply_cache(conf: NpmConfig, value: &Option<String>) -> (r: NpmConfig)
        ensures
            r == with_cache(conf, *value),
    {
        reveal(with_cache);
        match value {
            Some(v) => {
                let x = v.clone();
                NpmConfig { cache: x, ..conf }
            },
            None => conf,
        }
    }

    fn apply_ca_file(conf: NpmConfig, value: &Option<String>) -> (r: NpmConfig)
        ensures
            r == with_ca_file(conf, *value),
    {
        reveal(with_ca_file);
        let x = Self::parse_string(&conf.ca_file, value);
        NpmConfig { ca_file: x, ..conf }
    }

    fn apply_call(conf: NpmConfig, value: &Option<String>) -> (r: NpmConfig)
        ensures
            r == with_call(conf, *value),
    {
        reveal(with_call);
        let x = Self::parse_string(&conf.call, value);
        NpmConfig { call: x, ..conf }
    }

    fn apply_cidr(conf: NpmConfig, value: &Option<String>) -> (r: NpmConfig)
        ensures
            r == with_cidr(conf, *value),
    {
        reveal(with_cidr);
        let x = Self::parse_string(&conf.cidr, value);
        NpmConfig { cidr: x, ..conf }
    }

    fn apply_color(conf: NpmConfig, value: &Option<String>) -> (r: NpmConfig)
        ensures
            r == with_color(conf, *value),
    {
        reveal(with_color);
        let x = Self::parse_bool(conf.color, value);
        NpmConfig { color: x, ..conf }
    }

    fn apply_commit_hooks(conf: NpmConfig, value: &Option<String>) -> (r: NpmConfig)
        ensures
            r == with_commit_hooks(conf, *value),
    {
        reveal(with_commit_hooks);
        let x = Self::parse_bool(conf.commit_hooks, value);
        NpmConfig { commit_hooks: x, ..conf }
    }

    fn apply_cpu(conf: NpmConfig, value: &Option<String>) -> (r: NpmConfig)
        ensures
            r == with_cpu(conf, *value),
    {
        reveal(with_cpu);
        let x = Self::parse_string(&conf.cpu, value);
        NpmConfig { cpu: x, ..conf }
    }

    fn apply_depth(conf: NpmConfig, value: &Option<String>) -> (r: NpmConfig)
        ensures
            r == with_depth(conf, *value),
    {
        reveal(with_depth);
        match value {
            Some(val) => {
                let x = match parse_i32(val.as_str()) {
                    Some(n) => Depth::IntVal(n),
                    None => Depth::StringVal(val.clone()),
                };
                NpmConfig { depth: x, ..conf }
            },
            None => conf,
        }
    }

    fn apply_description(conf: NpmConfig, value: &Option<String>) -> (r: NpmConfig)
        ensures
            r == with_description(conf, *value),
    {
        reveal(with_description);
        let x = Self::parse_bool(conf.description, value);
        NpmConfig { description: x, ..conf }
    }

    fn apply_diff(conf: NpmConfig, value: &Option<String>) -> (r: NpmConfig)
        ensures
            r == with_diff(conf, *value),
    {
        reveal(with_diff);
        match value {
            Some(v) => {
                let x = v.clone();
                NpmConfig { diff: x, ..conf }
            },
            None => conf,
        }
    }

    fn apply_diff_dst_prefix(conf: NpmConfig, value: &Option<String>) -> (r: NpmConfig)
        ensures
            r == with_diff_dst_prefix(conf, *value),
    {
        reveal(with_diff_dst_prefix);
        match value {
            Some(v) => {
                let x = v.clone();
                NpmConfig { diff_dst_prefix: x, ..conf }
            },
            None => conf,
        }
    }

    fn apply_diff_ignore_all_space(conf: NpmConfig, value: &Option<String>) -> (r: NpmConfig)
        ensures
            r == with_diff_ignore_all_space(conf, *value),
    {
        reveal(with_diff_ignore_all_space);
        let x = Self::parse_bool(conf.diff_ignore_all_space, value);
        NpmConfig { diff_ignore_all_space: x, ..conf }
    }

    fn apply_diff_name_only(conf: NpmConfig, value: &Option<String>) -> (r: NpmConfig)
        ensures
            r == with_diff_name_only(conf, *value),
    {
        reveal(with_diff_name_only);
        let x = Self::parse_bool(conf.diff_name_only, value);
        NpmConfig { diff_name_only: x, ..conf }
    }

    fn apply_diff_no_prefix(conf: NpmConfig, value: &Option<String>) -> (r: NpmConfig)
        ensures
            r == with_diff_no_prefix(conf, *value),
    {
        reveal(with_diff_no_prefix);
        let x = Self::parse_bool(conf.diff_no_prefix, value);
        NpmConfig { diff_no_prefix: x, ..conf }
    }

    fn apply_diff_src_prefix(conf: NpmConfig, value: &Option<String>) -> (r: NpmConfig)
        ensures
            r == with_diff_src_prefix(conf, *value),
    {
        reveal(with_diff_src_prefix);
        match value {
            Some(v) => {
                let x = v.clone();
                NpmConfig { diff_src_prefix: x, ..conf }
            },
            None => conf,
        }
    }

    fn apply_diff_text(conf: NpmConfig, value: &Option<String>) -> (r: NpmConfig)
        ensures
            r == with_diff_text(conf, *value),
    {
        reveal(with_diff_text);
        let x = Self::parse_bool(conf.diff_text, value);
        NpmConfig { diff_text: x, ..conf }
    }

    fn apply_diff_unified(conf: NpmConfig, value: &Option<String>) -> (r: NpmConfig)
        requires
            value is Some,
        ensures
            r == with_diff_unified(conf, *value),
    {
        reveal(with_diff_unified);
        let x = Self::parse_int(conf.diff_unified, value);
        NpmConfig { diff_unified: x, ..conf }
    }

    fn apply_dry_run(conf: NpmConfig, value: &Option<String>) -> (r: NpmConfig)
        ensures
            r == with_dry_run(conf, *value),
    {
        reveal(with_dry_run);
        let x = Self::parse_bool(conf.dry_run, value);
        NpmConfig { dry_run: x, ..conf }
    }

    fn apply_editor(conf: NpmConfig, value: &Option<String>) -> (r: NpmConfig)
        ensures
            r == with_editor(conf, *value),
    {
        reveal(with_editor);
        match value {
            Some(v) => {
                let x = v.clone();
                NpmConfig { editor: x, ..conf }
            },
            None => conf,
        }
    }

    fn apply_engine_strict(conf: NpmConfig, value: &Option<String>) -> (r: NpmConfig)
        ensures
            r == with_engine_strict(conf, *value),
    {
        reveal(with_engine_strict);
        let x = Self::parse_bool(conf.engine_strict, value);
        NpmConfig { engine_strict: x, ..conf }
    }

    fn apply_expect_result_count(conf: NpmConfig, value: &Option<String>) -> (r: NpmConfig)
        ensures
            r == with_expect_result_count(conf, *value),
    {
        reveal(with_expect_result_count);
        let x = Self::parse_optional_int(conf.expect_result_count, value);
        NpmConfig { expect_result_count: x, ..conf }
    }

    fn apply_expect_results(conf: NpmConfig, value: &Option<String>) -> (r: NpmConfig)
        ensures
            r == with_expect_results(conf, *value),
    {
        reveal(with_expect_results);
        let x = Some(Self::parse_bool(false, value));
        NpmConfig { expect_results: x, ..conf }
    }

    fn apply_fetch_retries(conf: NpmConfig, value: &Option<String>) -> (r: NpmConfig)
        ensures
            r == with_fetch_retries(conf, *value),
    {
        reveal(with_fetch_retries);
        let x = Self::parse_int(conf.fetch_retries, value);
        NpmConfig { fetch_retries: x, ..conf }
    }

    fn apply_fetch_retry_factor(conf: NpmConfig, value: &Option<String>) -> (r: NpmConfig)
        ensures
            r == with_fetch_retry_factor(conf, *value),
    {
        reveal(with_fetch_retry_factor);
        let x = Self::parse_int(conf.fetch_retry_factor, value);
        NpmConfig { fetch_retry_factor: x, ..conf }
    }

    fn apply_fetch_retry_maxtimeout(conf: NpmConfig, value: &Option<String>) -> (r: NpmConfig)
        ensures
            r == with_fetch_retry_maxtimeout(conf, *value),
    {
        reveal(with_fetch_retry_maxtimeout);
        let x = Self::parse_int(conf.fetch_retry_maxtimeout, value);
        NpmConfig { fetch_retry_maxtimeout: x, ..conf }
    }

    fn apply_fetch_retry_mintimeout(conf: NpmConfig, value: &Option<String>) -> (r: NpmConfig)
        ensures
            r == with_fetch_retry_mintimeout(conf, *value),
    {
        reveal(with_fetch_retry_mintimeout);
        let x = Self::parse_int(conf.fetch_retry_mintimeout, value);
        NpmConfig { fetch_retry_mintimeout: x, ..conf }
    }

    fn apply_fetch_timeout(conf: NpmConfig, value: &Option<String>) -> (r: NpmConfig)
        ensures
            r == with_fetch_timeout(conf, *value),
    {
        reveal(with_fetch_timeout);
        let x = Self::parse_int(conf.fetch_timeout, value);
        NpmConfig { fetch_timeout: x, ..conf }
    }

    fn apply_force(conf: NpmConfig, value: &Option<String>) -> (r: NpmConfig)
        ensures
            r == with_force(conf, *value),
    {
        reveal(with_force);
        let x = Self::parse_bool(conf.force, value);
        NpmConfig { force: x, ..conf }
    }

    fn apply_foreground_scripts(conf: NpmConfig, value: &Option<String>) -> (r: NpmConfig)
        ensures
            r == with_foreground_scripts(conf, *value),
    {
        reveal(with_foreground_scripts);
        let x = Self::parse_bool(conf.foreground_scripts, value);
        NpmConfig { foreground_scripts: x, ..conf }
    }

    fn apply_format_package_lock(conf: NpmConfig, value: &Option<String>) -> (r: NpmConfig)
        ensures
            r == with_format_package_lock(conf, *value),
    {
        reveal(with_format_package_lock);
        let x = Self::parse_bool(conf.format_package_lock, value);
        NpmConfig { format_package_lock: x, ..conf }
    }

    fn apply_fund(conf: NpmConfig, value: &Option<String>) -> (r: NpmConfig)
        ensures
            r == with_fund(conf, *value),
    {
        reveal(with_fund);
        let x = Self::parse_bool(conf.fund, value);
        NpmConfig { fund: x, ..conf }
    }

    fn apply_git(conf: NpmConfig, value: &Option<String>) -> (r: NpmConfig)
        ensures
            r == with_git(conf, *value),
    {
        reveal(with_git);
        match value {
            Some(v) => {
                let x = v.clone();
                NpmConfig { git: x, ..conf }
            },
            None => conf,
        }
    }

    fn apply_git_tag_version(conf: NpmConfig, value: &Option<String>) -> (r: NpmConfig)
        ensures
            r == with_git_tag_version(conf, *value),
    {
        reveal(with_git_tag_version);
        let x = Self::parse_bool(conf.git_tag_version, value);
        NpmConfig { git_tag_version: x, ..conf }
    }

    fn apply_global(conf: NpmConfig, value: &Option<String>) -> (r: NpmConfig)
        ensures
            r == with_global(conf, *value),
    {
        reveal(with_global);
        let x = Self::parse_bool(conf.global, value);
        NpmConfig { global: x, ..conf }
    }

    fn apply_globalconfig(conf: NpmConfig, value: &Option<String>) -> (r: NpmConfig)
        ensures
            r == with_globalconfig(conf, *value),
    {
        reveal(with_globalconfig);
        let x = Self::parse_string(&conf.globalconfig, value);
        NpmConfig { globalconfig: x, ..conf }
    }

    fn apply_heading(conf: NpmConfig, value: &Option<String>) -> (r: NpmConfig)
        ensures
            r == with_heading(conf, *value),
    {
        reveal(with_heading);
        match value {
            Some(v) => {
                let x = v.clone();
                NpmConfig { heading: x, ..conf }
            },
            None => conf,
        }
    }

    fn apply_https_proxy(conf: NpmConfig, value: &Option<String>) -> (r: NpmConfig)
        ensures
            r == with_https_proxy(conf, *value),
    {
        reveal(with_https_proxy);
        let x = Self::parse_string(&conf.https_proxy, value);
        NpmConfig { https_proxy: x, ..conf }
    }

    fn apply_if_present(conf: NpmConfig, value: &Option<String>) -> (r: NpmConfig)
        ensures
            r == with_if_present(conf, *value),
    {
        reveal(with_if_present);
        let x = Self::parse_bool(conf.if_present, value);
        NpmConfig { if_present: x, ..conf }
    }

    fn apply_ignore_scripts(conf: NpmConfig, value: &Option<String>) -> (r: NpmConfig)
        ensures
            r == with_ignore_scripts(conf, *value),
    {
        reveal(with_ignore_scripts);
        let x = Self::parse_bool(conf.ignore_scripts, value);
        NpmConfig { ignore_scripts: x, ..conf }
    }

    fn apply_included(conf: NpmConfig, value: &Option<String>) -> (r: NpmConfig)
        ensures
            r == with_included(conf, *value),
    {
        reveal(with_included);
        match value {
            Some(v) => {
                let x = Self::include_of(v.as_str());
                NpmConfig { included: x, ..conf }
            },
            None => conf,
        }
    }

    fn apply_include_staged(conf: NpmConfig, value: &Option<String>) -> (r: NpmConfig)
        ensures
            r == with_include_staged(conf, *value),
    {
        reveal(with_include_staged);
        let x = Self::parse_bool(conf.include_staged, value);
        NpmConfig { include_staged: x, ..conf }
    }

    fn apply_include_workspace_root(conf: NpmConfig, value: &Option<String>) -> (r: NpmConfig)
        ensures
            r == with_include_workspace_root(conf, *value),
    {
        reveal(with_include_workspace_root);
        let x = Self::parse_bool(conf.include_workspace_root, value);
        NpmConfig { include_workspace_root: x, ..conf }
    }

    fn apply_init_author_email(conf: NpmConfig, value: &Option<String>) -> (r: NpmConfig)
        ensures
            r == with_init_author_email(conf, *value),
    {
        reveal(with_init_author_email);
        let x = Self::parse_string(&conf.init_author_email, value);
        NpmConfig { init_author_email: x, ..conf }
    }

    fn apply_init_author_name(conf: NpmConfig, value: &Option<String>) -> (r: NpmConfig)
        ensures
            r == with_init_author_name(conf, *value),
    {
        reveal(with_init_author_name);
        let x = Self::parse_string(&conf.init_author_name, value);
        NpmConfig { init_author_name: x, ..conf }
    }

    fn apply_init_author_url(conf: NpmConfig, value: &Option<String>) -> (r: NpmConfig)
        ensures
            r == with_init_author_url(conf, *value),
    {
        reveal(with_init_author_url);
        let x = Self::parse_string(&conf.init_author_url, value);
        NpmConfig { init_author_url: x, ..conf }
    }

    fn apply_init_license(conf: NpmConfig, value: &Option<String>) -> (r: NpmConfig)
        ensures
            r == with_init_license(conf, *value),
    {
        reveal(with_init_license);
        match value {
            Some(v) => {
                let x = v.clone();
                NpmConfig { init_license: x, ..conf }
            },
            None => conf,
        }
    }

    fn apply_init_module(conf: NpmConfig, value: &Option<String>) -> (r: NpmConfig)
        ensures
            r == with_init_module(conf, *value),
    {
        reveal(with_init_module);
        match value {
            Some(v) => {
                let x = v.clone();
                NpmConfig { init_module: x, ..conf }
            },
            None => conf,
        }
    }

    fn apply_init_version(conf: NpmConfig, value: &Option<String>) -> (r: NpmConfig)
        ensures
            r == with_init_version(conf, *value),
    {
        reveal(with_init_version);
        match value {
            Some(v) => {
                let x = v.clone();
                NpmConfig { init_version: x, ..conf }
            },
            None => conf,
        }
    }

    fn apply_install_links(conf: NpmConfig, value: &Option<String>) -> (r: NpmConfig)
        ensures
            r == with_install_links(conf, *value),
    {
        reveal(with_install_links);
        let x = Self::parse_bool(conf.install_links, value);
        NpmConfig { install_links: x, ..conf }
    }

    fn apply_install_strategy(conf: NpmConfig, value: &Option<String>) -> (r: NpmConfig)
        ensures
            r == with_install_strategy(conf, *value),
    {
        reveal(with_install_strategy);
        match value {
            Some(v) => {
                let x = Self::install_strategy_of(v.as_str());
                NpmConfig { install_strategy: x, ..conf }
            },
            None => conf,
        }
    }

    fn apply_json(conf: NpmConfig, value: &Option<String>) -> (r: NpmConfig)
        ensures
            r == with_json(conf, *value),
    {
        reveal(with_json);
        let x = Self::parse_bool(conf.json, value);
        NpmConfig { json: x, ..conf }
    }

    fn apply_legacy_peer_deps(conf: NpmConfig, value: &Option<String>) -> (r: NpmConfig)
        ensures
            r == with_legacy_peer_deps(conf, *value),
    {
        reveal(with_legacy_peer_deps);
        let x = Self::parse_bool(conf.legacy_peer_deps, value);
        NpmConfig { legacy_peer_deps: x, ..conf }
    }

    fn apply_libc(conf: NpmConfig, value: &Option<String>) -> (r: NpmConfig)
        ensures
            r == with_libc(conf, *value),
    {
        reveal(with_libc);
        let x = Self::parse_string(&conf.libc, value);
        NpmConfig { libc: x, ..conf }
    }

    fn apply_link(conf: NpmConfig, value: &Option<String>) -> (r: NpmConfig)
        ensures
            r == with_link(conf, *value),
    {
        reveal(with_link);
        let x = Self::parse_bool(conf.link, value);
        NpmConfig { link: x, ..conf }
    }

    fn apply_local_address(conf: NpmConfig, value: &Option<String>) -> (r: NpmConfig)
        ensures
            r == with_local_address(conf, *value),
    {
        reveal(with_local_address);
        let x = Self::parse_string(&conf.local_address, value);
        NpmConfig { local_address: x, ..conf }
    }

    fn apply_location(conf: NpmConfig, value: &Option<String>) -> (r: NpmConfig)
        ensures
            r == with_location(conf, *value),
    {
        reveal(with_location);
        match value {
            Some(v) => {
                let x = Self::location_of(v.as_str());
                NpmConfig { _location: x, ..conf }
            },
            None => conf,
        }
    }

    fn apply_lockfile_version(conf: NpmConfig, value: &Option<String>) -> (r: NpmConfig)
        ensures
            r == with_lockfile_version(conf, *value),
    {
        reveal(with_lockfile_version);
        let x = Self::parse_int(conf.lockfile_version, value);
        NpmConfig { lockfile_version: x, ..conf }
    }

    fn apply_log_level(conf: NpmConfig, value: &Option<String>) -> (r: NpmConfig)
        ensures
            r == with_log_level(conf, *value),
    {
        reveal(with_log_level);
        match value {
            Some(v) => {
                let x = Self::log_level_of(v.as_str());
                NpmConfig { _log_level: x, ..conf }
            },
            None => conf,
        }
    }

    fn apply_logs_dir(conf: NpmConfig, value: &Option<String>) -> (r: NpmConfig)
        ensures
            r == with_logs_dir(conf, *value),
    {
        reveal(with_logs_dir);
        match value {
            Some(v) => {
                let x = v.clone();
                NpmConfig { logs_dir: x, ..conf }
            },
            None => conf,
        }
    }

    fn apply_logs_max(conf: NpmConfig, value: &Option<String>) -> (r: NpmConfig)
        ensures
            r == with_logs_max(conf, *value),
    {
        reveal(with_logs_max);
        let x = Self::parse_int(conf.logs_max, value);
        NpmConfig { logs_max: x, ..conf }
    }

    fn apply_long(conf: NpmConfig, value: &Option<String>) -> (r: NpmConfig)
        ensures
            r == with_long(conf, *value),
    {
        reveal(with_long);
        let x = Self::parse_bool(conf.long, value);
        NpmConfig { long: x, ..conf }
    }

    fn apply_max_sockets(conf: NpmConfig, value: &Option<String>) -> (r: NpmConfig)
        ensures
            r == with_max_sockets(conf, *value),
    {
        reveal(with_max_sockets);
        let x = Self::parse_int(conf.max_sockets, value);
        NpmConfig { max_sockets: x, ..conf }
    }

    fn apply_message(conf: NpmConfig, value: &Option<String>) -> (r: NpmConfig)
        ensures
            r == with_message(conf, *value),
    {
        reveal(with_message);
        match value {
            Some(v) => {
                let x = v.clone();
                NpmConfig { message: x, ..conf }
            },
            None => conf,
        }
    }

    fn apply_node_options(conf: NpmConfig, value: &Option<String>) -> (r: NpmConfig)
        ensures
            r == with_node_options(conf, *value),
    {
        reveal(with_node_options);
        let x = Self::parse_string(&conf.node_options, value);
        NpmConfig { node_options: x, ..conf }
    }

    fn apply_no_proxy(conf: NpmConfig, value: &Option<String>) -> (r: NpmConfig)
        ensures
            r == with_no_proxy(conf, *value),
    {
        reveal(with_no_proxy);
        let x = Self::parse_string(&conf.no_proxy, value);
        NpmConfig { no_proxy: x, ..conf }
    }

    fn apply_offline(conf: NpmConfig, value: &Option<String>) -> (r: NpmConfig)
        ensures
            r == with_offline(conf, *value),
    {
        reveal(with_offline);
        let x = Self::parse_bool(conf.offline, value);
        NpmConfig { offline: x, ..conf }
    }

    fn apply_omit(conf: NpmConfig, value: &Option<String>) -> (r: NpmConfig)
        ensures
            r == with_omit(conf, *value),
    {
        reveal(with_omit);
        let x = Self::parse_string(&conf.omit, value);
        NpmConfig { omit: x, ..conf }
    }

    fn apply_omit_lockfile_registry_resolved(conf: NpmConfig, value: &Option<String>) -> (r: NpmConfig)
        ensures
            r == with_omit_lockfile_registry_resolved(conf, *value),
    {
        reveal(with_omit_lockfile_registry_resolved);
        let x = Self::parse_bool(conf.omit_lockfile_registry_resolved, value);
        NpmConfig { omit_lockfile_registry_resolved: x, ..conf }
    }

    fn apply_os(conf: NpmConfig, value: &Option<String>) -> (r: NpmConfig)
        ensures
            r == with_os(conf, *value),
    {
        reveal(with_os);
        let x = Self::parse_string(&conf.os, value);
        NpmConfig { os: x, ..conf }
    }

    fn apply_otp(conf: NpmConfig, value: &Option<String>) -> (r: NpmConfig)
        ensures
            r == with_otp(conf, *value),
    {
        reveal(with_otp);
        let x = Self::parse_string(&conf.otp, value);
        NpmConfig { otp: x, ..conf }
    }

    fn apply_pack_destination(conf: NpmConfig, value: &Option<String>) -> (r: NpmConfig)
        ensures
            r == with_pack_destination(conf, *value),
    {
        reveal(with_pack_destination);
        let x = Self::parse_string(&conf.pack_destination, value);
        NpmConfig { pack_destination: x, ..conf }
    }

    fn apply_package(conf: NpmConfig, value: &Option<String>) -> (r: NpmConfig)
        ensures
            r == with_package(conf, *value),
    {
        reveal(with_package);
        match value {
            Some(v) => {
                let x = v.clone();
                NpmConfig { package: x, ..conf }
            },
            None => conf,
        }
    }

    fn apply_package_lock(conf: NpmConfig, value: &Option<String>) -> (r: NpmConfig)
        ensures
            r == with_package_lock(conf, *value),
    {
        reveal(with_package_lock);
        let x = Self::parse_bool(conf.package_lock, value);
        NpmConfig { package_lock: x, ..conf }
    }

    fn apply_package_lock_only(conf: NpmConfig, value: &Option<String>) -> (r: NpmConfig)
        ensures
            r == with_package_lock_only(conf, *value),
    {
        reveal(with_package_lock_only);
        let x = Self::parse_bool(conf.package_lock_only, value);
        NpmConfig { package_lock_only: x, ..conf }
    }

    fn apply_parseable(conf: NpmConfig, value: &Option<String>) -> (r: NpmConfig)
        ensures
            r == with_parseable(conf, *value),
    {
        reveal(with_parseable);
        let x = Self::parse_bool(conf.parseable, value);
        NpmConfig { parseable: x, ..conf }
    }

    fn apply_prefer_dedupe(conf: NpmConfig, value: &Option<String>) -> (r: NpmConfig)
        ensures
            r == with_prefer_dedupe(conf, *value),
    {
        reveal(with_prefer_dedupe);
        let x = Self::parse_bool(conf.prefer_dedupe, value);
        NpmConfig { prefer_dedupe: x, ..conf }
    }

    fn apply_prefer_offline(conf: NpmConfig, value: &Option<String>) -> (r: NpmConfig)
        ensures
            r == with_prefer_offline(conf, *value),
    {
        reveal(with_prefer_offline);
        let x = Self::parse_bool(conf.prefer_offline, value);
        NpmConfig { prefer_offline: x, ..conf }
    }

    fn apply_prefer_online(conf: NpmConfig, value: &Option<String>) -> (r: NpmConfig)
        ensures
            r == with_prefer_online(conf, *value),
    {
        reveal(with_prefer_online);
        let x = Self::parse_bool(conf.prefer_online, value);
        NpmConfig { prefer_online: x, ..conf }
    }

    fn apply_prefix(conf: NpmConfig, value: &Option<String>) -> (r: NpmConfig)
        ensures
            r == with_prefix(conf, *value),
    {
        reveal(with_prefix);
        match value {
            Some(v) => {
                let x = v.clone();
                NpmConfig { prefix: x, ..conf }
            },
            None => conf,
        }
    }

    fn apply_preid(conf: NpmConfig, value: &Option<String>) -> (r: NpmConfig)
        ensures
            r == with_preid(conf, *value),
    {
        reveal(with_preid);
        let x = Self::parse_string(&conf.preid, value);
        NpmConfig { preid: x, ..conf }
    }

    fn apply_progress(conf: NpmConfig, value: &Option<String>) -> (r: NpmConfig)
        ensures
            r == with_progress(conf, *value),
    {
        reveal(with_progress);
        let x = Self::parse_bool(conf.progress, value);
        NpmConfig { progress: x, ..conf }
    }

    fn apply_provenance(conf: NpmConfig, value: &Option<String>) -> (r: NpmConfig)
        ensures
            r == with_provenance(conf, *value),
    {
        reveal(with_provenance);
        let x = Self::parse_bool(conf.provenance, value);
        NpmConfig { provenance: x, ..conf }
    }

    fn apply_provenance_file(conf: NpmConfig, value: &Option<String>) -> (r: NpmConfig)
        ensures
            r == with_provenance_file(conf, *value),
    {
        reveal(with_provenance_file);
        let x = Self::parse_string(&conf.provenance_file, value);
        NpmConfig { provenance_file: x, ..conf }
    }

    fn apply_proxy(conf: NpmConfig, value: &Option<String>) -> (r: NpmConfig)
        ensures
            r == with_proxy(conf, *value),
    {
        reveal(with_proxy);
        let x = Self::parse_string(&conf.proxy, value);
        NpmConfig { proxy: x, ..conf }
    }

    fn apply_read_only(conf: NpmConfig, value: &Option<String>) -> (r: NpmConfig)
        ensures
            r == with_read_only(conf, *value),
    {
        reveal(with_read_only);
        let x = Self::parse_bool(conf.read_only, value);
        NpmConfig { read_only: x, ..conf }
    }

    fn apply_rebuild_bundle(conf: NpmConfig, value: &Option<String>) -> (r: NpmConfig)
        ensures
            r == with_rebuild_bundle(conf, *value),
    {
        reveal(with_rebuild_bundle);
        let x = Self::parse_bool(conf.rebuild_bundle, value);
        NpmConfig { rebuild_bundle: x, ..conf }
    }

    fn apply_registry(conf: NpmConfig, value: &Option<String>) -> (r: NpmConfig)
        ensures
            r == with_registry(conf, *value),
    {
        reveal(with_registry);
        match value {
            Some(v) => {
                let x = v.clone();
                NpmConfig { registry: x, ..conf }
            },
            None => conf,
        }
    }

    fn apply_replace_registry_host(conf: NpmConfig, value: &Option<String>) -> (r: NpmConfig)
        ensures
            r == with_replace_registry_host(conf, *value),
    {
        reveal(with_replace_registry_host);
        match value {
            Some(v) => {
                let x = v.clone();
                NpmConfig { replace_registry_host: x, ..conf }
            },
            None => conf,
        }
    }

    fn apply_save(conf: NpmConfig, value: &Option<String>) -> (r: NpmConfig)
        ensures
            r == with_save(conf, *value),
    {
        reveal(with_save);
        let x = Self::parse_bool(conf.save, value);
        NpmConfig { save: x, ..conf }
    }

    fn apply_save_bundle(conf: NpmConfig, value: &Option<String>) -> (r: NpmConfig)
        ensures
            r == with_save_bundle(conf, *value),
    {
        reveal(with_save_bundle);
        let x = Self::parse_bool(conf.save_bundle, value);
        NpmConfig { save_bundle: x, ..conf }
    }

    fn apply_save_dev(conf: NpmConfig, value: &Option<String>) -> (r: NpmConfig)
        ensures
            r == with_save_dev(conf, *value),
    {
        reveal(with_save_dev);
        let x = Self::parse_bool(conf.save_dev, value);
        NpmConfig { save_dev: x, ..conf }
    }

    fn apply_save_exact(conf: NpmConfig, value: &Option<String>) -> (r: NpmConfig)
        ensures
            r == with_save_exact(conf, *value),
    {
        reveal(with_save_exact);
        let x = Self::parse_bool(conf.save_exact, value);
        NpmConfig { save_exact: x, ..conf }
    }

    fn apply_save_optional(conf: NpmConfig, value: &Option<String>) -> (r: NpmConfig)
        ensures
            r == with_save_optional(conf, *value),
    {
        reveal(with_save_optional);
        let x = Self::parse_bool(conf.save_optional, value);
        NpmConfig { save_optional: x, ..conf }
    }

    fn apply_save_peer(conf: NpmConfig, value: &Option<String>) -> (r: NpmConfig)
        ensures
            r == with_save_peer(conf, *value),
    {
        reveal(with_save_peer);
        let x = Self::parse_bool(conf.save_peer, value);
        NpmConfig { save_peer: x, ..conf }
    }

    fn apply_save_prefix(conf: NpmConfig, value: &Option<String>) -> (r: NpmConfig)
        ensures
            r == with_save_prefix(conf, *value),
    {
        reveal(with_save_prefix);
        match value {
            Some(v) => {
                let x = v.clone();
                NpmConfig { save_prefix: x, ..conf }
            },
            None => conf,
        }
    }

    fn apply_save_prod(conf: NpmConfig, value: &Option<String>) -> (r: NpmConfig)
        ensures
            r == with_save_prod(conf, *value),
    {
        reveal(with_save_prod);
        let x = Self::parse_bool(conf.save_prod, value);
        NpmConfig { save_prod: x, ..conf }
    }

    fn apply_sbom_format(conf: NpmConfig, value: &Option<String>) -> (r: NpmConfig)
        ensures
            r == with_sbom_format(conf, *value),
    {
        reveal(with_sbom_format);
        let x = Self::parse_string(&conf.sbom_format, value);
        NpmConfig { sbom_format: x, ..conf }
    }

    fn apply_sbom_type(conf: NpmConfig, value: &Option<String>) -> (r: NpmConfig)
        ensures
            r == with_sbom_type(conf, *value),
    {
        reveal(with_sbom_type);
        match value {
            Some(v) => {
                let x = v.clone();
                NpmConfig { sbom_type: x, ..conf }
            },
            None => conf,
        }
    }

    fn apply_scope(conf: NpmConfig, value: &Option<String>) -> (r: NpmConfig)
        ensures
            r == with_scope(conf, *value),
    {
        reveal(with_scope);
        let x = Self::parse_string(&conf.scope, value);
        NpmConfig { scope: x, ..conf }
    }

    fn apply_script_shell(conf: NpmConfig, value: &Option<String>) -> (r: NpmConfig)
        ensures
            r == with_script_shell(conf, *value),
    {
        reveal(with_script_shell);
        match value {
            Some(v) => {
                let x = v.clone();
                NpmConfig { script_shell: x, ..conf }
            },
            None => conf,
        }
    }

    fn apply_search_exclude(conf: NpmConfig, value: &Option<String>) -> (r: NpmConfig)
        ensures
            r == with_search_exclude(conf, *value),
    {
        reveal(with_search_exclude);
        let x = Self::parse_string(&conf.search_exclude, value);
        NpmConfig { search_exclude: x, ..conf }
    }

    fn apply_search_limit(conf: NpmConfig, value: &Option<String>) -> (r: NpmConfig)
        ensures
            r == with_search_limit(conf, *value),
    {
        reveal(with_search_limit);
        let x = Self::parse_int(conf.search_limit, value);
        NpmConfig { search_limit: x, ..conf }
    }

    fn apply_search_opts(conf: NpmConfig, value: &Option<String>) -> (r: NpmConfig)
        ensures
            r == with_search_opts(conf, *value),
    {
        reveal(with_search_opts);
        let x = Self::parse_string(&conf.search_opts, value);
        NpmConfig { search_opts: x, ..conf }
    }

    fn apply_search_staleness(conf: NpmConfig, value: &Option<String>) -> (r: NpmConfig)
        ensures
            r == with_search_staleness(conf, *value),
    {
        reveal(with_search_staleness);
        let x = Self::parse_int(conf.search_staleness, value);
        NpmConfig { search_staleness: x, ..conf }
    }

    fn apply_shell(conf: NpmConfig, value: &Option<String>) -> (r: NpmConfig)
        ensures
            r == with_shell(conf, *value),
    {
        reveal(with_shell);
        match value {
            Some(v) => {
                let x = v.clone();
                NpmConfig { shell: x, ..conf }
            },
            None => conf,
        }
    }

    fn apply_sign_git_commit(conf: NpmConfig, value: &Option<String>) -> (r: NpmConfig)
        ensures
            r == with_sign_git_commit(conf, *value),
    {
        reveal(with_sign_git_commit);
        let x = Self::parse_bool(conf.sign_git_commit, value);
        NpmConfig { sign_git_commit: x, ..conf }
    }

    fn apply_sign_git_tag(conf: NpmConfig, value: &Option<String>) -> (r: NpmConfig)
        ensures
            r == with_sign_git_tag(conf, *value),
    {
        reveal(with_sign_git_tag);
        let x = Self::parse_bool(conf.sign_git_tag, value);
        NpmConfig { sign_git_tag: x, ..conf }
    }

    fn apply_strict_peer_deps(conf: NpmConfig, value: &Option<String>) -> (r: NpmConfig)
        ensures
            r == with_strict_peer_deps(conf, *value),
    {
        reveal(with_strict_peer_deps);
        let x = Self::parse_bool(conf.strict_peer_deps, value);
        NpmConfig { strict_peer_deps: x, ..conf }
    }

    fn apply_strict_ssl(conf: NpmConfig, value: &Option<String>) -> (r: NpmConfig)
        ensures
            r == with_strict_ssl(conf, *value),
    {
        reveal(with_strict_ssl);
        let x = Self::parse_bool(conf.strict_ssl, value);
        NpmConfig { strict_ssl: x, ..conf }
    }

    fn apply_tag(conf: NpmConfig, value: &Option<String>) -> (r: NpmConfig)
        ensures
            r == with_tag(conf, *value),
    {
        reveal(with_tag);
        match value {
            Some(v) => {
                let x = v.clone();
                NpmConfig { tag: x, ..conf }
            },
            None => conf,
        }
    }

    fn apply_tag_version_prefix(conf: NpmConfig, value: &Option<String>) -> (r: NpmConfig)
        ensures
            r == with_tag_version_prefix(conf, *value),
    {
        reveal(with_tag_version_prefix);
        match value {
            Some(v) => {
                let x = v.clone();
                NpmConfig { tag_version_prefix: x, ..conf }
            },
            None => conf,
        }
    }

    fn apply_timing(conf: NpmConfig, value: &Option<String>) -> (r: NpmConfig)
        ensures
            r == with_timing(conf, *value),
    {
        reveal(with_timing);
        let x = Self::parse_bool(conf.timing, value);
        NpmConfig { timing: x, ..conf }
    }

    fn apply_umask(conf: NpmConfig, value: &Option<String>) -> (r: NpmConfig)
        ensures
            r == with_umask(conf, *value),
    {
        reveal(with_umask);
        let x = Self::parse_int(conf.umask, value);
        NpmConfig { umask: x, ..conf }
    }

    fn apply_unicode(conf: NpmConfig, value: &Option<String>) -> (r: NpmConfig)
        ensures
            r == with_unicode(conf, *value),
    {
        reveal(with_unicode);
        let x = Self::parse_bool(conf.unicode, value);
        NpmConfig { unicode: x, ..conf }
    }

    fn apply_update_notifier(conf: NpmConfig, value: &Option<String>) -> (r: NpmConfig)
        ensures
            r == with_update_notifier(conf, *value),
    {
        reveal(with_update_notifier);
        let x = Self::parse_bool(conf.update_notifier, value);
        NpmConfig { update_notifier: x, ..conf }
    }

    fn apply_usage(conf: NpmConfig, value: &Option<String>) -> (r: NpmConfig)
        ensures
            r == with_usage(conf, *value),
    {
        reveal(with_usage);
        let x = Self::parse_bool(conf.usage, value);
        NpmConfig { usage: x, ..conf }
    }

    fn apply_user_agent(conf: NpmConfig, value: &Option<String>) -> (r: NpmConfig)
        ensures
            r == with_user_agent(conf, *value),
    {
        reveal(with_user_agent);
        match value {
            Some(v) => {
                let x = v.clone();
                NpmConfig { user_agent: x, ..conf }
            },
            None => conf,
        }
    }

    fn apply_user_config(conf: NpmConfig, value: &Option<String>) -> (r: NpmConfig)
        ensures
            r == with_user_config(conf, *value),
    {
        reveal(with_user_config);
        match value {
            Some(v) => {
                let x = v.clone();
                NpmConfig { user_config: x, ..conf }
            },
            None => conf,
        }
    }

    fn apply_version(conf: NpmConfig, value: &Option<String>) -> (r: NpmConfig)
        ensures
            r == with_version(conf, *value),
    {
        reveal(with_version);
        let x = Self::parse_bool(conf.version, value);
        NpmConfig { version: x, ..conf }
    }

    fn apply_versions(conf: NpmConfig, value: &Option<String>) -> (r: NpmConfig)
        ensures
            r == with_versions(conf, *value),
    {
        reveal(with_versions);
        let x = Self::parse_bool(conf.versions, value);
        NpmConfig { versions: x, ..conf }
    }

    fn apply_viewer(conf: NpmConfig, value: &Option<String>) -> (r: NpmConfig)
        ensures
            r == with_viewer(conf, *value),
    {
        reveal(with_viewer);
        match value {
            Some(v) => {
                let x = v.clone();
                NpmConfig { viewer: x, ..conf }
            },
            None => conf,
        }
    }

    fn apply_which(conf: NpmConfig, value: &Option<String>) -> (r: NpmConfig)
        ensures
            r == with_which(conf, *value),
    {
        reveal(with_which);
        let x = Self::parse_optional_int(conf.which, value);
        NpmConfig { which: x, ..conf }
    }

    fn apply_workspace(conf: NpmConfig, value: &Option<String>) -> (r: NpmConfig)
        ensures
            r == with_workspace(conf, *value),
    {
        reveal(with_workspace);
        let x = Self::parse_string(&conf.workspace, value);
        NpmConfig { workspace: x, ..conf }
    }

    fn apply_workspaces(conf: NpmConfig, value: &Option<String>) -> (r: NpmConfig)
        ensures
            r == with_workspaces(conf, *value),
    {
        reveal(with_workspaces);
        let x = Some(Self::parse_bool(false, value));
        NpmConfig { workspaces: x, ..conf }
    }

    fn apply_workspaces_update(conf: NpmConfig, value: &Option<String>) -> (r: NpmConfig)
        ensures
            r == with_workspaces_update(conf, *value),
    {
        reveal(with_workspaces_update);
        let x = Self::parse_bool(conf.workspaces_update, value);
        NpmConfig { workspaces_update: x, ..conf }
    }

    fn apply_yes(conf: NpmConfig, value: &Option<String>) -> (r: NpmConfig)
        ensures
            r == with_yes(conf, *value),
    {
        reveal(with_yes);
        let x = Some(Self::parse_bool(false, value));
        NpmConfig { yes: x, ..conf }
    }

    fn apply_also(conf: NpmConfig, value: &Option<String>) -> (r: NpmConfig)
        ensures
            r == with_also(conf, *value),
    {
        reveal(with_also);
        let x = Self::parse_string(&conf.also, value);
        NpmConfig { also: x, ..conf }
    }

    fn apply_cache_max(conf: NpmConfig, value: &Option<String>) -> (r: NpmConfig)
        ensures
            r == with_cache_max(conf, *value),
    {
        reveal(with_cache_max);
        let x = Self::parse_int(conf.cache_max, value);
        NpmConfig { cache_max: x, ..conf }
    }

    fn apply_cache_min(conf: NpmConfig, value: &Option<String>) -> (r: NpmConfig)
        ensures
            r == with_cache_min(conf, *value),
    {
        reveal(with_cache_min);
        let x = Self::parse_int(conf.cache_min, value);
        NpmConfig { cache_min: x, ..conf }
    }

    fn apply_cert(conf: NpmConfig, value: &Option<String>) -> (r: NpmConfig)
        ensures
            r == with_cert(conf, *value),
    {
        reveal(with_cert);
        let x = Self::parse_string(&conf.cert, value);
        NpmConfig { cert: x, ..conf }
    }

    /// The settings after an entry for `key` with the value `value`.
    #[verifier::rlimit(100)]
    fn apply_key(conf: NpmConfig, key: ConfigKey, value: &Option<String>) -> (r: NpmConfig)
        requires
            value is None ==> key != ConfigKey::AuthType && key != ConfigKey::DiffUnified,
        ensures
            r == key_effect(conf, key, *value),
    {
        match key {
            ConfigKey::Auth => Self::apply_auth(conf, value),
            ConfigKey::Access => Self::apply_access(conf, value),
            ConfigKey::All => Self::apply_all(conf, value),
            ConfigKey::AllowSameVersion => Self::apply_allow_same_version(conf, value),
            ConfigKey::Audit => Self::apply_audit(conf, value),
            ConfigKey::AuditLevel => Self::apply_audit_level(conf, value),
            ConfigKey::AuthType => Self::apply_auth_type(conf, value),
            ConfigKey::Before => Self::apply_before(conf, value),
            ConfigKey::BinLinks => Self::apply_bin_links(conf, value),
            ConfigKey::Browser => Self::apply_browser(conf, value),
            ConfigKey::Ca => Self::apply_ca(conf, value),
            ConfigKey::Cache => Self::apply_cache(conf, value),
            ConfigKey::CaFile => Self::apply_ca_file(conf, value),
            ConfigKey::Call => Self::apply_call(conf, value),
            ConfigKey::Cidr => Self::apply_cidr(conf, value),
            ConfigKey::Color => Self::apply_color(conf, value),
            ConfigKey::CommitHooks => Self::apply_commit_hooks(conf, value),
            ConfigKey::Cpu => Self::apply_cpu(conf, value),
            ConfigKey::Depth => Self::apply_depth(conf, value),
            ConfigKey::Description => Self::apply_description(conf, value),
            ConfigKey::Diff => Self::apply_diff(conf, value),
            ConfigKey::DiffDstPrefix => Self::apply_diff_dst_prefix(conf, value),
            ConfigKey::DiffIgnoreAllSpace => Self::apply_diff_ignore_all_space(conf, value),
            ConfigKey::DiffNameOnly => Self::apply_diff_name_only(conf, value),
            ConfigKey::DiffNoPrefix => Self::apply_diff_no_prefix(conf, value),
            ConfigKey::DiffSrcPrefix => Self::apply_diff_src_prefix(conf, value),
            ConfigKey::DiffText => Self::apply_diff_text(conf, value),
            ConfigKey::DiffUnified => Self::apply_diff_unified(conf, value),
            ConfigKey::DryRun => Self::apply_dry_run(conf, value),
            ConfigKey::Editor => Self::apply_editor(conf, value),
            ConfigKey::EngineStrict => Self::apply_engine_strict(conf, value),
            ConfigKey::ExpectResultCount => Self::apply_expect_result_count(conf, value),
            ConfigKey::ExpectResults => Self::apply_expect_results(conf, value),
            ConfigKey::FetchRetries => Self::apply_fetch_retries(conf, value),
            ConfigKey::FetchRetryFactor => Self::apply_fetch_retry_factor(conf, value),
            ConfigKey::FetchRetryMaxtimeout => Self::apply_fetch_retry_maxtimeout(conf, value),
            ConfigKey::FetchRetryMintimeout => Self::apply_fetch_retry_mintimeout(conf, value),
            ConfigKey::FetchTimeout => Self::apply_fetch_timeout(conf, value),
            ConfigKey::Force => Self::apply_force(conf, value),
            ConfigKey::ForegroundScripts => Self::apply_foreground_scripts(conf, value),
            ConfigKey::FormatPackageLock => Self::apply_format_package_lock(conf, value),
            ConfigKey::Fund => Self::apply_fund(conf, value),
            ConfigKey::Git => Self::apply_git(conf, value),
            ConfigKey::GitTagVersion => Self::apply_git_tag_version(conf, value),
            ConfigKey::Global => Self::apply_global(conf, value),
            ConfigKey::GlobalConfig => Self::apply_globalconfig(conf, value),
            ConfigKey::Heading => Self::apply_heading(conf, value),
            ConfigKey::HttpsProxy => Self::apply_https_proxy(conf, value),
            ConfigKey::IfPresent => Self::apply_if_present(conf, value),
            ConfigKey::IgnoreScripts => Self::apply_ignore_scripts(conf, value),
            ConfigKey::Include => Self::apply_included(conf, value),
            ConfigKey::IncludeStaged => Self::apply_include_staged(conf, value),
            ConfigKey::IncludeWorkspaceRoot => Self::apply_include_workspace_root(conf, value),
            ConfigKey::InitAuthorEmail => Self::apply_init_author_email(conf, value),
            ConfigKey::InitAuthorName => Self::apply_init_author_name(conf, value),
            ConfigKey::InitAuthorUrl => Self::apply_init_author_url(conf, value),
            ConfigKey::InitLicense => Self::apply_init_license(conf, value),
            ConfigKey::InitModule => Self::apply_init_module(conf, value),
            ConfigKey::InitVersion => Self::apply_init_version(conf, value),
            ConfigKey::InstallLinks => Self::apply_install_links(conf, value),
            ConfigKey::InstallStrategy => Self::apply_install_strategy(conf, value),
            ConfigKey::Json => Self::apply_json(conf, value),
            ConfigKey::LegacyPeerDeps => Self::apply_legacy_peer_deps(conf, value),
            ConfigKey::Libc => Self::apply_libc(conf, value),
            ConfigKey::Link => Self::apply_link(conf, value),
            ConfigKey::LocalAddress => Self::apply_local_address(conf, value),
            ConfigKey::Location => Self::apply_location(conf, value),
            ConfigKey::LockfileVersion => Self::apply_lockfile_version(conf, value),
            ConfigKey::Loglevel => Self::apply_log_level(conf, value),
            ConfigKey::LogsDir => Self::apply_logs_dir(conf, value),
            ConfigKey::LogsMax => Self::apply_logs_max(conf, value),
            ConfigKey::Long => Self::apply_long(conf, value),
            ConfigKey::MaxSockets => Self::apply_max_sockets(conf, value),
            ConfigKey::Message => Self::apply_message(conf, value),
            ConfigKey::NodeOptions => Self::apply_node_options(conf, value),
            ConfigKey::NoProxy => Self::apply_no_proxy(conf, value),
            ConfigKey::Offline => Self::apply_offline(conf, value),
            ConfigKey::Omit => Self::apply_omit(conf, value),
            ConfigKey::OmitLockfileRegistryResolved => Self::apply_omit_lockfile_registry_resolved(conf, value),
            ConfigKey::Os => Self::apply_os(conf, value),
            ConfigKey::Otp => Self::apply_otp(conf, value),
            ConfigKey::PackDestination => Self::apply_pack_destination(conf, value),
            ConfigKey::Package => Self::apply_package(conf, value),
            ConfigKey::PackageLock => Self::apply_package_lock(conf, value),
            ConfigKey::PackageLockOnly => Self::apply_package_lock_only(conf, value),
            ConfigKey::Parseable => Self::apply_parseable(conf, value),
            ConfigKey::PreferDedupe => Self::apply_prefer_dedupe(conf, value),
            ConfigKey::PreferOffline => Self::apply_prefer_offline(conf, value),
            ConfigKey::PreferOnline => Self::apply_prefer_online(conf, value),
            ConfigKey::Prefix => Self::apply_prefix(conf, value),
            ConfigKey::Preid => Self::apply_preid(conf, value),
            ConfigKey::Progress => Self::apply_progress(conf, value),
            ConfigKey::Provenance => Self::apply_provenance(conf, value),
            ConfigKey::ProvenanceFile => Self::apply_provenance_file(conf, value),
            ConfigKey::Proxy => Self::apply_proxy(conf, value),
            ConfigKey::ReadOnly => Self::apply_read_only(conf, value),
            ConfigKey::RebuildBundle => Self::apply_rebuild_bundle(conf, value),
            ConfigKey::Registry => Self::apply_registry(conf, value),
            ConfigKey::ReplaceRegistryHost => Self::apply_replace_registry_host(conf, value),
            ConfigKey::Save => Self::apply_save(conf, value),
            ConfigKey::SaveBundle => Self::apply_save_bundle(conf, value),
            ConfigKey::SaveDev => Self::apply_save_dev(conf, value),
            ConfigKey::SaveExact => Self::apply_save_exact(conf, value),
            ConfigKey::SaveOptional => Self::apply_save_optional(conf, value),
            ConfigKey::SavePeer => Self::apply_save_peer(conf, value),
            ConfigKey::SavePrefix => Self::apply_save_prefix(conf, value),
            ConfigKey::SaveProd => Self::apply_save_prod(conf, value),
            ConfigKey::SbomFormat => Self::apply_sbom_format(conf, value),
            ConfigKey::SbomType => Self::apply_sbom_type(conf, value),
            ConfigKey::Scope => Self::apply_scope(conf, value),
            ConfigKey::ScriptShell => Self::apply_script_shell(conf, value),
            ConfigKey::SearchExclude => Self::apply_search_exclude(conf, value),
            ConfigKey::SearchLimit => Self::apply_search_limit(conf, value),
            ConfigKey::SearchOpts => Self::apply_search_opts(conf, value),
            ConfigKey::SearchStaleness => Self::apply_search_staleness(conf, value),
            ConfigKey::Shell => Self::apply_shell(conf, value),
            ConfigKey::SignGitCommit => Self::apply_sign_git_commit(conf, value),
            ConfigKey::SignGitTag => Self::apply_sign_git_tag(conf, value),
            ConfigKey::StrictPeerDeps => Self::apply_strict_peer_deps(conf, value),
            ConfigKey::StrictSsl => Self::apply_strict_ssl(conf, value),
            ConfigKey::Tag => Self::apply_tag(conf, value),
            ConfigKey::TagVersionPrefix => Self::apply_tag_version_prefix(conf, value),
            ConfigKey::Timing => Self::apply_timing(conf, value),
            ConfigKey::Umask => Self::apply_umask(conf, value),
            ConfigKey::Unicode => Self::apply_unicode(conf, value),
            ConfigKey::UpdateNotifier => Self::apply_update_notifier(conf, value),
            ConfigKey::Usage => Self::apply_usage(conf, value),
            ConfigKey::UserAgent => Self::apply_user_agent(conf, value),
            ConfigKey::UserConfig => Self::apply_user_config(conf, value),
            ConfigKey::Version => Self::apply_version(conf, value),
            ConfigKey::Versions => Self::apply_versions(conf, value),
            ConfigKey::Viewer => Self::apply_viewer(conf, value),
            ConfigKey::Which => Self::apply_which(conf, value),
            ConfigKey::Workspace => Self::apply_workspace(conf, value),
            ConfigKey::Workspaces => Self::apply_workspaces(conf, value),
            ConfigKey::WorkspacesUpdate => Self::apply_workspaces_update(conf, value),
            ConfigKey::Yes => Self::apply_yes(conf, value),
            ConfigKey::Also => Self::apply_also(conf, value),
            ConfigKey::CacheMax => Self::apply_cache_max(conf, value),
            ConfigKey::CacheMin => Self::apply_cache_min(conf, value),
            ConfigKey::Cert => Self::apply_cert(conf, value),
        }
    }

    /// `--global`: any given text sets `global` (`true` or else `false`).
    pub fn switch_global(&mut self, global_val: Option<String>)
        ensures
            global_val is None ==> *final(self) == *old(self),
            global_val is Some ==> *final(self) == (NpmConfig {
                global: bool_setting(false, global_val),
                ..*old(self)
            }),
    {
        if global_val.is_none() {
            return;
        }
        let g = Self::parse_bool(false, &global_val);
        let c = self.take();
        self.replace_with(NpmConfig { global: g, ..c });
    }

    /// `--location`: `user`, `global` or `project`; any other text means `user`.
    pub fn switch_location(&mut self, location_val: Option<String>)
        ensures
            *final(self) == (NpmConfig {
                _location: location_setting(old(self)._location, location_val),
                ..*old(self)
            }),
    {
        match location_val {
            None => {},
            Some(v) => {
                let l = Self::location_of(v.as_str());
                let c = self.take();
                self.replace_with(NpmConfig { _location: l, ..c });
            },
        }
    }

    /// `--json`.
    pub fn switch_json(&mut self, json_val: Option<bool>)
        ensures
            *final(self) == (NpmConfig {
                json: match json_val {
                    Some(b) => b,
                    None => old(self).json,
                },
                ..*old(self)
            }),
    {
        match json_val {
            None => {},
            Some(b) => {
                let c = self.take();
                self.replace_with(NpmConfig { json: b, ..c });
            },
        }
    }

    /// The text of a configuration file holding `map`: one line `key=value`
    /// (or `key=` without a value) per entry, in key order; entries with an
    /// empty key are left out.
    fn serialize_config(map: StrMap<Option<String>>) -> (r: String)
        ensures
            r@ == config_text(map@),
    {
        let mut serialized = String::new();
        let mut i: usize = 0;
        assert(map@.take(0) =~= Seq::<(Seq<char>, Option<String>)>::empty());
        while i < map.len()
            invariant
                i <= map@.len(),
                serialized@ == config_text(map@.take(i as int)),
            decreases map@.len() - i,
        {
            let key = map.key_at(i);
            assert(map@.take(i + 1).drop_last() =~= map@.take(i as int));
            assert(map@.take(i + 1).last() == map@[i as int]);
            if !key.as_str().is_empty() {
                push_str(&mut serialized, key.as_str());
                push_char(&mut serialized, '=');
                match map.value_at(i) {
                    Some(v) => {
                        push_str(&mut serialized, v.as_str());
                    },
                    None => {},
                }
                push_char(&mut serialized, '\n');
            }
            i = i + 1;
        }
        assert(map@.take(map@.len() as int) =~= map@);
        serialized
    }

    /// `npm config set key value`, on the settings: the entry applies, and a
    /// `global` location sets `global`. The configuration file of the user is
    /// written by `user_config_after_set`.
    pub fn set_value(&mut self, key: &str, value: Option<String>) -> (r: Result<(), ExecutionError>)
        requires
            value is None ==> key@ != "auth-type"@ && key@ != "diff-unified"@,
        ensures
            r is Ok,
            *final(self) == set_applied(*old(self), key@, value),
    {
        let c = self.take();
        let c = Self::handle_key_processing(c, owned(key), &value);
        if c._location == Location::Global {
            self.replace_with(NpmConfig { global: true, ..c });
        } else {
            self.replace_with(c);
        }
        Ok(())
    }

    /// After `set`, the new text of the user's configuration file, which
    /// held `read_conf`: `key` set to `value`. `None` unless the location is
    /// `user`, in which case that file is not written.
    pub fn user_config_after_set(
        &self,
        read_conf: StrMap<Option<String>>,
        key: &str,
        value: Option<String>,
    ) -> (r: Option<String>)
        ensures
            self._location == Location::User <==> r is Some,
            r matches Some(t) ==> t@ == config_text(inserted(read_conf@, key@, value)),
    {
        if self._location == Location::User {
            let mut read_conf = read_conf;
            read_conf.insert(owned(key), value);
            Some(Self::serialize_config(read_conf))
        } else {
            None
        }
    }

    /// `npm config get key`: what is printed for the entries `conf` of the
    /// user's configuration file, the value or `undefined`; `None` (nothing
    /// printed) unless the location is `user`.
    pub fn get_value(&self, conf: &StrMap<Option<String>>, key: &str) -> (r: Option<String>)
        requires
            self._location == Location::User ==> lookup(conf@, key@) != Some(None::<String>),
        ensures
            self._location == Location::User <==> r is Some,
            r matches Some(t) ==> t@ == match lookup(conf@, key@) {
                Some(Some(v)) => v@,
                _ => "undefined"@,
            },
    {
        if self._location == Location::User {
            match conf.get(key) {
                Some(v) => match v {
                    Some(s) => Some(s.clone()),
                    None => Some(owned("undefined")),
                },
                None => Some(owned("undefined")),
            }
        } else {
            None
        }
    }

    /// `npm config list`: for the entries `conf` of the user's configuration
    /// file, their JSON text under `--json`, else one line `key=value` per
    /// entry with a nonempty key; `None` unless the location is `user`.
    pub fn list_value(&self, conf: &StrMap<Option<String>>) -> (r: Option<ConfigListing>)
        ensures
            self._location == Location::User <==> r is Some,
            r matches Some(l) ==> if self.json {
                l matches ConfigListing::Json(t) && t@ == pretty_json_of(text_entries(conf@))
            } else {
                l matches ConfigListing::Lines(v) && v@.map_values(|s: String| s@) == listing_lines(conf@)
            },
    {
        if self._location == Location::User {
            if self.json {
                return Some(ConfigListing::Json(pretty_json(conf)));
            }
            let mut lines: Vec<String> = Vec::new();
            let mut i: usize = 0;
            assert(conf@.take(0) =~= Seq::<(Seq<char>, Option<String>)>::empty());
            while i < conf.len()
                invariant
                    i <= conf@.len(),
                    lines@.map_values(|s: String| s@) == listing_lines(conf@.take(i as int)),
                decreases conf@.len() - i,
            {
                let key = conf.key_at(i);
                assert(conf@.take(i + 1).drop_last() =~= conf@.take(i as int));
                assert(conf@.take(i + 1).last() == conf@[i as int]);
                let ghost before = lines@;
                if !key.as_str().is_empty() {
                    let mut line = key.clone();
                    push_char(&mut line, '=');
                    match conf.value_at(i) {
                        Some(v) => {
                            push_str(&mut line, v.as_str());
                        },
                        None => {},
                    }
                    assert(line@ =~= config_pair(conf@[i as int]));
                    lines.push(line);
                    assert(lines@.map_values(|s: String| s@) =~= before.map_values(|s: String| s@).push(
                        config_pair(conf@[i as int]),
                    ));
                }
                i = i + 1;
            }
            assert(conf@.take(conf@.len() as int) =~= conf@);
            Some(ConfigListing::Lines(lines))
        } else {
            None
        }
    }
}

/// The settings after `npm config set k v`.
pub open spec fn set_applied(c: NpmConfig, k: Seq<char>, v: Option<String>) -> NpmConfig {
    let a = key_applied(c, k, v);
    if a._location == Location::Global {
        NpmConfig { global: true, ..a }
    } else {
        a
    }
}

/// `key=value`, or `key=` for an entry without a value.
pub open spec fn config_pair(e: (Seq<char>, Option<String>)) -> Seq<char> {
    match e.1 {
        Some(v) => e.0 + seq!['='] + v@,
        None => e.0 + seq!['='],
    }
}

/// The text of a configuration file: one line per entry with a nonempty key.
pub open spec fn config_text(s: Seq<(Seq<char>, Option<String>)>) -> Seq<char>
    decreases s.len(),
{
    if s.len() == 0 {
        Seq::empty()
    } else if s.last().0.len() == 0 {
        config_text(s.drop_last())
    } else {
        config_text(s.drop_last()) + config_pair(s.last()) + seq!['\n']
    }
}

/// The lines that `npm config list` prints.
pub open spec fn listing_lines(s: Seq<(Seq<char>, Option<String>)>) -> Seq<Seq<char>>
    decreases s.len(),
{
    if s.len() == 0 {
        Seq::empty()
    } else if s.last().0.len() == 0 {
        listing_lines(s.drop_last())
    } else {
        listing_lines(s.drop_last()).push(config_pair(s.last()))
    }
}

/// What `npm config list` prints.
pub enum ConfigListing {
    Json(String),
    Lines(Vec<String>),
}

/// Entries with their values by their characters.
pub open spec fn text_entries(s: Seq<(Seq<char>, Option<String>)>) -> Seq<(Seq<char>, Option<Seq<char>>)> {
    s.map_values(|e: (Seq<char>, Option<String>)| (e.0, opt_text(e.1)))
}

/// What `serde_json::to_string_pretty` gives for a `BTreeMap<String,
/// Option<String>>` holding `entries` (sorted, distinct keys).
pub uninterp spec fn pretty_json_of(entries: Seq<(Seq<char>, Option<Seq<char>>)>) -> Seq<char>;

/// `serde_json::to_string_pretty` on the entries of `conf`, gathered into a
/// `BTreeMap<String, Option<String>>`. The text is named `pretty_json_of`;
/// serializing such a map cannot fail (its keys are strings).
#[verifier::external_body]
fn pretty_json(conf: &StrMap<Option<String>>) -> (r: String)
    ensures
        r@ == pretty_json_of(text_entries(conf@)),
{
    let mut map = std::collections::BTreeMap::new();
    for i in 0..conf.len() {
        map.insert(conf.key_at(i).clone(), conf.value_at(i).clone());
    }
    serde_json::to_string_pretty(&map).unwrap()
}


// ---------------------------------------------------------------------
// Applying an entry twice
// ---------------------------------------------------------------------

proof fn lemma_with_auth_fixed(d: NpmConfig, v: Option<String>)
    requires
        text_setting(d._auth, v) == d._auth,
    ensures
        with_auth(d, v) == d,
{
    reveal(with_auth);
}

proof fn lemma_with_auth_twice(c: NpmConfig, v: Option<String>)
    ensures
        with_auth(with_auth(c, v), v) == with_auth(c, v),
{
    assert(with_auth(c, v)._auth == text_setting(c._auth, v)) by {
        reveal(with_auth);
    }
    lemma_with_auth_fixed(with_auth(c, v), v);
}

proof fn lemma_with_access_fixed(d: NpmConfig, v: Option<String>)
    requires
        access_setting(d.access, v) == d.access,
    ensures
        with_access(d, v) == d,
{
    reveal(with_access);
}

proof fn lemma_with_access_twice(c: NpmConfig, v: Option<String>)
    ensures
        with_access(with_access(c, v), v) == with_access(c, v),
{
    assert(with_access(c, v).access == access_setting(c.access, v)) by {
        reveal(with_access);
    }
    lemma_with_access_fixed(with_access(c, v), v);
}

proof fn lemma_with_all_fixed(d: NpmConfig, v: Option<String>)
    requires
        bool_setting(d.all, v) == d.all,
    ensures
        with_all(d, v) == d,
{
    reveal(with_all);
}

proof fn lemma_with_all_twice(c: NpmConfig, v: Option<String>)
    ensures
        with_all(with_all(c, v), v) == with_all(c, v),
{
    assert(with_all(c, v).all == bool_setting(c.all, v)) by {
        reveal(with_all);
    }
    lemma_with_all_fixed(with_all(c, v), v);
}

proof fn lemma_with_allow_same_version_fixed(d: NpmConfig, v: Option<String>)
    requires
        bool_setting(d.allow_same_version, v) == d.allow_same_version,
    ensures
        with_allow_same_version(d, v) == d,
{
    reveal(with_allow_same_version);
}

proof fn lemma_with_allow_same_version_twice(c: NpmConfig, v: Option<String>)
    ensures
        with_allow_same_version(with_allow_same_version(c, v), v) == with_allow_same_version(c, v),
{
    assert(with_allow_same_version(c, v).allow_same_version == bool_setting(c.allow_same_version, v)) by {
        reveal(with_allow_same_version);
    }
    lemma_with_allow_same_version_fixed(with_allow_same_version(c, v), v);
}

proof fn lemma_with_audit_fixed(d: NpmConfig, v: Option<String>)
    requires
        bool_setting(d.audit, v) == d.audit,
    ensures
        with_audit(d, v) == d,
{
    reveal(with_audit);
}

proof fn lemma_with_audit_twice(c: NpmConfig, v: Option<String>)
    ensures
        with_audit(with_audit(c, v), v) == with_audit(c, v),
{
    assert(with_audit(c, v).audit == bool_setting(c.audit, v)) by {
        reveal(with_audit);
    }
    lemma_with_audit_fixed(with_audit(c, v), v);
}

proof fn lemma_with_audit_level_fixed(d: NpmConfig, v: Option<String>)
    requires
        text_setting(d.audit_level, v) == d.audit_level,
    ensures
        with_audit_level(d, v) == d,
{
    reveal(with_audit_level);
}

proof fn lemma_with_audit_level_twice(c: NpmConfig, v: Option<String>)
    ensures
        with_audit_level(with_audit_level(c, v), v) == with_audit_level(c, v),
{
    assert(with_audit_level(c, v).audit_level == text_setting(c.audit_level, v)) by {
        reveal(with_audit_level);
    }
    lemma_with_audit_level_fixed(with_audit_level(c, v), v);
}

proof fn lemma_with_auth_type_fixed(d: NpmConfig, v: Option<String>)
    requires
        auth_type_setting(d.auth_type, v) == d.auth_type,
    ensures
        with_auth_type(d, v) == d,
{
    reveal(with_auth_type);
}

proof fn lemma_with_auth_type_twice(c: NpmConfig, v: Option<String>)
    ensures
        with_auth_type(with_auth_type(c, v), v) == with_auth_type(c, v),
{
    assert(with_auth_type(c, v).auth_type == auth_type_setting(c.auth_type, v)) by {
        reveal(with_auth_type);
    }
    lemma_with_auth_type_fixed(with_auth_type(c, v), v);
}

proof fn lemma_with_before_fixed(d: NpmConfig, v: Option<String>)
    requires
        date_setting(d.before, v) == d.before,
    ensures
        with_before(d, v) == d,
{
    reveal(with_before);
}

proof fn lemma_with_before_twice(c: NpmConfig, v: Option<String>)
    ensures
        with_before(with_before(c, v), v) == with_before(c, v),
{
    assert(with_before(c, v).before == date_setting(c.before, v)) by {
        reveal(with_before);
    }
    lemma_with_before_fixed(with_before(c, v), v);
}

proof fn lemma_with_bin_links_fixed(d: NpmConfig, v: Option<String>)
    requires
        bool_setting(d.bin_links, v) == d.bin_links,
    ensures
        with_bin_links(d, v) == d,
{
    reveal(with_bin_links);
}

proof fn lemma_with_bin_links_twice(c: NpmConfig, v: Option<String>)
    ensures
        with_bin_links(with_bin_links(c, v), v) == with_bin_links(c, v),
{
    assert(with_bin_links(c, v).bin_links == bool_setting(c.bin_links, v)) by {
        reveal(with_bin_links);
    }
    lemma_with_bin_links_fixed(with_bin_links(c, v), v);
}

proof fn lemma_with_browser_fixed(d: NpmConfig, v: Option<String>)
    requires
        set_text_setting(d.browser, v) == d.browser,
    ensures
        with_browser(d, v) == d,
{
    reveal(with_browser);
}

proof fn lemma_with_browser_twice(c: NpmConfig, v: Option<String>)
    ensures
        with_browser(with_browser(c, v), v) == with_browser(c, v),
{
    assert(with_browser(c, v).browser == set_text_setting(c.browser, v)) by {
        reveal(with_browser);
    }
    lemma_with_browser_fixed(with_browser(c, v), v);
}

proof fn lemma_with_ca_fixed(d: NpmConfig, v: Option<String>)
    requires
        text_setting(d.ca, v) == d.ca,
    ensures
        with_ca(d, v) == d,
{
    reveal(with_ca);
}

proof fn lemma_with_ca_twice(c: NpmConfig, v: Option<String>)
    ensures
        with_ca(with_ca(c, v), v) == with_ca(c, v),
{
    assert(with_ca(c, v).ca == text_setting(c.ca, v)) by {
        reveal(with_ca);
    }
    lemma_with_ca_fixed(with_ca(c, v), v);
}

proof fn lemma_with_cache_fixed(d: NpmConfig, v: Option<String>)
    requires
        set_text_setting(d.cache, v) == d.cache,
    ensures
        with_cache(d, v) == d,
{
    reveal(with_cache);
}

proof fn lemma_with_cache_twice(c: NpmConfig, v: Option<String>)
    ensures
        with_cache(with_cache(c, v), v) == with_cache(c, v),
{
    assert(with_cache(c, v).cache == set_text_setting(c.cache, v)) by {
        reveal(with_cache);
    }
    lemma_with_cache_fixed(with_cache(c, v), v);
}

proof fn lemma_with_ca_file_fixed(d: NpmConfig, v: Option<String>)
    requires
        text_setting(d.ca_file, v) == d.ca_file,
    ensures
        with_ca_file(d, v) == d,
{
    reveal(with_ca_file);
}

proof fn lemma_with_ca_file_twice(c: NpmConfig, v: Option<String>)
    ensures
        with_ca_file(with_ca_file(c, v), v) == with_ca_file(c, v),
{
    assert(with_ca_file(c, v).ca_file == text_setting(c.ca_file, v)) by {
        reveal(with_ca_file);
    }
    lemma_with_ca_file_fixed(with_ca_file(c, v), v);
}

proof fn lemma_with_call_fixed(d: NpmConfig, v: Option<String>)
    requires
        text_setting(d.call, v) == d.call,
    ensures
        with_call(d, v) == d,
{
    reveal(with_call);
}

proof fn lemma_with_call_twice(c: NpmConfig, v: Option<String>)
    ensures
        with_call(with_call(c, v), v) == with_call(c, v),
{
    assert(with_call(c, v).call == text_setting(c.call, v)) by {
        reveal(with_call);
    }
    lemma_with_call_fixed(with_call(c, v), v);
}

proof fn lemma_with_cidr_fixed(d: NpmConfig, v: Option<String>)
    requires
        text_setting(d.cidr, v) == d.cidr,
    ensures
        with_cidr(d, v) == d,
{
    reveal(with_cidr);
}

proof fn lemma_with_cidr_twice(c: NpmConfig, v: Option<String>)
    ensures
        with_cidr(with_cidr(c, v), v) == with_cidr(c, v),
{
    assert(with_cidr(c, v).cidr == text_setting(c.cidr, v)) by {
        reveal(with_cidr);
    }
    lemma_with_cidr_fixed(with_cidr(c, v), v);
}

proof fn lemma_with_color_fixed(d: NpmConfig, v: Option<String>)
    requires
        bool_setting(d.color, v) == d.color,
    ensures
        with_color(d, v) == d,
{
    reveal(with_color);
}

proof fn lemma_with_color_twice(c: NpmConfig, v: Option<String>)
    ensures
        with_color(with_color(c, v), v) == with_color(c, v),
{
    assert(with_color(c, v).color == bool_setting(c.color, v)) by {
        reveal(with_color);
    }
    lemma_with_color_fixed(with_color(c, v), v);
}

proof fn lemma_with_commit_hooks_fixed(d: NpmConfig, v: Option<String>)
    requires
        bool_setting(d.commit_hooks, v) == d.commit_hooks,
    ensures
        with_commit_hooks(d, v) == d,
{
    reveal(with_commit_hooks);
}

proof fn lemma_with_commit_hooks_twice(c: NpmConfig, v: Option<String>)
    ensures
        with_commit_hooks(with_commit_hooks(c, v), v) == with_commit_hooks(c, v),
{
    assert(with_commit_hooks(c, v).commit_hooks == bool_setting(c.commit_hooks, v)) by {
        reveal(with_commit_hooks);
    }
    lemma_with_commit_hooks_fixed(with_commit_hooks(c, v), v);
}

proof fn lemma_with_cpu_fixed(d: NpmConfig, v: Option<String>)
    requires
        text_setting(d.cpu, v) == d.cpu,
    ensures
        with_cpu(d, v) == d,
{
    reveal(with_cpu);
}

proof fn lemma_with_cpu_twice(c: NpmConfig, v: Option<String>)
    ensures
        with_cpu(with_cpu(c, v), v) == with_cpu(c, v),
{
    assert(with_cpu(c, v).cpu == text_setting(c.cpu, v)) by {
        reveal(with_cpu);
    }
    lemma_with_cpu_fixed(with_cpu(c, v), v);
}

proof fn lemma_with_depth_fixed(d: NpmConfig, v: Option<String>)
    requires
        depth_setting(d.depth, v) == d.depth,
    ensures
        with_depth(d, v) == d,
{
    reveal(with_depth);
}

proof fn lemma_with_depth_twice(c: NpmConfig, v: Option<String>)
    ensures
        with_depth(with_depth(c, v), v) == with_depth(c, v),
{
    assert(with_depth(c, v).depth == depth_setting(c.depth, v)) by {
        reveal(with_depth);
    }
    lemma_with_depth_fixed(with_depth(c, v), v);
}

proof fn lemma_with_description_fixed(d: NpmConfig, v: Option<String>)
    requires
        bool_setting(d.description, v) == d.description,
    ensures
        with_description(d, v) == d,
{
    reveal(with_description);
}

proof fn lemma_with_description_twice(c: NpmConfig, v: Option<String>)
    ensures
        with_description(with_description(c, v), v) == with_description(c, v),
{
    assert(with_description(c, v).description == bool_setting(c.description, v)) by {
        reveal(with_description);
    }
    lemma_with_description_fixed(with_description(c, v), v);
}

proof fn lemma_with_diff_fixed(d: NpmConfig, v: Option<String>)
    requires
        set_text_setting(d.diff, v) == d.diff,
    ensures
        with_diff(d, v) == d,
{
    reveal(with_diff);
}

proof fn lemma_with_diff_twice(c: NpmConfig, v: Option<String>)
    ensures
        with_diff(with_diff(c, v), v) == with_diff(c, v),
{
    assert(with_diff(c, v).diff == set_text_setting(c.diff, v)) by {
        reveal(with_diff);
    }
    lemma_with_diff_fixed(with_diff(c, v), v);
}

proof fn lemma_with_diff_dst_prefix_fixed(d: NpmConfig, v: Option<String>)
    requires
        set_text_setting(d.diff_dst_prefix, v) == d.diff_dst_prefix,
    ensures
        with_diff_dst_prefix(d, v) == d,
{
    reveal(with_diff_dst_prefix);
}

proof fn lemma_with_diff_dst_prefix_twice(c: NpmConfig, v: Option<String>)
    ensures
        with_diff_dst_prefix(with_diff_dst_prefix(c, v), v) == with_diff_dst_prefix(c, v),
{
    assert(with_diff_dst_prefix(c, v).diff_dst_prefix == set_text_setting(c.diff_dst_prefix, v)) by {
        reveal(with_diff_dst_prefix);
    }
    lemma_with_diff_dst_prefix_fixed(with_diff_dst_prefix(c, v), v);
}

proof fn lemma_with_diff_ignore_all_space_fixed(d: NpmConfig, v: Option<String>)
    requires
        bool_setting(d.diff_ignore_all_space, v) == d.diff_ignore_all_space,
    ensures
        with_diff_ignore_all_space(d, v) == d,
{
    reveal(with_diff_ignore_all_space);
}

proof fn lemma_with_diff_ignore_all_space_twice(c: NpmConfig, v: Option<String>)
    ensures
        with_diff_ignore_all_space(with_diff_ignore_all_space(c, v), v) == with_diff_ignore_all_space(c, v),
{
    assert(with_diff_ignore_all_space(c, v).diff_ignore_all_space == bool_setting(c.diff_ignore_all_space, v)) by {
        reveal(with_diff_ignore_all_space);
    }
    lemma_with_diff_ignore_all_space_fixed(with_diff_ignore_all_space(c, v), v);
}

proof fn lemma_with_diff_name_only_fixed(d: NpmConfig, v: Option<String>)
    requires
        bool_setting(d.diff_name_only, v) == d.diff_name_only,
    ensures
        with_diff_name_only(d, v) == d,
{
    reveal(with_diff_name_only);
}

proof fn lemma_with_diff_name_only_twice(c: NpmConfig, v: Option<String>)
    ensures
        with_diff_name_only(with_diff_name_only(c, v), v) == with_diff_name_only(c, v),
{
    assert(with_diff_name_only(c, v).diff_name_only == bool_setting(c.diff_name_only, v)) by {
        reveal(with_diff_name_only);
    }
    lemma_with_diff_name_only_fixed(with_diff_name_only(c, v), v);
}

proof fn lemma_with_diff_no_prefix_fixed(d: NpmConfig, v: Option<String>)
    requires
        bool_setting(d.diff_no_prefix, v) == d.diff_no_prefix,
    ensures
        with_diff_no_prefix(d, v) == d,
{
    reveal(with_diff_no_prefix);
}

proof fn lemma_with_diff_no_prefix_twice(c: NpmConfig, v: Option<String>)
    ensures
        with_diff_no_prefix(with_diff_no_prefix(c, v), v) == with_diff_no_prefix(c, v),
{
    assert(with_diff_no_prefix(c, v).diff_no_prefix == bool_setting(c.diff_no_prefix, v)) by {
        reveal(with_diff_no_prefix);
    }
    lemma_with_diff_no_prefix_fixed(with_diff_no_prefix(c, v), v);
}

proof fn lemma_with_diff_src_prefix_fixed(d: NpmConfig, v: Option<String>)
    requires
        set_text_setting(d.diff_src_prefix, v) == d.diff_src_prefix,
    ensures
        with_diff_src_prefix(d, v) == d,
{
    reveal(with_diff_src_prefix);
}

proof fn lemma_with_diff_src_prefix_twice(c: NpmConfig, v: Option<String>)
    ensures
        with_diff_src_prefix(with_diff_src_prefix(c, v), v) == with_diff_src_prefix(c, v),
{
    assert(with_diff_src_prefix(c, v).diff_src_prefix == set_text_setting(c.diff_src_prefix, v)) by {
        reveal(with_diff_src_prefix);
    }
    lemma_with_diff_src_prefix_fixed(with_diff_src_prefix(c, v), v);
}

proof fn lemma_with_diff_text_fixed(d: NpmConfig, v: Option<String>)
    requires
        bool_setting(d.diff_text, v) == d.diff_text,
    ensures
        with_diff_text(d, v) == d,
{
    reveal(with_diff_text);
}

proof fn lemma_with_diff_text_twice(c: NpmConfig, v: Option<String>)
    ensures
        with_diff_text(with_diff_text(c, v), v) == with_diff_text(c, v),
{
    assert(with_diff_text(c, v).diff_text == bool_setting(c.diff_text, v)) by {
        reveal(with_diff_text);
    }
    lemma_with_diff_text_fixed(with_diff_text(c, v), v);
}

proof fn lemma_with_diff_unified_fixed(d: NpmConfig, v: Option<String>)
    requires
        int_setting(d.diff_unified, v) == d.diff_unified,
    ensures
        with_diff_unified(d, v) == d,
{
    reveal(with_diff_unified);
}

proof fn lemma_with_diff_unified_twice(c: NpmConfig, v: Option<String>)
    ensures
        with_diff_unified(with_diff_unified(c, v), v) == with_diff_unified(c, v),
{
    assert(with_diff_unified(c, v).diff_unified == int_setting(c.diff_unified, v)) by {
        reveal(with_diff_unified);
    }
    lemma_with_diff_unified_fixed(with_diff_unified(c, v), v);
}

proof fn lemma_with_dry_run_fixed(d: NpmConfig, v: Option<String>)
    requires
        bool_setting(d.dry_run, v) == d.dry_run,
    ensures
        with_dry_run(d, v) == d,
{
    reveal(with_dry_run);
}

proof fn lemma_with_dry_run_twice(c: NpmConfig, v: Option<String>)
    ensures
        with_dry_run(with_dry_run(c, v), v) == with_dry_run(c, v),
{
    assert(with_dry_run(c, v).dry_run == bool_setting(c.dry_run, v)) by {
        reveal(with_dry_run);
    }
    lemma_with_dry_run_fixed(with_dry_run(c, v), v);
}

proof fn lemma_with_editor_fixed(d: NpmConfig, v: Option<String>)
    requires
        set_text_setting(d.editor, v) == d.editor,
    ensures
        with_editor(d, v) == d,
{
    reveal(with_editor);
}

proof fn lemma_with_editor_twice(c: NpmConfig, v: Option<String>)
    ensures
        with_editor(with_editor(c, v), v) == with_editor(c, v),
{
    assert(with_editor(c, v).editor == set_text_setting(c.editor, v)) by {
        reveal(with_editor);
    }
    lemma_with_editor_fixed(with_editor(c, v), v);
}

proof fn lemma_with_engine_strict_fixed(d: NpmConfig, v: Option<String>)
    requires
        bool_setting(d.engine_strict, v) == d.engine_strict,
    ensures
        with_engine_strict(d, v) == d,
{
    reveal(with_engine_strict);
}

proof fn lemma_with_engine_strict_twice(c: NpmConfig, v: Option<String>)
    ensures
        with_engine_strict(with_engine_strict(c, v), v) == with_engine_strict(c, v),
{
    assert(with_engine_strict(c, v).engine_strict == bool_setting(c.engine_strict, v)) by {
        reveal(with_engine_strict);
    }
    lemma_with_engine_strict_fixed(with_engine_strict(c, v), v);
}

proof fn lemma_with_expect_result_count_fixed(d: NpmConfig, v: Option<String>)
    requires
        optional_int_setting(d.expect_result_count, v) == d.expect_result_count,
    ensures
        with_expect_result_count(d, v) == d,
{
    reveal(with_expect_result_count);
}

proof fn lemma_with_expect_result_count_twice(c: NpmConfig, v: Option<String>)
    ensures
        with_expect_result_count(with_expect_result_count(c, v), v) == with_expect_result_count(c, v),
{
    assert(with_expect_result_count(c, v).expect_result_count == optional_int_setting(c.expect_result_count, v)) by {
        reveal(with_expect_result_count);
    }
    lemma_with_expect_result_count_fixed(with_expect_result_count(c, v), v);
}

proof fn lemma_with_expect_results_fixed(d: NpmConfig, v: Option<String>)
    requires
        Some(bool_setting(false, v)) == d.expect_results,
    ensures
        with_expect_results(d, v) == d,
{
    reveal(with_expect_results);
}

proof fn lemma_with_expect_results_twice(c: NpmConfig, v: Option<String>)
    ensures
        with_expect_results(with_expect_results(c, v), v) == with_expect_results(c, v),
{
    assert(with_expect_results(c, v).expect_results == Some(bool_setting(false, v))) by {
        reveal(with_expect_results);
    }
    lemma_with_expect_results_fixed(with_expect_results(c, v), v);
}

proof fn lemma_with_fetch_retries_fixed(d: NpmConfig, v: Option<String>)
    requires
        int_setting(d.fetch_retries, v) == d.fetch_retries,
    ensures
        with_fetch_retries(d, v) == d,
{
    reveal(with_fetch_retries);
}

proof fn lemma_with_fetch_retries_twice(c: NpmConfig, v: Option<String>)
    ensures
        with_fetch_retries(with_fetch_retries(c, v), v) == with_fetch_retries(c, v),
{
    assert(with_fetch_retries(c, v).fetch_retries == int_setting(c.fetch_retries, v)) by {
        reveal(with_fetch_retries);
    }
    lemma_with_fetch_retries_fixed(with_fetch_retries(c, v), v);
}

proof fn lemma_with_fetch_retry_factor_fixed(d: NpmConfig, v: Option<String>)
    requires
        int_setting(d.fetch_retry_factor, v) == d.fetch_retry_factor,
    ensures
        with_fetch_retry_factor(d, v) == d,
{
    reveal(with_fetch_retry_factor);
}

proof fn lemma_with_fetch_retry_factor_twice(c: NpmConfig, v: Option<String>)
    ensures
        with_fetch_retry_factor(with_fetch_retry_factor(c, v), v) == with_fetch_retry_factor(c, v),
{
    assert(with_fetch_retry_factor(c, v).fetch_retry_factor == int_setting(c.fetch_retry_factor, v)) by {
        reveal(with_fetch_retry_factor);
    }
    lemma_with_fetch_retry_factor_fixed(with_fetch_retry_factor(c, v), v);
}

proof fn lemma_with_fetch_retry_maxtimeout_fixed(d: NpmConfig, v: Option<String>)
    requires
        int_setting(d.fetch_retry_maxtimeout, v) == d.fetch_retry_maxtimeout,
    ensures
        with_fetch_retry_maxtimeout(d, v) == d,
{
    reveal(with_fetch_retry_maxtimeout);
}

proof fn lemma_with_fetch_retry_maxtimeout_twice(c: NpmConfig, v: Option<String>)
    ensures
        with_fetch_retry_maxtimeout(with_fetch_retry_maxtimeout(c, v), v) == with_fetch_retry_maxtimeout(c, v),
{
    assert(with_fetch_retry_maxtimeout(c, v).fetch_retry_maxtimeout == int_setting(c.fetch_retry_maxtimeout, v)) by {
        reveal(with_fetch_retry_maxtimeout);
    }
    lemma_with_fetch_retry_maxtimeout_fixed(with_fetch_retry_maxtimeout(c, v), v);
}

proof fn lemma_with_fetch_retry_mintimeout_fixed(d: NpmConfig, v: Option<String>)
    requires
        int_setting(d.fetch_retry_mintimeout, v) == d.fetch_retry_mintimeout,
    ensures
        with_fetch_retry_mintimeout(d, v) == d,
{
    reveal(with_fetch_retry_mintimeout);
}

proof fn lemma_with_fetch_retry_mintimeout_twice(c: NpmConfig, v: Option<String>)
    ensures
        with_fetch_retry_mintimeout(with_fetch_retry_mintimeout(c, v), v) == with_fetch_retry_mintimeout(c, v),
{
    assert(with_fetch_retry_mintimeout(c, v).fetch_retry_mintimeout == int_setting(c.fetch_retry_mintimeout, v)) by {
        reveal(with_fetch_retry_mintimeout);
    }
    lemma_with_fetch_retry_mintimeout_fixed(with_fetch_retry_mintimeout(c, v), v);
}

proof fn lemma_with_fetch_timeout_fixed(d: NpmConfig, v: Option<String>)
    requires
        int_setting(d.fetch_timeout, v) == d.fetch_timeout,
    ensures
        with_fetch_timeout(d, v) == d,
{
    reveal(with_fetch_timeout);
}

proof fn lemma_with_fetch_timeout_twice(c: NpmConfig, v: Option<String>)
    ensures
        with_fetch_timeout(with_fetch_timeout(c, v), v) == with_fetch_timeout(c, v),
{
    assert(with_fetch_timeout(c, v).fetch_timeout == int_setting(c.fetch_timeout, v)) by {
        reveal(with_fetch_timeout);
    }
    lemma_with_fetch_timeout_fixed(with_fetch_timeout(c, v), v);
}

proof fn lemma_with_force_fixed(d: NpmConfig, v: Option<String>)
    requires
        bool_setting(d.force, v) == d.force,
    ensures
        with_force(d, v) == d,
{
    reveal(with_force);
}

proof fn lemma_with_force_twice(c: NpmConfig, v: Option<String>)
    ensures
        with_force(with_force(c, v), v) == with_force(c, v),
{
    assert(with_force(c, v).force == bool_setting(c.force, v)) by {
        reveal(with_force);
    }
    lemma_with_force_fixed(with_force(c, v), v);
}

proof fn lemma_with_foreground_scripts_fixed(d: NpmConfig, v: Option<String>)
    requires
        bool_setting(d.foreground_scripts, v) == d.foreground_scripts,
    ensures
        with_foreground_scripts(d, v) == d,
{
    reveal(with_foreground_scripts);
}

proof fn lemma_with_foreground_scripts_twice(c: NpmConfig, v: Option<String>)
    ensures
        with_foreground_scripts(with_foreground_scripts(c, v), v) == with_foreground_scripts(c, v),
{
    assert(with_foreground_scripts(c, v).foreground_scripts == bool_setting(c.foreground_scripts, v)) by {
        reveal(with_foreground_scripts);
    }
    lemma_with_foreground_scripts_fixed(with_foreground_scripts(c, v), v);
}

proof fn lemma_with_format_package_lock_fixed(d: NpmConfig, v: Option<String>)
    requires
        bool_setting(d.format_package_lock, v) == d.format_package_lock,
    ensures
        with_format_package_lock(d, v) == d,
{
    reveal(with_format_package_lock);
}

proof fn lemma_with_format_package_lock_twice(c: NpmConfig, v: Option<String>)
    ensures
        with_format_package_lock(with_format_package_lock(c, v), v) == with_format_package_lock(c, v),
{
    assert(with_format_package_lock(c, v).format_package_lock == bool_setting(c.format_package_lock, v)) by {
        reveal(with_format_package_lock);
    }
    lemma_with_format_package_lock_fixed(with_format_package_lock(c, v), v);
}

proof fn lemma_with_fund_fixed(d: NpmConfig, v: Option<String>)
    requires
        bool_setting(d.fund, v) == d.fund,
    ensures
        with_fund(d, v) == d,
{
    reveal(with_fund);
}

proof fn lemma_with_fund_twice(c: NpmConfig, v: Option<String>)
    ensures
        with_fund(with_fund(c, v), v) == with_fund(c, v),
{
    assert(with_fund(c, v).fund == bool_setting(c.fund, v)) by {
        reveal(with_fund);
    }
    lemma_with_fund_fixed(with_fund(c, v), v);
}

proof fn lemma_with_git_fixed(d: NpmConfig, v: Option<String>)
    requires
        set_text_setting(d.git, v) == d.git,
    ensures
        with_git(d, v) == d,
{
    reveal(with_git);
}

proof fn lemma_with_git_twice(c: NpmConfig, v: Option<String>)
    ensures
        with_git(with_git(c, v), v) == with_git(c, v),
{
    assert(with_git(c, v).git == set_text_setting(c.git, v)) by {
        reveal(with_git);
    }
    lemma_with_git_fixed(with_git(c, v), v);
}

proof fn lemma_with_git_tag_version_fixed(d: NpmConfig, v: Option<String>)
    requires
        bool_setting(d.git_tag_version, v) == d.git_tag_version,
    ensures
        with_git_tag_version(d, v) == d,
{
    reveal(with_git_tag_version);
}

proof fn lemma_with_git_tag_version_twice(c: NpmConfig, v: Option<String>)
    ensures
        with_git_tag_version(with_git_tag_version(c, v), v) == with_git_tag_version(c, v),
{
    assert(with_git_tag_version(c, v).git_tag_version == bool_setting(c.git_tag_version, v)) by {
        reveal(with_git_tag_version);
    }
    lemma_with_git_tag_version_fixed(with_git_tag_version(c, v), v);
}

proof fn lemma_with_global_fixed(d: NpmConfig, v: Option<String>)
    requires
        bool_setting(d.global, v) == d.global,
    ensures
        with_global(d, v) == d,
{
    reveal(with_global);
}

proof fn lemma_with_global_twice(c: NpmConfig, v: Option<String>)
    ensures
        with_global(with_global(c, v), v) == with_global(c, v),
{
    assert(with_global(c, v).global == bool_setting(c.global, v)) by {
        reveal(with_global);
    }
    lemma_with_global_fixed(with_global(c, v), v);
}

proof fn lemma_with_globalconfig_fixed(d: NpmConfig, v: Option<String>)
    requires
        text_setting(d.globalconfig, v) == d.globalconfig,
    ensures
        with_globalconfig(d, v) == d,
{
    reveal(with_globalconfig);
}

proof fn lemma_with_globalconfig_twice(c: NpmConfig, v: Option<String>)
    ensures
        with_globalconfig(with_globalconfig(c, v), v) == with_globalconfig(c, v),
{
    assert(with_globalconfig(c, v).globalconfig == text_setting(c.globalconfig, v)) by {
        reveal(with_globalconfig);
    }
    lemma_with_globalconfig_fixed(with_globalconfig(c, v), v);
}

proof fn lemma_with_heading_fixed(d: NpmConfig, v: Option<String>)
    requires
        set_text_setting(d.heading, v) == d.heading,
    ensures
        with_heading(d, v) == d,
{
    reveal(with_heading);
}

proof fn lemma_with_heading_twice(c: NpmConfig, v: Option<String>)
    ensures
        with_heading(with_heading(c, v), v) == with_heading(c, v),
{
    assert(with_heading(c, v).heading == set_text_setting(c.heading, v)) by {
        reveal(with_heading);
    }
    lemma_with_heading_fixed(with_heading(c, v), v);
}

proof fn lemma_with_https_proxy_fixed(d: NpmConfig, v: Option<String>)
    requires
        text_setting(d.https_proxy, v) == d.https_proxy,
    ensures
        with_https_proxy(d, v) == d,
{
    reveal(with_https_proxy);
}

proof fn lemma_with_https_proxy_twice(c: NpmConfig, v: Option<String>)
    ensures
        with_https_proxy(with_https_proxy(c, v), v) == with_https_proxy(c, v),
{
    assert(with_https_proxy(c, v).https_proxy == text_setting(c.https_proxy, v)) by {
        reveal(with_https_proxy);
    }
    lemma_with_https_proxy_fixed(with_https_proxy(c, v), v);
}

proof fn lemma_with_if_present_fixed(d: NpmConfig, v: Option<String>)
    requires
        bool_setting(d.if_present, v) == d.if_present,
    ensures
        with_if_present(d, v) == d,
{
    reveal(with_if_present);
}

proof fn lemma_with_if_present_twice(c: NpmConfig, v: Option<String>)
    ensures
        with_if_present(with_if_present(c, v), v) == with_if_present(c, v),
{
    assert(with_if_present(c, v).if_present == bool_setting(c.if_present, v)) by {
        reveal(with_if_present);
    }
    lemma_with_if_present_fixed(with_if_present(c, v), v);
}

proof fn lemma_with_ignore_scripts_fixed(d: NpmConfig, v: Option<String>)
    requires
        bool_setting(d.ignore_scripts, v) == d.ignore_scripts,
    ensures
        with_ignore_scripts(d, v) == d,
{
    reveal(with_ignore_scripts);
}

proof fn lemma_with_ignore_scripts_twice(c: NpmConfig, v: Option<String>)
    ensures
        with_ignore_scripts(with_ignore_scripts(c, v), v) == with_ignore_scripts(c, v),
{
    assert(with_ignore_scripts(c, v).ignore_scripts == bool_setting(c.ignore_scripts, v)) by {
        reveal(with_ignore_scripts);
    }
    lemma_with_ignore_scripts_fixed(with_ignore_scripts(c, v), v);
}

proof fn lemma_with_included_fixed(d: NpmConfig, v: Option<String>)
    requires
        include_setting(d.included, v) == d.included,
    ensures
        with_included(d, v) == d,
{
    reveal(with_included);
}

proof fn lemma_with_included_twice(c: NpmConfig, v: Option<String>)
    ensures
        with_included(with_included(c, v), v) == with_included(c, v),
{
    assert(with_included(c, v).included == include_setting(c.included, v)) by {
        reveal(with_included);
    }
    lemma_with_included_fixed(with_included(c, v), v);
}

proof fn lemma_with_include_staged_fixed(d: NpmConfig, v: Option<String>)
    requires
        bool_setting(d.include_staged, v) == d.include_staged,
    ensures
        with_include_staged(d, v) == d,
{
    reveal(with_include_staged);
}

proof fn lemma_with_include_staged_twice(c: NpmConfig, v: Option<String>)
    ensures
        with_include_staged(with_include_staged(c, v), v) == with_include_staged(c, v),
{
    assert(with_include_staged(c, v).include_staged == bool_setting(c.include_staged, v)) by {
        reveal(with_include_staged);
    }
    lemma_with_include_staged_fixed(with_include_staged(c, v), v);
}

proof fn lemma_with_include_workspace_root_fixed(d: NpmConfig, v: Option<String>)
    requires
        bool_setting(d.include_workspace_root, v) == d.include_workspace_root,
    ensures
        with_include_workspace_root(d, v) == d,
{
    reveal(with_include_workspace_root);
}

proof fn lemma_with_include_workspace_root_twice(c: NpmConfig, v: Option<String>)
    ensures
        with_include_workspace_root(with_include_workspace_root(c, v), v) == with_include_workspace_root(c, v),
{
    assert(with_include_workspace_root(c, v).include_workspace_root == bool_setting(c.include_workspace_root, v)) by {
        reveal(with_include_workspace_root);
    }
    lemma_with_include_workspace_root_fixed(with_include_workspace_root(c, v), v);
}

proof fn lemma_with_init_author_email_fixed(d: NpmConfig, v: Option<String>)
    requires
        text_setting(d.init_author_email, v) == d.init_author_email,
    ensures
        with_init_author_email(d, v) == d,
{
    reveal(with_init_author_email);
}

proof fn lemma_with_init_author_email_twice(c: NpmConfig, v: Option<String>)
    ensures
        with_init_author_email(with_init_author_email(c, v), v) == with_init_author_email(c, v),
{
    assert(with_init_author_email(c, v).init_author_email == text_setting(c.init_author_email, v)) by {
        reveal(with_init_author_email);
    }
    lemma_with_init_author_email_fixed(with_init_author_email(c, v), v);
}

proof fn lemma_with_init_author_name_fixed(d: NpmConfig, v: Option<String>)
    requires
        text_setting(d.init_author_name, v) == d.init_author_name,
    ensures
        with_init_author_name(d, v) == d,
{
    reveal(with_init_author_name);
}

proof fn lemma_with_init_author_name_twice(c: NpmConfig, v: Option<String>)
    ensures
        with_init_author_name(with_init_author_name(c, v), v) == with_init_author_name(c, v),
{
    assert(with_init_author_name(c, v).init_author_name == text_setting(c.init_author_name, v)) by {
        reveal(with_init_author_name);
    }
    lemma_with_init_author_name_fixed(with_init_author_name(c, v), v);
}

proof fn lemma_with_init_author_url_fixed(d: NpmConfig, v: Option<String>)
    requires
        text_setting(d.init_author_url, v) == d.init_author_url,
    ensures
        with_init_author_url(d, v) == d,
{
    reveal(with_init_author_url);
}

proof fn lemma_with_init_author_url_twice(c: NpmConfig, v: Option<String>)
    ensures
        with_init_author_url(with_init_author_url(c, v), v) == with_init_author_url(c, v),
{
    assert(with_init_author_url(c, v).init_author_url == text_setting(c.init_author_url, v)) by {
        reveal(with_init_author_url);
    }
    lemma_with_init_author_url_fixed(with_init_author_url(c, v), v);
}

proof fn lemma_with_init_license_fixed(d: NpmConfig, v: Option<String>)
    requires
        set_text_setting(d.init_license, v) == d.init_license,
    ensures
        with_init_license(d, v) == d,
{
    reveal(with_init_license);
}

proof fn lemma_with_init_license_twice(c: NpmConfig, v: Option<String>)
    ensures
        with_init_license(with_init_license(c, v), v) == with_init_license(c, v),
{
    assert(with_init_license(c, v).init_license == set_text_setting(c.init_license, v)) by {
        reveal(with_init_license);
    }
    lemma_with_init_license_fixed(with_init_license(c, v), v);
}

proof fn lemma_with_init_module_fixed(d: NpmConfig, v: Option<String>)
    requires
        set_text_setting(d.init_module, v) == d.init_module,
    ensures
        with_init_module(d, v) == d,
{
    reveal(with_init_module);
}

proof fn lemma_with_init_module_twice(c: NpmConfig, v: Option<String>)
    ensures
        with_init_module(with_init_module(c, v), v) == with_init_module(c, v),
{
    assert(with_init_module(c, v).init_module == set_text_setting(c.init_module, v)) by {
        reveal(with_init_module);
    }
    lemma_with_init_module_fixed(with_init_module(c, v), v);
}

proof fn lemma_with_init_version_fixed(d: NpmConfig, v: Option<String>)
    requires
        set_text_setting(d.init_version, v) == d.init_version,
    ensures
        with_init_version(d, v) == d,
{
    reveal(with_init_version);
}

proof fn lemma_with_init_version_twice(c: NpmConfig, v: Option<String>)
    ensures
        with_init_version(with_init_version(c, v), v) == with_init_version(c, v),
{
    assert(with_init_version(c, v).init_version == set_text_setting(c.init_version, v)) by {
        reveal(with_init_version);
    }
    lemma_with_init_version_fixed(with_init_version(c, v), v);
}

proof fn lemma_with_install_links_fixed(d: NpmConfig, v: Option<String>)
    requires
        bool_setting(d.install_links, v) == d.install_links,
    ensures
        with_install_links(d, v) == d,
{
    reveal(with_install_links);
}

proof fn lemma_with_install_links_twice(c: NpmConfig, v: Option<String>)
    ensures
        with_install_links(with_install_links(c, v), v) == with_install_links(c, v),
{
    assert(with_install_links(c, v).install_links == bool_setting(c.install_links, v)) by {
        reveal(with_install_links);
    }
    lemma_with_install_links_fixed(with_install_links(c, v), v);
}

proof fn lemma_with_install_strategy_fixed(d: NpmConfig, v: Option<String>)
    requires
        install_strategy_setting(d.install_strategy, v) == d.install_strategy,
    ensures
        with_install_strategy(d, v) == d,
{
    reveal(with_install_strategy);
}

proof fn lemma_with_install_strategy_twice(c: NpmConfig, v: Option<String>)
    ensures
        with_install_strategy(with_install_strategy(c, v), v) == with_install_strategy(c, v),
{
    assert(with_install_strategy(c, v).install_strategy == install_strategy_setting(c.install_strategy, v)) by {
        reveal(with_install_strategy);
    }
    lemma_with_install_strategy_fixed(with_install_strategy(c, v), v);
}

proof fn lemma_with_json_fixed(d: NpmConfig, v: Option<String>)
    requires
        bool_setting(d.json, v) == d.json,
    ensures
        with_json(d, v) == d,
{
    reveal(with_json);
}

proof fn lemma_with_json_twice(c: NpmConfig, v: Option<String>)
    ensures
        with_json(with_json(c, v), v) == with_json(c, v),
{
    assert(with_json(c, v).json == bool_setting(c.json, v)) by {
        reveal(with_json);
    }
    lemma_with_json_fixed(with_json(c, v), v);
}

proof fn lemma_with_legacy_peer_deps_fixed(d: NpmConfig, v: Option<String>)
    requires
        bool_setting(d.legacy_peer_deps, v) == d.legacy_peer_deps,
    ensures
        with_legacy_peer_deps(d, v) == d,
{
    reveal(with_legacy_peer_deps);
}

proof fn lemma_with_legacy_peer_deps_twice(c: NpmConfig, v: Option<String>)
    ensures
        with_legacy_peer_deps(with_legacy_peer_deps(c, v), v) == with_legacy_peer_deps(c, v),
{
    assert(with_legacy_peer_deps(c, v).legacy_peer_deps == bool_setting(c.legacy_peer_deps, v)) by {
        reveal(with_legacy_peer_deps);
    }
    lemma_with_legacy_peer_deps_fixed(with_legacy_peer_deps(c, v), v);
}

proof fn lemma_with_libc_fixed(d: NpmConfig, v: Option<String>)
    requires
        text_setting(d.libc, v) == d.libc,
    ensures
        with_libc(d, v) == d,
{
    reveal(with_libc);
}

proof fn lemma_with_libc_twice(c: NpmConfig, v: Option<String>)
    ensures
        with_libc(with_libc(c, v), v) == with_libc(c, v),
{
    assert(with_libc(c, v).libc == text_setting(c.libc, v)) by {
        reveal(with_libc);
    }
    lemma_with_libc_fixed(with_libc(c, v), v);
}

proof fn lemma_with_link_fixed(d: NpmConfig, v: Option<String>)
    requires
        bool_setting(d.link, v) == d.link,
    ensures
        with_link(d, v) == d,
{
    reveal(with_link);
}

proof fn lemma_with_link_twice(c: NpmConfig, v: Option<String>)
    ensures
        with_link(with_link(c, v), v) == with_link(c, v),
{
    assert(with_link(c, v).link == bool_setting(c.link, v)) by {
        reveal(with_link);
    }
    lemma_with_link_fixed(with_link(c, v), v);
}

proof fn lemma_with_local_address_fixed(d: NpmConfig, v: Option<String>)
    requires
        text_setting(d.local_address, v) == d.local_address,
    ensures
        with_local_address(d, v) == d,
{
    reveal(with_local_address);
}

proof fn lemma_with_local_address_twice(c: NpmConfig, v: Option<String>)
    ensures
        with_local_address(with_local_address(c, v), v) == with_local_address(c, v),
{
    assert(with_local_address(c, v).local_address == text_setting(c.local_address, v)) by {
        reveal(with_local_address);
    }
    lemma_with_local_address_fixed(with_local_address(c, v), v);
}

proof fn lemma_with_location_fixed(d: NpmConfig, v: Option<String>)
    requires
        location_setting(d._location, v) == d._location,
    ensures
        with_location(d, v) == d,
{
    reveal(with_location);
}

proof fn lemma_with_location_twice(c: NpmConfig, v: Option<String>)
    ensures
        with_location(with_location(c, v), v) == with_location(c, v),
{
    assert(with_location(c, v)._location == location_setting(c._location, v)) by {
        reveal(with_location);
    }
    lemma_with_location_fixed(with_location(c, v), v);
}

proof fn lemma_with_lockfile_version_fixed(d: NpmConfig, v: Option<String>)
    requires
        int_setting(d.lockfile_version, v) == d.lockfile_version,
    ensures
        with_lockfile_version(d, v) == d,
{
    reveal(with_lockfile_version);
}

proof fn lemma_with_lockfile_version_twice(c: NpmConfig, v: Option<String>)
    ensures
        with_lockfile_version(with_lockfile_version(c, v), v) == with_lockfile_version(c, v),
{
    assert(with_lockfile_version(c, v).lockfile_version == int_setting(c.lockfile_version, v)) by {
        reveal(with_lockfile_version);
    }
    lemma_with_lockfile_version_fixed(with_lockfile_version(c, v), v);
}

proof fn lemma_with_log_level_fixed(d: NpmConfig, v: Option<String>)
    requires
        log_level_setting(d._log_level, v) == d._log_level,
    ensures
        with_log_level(d, v) == d,
{
    reveal(with_log_level);
}

proof fn lemma_with_log_level_twice(c: NpmConfig, v: Option<String>)
    ensures
        with_log_level(with_log_level(c, v), v) == with_log_level(c, v),
{
    assert(with_log_level(c, v)._log_level == log_level_setting(c._log_level, v)) by {
        reveal(with_log_level);
    }
    lemma_with_log_level_fixed(with_log_level(c, v), v);
}

proof fn lemma_with_logs_dir_fixed(d: NpmConfig, v: Option<String>)
    requires
        set_text_setting(d.logs_dir, v) == d.logs_dir,
    ensures
        with_logs_dir(d, v) == d,
{
    reveal(with_logs_dir);
}

proof fn lemma_with_logs_dir_twice(c: NpmConfig, v: Option<String>)
    ensures
        with_logs_dir(with_logs_dir(c, v), v) == with_logs_dir(c, v),
{
    assert(with_logs_dir(c, v).logs_dir == set_text_setting(c.logs_dir, v)) by {
        reveal(with_logs_dir);
    }
    lemma_with_logs_dir_fixed(with_logs_dir(c, v), v);
}

proof fn lemma_with_logs_max_fixed(d: NpmConfig, v: Option<String>)
    requires
        int_setting(d.logs_max, v) == d.logs_max,
    ensures
        with_logs_max(d, v) == d,
{
    reveal(with_logs_max);
}

proof fn lemma_with_logs_max_twice(c: NpmConfig, v: Option<String>)
    ensures
        with_logs_max(with_logs_max(c, v), v) == with_logs_max(c, v),
{
    assert(with_logs_max(c, v).logs_max == int_setting(c.logs_max, v)) by {
        reveal(with_logs_max);
    }
    lemma_with_logs_max_fixed(with_logs_max(c, v), v);
}

proof fn lemma_with_long_fixed(d: NpmConfig, v: Option<String>)
    requires
        bool_setting(d.long, v) == d.long,
    ensures
        with_long(d, v) == d,
{
    reveal(with_long);
}

proof fn lemma_with_long_twice(c: NpmConfig, v: Option<String>)
    ensures
        with_long(with_long(c, v), v) == with_long(c, v),
{
    assert(with_long(c, v).long == bool_setting(c.long, v)) by {
        reveal(with_long);
    }
    lemma_with_long_fixed(with_long(c, v), v);
}

proof fn lemma_with_max_sockets_fixed(d: NpmConfig, v: Option<String>)
    requires
        int_setting(d.max_sockets, v) == d.max_sockets,
    ensures
        with_max_sockets(d, v) == d,
{
    reveal(with_max_sockets);
}

proof fn lemma_with_max_sockets_twice(c: NpmConfig, v: Option<String>)
    ensures
        with_max_sockets(with_max_sockets(c, v), v) == with_max_sockets(c, v),
{
    assert(with_max_sockets(c, v).max_sockets == int_setting(c.max_sockets, v)) by {
        reveal(with_max_sockets);
    }
    lemma_with_max_sockets_fixed(with_max_sockets(c, v), v);
}

proof fn lemma_with_message_fixed(d: NpmConfig, v: Option<String>)
    requires
        set_text_setting(d.message, v) == d.message,
    ensures
        with_message(d, v) == d,
{
    reveal(with_message);
}

proof fn lemma_with_message_twice(c: NpmConfig, v: Option<String>)
    ensures
        with_message(with_message(c, v), v) == with_message(c, v),
{
    assert(with_message(c, v).message == set_text_setting(c.message, v)) by {
        reveal(with_message);
    }
    lemma_with_message_fixed(with_message(c, v), v);
}

proof fn lemma_with_node_options_fixed(d: NpmConfig, v: Option<String>)
    requires
        text_setting(d.node_options, v) == d.node_options,
    ensures
        with_node_options(d, v) == d,
{
    reveal(with_node_options);
}

proof fn lemma_with_node_options_twice(c: NpmConfig, v: Option<String>)
    ensures
        with_node_options(with_node_options(c, v), v) == with_node_options(c, v),
{
    assert(with_node_options(c, v).node_options == text_setting(c.node_options, v)) by {
        reveal(with_node_options);
    }
    lemma_with_node_options_fixed(with_node_options(c, v), v);
}

proof fn lemma_with_no_proxy_fixed(d: NpmConfig, v: Option<String>)
    requires
        text_setting(d.no_proxy, v) == d.no_proxy,
    ensures
        with_no_proxy(d, v) == d,
{
    reveal(with_no_proxy);
}

proof fn lemma_with_no_proxy_twice(c: NpmConfig, v: Option<String>)
    ensures
        with_no_proxy(with_no_proxy(c, v), v) == with_no_proxy(c, v),
{
    assert(with_no_proxy(c, v).no_proxy == text_setting(c.no_proxy, v)) by {
        reveal(with_no_proxy);
    }
    lemma_with_no_proxy_fixed(with_no_proxy(c, v), v);
}

proof fn lemma_with_offline_fixed(d: NpmConfig, v: Option<String>)
    requires
        bool_setting(d.offline, v) == d.offline,
    ensures
        with_offline(d, v) == d,
{
    reveal(with_offline);
}

proof fn lemma_with_offline_twice(c: NpmConfig, v: Option<String>)
    ensures
        with_offline(with_offline(c, v), v) == with_offline(c, v),
{
    assert(with_offline(c, v).offline == bool_setting(c.offline, v)) by {
        reveal(with_offline);
    }
    lemma_with_offline_fixed(with_offline(c, v), v);
}

proof fn lemma_with_omit_fixed(d: NpmConfig, v: Option<String>)
    requires
        text_setting(d.omit, v) == d.omit,
    ensures
        with_omit(d, v) == d,
{
    reveal(with_omit);
}

proof fn lemma_with_omit_twice(c: NpmConfig, v: Option<String>)
    ensures
        with_omit(with_omit(c, v), v) == with_omit(c, v),
{
    assert(with_omit(c, v).omit == text_setting(c.omit, v)) by {
        reveal(with_omit);
    }
    lemma_with_omit_fixed(with_omit(c, v), v);
}

proof fn lemma_with_omit_lockfile_registry_resolved_fixed(d: NpmConfig, v: Option<String>)
    requires
        bool_setting(d.omit_lockfile_registry_resolved, v) == d.omit_lockfile_registry_resolved,
    ensures
        with_omit_lockfile_registry_resolved(d, v) == d,
{
    reveal(with_omit_lockfile_registry_resolved);
}

proof fn lemma_with_omit_lockfile_registry_resolved_twice(c: NpmConfig, v: Option<String>)
    ensures
        with_omit_lockfile_registry_resolved(with_omit_lockfile_registry_resolved(c, v), v) == with_omit_lockfile_registry_resolved(c, v),
{
    assert(with_omit_lockfile_registry_resolved(c, v).omit_lockfile_registry_resolved == bool_setting(c.omit_lockfile_registry_resolved, v)) by {
        reveal(with_omit_lockfile_registry_resolved);
    }
    lemma_with_omit_lockfile_registry_resolved_fixed(with_omit_lockfile_registry_resolved(c, v), v);
}

proof fn lemma_with_os_fixed(d: NpmConfig, v: Option<String>)
    requires
        text_setting(d.os, v) == d.os,
    ensures
        with_os(d, v) == d,
{
    reveal(with_os);
}

proof fn lemma_with_os_twice(c: NpmConfig, v: Option<String>)
    ensures
        with_os(with_os(c, v), v) == with_os(c, v),
{
    assert(with_os(c, v).os == text_setting(c.os, v)) by {
        reveal(with_os);
    }
    lemma_with_os_fixed(with_os(c, v), v);
}

proof fn lemma_with_otp_fixed(d: NpmConfig, v: Option<String>)
    requires
        text_setting(d.otp, v) == d.otp,
    ensures
        with_otp(d, v) == d,
{
    reveal(with_otp);
}

proof fn lemma_with_otp_twice(c: NpmConfig, v: Option<String>)
    ensures
        with_otp(with_otp(c, v), v) == with_otp(c, v),
{
    assert(with_otp(c, v).otp == text_setting(c.otp, v)) by {
        reveal(with_otp);
    }
    lemma_with_otp_fixed(with_otp(c, v), v);
}

proof fn lemma_with_pack_destination_fixed(d: NpmConfig, v: Option<String>)
    requires
        text_setting(d.pack_destination, v) == d.pack_destination,
    ensures
        with_pack_destination(d, v) == d,
{
    reveal(with_pack_destination);
}

proof fn lemma_with_pack_destination_twice(c: NpmConfig, v: Option<String>)
    ensures
        with_pack_destination(with_pack_destination(c, v), v) == with_pack_destination(c, v),
{
    assert(with_pack_destination(c, v).pack_destination == text_setting(c.pack_destination, v)) by {
        reveal(with_pack_destination);
    }
    lemma_with_pack_destination_fixed(with_pack_destination(c, v), v);
}

proof fn lemma_with_package_fixed(d: NpmConfig, v: Option<String>)
    requires
        set_text_setting(d.package, v) == d.package,
    ensures
        with_package(d, v) == d,
{
    reveal(with_package);
}

proof fn lemma_with_package_twice(c: NpmConfig, v: Option<String>)
    ensures
        with_package(with_package(c, v), v) == with_package(c, v),
{
    assert(with_package(c, v).package == set_text_setting(c.package, v)) by {
        reveal(with_package);
    }
    lemma_with_package_fixed(with_package(c, v), v);
}

proof fn lemma_with_package_lock_fixed(d: NpmConfig, v: Option<String>)
    requires
        bool_setting(d.package_lock, v) == d.package_lock,
    ensures
        with_package_lock(d, v) == d,
{
    reveal(with_package_lock);
}

proof fn lemma_with_package_lock_twice(c: NpmConfig, v: Option<String>)
    ensures
        with_package_lock(with_package_lock(c, v), v) == with_package_lock(c, v),
{
    assert(with_package_lock(c, v).package_lock == bool_setting(c.package_lock, v)) by {
        reveal(with_package_lock);
    }
    lemma_with_package_lock_fixed(with_package_lock(c, v), v);
}

proof fn lemma_with_package_lock_only_fixed(d: NpmConfig, v: Option<String>)
    requires
        bool_setting(d.package_lock_only, v) == d.package_lock_only,
    ensures
        with_package_lock_only(d, v) == d,
{
    reveal(with_package_lock_only);
}

proof fn lemma_with_package_lock_only_twice(c: NpmConfig, v: Option<String>)
    ensures
        with_package_lock_only(with_package_lock_only(c, v), v) == with_package_lock_only(c, v),
{
    assert(with_package_lock_only(c, v).package_lock_only == bool_setting(c.package_lock_only, v)) by {
        reveal(with_package_lock_only);
    }
    lemma_with_package_lock_only_fixed(with_package_lock_only(c, v), v);
}

proof fn lemma_with_parseable_fixed(d: NpmConfig, v: Option<String>)
    requires
        bool_setting(d.parseable, v) == d.parseable,
    ensures
        with_parseable(d, v) == d,
{
    reveal(with_parseable);
}

proof fn lemma_with_parseable_twice(c: NpmConfig, v: Option<String>)
    ensures
        with_parseable(with_parseable(c, v), v) == with_parseable(c, v),
{
    assert(with_parseable(c, v).parseable == bool_setting(c.parseable, v)) by {
        reveal(with_parseable);
    }
    lemma_with_parseable_fixed(with_parseable(c, v), v);
}

proof fn lemma_with_prefer_dedupe_fixed(d: NpmConfig, v: Option<String>)
    requires
        bool_setting(d.prefer_dedupe, v) == d.prefer_dedupe,
    ensures
        with_prefer_dedupe(d, v) == d,
{
    reveal(with_prefer_dedupe);
}

proof fn lemma_with_prefer_dedupe_twice(c: NpmConfig, v: Option<String>)
    ensures
        with_prefer_dedupe(with_prefer_dedupe(c, v), v) == with_prefer_dedupe(c, v),
{
    assert(with_prefer_dedupe(c, v).prefer_dedupe == bool_setting(c.prefer_dedupe, v)) by {
        reveal(with_prefer_dedupe);
    }
    lemma_with_prefer_dedupe_fixed(with_prefer_dedupe(c, v), v);
}

proof fn lemma_with_prefer_offline_fixed(d: NpmConfig, v: Option<String>)
    requires
        bool_setting(d.prefer_offline, v) == d.prefer_offline,
    ensures
        with_prefer_offline(d, v) == d,
{
    reveal(with_prefer_offline);
}

proof fn lemma_with_prefer_offline_twice(c: NpmConfig, v: Option<String>)
    ensures
        with_prefer_offline(with_prefer_offline(c, v), v) == with_prefer_offline(c, v),
{
    assert(with_prefer_offline(c, v).prefer_offline == bool_setting(c.prefer_offline, v)) by {
        reveal(with_prefer_offline);
    }
    lemma_with_prefer_offline_fixed(with_prefer_offline(c, v), v);
}

proof fn lemma_with_prefer_online_fixed(d: NpmConfig, v: Option<String>)
    requires
        bool_setting(d.prefer_online, v) == d.prefer_online,
    ensures
        with_prefer_online(d, v) == d,
{
    reveal(with_prefer_online);
}

proof fn lemma_with_prefer_online_twice(c: NpmConfig, v: Option<String>)
    ensures
        with_prefer_online(with_prefer_online(c, v), v) == with_prefer_online(c, v),
{
    assert(with_prefer_online(c, v).prefer_online == bool_setting(c.prefer_online, v)) by {
        reveal(with_prefer_online);
    }
    lemma_with_prefer_online_fixed(with_prefer_online(c, v), v);
}

proof fn lemma_with_prefix_fixed(d: NpmConfig, v: Option<String>)
    requires
        set_text_setting(d.prefix, v) == d.prefix,
    ensures
        with_prefix(d, v) == d,
{
    reveal(with_prefix);
}

proof fn lemma_with_prefix_twice(c: NpmConfig, v: Option<String>)
    ensures
        with_prefix(with_prefix(c, v), v) == with_prefix(c, v),
{
    assert(with_prefix(c, v).prefix == set_text_setting(c.prefix, v)) by {
        reveal(with_prefix);
    }
    lemma_with_prefix_fixed(with_prefix(c, v), v);
}

proof fn lemma_with_preid_fixed(d: NpmConfig, v: Option<String>)
    requires
        text_setting(d.preid, v) == d.preid,
    ensures
        with_preid(d, v) == d,
{
    reveal(with_preid);
}

proof fn lemma_with_preid_twice(c: NpmConfig, v: Option<String>)
    ensures
        with_preid(with_preid(c, v), v) == with_preid(c, v),
{
    assert(with_preid(c, v).preid == text_setting(c.preid, v)) by {
        reveal(with_preid);
    }
    lemma_with_preid_fixed(with_preid(c, v), v);
}

proof fn lemma_with_progress_fixed(d: NpmConfig, v: Option<String>)
    requires
        bool_setting(d.progress, v) == d.progress,
    ensures
        with_progress(d, v) == d,
{
    reveal(with_progress);
}

proof fn lemma_with_progress_twice(c: NpmConfig, v: Option<String>)
    ensures
        with_progress(with_progress(c, v), v) == with_progress(c, v),
{
    assert(with_progress(c, v).progress == bool_setting(c.progress, v)) by {
        reveal(with_progress);
    }
    lemma_with_progress_fixed(with_progress(c, v), v);
}

proof fn lemma_with_provenance_fixed(d: NpmConfig, v: Option<String>)
    requires
        bool_setting(d.provenance, v) == d.provenance,
    ensures
        with_provenance(d, v) == d,
{
    reveal(with_provenance);
}

proof fn lemma_with_provenance_twice(c: NpmConfig, v: Option<String>)
    ensures
        with_provenance(with_provenance(c, v), v) == with_provenance(c, v),
{
    assert(with_provenance(c, v).provenance == bool_setting(c.provenance, v)) by {
        reveal(with_provenance);
    }
    lemma_with_provenance_fixed(with_provenance(c, v), v);
}

proof fn lemma_with_provenance_file_fixed(d: NpmConfig, v: Option<String>)
    requires
        text_setting(d.provenance_file, v) == d.provenance_file,
    ensures
        with_provenance_file(d, v) == d,
{
    reveal(with_provenance_file);
}

proof fn lemma_with_provenance_file_twice(c: NpmConfig, v: Option<String>)
    ensures
        with_provenance_file(with_provenance_file(c, v), v) == with_provenance_file(c, v),
{
    assert(with_provenance_file(c, v).provenance_file == text_setting(c.provenance_file, v)) by {
        reveal(with_provenance_file);
    }
    lemma_with_provenance_file_fixed(with_provenance_file(c, v), v);
}

proof fn lemma_with_proxy_fixed(d: NpmConfig, v: Option<String>)
    requires
        text_setting(d.proxy, v) == d.proxy,
    ensures
        with_proxy(d, v) == d,
{
    reveal(with_proxy);
}

proof fn lemma_with_proxy_twice(c: NpmConfig, v: Option<String>)
    ensures
        with_proxy(with_proxy(c, v), v) == with_proxy(c, v),
{
    assert(with_proxy(c, v).proxy == text_setting(c.proxy, v)) by {
        reveal(with_proxy);
    }
    lemma_with_proxy_fixed(with_proxy(c, v), v);
}

proof fn lemma_with_read_only_fixed(d: NpmConfig, v: Option<String>)
    requires
        bool_setting(d.read_only, v) == d.read_only,
    ensures
        with_read_only(d, v) == d,
{
    reveal(with_read_only);
}

proof fn lemma_with_read_only_twice(c: NpmConfig, v: Option<String>)
    ensures
        with_read_only(with_read_only(c, v), v) == with_read_only(c, v),
{
    assert(with_read_only(c, v).read_only == bool_setting(c.read_only, v)) by {
        reveal(with_read_only);
    }
    lemma_with_read_only_fixed(with_read_only(c, v), v);
}

proof fn lemma_with_rebuild_bundle_fixed(d: NpmConfig, v: Option<String>)
    requires
        bool_setting(d.rebuild_bundle, v) == d.rebuild_bundle,
    ensures
        with_rebuild_bundle(d, v) == d,
{
    reveal(with_rebuild_bundle);
}

proof fn lemma_with_rebuild_bundle_twice(c: NpmConfig, v: Option<String>)
    ensures
        with_rebuild_bundle(with_rebuild_bundle(c, v), v) == with_rebuild_bundle(c, v),
{
    assert(with_rebuild_bundle(c, v).rebuild_bundle == bool_setting(c.rebuild_bundle, v)) by {
        reveal(with_rebuild_bundle);
    }
    lemma_with_rebuild_bundle_fixed(with_rebuild_bundle(c, v), v);
}

proof fn lemma_with_registry_fixed(d: NpmConfig, v: Option<String>)
    requires
        set_text_setting(d.registry, v) == d.registry,
    ensures
        with_registry(d, v) == d,
{
    reveal(with_registry);
}

proof fn lemma_with_registry_twice(c: NpmConfig, v: Option<String>)
    ensures
        with_registry(with_registry(c, v), v) == with_registry(c, v),
{
    assert(with_registry(c, v).registry == set_text_setting(c.registry, v)) by {
        reveal(with_registry);
    }
    lemma_with_registry_fixed(with_registry(c, v), v);
}

proof fn lemma_with_replace_registry_host_fixed(d: NpmConfig, v: Option<String>)
    requires
        set_text_setting(d.replace_registry_host, v) == d.replace_registry_host,
    ensures
        with_replace_registry_host(d, v) == d,
{
    reveal(with_replace_registry_host);
}

proof fn lemma_with_replace_registry_host_twice(c: NpmConfig, v: Option<String>)
    ensures
        with_replace_registry_host(with_replace_registry_host(c, v), v) == with_replace_registry_host(c, v),
{
    assert(with_replace_registry_host(c, v).replace_registry_host == set_text_setting(c.replace_registry_host, v)) by {
        reveal(with_replace_registry_host);
    }
    lemma_with_replace_registry_host_fixed(with_replace_registry_host(c, v), v);
}

proof fn lemma_with_save_fixed(d: NpmConfig, v: Option<String>)
    requires
        bool_setting(d.save, v) == d.save,
    ensures
        with_save(d, v) == d,
{
    reveal(with_save);
}

proof fn lemma_with_save_twice(c: NpmConfig, v: Option<String>)
    ensures
        with_save(with_save(c, v), v) == with_save(c, v),
{
    assert(with_save(c, v).save == bool_setting(c.save, v)) by {
        reveal(with_save);
    }
    lemma_with_save_fixed(with_save(c, v), v);
}

proof fn lemma_with_save_bundle_fixed(d: NpmConfig, v: Option<String>)
    requires
        bool_setting(d.save_bundle, v) == d.save_bundle,
    ensures
        with_save_bundle(d, v) == d,
{
    reveal(with_save_bundle);
}

proof fn lemma_with_save_bundle_twice(c: NpmConfig, v: Option<String>)
    ensures
        with_save_bundle(with_save_bundle(c, v), v) == with_save_bundle(c, v),
{
    assert(with_save_bundle(c, v).save_bundle == bool_setting(c.save_bundle, v)) by {
        reveal(with_save_bundle);
    }
    lemma_with_save_bundle_fixed(with_save_bundle(c, v), v);
}

proof fn lemma_with_save_dev_fixed(d: NpmConfig, v: Option<String>)
    requires
        bool_setting(d.save_dev, v) == d.save_dev,
    ensures
        with_save_dev(d, v) == d,
{
    reveal(with_save_dev);
}

proof fn lemma_with_save_dev_twice(c: NpmConfig, v: Option<String>)
    ensures
        with_save_dev(with_save_dev(c, v), v) == with_save_dev(c, v),
{
    assert(with_save_dev(c, v).save_dev == bool_setting(c.save_dev, v)) by {
        reveal(with_save_dev);
    }
    lemma_with_save_dev_fixed(with_save_dev(c, v), v);
}

proof fn lemma_with_save_exact_fixed(d: NpmConfig, v: Option<String>)
    requires
        bool_setting(d.save_exact, v) == d.save_exact,
    ensures
        with_save_exact(d, v) == d,
{
    reveal(with_save_exact);
}

proof fn lemma_with_save_exact_twice(c: NpmConfig, v: Option<String>)
    ensures
        with_save_exact(with_save_exact(c, v), v) == with_save_exact(c, v),
{
    assert(with_save_exact(c, v).save_exact == bool_setting(c.save_exact, v)) by {
        reveal(with_save_exact);
    }
    lemma_with_save_exact_fixed(with_save_exact(c, v), v);
}

proof fn lemma_with_save_optional_fixed(d: NpmConfig, v: Option<String>)
    requires
        bool_setting(d.save_optional, v) == d.save_optional,
    ensures
        with_save_optional(d, v) == d,
{
    reveal(with_save_optional);
}

proof fn lemma_with_save_optional_twice(c: NpmConfig, v: Option<String>)
    ensures
        with_save_optional(with_save_optional(c, v), v) == with_save_optional(c, v),
{
    assert(with_save_optional(c, v).save_optional == bool_setting(c.save_optional, v)) by {
        reveal(with_save_optional);
    }
    lemma_with_save_optional_fixed(with_save_optional(c, v), v);
}

proof fn lemma_with_save_peer_fixed(d: NpmConfig, v: Option<String>)
    requires
        bool_setting(d.save_peer, v) == d.save_peer,
    ensures
        with_save_peer(d, v) == d,
{
    reveal(with_save_peer);
}

proof fn lemma_with_save_peer_twice(c: NpmConfig, v: Option<String>)
    ensures
        with_save_peer(with_save_peer(c, v), v) == with_save_peer(c, v),
{
    assert(with_save_peer(c, v).save_peer == bool_setting(c.save_peer, v)) by {
        reveal(with_save_peer);
    }
    lemma_with_save_peer_fixed(with_save_peer(c, v), v);
}

proof fn lemma_with_save_prefix_fixed(d: NpmConfig, v: Option<String>)
    requires
        set_text_setting(d.save_prefix, v) == d.save_prefix,
    ensures
        with_save_prefix(d, v) == d,
{
    reveal(with_save_prefix);
}

proof fn lemma_with_save_prefix_twice(c: NpmConfig, v: Option<String>)
    ensures
        with_save_prefix(with_save_prefix(c, v), v) == with_save_prefix(c, v),
{
    assert(with_save_prefix(c, v).save_prefix == set_text_setting(c.save_prefix, v)) by {
        reveal(with_save_prefix);
    }
    lemma_with_save_prefix_fixed(with_save_prefix(c, v), v);
}

proof fn lemma_with_save_prod_fixed(d: NpmConfig, v: Option<String>)
    requires
        bool_setting(d.save_prod, v) == d.save_prod,
    ensures
        with_save_prod(d, v) == d,
{
    reveal(with_save_prod);
}

proof fn lemma_with_save_prod_twice(c: NpmConfig, v: Option<String>)
    ensures
        with_save_prod(with_save_prod(c, v), v) == with_save_prod(c, v),
{
    assert(with_save_prod(c, v).save_prod == bool_setting(c.save_prod, v)) by {
        reveal(with_save_prod);
    }
    lemma_with_save_prod_fixed(with_save_prod(c, v), v);
}

proof fn lemma_with_sbom_format_fixed(d: NpmConfig, v: Option<String>)
    requires
        text_setting(d.sbom_format, v) == d.sbom_format,
    ensures
        with_sbom_format(d, v) == d,
{
    reveal(with_sbom_format);
}

proof fn lemma_with_sbom_format_twice(c: NpmConfig, v: Option<String>)
    ensures
        with_sbom_format(with_sbom_format(c, v), v) == with_sbom_format(c, v),
{
    assert(with_sbom_format(c, v).sbom_format == text_setting(c.sbom_format, v)) by {
        reveal(with_sbom_format);
    }
    lemma_with_sbom_format_fixed(with_sbom_format(c, v), v);
}

proof fn lemma_with_sbom_type_fixed(d: NpmConfig, v: Option<String>)
    requires
        set_text_setting(d.sbom_type, v) == d.sbom_type,
    ensures
        with_sbom_type(d, v) == d,
{
    reveal(with_sbom_type);
}

proof fn lemma_with_sbom_type_twice(c: NpmConfig, v: Option<String>)
    ensures
        with_sbom_type(with_sbom_type(c, v), v) == with_sbom_type(c, v),
{
    assert(with_sbom_type(c, v).sbom_type == set_text_setting(c.sbom_type, v)) by {
        reveal(with_sbom_type);
    }
    lemma_with_sbom_type_fixed(with_sbom_type(c, v), v);
}

proof fn lemma_with_scope_fixed(d: NpmConfig, v: Option<String>)
    requires
        text_setting(d.scope, v) == d.scope,
    ensures
        with_scope(d, v) == d,
{
    reveal(with_scope);
}

proof fn lemma_with_scope_twice(c: NpmConfig, v: Option<String>)
    ensures
        with_scope(with_scope(c, v), v) == with_scope(c, v),
{
    assert(with_scope(c, v).scope == text_setting(c.scope, v)) by {
        reveal(with_scope);
    }
    lemma_with_scope_fixed(with_scope(c, v), v);
}

proof fn lemma_with_script_shell_fixed(d: NpmConfig, v: Option<String>)
    requires
        set_text_setting(d.script_shell, v) == d.script_shell,
    ensures
        with_script_shell(d, v) == d,
{
    reveal(with_script_shell);
}

proof fn lemma_with_script_shell_twice(c: NpmConfig, v: Option<String>)
    ensures
        with_script_shell(with_script_shell(c, v), v) == with_script_shell(c, v),
{
    assert(with_script_shell(c, v).script_shell == set_text_setting(c.script_shell, v)) by {
        reveal(with_script_shell);
    }
    lemma_with_script_shell_fixed(with_script_shell(c, v), v);
}

proof fn lemma_with_search_exclude_fixed(d: NpmConfig, v: Option<String>)
    requires
        text_setting(d.search_exclude, v) == d.search_exclude,
    ensures
        with_search_exclude(d, v) == d,
{
    reveal(with_search_exclude);
}

proof fn lemma_with_search_exclude_twice(c: NpmConfig, v: Option<String>)
    ensures
        with_search_exclude(with_search_exclude(c, v), v) == with_search_exclude(c, v),
{
    assert(with_search_exclude(c, v).search_exclude == text_setting(c.search_exclude, v)) by {
        reveal(with_search_exclude);
    }
    lemma_with_search_exclude_fixed(with_search_exclude(c, v), v);
}

proof fn lemma_with_search_limit_fixed(d: NpmConfig, v: Option<String>)
    requires
        int_setting(d.search_limit, v) == d.search_limit,
    ensures
        with_search_limit(d, v) == d,
{
    reveal(with_search_limit);
}

proof fn lemma_with_search_limit_twice(c: NpmConfig, v: Option<String>)
    ensures
        with_search_limit(with_search_limit(c, v), v) == with_search_limit(c, v),
{
    assert(with_search_limit(c, v).search_limit == int_setting(c.search_limit, v)) by {
        reveal(with_search_limit);
    }
    lemma_with_search_limit_fixed(with_search_limit(c, v), v);
}

proof fn lemma_with_search_opts_fixed(d: NpmConfig, v: Option<String>)
    requires
        text_setting(d.search_opts, v) == d.search_opts,
    ensures
        with_search_opts(d, v) == d,
{
    reveal(with_search_opts);
}

proof fn lemma_with_search_opts_twice(c: NpmConfig, v: Option<String>)
    ensures
        with_search_opts(with_search_opts(c, v), v) == with_search_opts(c, v),
{
    assert(with_search_opts(c, v).search_opts == text_setting(c.search_opts, v)) by {
        reveal(with_search_opts);
    }
    lemma_with_search_opts_fixed(with_search_opts(c, v), v);
}

proof fn lemma_with_search_staleness_fixed(d: NpmConfig, v: Option<String>)
    requires
        int_setting(d.search_staleness, v) == d.search_staleness,
    ensures
        with_search_staleness(d, v) == d,
{
    reveal(with_search_staleness);
}

proof fn lemma_with_search_staleness_twice(c: NpmConfig, v: Option<String>)
    ensures
        with_search_staleness(with_search_staleness(c, v), v) == with_search_staleness(c, v),
{
    assert(with_search_staleness(c, v).search_staleness == int_setting(c.search_staleness, v)) by {
        reveal(with_search_staleness);
    }
    lemma_with_search_staleness_fixed(with_search_staleness(c, v), v);
}

proof fn lemma_with_shell_fixed(d: NpmConfig, v: Option<String>)
    requires
        set_text_setting(d.shell, v) == d.shell,
    ensures
        with_shell(d, v) == d,
{
    reveal(with_shell);
}

proof fn lemma_with_shell_twice(c: NpmConfig, v: Option<String>)
    ensures
        with_shell(with_shell(c, v), v) == with_shell(c, v),
{
    assert(with_shell(c, v).shell == set_text_setting(c.shell, v)) by {
        reveal(with_shell);
    }
    lemma_with_shell_fixed(with_shell(c, v), v);
}

proof fn lemma_with_sign_git_commit_fixed(d: NpmConfig, v: Option<String>)
    requires
        bool_setting(d.sign_git_commit, v) == d.sign_git_commit,
    ensures
        with_sign_git_commit(d, v) == d,
{
    reveal(with_sign_git_commit);
}

proof fn lemma_with_sign_git_commit_twice(c: NpmConfig, v: Option<String>)
    ensures
        with_sign_git_commit(with_sign_git_commit(c, v), v) == with_sign_git_commit(c, v),
{
    assert(with_sign_git_commit(c, v).sign_git_commit == bool_setting(c.sign_git_commit, v)) by {
        reveal(with_sign_git_commit);
    }
    lemma_with_sign_git_commit_fixed(with_sign_git_commit(c, v), v);
}

proof fn lemma_with_sign_git_tag_fixed(d: NpmConfig, v: Option<String>)
    requires
        bool_setting(d.sign_git_tag, v) == d.sign_git_tag,
    ensures
        with_sign_git_tag(d, v) == d,
{
    reveal(with_sign_git_tag);
}

proof fn lemma_with_sign_git_tag_twice(c: NpmConfig, v: Option<String>)
    ensures
        with_sign_git_tag(with_sign_git_tag(c, v), v) == with_sign_git_tag(c, v),
{
    assert(with_sign_git_tag(c, v).sign_git_tag == bool_setting(c.sign_git_tag, v)) by {
        reveal(with_sign_git_tag);
    }
    lemma_with_sign_git_tag_fixed(with_sign_git_tag(c, v), v);
}

proof fn lemma_with_strict_peer_deps_fixed(d: NpmConfig, v: Option<String>)
    requires
        bool_setting(d.strict_peer_deps, v) == d.strict_peer_deps,
    ensures
        with_strict_peer_deps(d, v) == d,
{
    reveal(with_strict_peer_deps);
}

proof fn lemma_with_strict_peer_deps_twice(c: NpmConfig, v: Option<String>)
    ensures
        with_strict_peer_deps(with_strict_peer_deps(c, v), v) == with_strict_peer_deps(c, v),
{
    assert(with_strict_peer_deps(c, v).strict_peer_deps == bool_setting(c.strict_peer_deps, v)) by {
        reveal(with_strict_peer_deps);
    }
    lemma_with_strict_peer_deps_fixed(with_strict_peer_deps(c, v), v);
}

proof fn lemma_with_strict_ssl_fixed(d: NpmConfig, v: Option<String>)
    requires
        bool_setting(d.strict_ssl, v) == d.strict_ssl,
    ensures
        with_strict_ssl(d, v) == d,
{
    reveal(with_strict_ssl);
}

proof fn lemma_with_strict_ssl_twice(c: NpmConfig, v: Option<String>)
    ensures
        with_strict_ssl(with_strict_ssl(c, v), v) == with_strict_ssl(c, v),
{
    assert(with_strict_ssl(c, v).strict_ssl == bool_setting(c.strict_ssl, v)) by {
        reveal(with_strict_ssl);
    }
    lemma_with_strict_ssl_fixed(with_strict_ssl(c, v), v);
}

proof fn lemma_with_tag_fixed(d: NpmConfig, v: Option<String>)
    requires
        set_text_setting(d.tag, v) == d.tag,
    ensures
        with_tag(d, v) == d,
{
    reveal(with_tag);
}

proof fn lemma_with_tag_twice(c: NpmConfig, v: Option<String>)
    ensures
        with_tag(with_tag(c, v), v) == with_tag(c, v),
{
    assert(with_tag(c, v).tag == set_text_setting(c.tag, v)) by {
        reveal(with_tag);
    }
    lemma_with_tag_fixed(with_tag(c, v), v);
}

proof fn lemma_with_tag_version_prefix_fixed(d: NpmConfig, v: Option<String>)
    requires
        set_text_setting(d.tag_version_prefix, v) == d.tag_version_prefix,
    ensures
        with_tag_version_prefix(d, v) == d,
{
    reveal(with_tag_version_prefix);
}

proof fn lemma_with_tag_version_prefix_twice(c: NpmConfig, v: Option<String>)
    ensures
        with_tag_version_prefix(with_tag_version_prefix(c, v), v) == with_tag_version_prefix(c, v),
{
    assert(with_tag_version_prefix(c, v).tag_version_prefix == set_text_setting(c.tag_version_prefix, v)) by {
        reveal(with_tag_version_prefix);
    }
    lemma_with_tag_version_prefix_fixed(with_tag_version_prefix(c, v), v);
}

proof fn lemma_with_timing_fixed(d: NpmConfig, v: Option<String>)
    requires
        bool_setting(d.timing, v) == d.timing,
    ensures
        with_timing(d, v) == d,
{
    reveal(with_timing);
}

proof fn lemma_with_timing_twice(c: NpmConfig, v: Option<String>)
    ensures
        with_timing(with_timing(c, v), v) == with_timing(c, v),
{
    assert(with_timing(c, v).timing == bool_setting(c.timing, v)) by {
        reveal(with_timing);
    }
    lemma_with_timing_fixed(with_timing(c, v), v);
}

proof fn lemma_with_umask_fixed(d: NpmConfig, v: Option<String>)
    requires
        int_setting(d.umask, v) == d.umask,
    ensures
        with_umask(d, v) == d,
{
    reveal(with_umask);
}

proof fn lemma_with_umask_twice(c: NpmConfig, v: Option<String>)
    ensures
        with_umask(with_umask(c, v), v) == with_umask(c, v),
{
    assert(with_umask(c, v).umask == int_setting(c.umask, v)) by {
        reveal(with_umask);
    }
    lemma_with_umask_fixed(with_umask(c, v), v);
}

proof fn lemma_with_unicode_fixed(d: NpmConfig, v: Option<String>)
    requires
        bool_setting(d.unicode, v) == d.unicode,
    ensures
        with_unicode(d, v) == d,
{
    reveal(with_unicode);
}

proof fn lemma_with_unicode_twice(c: NpmConfig, v: Option<String>)
    ensures
        with_unicode(with_unicode(c, v), v) == with_unicode(c, v),
{
    assert(with_unicode(c, v).unicode == bool_setting(c.unicode, v)) by {
        reveal(with_unicode);
    }
    lemma_with_unicode_fixed(with_unicode(c, v), v);
}

proof fn lemma_with_update_notifier_fixed(d: NpmConfig, v: Option<String>)
    requires
        bool_setting(d.update_notifier, v) == d.update_notifier,
    ensures
        with_update_notifier(d, v) == d,
{
    reveal(with_update_notifier);
}

proof fn lemma_with_update_notifier_twice(c: NpmConfig, v: Option<String>)
    ensures
        with_update_notifier(with_update_notifier(c, v), v) == with_update_notifier(c, v),
{
    assert(with_update_notifier(c, v).update_notifier == bool_setting(c.update_notifier, v)) by {
        reveal(with_update_notifier);
    }
    lemma_with_update_notifier_fixed(with_update_notifier(c, v), v);
}

proof fn lemma_with_usage_fixed(d: NpmConfig, v: Option<String>)
    requires
        bool_setting(d.usage, v) == d.usage,
    ensures
        with_usage(d, v) == d,
{
    reveal(with_usage);
}

proof fn lemma_with_usage_twice(c: NpmConfig, v: Option<String>)
    ensures
        with_usage(with_usage(c, v), v) == with_usage(c, v),
{
    assert(with_usage(c, v).usage == bool_setting(c.usage, v)) by {
        reveal(with_usage);
    }
    lemma_with_usage_fixed(with_usage(c, v), v);
}

proof fn lemma_with_user_agent_fixed(d: NpmConfig, v: Option<String>)
    requires
        set_text_setting(d.user_agent, v) == d.user_agent,
    ensures
        with_user_agent(d, v) == d,
{
    reveal(with_user_agent);
}

proof fn lemma_with_user_agent_twice(c: NpmConfig, v: Option<String>)
    ensures
        with_user_agent(with_user_agent(c, v), v) == with_user_agent(c, v),
{
    assert(with_user_agent(c, v).user_agent == set_text_setting(c.user_agent, v)) by {
        reveal(with_user_agent);
    }
    lemma_with_user_agent_fixed(with_user_agent(c, v), v);
}

proof fn lemma_with_user_config_fixed(d: NpmConfig, v: Option<String>)
    requires
        set_text_setting(d.user_config, v) == d.user_config,
    ensures
        with_user_config(d, v) == d,
{
    reveal(with_user_config);
}

proof fn lemma_with_user_config_twice(c: NpmConfig, v: Option<String>)
    ensures
        with_user_config(with_user_config(c, v), v) == with_user_config(c, v),
{
    assert(with_user_config(c, v).user_config == set_text_setting(c.user_config, v)) by {
        reveal(with_user_config);
    }
    lemma_with_user_config_fixed(with_user_config(c, v), v);
}

proof fn lemma_with_version_fixed(d: NpmConfig, v: Option<String>)
    requires
        bool_setting(d.version, v) == d.version,
    ensures
        with_version(d, v) == d,
{
    reveal(with_version);
}

proof fn lemma_with_version_twice(c: NpmConfig, v: Option<String>)
    ensures
        with_version(with_version(c, v), v) == with_version(c, v),
{
    assert(with_version(c, v).version == bool_setting(c.version, v)) by {
        reveal(with_version);
    }
    lemma_with_version_fixed(with_version(c, v), v);
}

proof fn lemma_with_versions_fixed(d: NpmConfig, v: Option<String>)
    requires
        bool_setting(d.versions, v) == d.versions,
    ensures
        with_versions(d, v) == d,
{
    reveal(with_versions);
}

proof fn lemma_with_versions_twice(c: NpmConfig, v: Option<String>)
    ensures
        with_versions(with_versions(c, v), v) == with_versions(c, v),
{
    assert(with_versions(c, v).versions == bool_setting(c.versions, v)) by {
        reveal(with_versions);
    }
    lemma_with_versions_fixed(with_versions(c, v), v);
}

proof fn lemma_with_viewer_fixed(d: NpmConfig, v: Option<String>)
    requires
        set_text_setting(d.viewer, v) == d.viewer,
    ensures
        with_viewer(d, v) == d,
{
    reveal(with_viewer);
}

proof fn lemma_with_viewer_twice(c: NpmConfig, v: Option<String>)
    ensures
        with_viewer(with_viewer(c, v), v) == with_viewer(c, v),
{
    assert(with_viewer(c, v).viewer == set_text_setting(c.viewer, v)) by {
        reveal(with_viewer);
    }
    lemma_with_viewer_fixed(with_viewer(c, v), v);
}

proof fn lemma_with_which_fixed(d: NpmConfig, v: Option<String>)
    requires
        optional_int_setting(d.which, v) == d.which,
    ensures
        with_which(d, v) == d,
{
    reveal(with_which);
}

proof fn lemma_with_which_twice(c: NpmConfig, v: Option<String>)
    ensures
        with_which(with_which(c, v), v) == with_which(c, v),
{
    assert(with_which(c, v).which == optional_int_setting(c.which, v)) by {
        reveal(with_which);
    }
    lemma_with_which_fixed(with_which(c, v), v);
}

proof fn lemma_with_workspace_fixed(d: NpmConfig, v: Option<String>)
    requires
        text_setting(d.workspace, v) == d.workspace,
    ensures
        with_workspace(d, v) == d,
{
    reveal(with_workspace);
}

proof fn lemma_with_workspace_twice(c: NpmConfig, v: Option<String>)
    ensures
        with_workspace(with_workspace(c, v), v) == with_workspace(c, v),
{
    assert(with_workspace(c, v).workspace == text_setting(c.workspace, v)) by {
        reveal(with_workspace);
    }
    lemma_with_workspace_fixed(with_workspace(c, v), v);
}

proof fn lemma_with_workspaces_fixed(d: NpmConfig, v: Option<String>)
    requires
        Some(bool_setting(false, v)) == d.workspaces,
    ensures
        with_workspaces(d, v) == d,
{
    reveal(with_workspaces);
}

proof fn lemma_with_workspaces_twice(c: NpmConfig, v: Option<String>)
    ensures
        with_workspaces(with_workspaces(c, v), v) == with_workspaces(c, v),
{
    assert(with_workspaces(c, v).workspaces == Some(bool_setting(false, v))) by {
        reveal(with_workspaces);
    }
    lemma_with_workspaces_fixed(with_workspaces(c, v), v);
}

proof fn lemma_with_workspaces_update_fixed(d: NpmConfig, v: Option<String>)
    requires
        bool_setting(d.workspaces_update, v) == d.workspaces_update,
    ensures
        with_workspaces_update(d, v) == d,
{
    reveal(with_workspaces_update);
}

proof fn lemma_with_workspaces_update_twice(c: NpmConfig, v: Option<String>)
    ensures
        with_workspaces_update(with_workspaces_update(c, v), v) == with_workspaces_update(c, v),
{
    assert(with_workspaces_update(c, v).workspaces_update == bool_setting(c.workspaces_update, v)) by {
        reveal(with_workspaces_update);
    }
    lemma_with_workspaces_update_fixed(with_workspaces_update(c, v), v);
}

proof fn lemma_with_yes_fixed(d: NpmConfig, v: Option<String>)
    requires
        Some(bool_setting(false, v)) == d.yes,
    ensures
        with_yes(d, v) == d,
{
    reveal(with_yes);
}

proof fn lemma_with_yes_twice(c: NpmConfig, v: Option<String>)
    ensures
        with_yes(with_yes(c, v), v) == with_yes(c, v),
{
    assert(with_yes(c, v).yes == Some(bool_setting(false, v))) by {
        reveal(with_yes);
    }
    lemma_with_yes_fixed(with_yes(c, v), v);
}

proof fn lemma_with_also_fixed(d: NpmConfig, v: Option<String>)
    requires
        text_setting(d.also, v) == d.also,
    ensures
        with_also(d, v) == d,
{
    reveal(with_also);
}

proof fn lemma_with_also_twice(c: NpmConfig, v: Option<String>)
    ensures
        with_also(with_also(c, v), v) == with_also(c, v),
{
    assert(with_also(c, v).also == text_setting(c.also, v)) by {
        reveal(with_also);
    }
    lemma_with_also_fixed(with_also(c, v), v);
}

proof fn lemma_with_cache_max_fixed(d: NpmConfig, v: Option<String>)
    requires
        int_setting(d.cache_max, v) == d.cache_max,
    ensures
        with_cache_max(d, v) == d,
{
    reveal(with_cache_max);
}

proof fn lemma_with_cache_max_twice(c: NpmConfig, v: Option<String>)
    ensures
        with_cache_max(with_cache_max(c, v), v) == with_cache_max(c, v),
{
    assert(with_cache_max(c, v).cache_max == int_setting(c.cache_max, v)) by {
        reveal(with_cache_max);
    }
    lemma_with_cache_max_fixed(with_cache_max(c, v), v);
}

proof fn lemma_with_cache_min_fixed(d: NpmConfig, v: Option<String>)
    requires
        int_setting(d.cache_min, v) == d.cache_min,
    ensures
        with_cache_min(d, v) == d,
{
    reveal(with_cache_min);
}

proof fn lemma_with_cache_min_twice(c: NpmConfig, v: Option<String>)
    ensures
        with_cache_min(with_cache_min(c, v), v) == with_cache_min(c, v),
{
    assert(with_cache_min(c, v).cache_min == int_setting(c.cache_min, v)) by {
        reveal(with_cache_min);
    }
    lemma_with_cache_min_fixed(with_cache_min(c, v), v);
}

proof fn lemma_with_cert_fixed(d: NpmConfig, v: Option<String>)
    requires
        text_setting(d.cert, v) == d.cert,
    ensures
        with_cert(d, v) == d,
{
    reveal(with_cert);
}

proof fn lemma_with_cert_twice(c: NpmConfig, v: Option<String>)
    ensures
        with_cert(with_cert(c, v), v) == with_cert(c, v),
{
    assert(with_cert(c, v).cert == text_setting(c.cert, v)) by {
        reveal(with_cert);
    }
    lemma_with_cert_fixed(with_cert(c, v), v);
}

/// Applying the same entry twice leaves the settings as applying it once:
/// every key replaces one setting by what the value makes of it, and the
/// value makes the same of what it made.
pub proof fn lemma_key_applied_idempotent(c: NpmConfig, k: Seq<char>, v: Option<String>)
    ensures
        key_applied(key_applied(c, k, v), k, v) == key_applied(c, k, v),
{
    match config_key_of(k) {
        Some(key) => lemma_key_effect_idempotent(c, key, v),
        None => {},
    }
}

#[verifier::spinoff_prover]
#[verifier::rlimit(80)]
proof fn lemma_key_effect_idempotent(c: NpmConfig, key: ConfigKey, v: Option<String>)
    ensures
        key_effect(key_effect(c, key, v), key, v) == key_effect(c, key, v),
{
    match key {
        ConfigKey::Auth => lemma_with_auth_twice(c, v),
        ConfigKey::Access => lemma_with_access_twice(c, v),
        ConfigKey::All => lemma_with_all_twice(c, v),
        ConfigKey::AllowSameVersion => lemma_with_allow_same_version_twice(c, v),
        ConfigKey::Audit => lemma_with_audit_twice(c, v),
        ConfigKey::AuditLevel => lemma_with_audit_level_twice(c, v),
        ConfigKey::AuthType => lemma_with_auth_type_twice(c, v),
        ConfigKey::Before => lemma_with_before_twice(c, v),
        ConfigKey::BinLinks => lemma_with_bin_links_twice(c, v),
        ConfigKey::Browser => lemma_with_browser_twice(c, v),
        ConfigKey::Ca => lemma_with_ca_twice(c, v),
        ConfigKey::Cache => lemma_with_cache_twice(c, v),
        ConfigKey::CaFile => lemma_with_ca_file_twice(c, v),
        ConfigKey::Call => lemma_with_call_twice(c, v),
        ConfigKey::Cidr => lemma_with_cidr_twice(c, v),
        ConfigKey::Color => lemma_with_color_twice(c, v),
        ConfigKey::CommitHooks => lemma_with_commit_hooks_twice(c, v),
        ConfigKey::Cpu => lemma_with_cpu_twice(c, v),
        ConfigKey::Depth => lemma_with_depth_twice(c, v),
        ConfigKey::Description => lemma_with_description_twice(c, v),
        ConfigKey::Diff => lemma_with_diff_twice(c, v),
        ConfigKey::DiffDstPrefix => lemma_with_diff_dst_prefix_twice(c, v),
        ConfigKey::DiffIgnoreAllSpace => lemma_with_diff_ignore_all_space_twice(c, v),
        ConfigKey::DiffNameOnly => lemma_with_diff_name_only_twice(c, v),
        ConfigKey::DiffNoPrefix => lemma_with_diff_no_prefix_twice(c, v),
        ConfigKey::DiffSrcPrefix => lemma_with_diff_src_prefix_twice(c, v),
        ConfigKey::DiffText => lemma_with_diff_text_twice(c, v),
        ConfigKey::DiffUnified => lemma_with_diff_unified_twice(c, v),
        ConfigKey::DryRun => lemma_with_dry_run_twice(c, v),
        ConfigKey::Editor => lemma_with_editor_twice(c, v),
        ConfigKey::EngineStrict => lemma_with_engine_strict_twice(c, v),
        ConfigKey::ExpectResultCount => lemma_with_expect_result_count_twice(c, v),
        ConfigKey::ExpectResults => lemma_with_expect_results_twice(c, v),
        ConfigKey::FetchRetries => lemma_with_fetch_retries_twice(c, v),
        ConfigKey::FetchRetryFactor => lemma_with_fetch_retry_factor_twice(c, v),
        ConfigKey::FetchRetryMaxtimeout => lemma_with_fetch_retry_maxtimeout_twice(c, v),
        ConfigKey::FetchRetryMintimeout => lemma_with_fetch_retry_mintimeout_twice(c, v),
        ConfigKey::FetchTimeout => lemma_with_fetch_timeout_twice(c, v),
        ConfigKey::Force => lemma_with_force_twice(c, v),
        ConfigKey::ForegroundScripts => lemma_with_foreground_scripts_twice(c, v),
        ConfigKey::FormatPackageLock => lemma_with_format_package_lock_twice(c, v),
        ConfigKey::Fund => lemma_with_fund_twice(c, v),
        ConfigKey::Git => lemma_with_git_twice(c, v),
        ConfigKey::GitTagVersion => lemma_with_git_tag_version_twice(c, v),
        ConfigKey::Global => lemma_with_global_twice(c, v),
        ConfigKey::GlobalConfig => lemma_with_globalconfig_twice(c, v),
        ConfigKey::Heading => lemma_with_heading_twice(c, v),
        ConfigKey::HttpsProxy => lemma_with_https_proxy_twice(c, v),
        ConfigKey::IfPresent => lemma_with_if_present_twice(c, v),
        ConfigKey::IgnoreScripts => lemma_with_ignore_scripts_twice(c, v),
        ConfigKey::Include => lemma_with_included_twice(c, v),
        ConfigKey::IncludeStaged => lemma_with_include_staged_twice(c, v),
        ConfigKey::IncludeWorkspaceRoot => lemma_with_include_workspace_root_twice(c, v),
        ConfigKey::InitAuthorEmail => lemma_with_init_author_email_twice(c, v),
        ConfigKey::InitAuthorName => lemma_with_init_author_name_twice(c, v),
        ConfigKey::InitAuthorUrl => lemma_with_init_author_url_twice(c, v),
        ConfigKey::InitLicense => lemma_with_init_license_twice(c, v),
        ConfigKey::InitModule => lemma_with_init_module_twice(c, v),
        ConfigKey::InitVersion => lemma_with_init_version_twice(c, v),
        ConfigKey::InstallLinks => lemma_with_install_links_twice(c, v),
        ConfigKey::InstallStrategy => lemma_with_install_strategy_twice(c, v),
        ConfigKey::Json => lemma_with_json_twice(c, v),
        ConfigKey::LegacyPeerDeps => lemma_with_legacy_peer_deps_twice(c, v),
        ConfigKey::Libc => lemma_with_libc_twice(c, v),
        ConfigKey::Link => lemma_with_link_twice(c, v),
        ConfigKey::LocalAddress => lemma_with_local_address_twice(c, v),
        ConfigKey::Location => lemma_with_location_twice(c, v),
        ConfigKey::LockfileVersion => lemma_with_lockfile_version_twice(c, v),
        ConfigKey::Loglevel => lemma_with_log_level_twice(c, v),
        ConfigKey::LogsDir => lemma_with_logs_dir_twice(c, v),
        ConfigKey::LogsMax => lemma_with_logs_max_twice(c, v),
        ConfigKey::Long => lemma_with_long_twice(c, v),
        ConfigKey::MaxSockets => lemma_with_max_sockets_twice(c, v),
        ConfigKey::Message => lemma_with_message_twice(c, v),
        ConfigKey::NodeOptions => lemma_with_node_options_twice(c, v),
        ConfigKey::NoProxy => lemma_with_no_proxy_twice(c, v),
        ConfigKey::Offline => lemma_with_offline_twice(c, v),
        ConfigKey::Omit => lemma_with_omit_twice(c, v),
        ConfigKey::OmitLockfileRegistryResolved => lemma_with_omit_lockfile_registry_resolved_twice(c, v),
        ConfigKey::Os => lemma_with_os_twice(c, v),
        ConfigKey::Otp => lemma_with_otp_twice(c, v),
        ConfigKey::PackDestination => lemma_with_pack_destination_twice(c, v),
        ConfigKey::Package => lemma_with_package_twice(c, v),
        ConfigKey::PackageLock => lemma_with_package_lock_twice(c, v),
        ConfigKey::PackageLockOnly => lemma_with_package_lock_only_twice(c, v),
        ConfigKey::Parseable => lemma_with_parseable_twice(c, v),
        ConfigKey::PreferDedupe => lemma_with_prefer_dedupe_twice(c, v),
        ConfigKey::PreferOffline => lemma_with_prefer_offline_twice(c, v),
        ConfigKey::PreferOnline => lemma_with_prefer_online_twice(c, v),
        ConfigKey::Prefix => lemma_with_prefix_twice(c, v),
        ConfigKey::Preid => lemma_with_preid_twice(c, v),
        ConfigKey::Progress => lemma_with_progress_twice(c, v),
        ConfigKey::Provenance => lemma_with_provenance_twice(c, v),
        ConfigKey::ProvenanceFile => lemma_with_provenance_file_twice(c, v),
        ConfigKey::Proxy => lemma_with_proxy_twice(c, v),
        ConfigKey::ReadOnly => lemma_with_read_only_twice(c, v),
        ConfigKey::RebuildBundle => lemma_with_rebuild_bundle_twice(c, v),
        ConfigKey::Registry => lemma_with_registry_twice(c, v),
        ConfigKey::ReplaceRegistryHost => lemma_with_replace_registry_host_twice(c, v),
        ConfigKey::Save => lemma_with_save_twice(c, v),
        ConfigKey::SaveBundle => lemma_with_save_bundle_twice(c, v),
        ConfigKey::SaveDev => lemma_with_save_dev_twice(c, v),
        ConfigKey::SaveExact => lemma_with_save_exact_twice(c, v),
        ConfigKey::SaveOptional => lemma_with_save_optional_twice(c, v),
        ConfigKey::SavePeer => lemma_with_save_peer_twice(c, v),
        ConfigKey::SavePrefix => lemma_with_save_prefix_twice(c, v),
        ConfigKey::SaveProd => lemma_with_save_prod_twice(c, v),
        ConfigKey::SbomFormat => lemma_with_sbom_format_twice(c, v),
        ConfigKey::SbomType => lemma_with_sbom_type_twice(c, v),
        ConfigKey::Scope => lemma_with_scope_twice(c, v),
        ConfigKey::ScriptShell => lemma_with_script_shell_twice(c, v),
        ConfigKey::SearchExclude => lemma_with_search_exclude_twice(c, v),
        ConfigKey::SearchLimit => lemma_with_search_limit_twice(c, v),
        ConfigKey::SearchOpts => lemma_with_search_opts_twice(c, v),
        ConfigKey::SearchStaleness => lemma_with_search_staleness_twice(c, v),
        ConfigKey::Shell => lemma_with_shell_twice(c, v),
        ConfigKey::SignGitCommit => lemma_with_sign_git_commit_twice(c, v),
        ConfigKey::SignGitTag => lemma_with_sign_git_tag_twice(c, v),
        ConfigKey::StrictPeerDeps => lemma_with_strict_peer_deps_twice(c, v),
        ConfigKey::StrictSsl => lemma_with_strict_ssl_twice(c, v),
        ConfigKey::Tag => lemma_with_tag_twice(c, v),
        ConfigKey::TagVersionPrefix => lemma_with_tag_version_prefix_twice(c, v),
        ConfigKey::Timing => lemma_with_timing_twice(c, v),
        ConfigKey::Umask => lemma_with_umask_twice(c, v),
        ConfigKey::Unicode => lemma_with_unicode_twice(c, v),
        ConfigKey::UpdateNotifier => lemma_with_update_notifier_twice(c, v),
        ConfigKey::Usage => lemma_with_usage_twice(c, v),
        ConfigKey::UserAgent => lemma_with_user_agent_twice(c, v),
        ConfigKey::UserConfig => lemma_with_user_config_twice(c, v),
        ConfigKey::Version => lemma_with_version_twice(c, v),
        ConfigKey::Versions => lemma_with_versions_twice(c, v),
        ConfigKey::Viewer => lemma_with_viewer_twice(c, v),
        ConfigKey::Which => lemma_with_which_twice(c, v),
        ConfigKey::Workspace => lemma_with_workspace_twice(c, v),
        ConfigKey::Workspaces => lemma_with_workspaces_twice(c, v),
        ConfigKey::WorkspacesUpdate => lemma_with_workspaces_update_twice(c, v),
        ConfigKey::Yes => lemma_with_yes_twice(c, v),
        ConfigKey::Also => lemma_with_also_twice(c, v),
        ConfigKey::CacheMax => lemma_with_cache_max_twice(c, v),
        ConfigKey::CacheMin => lemma_with_cache_min_twice(c, v),
        ConfigKey::Cert => lemma_with_cert_twice(c, v),
    }
}



/// The npm name of each key, as npm's documentation writes it.
pub open spec fn key_name(k: ConfigKey) -> Seq<char> {
    match k {
        ConfigKey::Auth => "_auth"@,
        ConfigKey::Access => "access"@,
        ConfigKey::All => "all"@,
        ConfigKey::AllowSameVersion => "allow-same-version"@,
        ConfigKey::Audit => "audit"@,
        ConfigKey::AuditLevel => "audit-level"@,
        ConfigKey::AuthType => "auth-type"@,
        ConfigKey::Before => "before"@,
        ConfigKey::BinLinks => "bin-links"@,
        ConfigKey::Browser => "browser"@,
        ConfigKey::Ca => "ca"@,
        ConfigKey::Cache => "cache"@,
        ConfigKey::CaFile => "cafile"@,
        ConfigKey::Call => "call"@,
        ConfigKey::Cidr => "cidr"@,
        ConfigKey::Color => "color"@,
        ConfigKey::CommitHooks => "commit-hooks"@,
        ConfigKey::Cpu => "cpu"@,
        ConfigKey::Depth => "depth"@,
        ConfigKey::Description => "description"@,
        ConfigKey::Diff => "diff"@,
        ConfigKey::DiffDstPrefix => "diff-dst-prefix"@,
        ConfigKey::DiffIgnoreAllSpace => "diff-ignore-all-space"@,
        ConfigKey::DiffNameOnly => "diff-name-only"@,
        ConfigKey::DiffNoPrefix => "diff-no-prefix"@,
        ConfigKey::DiffSrcPrefix => "diff-src-prefix"@,
        ConfigKey::DiffText => "diff-text"@,
        ConfigKey::DiffUnified => "diff-unified"@,
        ConfigKey::DryRun => "dry-run"@,
        ConfigKey::Editor => "editor"@,
        ConfigKey::EngineStrict => "engine-strict"@,
        ConfigKey::ExpectResultCount => "expect-result-count"@,
        ConfigKey::ExpectResults => "expect-results"@,
        ConfigKey::FetchRetries => "fetch-retries"@,
        ConfigKey::FetchRetryFactor => "fetch-retry-factor"@,
        ConfigKey::FetchRetryMaxtimeout => "fetch-retry-maxtimeout"@,
        ConfigKey::FetchRetryMintimeout => "fetch-retry-mintimeout"@,
        ConfigKey::FetchTimeout => "fetch-timeout"@,
        ConfigKey::Force => "force"@,
        ConfigKey::ForegroundScripts => "foreground-scripts"@,
        ConfigKey::FormatPackageLock => "format-package-lock"@,
        ConfigKey::Fund => "fund"@,
        ConfigKey::Git => "git"@,
        ConfigKey::GitTagVersion => "git-tag-version"@,
        ConfigKey::Global => "global"@,
        ConfigKey::GlobalConfig => "globalconfig"@,
        ConfigKey::Heading => "heading"@,
        ConfigKey::HttpsProxy => "https-proxy"@,
        ConfigKey::IfPresent => "if-present"@,
        ConfigKey::IgnoreScripts => "ignore-scripts"@,
        ConfigKey::Include => "include"@,
        ConfigKey::IncludeStaged => "include-staged"@,
        ConfigKey::IncludeWorkspaceRoot => "include-workspace-root"@,
        ConfigKey::InitAuthorEmail => "init-author-email"@,
        ConfigKey::InitAuthorName => "init-author-name"@,
        ConfigKey::InitAuthorUrl => "init-author-url"@,
        ConfigKey::InitLicense => "init-license"@,
        ConfigKey::InitModule => "init-module"@,
        ConfigKey::InitVersion => "init-version"@,
        ConfigKey::InstallLinks => "install-links"@,
        ConfigKey::InstallStrategy => "install-strategy"@,
        ConfigKey::Json => "json"@,
        ConfigKey::LegacyPeerDeps => "legacy-peer-deps"@,
        ConfigKey::Libc => "libc"@,
        ConfigKey::Link => "link"@,
        ConfigKey::LocalAddress => "local-address"@,
        ConfigKey::Location => "location"@,
        ConfigKey::LockfileVersion => "lockfile-version"@,
        ConfigKey::Loglevel => "loglevel"@,
        ConfigKey::LogsDir => "logs-dir"@,
        ConfigKey::LogsMax => "logs-max"@,
        ConfigKey::Long => "long"@,
        ConfigKey::MaxSockets => "maxsockets"@,
        ConfigKey::Message => "message"@,
        ConfigKey::NodeOptions => "node-options"@,
        ConfigKey::NoProxy => "noproxy"@,
        ConfigKey::Offline => "offline"@,
        ConfigKey::Omit => "omit"@,
        ConfigKey::OmitLockfileRegistryResolved => "omit-lockfile-registry-resolved"@,
        ConfigKey::Os => "os"@,
        ConfigKey::Otp => "otp"@,
        ConfigKey::PackDestination => "pack-destination"@,
        ConfigKey::Package => "package"@,
        ConfigKey::PackageLock => "package-lock"@,
        ConfigKey::PackageLockOnly => "package-lock-only"@,
        ConfigKey::Parseable => "parseable"@,
        ConfigKey::PreferDedupe => "prefer-dedupe"@,
        ConfigKey::PreferOffline => "prefer-offline"@,
        ConfigKey::PreferOnline => "prefer-online"@,
        ConfigKey::Prefix => "prefix"@,
        ConfigKey::Preid => "preid"@,
        ConfigKey::Progress => "progress"@,
        ConfigKey::Provenance => "provenance"@,
        ConfigKey::ProvenanceFile => "provenance-file"@,
        ConfigKey::Proxy => "proxy"@,
        ConfigKey::ReadOnly => "read-only"@,
        ConfigKey::RebuildBundle => "rebuild-bundle"@,
        ConfigKey::Registry => "registry"@,
        ConfigKey::ReplaceRegistryHost => "replace-registry-host"@,
        ConfigKey::Save => "save"@,
        ConfigKey::SaveBundle => "save-bundle"@,
        ConfigKey::SaveDev => "save-dev"@,
        ConfigKey::SaveExact => "save-exact"@,
        ConfigKey::SaveOptional => "save-optional"@,
        ConfigKey::SavePeer => "save-peer"@,
        ConfigKey::SavePrefix => "save-prefix"@,
        ConfigKey::SaveProd => "save-prod"@,
        ConfigKey::SbomFormat => "sbom-format"@,
        ConfigKey::SbomType => "sbom-type"@,
        ConfigKey::Scope => "scope"@,
        ConfigKey::ScriptShell => "script-shell"@,
        ConfigKey::SearchExclude => "searchexclude"@,
        ConfigKey::SearchLimit => "searchlimit"@,
        ConfigKey::SearchOpts => "searchopts"@,
        ConfigKey::SearchStaleness => "searchstaleness"@,
        ConfigKey::Shell => "shell"@,
        ConfigKey::SignGitCommit => "sign-git-commit"@,
        ConfigKey::SignGitTag => "sign-git-tag"@,
        ConfigKey::StrictPeerDeps => "strict-peer-deps"@,
        ConfigKey::StrictSsl => "strict-ssl"@,
        ConfigKey::Tag => "tag"@,
        ConfigKey::TagVersionPrefix => "tag-version-prefix"@,
        ConfigKey::Timing => "timing"@,
        ConfigKey::Umask => "umask"@,
        ConfigKey::Unicode => "unicode"@,
        ConfigKey::UpdateNotifier => "update-notifier"@,
        ConfigKey::Usage => "usage"@,
        ConfigKey::UserAgent => "user-agent"@,
        ConfigKey::UserConfig => "userconfig"@,
        ConfigKey::Version => "version"@,
        ConfigKey::Versions => "versions"@,
        ConfigKey::Viewer => "viewer"@,
        ConfigKey::Which => "which"@,
        ConfigKey::Workspace => "workspace"@,
        ConfigKey::Workspaces => "workspaces"@,
        ConfigKey::WorkspacesUpdate => "workspaces-update"@,
        ConfigKey::Yes => "yes"@,
        ConfigKey::Also => "also"@,
        ConfigKey::CacheMax => "cache-max"@,
        ConfigKey::CacheMin => "cache-min"@,
        ConfigKey::Cert => "cert"@,
    }
}


/// The length of each key's name.
proof fn lemma_key_name_lengths()
    ensures
        "_auth"@.len() == 5,
        "access"@.len() == 6,
        "all"@.len() == 3,
        "allow-same-version"@.len() == 18,
        "audit"@.len() == 5,
        "audit-level"@.len() == 11,
        "auth-type"@.len() == 9,
        "before"@.len() == 6,
        "bin-links"@.len() == 9,
        "browser"@.len() == 7,
        "ca"@.len() == 2,
        "cache"@.len() == 5,
        "cafile"@.len() == 6,
        "call"@.len() == 4,
        "cidr"@.len() == 4,
        "color"@.len() == 5,
        "commit-hooks"@.len() == 12,
        "cpu"@.len() == 3,
        "depth"@.len() == 5,
        "description"@.len() == 11,
        "diff"@.len() == 4,
        "diff-dst-prefix"@.len() == 15,
        "diff-ignore-all-space"@.len() == 21,
        "diff-name-only"@.len() == 14,
        "diff-no-prefix"@.len() == 14,
        "diff-src-prefix"@.len() == 15,
        "diff-text"@.len() == 9,
        "diff-unified"@.len() == 12,
        "dry-run"@.len() == 7,
        "editor"@.len() == 6,
        "engine-strict"@.len() == 13,
        "expect-result-count"@.len() == 19,
        "expect-results"@.len() == 14,
        "fetch-retries"@.len() == 13,
        "fetch-retry-factor"@.len() == 18,
        "fetch-retry-maxtimeout"@.len() == 22,
        "fetch-retry-mintimeout"@.len() == 22,
        "fetch-timeout"@.len() == 13,
        "force"@.len() == 5,
        "foreground-scripts"@.len() == 18,
        "format-package-lock"@.len() == 19,
        "fund"@.len() == 4,
        "git"@.len() == 3,
        "git-tag-version"@.len() == 15,
        "global"@.len() == 6,
        "globalconfig"@.len() == 12,
        "heading"@.len() == 7,
        "https-proxy"@.len() == 11,
        "if-present"@.len() == 10,
        "ignore-scripts"@.len() == 14,
        "include"@.len() == 7,
        "include-staged"@.len() == 14,
        "include-workspace-root"@.len() == 22,
        "init-author-email"@.len() == 17,
        "init-author-name"@.len() == 16,
        "init-author-url"@.len() == 15,
        "init-license"@.len() == 12,
        "init-module"@.len() == 11,
        "init-version"@.len() == 12,
        "install-links"@.len() == 13,
        "install-strategy"@.len() == 16,
        "json"@.len() == 4,
        "legacy-peer-deps"@.len() == 16,
        "libc"@.len() == 4,
        "link"@.len() == 4,
        "local-address"@.len() == 13,
        "location"@.len() == 8,
        "lockfile-version"@.len() == 16,
        "loglevel"@.len() == 8,
        "logs-dir"@.len() == 8,
        "logs-max"@.len() == 8,
        "long"@.len() == 4,
        "maxsockets"@.len() == 10,
        "message"@.len() == 7,
        "node-options"@.len() == 12,
        "noproxy"@.len() == 7,
        "offline"@.len() == 7,
        "omit"@.len() == 4,
        "omit-lockfile-registry-resolved"@.len() == 31,
        "os"@.len() == 2,
        "otp"@.len() == 3,
        "pack-destination"@.len() == 16,
        "package"@.len() == 7,
        "package-lock"@.len() == 12,
        "package-lock-only"@.len() == 17,
        "parseable"@.len() == 9,
        "prefer-dedupe"@.len() == 13,
        "prefer-offline"@.len() == 14,
        "prefer-online"@.len() == 13,
        "prefix"@.len() == 6,
        "preid"@.len() == 5,
        "progress"@.len() == 8,
        "provenance"@.len() == 10,
        "provenance-file"@.len() == 15,
        "proxy"@.len() == 5,
        "read-only"@.len() == 9,
        "rebuild-bundle"@.len() == 14,
        "registry"@.len() == 8,
        "replace-registry-host"@.len() == 21,
        "save"@.len() == 4,
        "save-bundle"@.len() == 11,
        "save-dev"@.len() == 8,
        "save-exact"@.len() == 10,
        "save-optional"@.len() == 13,
        "save-peer"@.len() == 9,
        "save-prefix"@.len() == 11,
        "save-prod"@.len() == 9,
        "sbom-format"@.len() == 11,
        "sbom-type"@.len() == 9,
        "scope"@.len() == 5,
        "script-shell"@.len() == 12,
        "searchexclude"@.len() == 13,
        "searchlimit"@.len() == 11,
        "searchopts"@.len() == 10,
        "searchstaleness"@.len() == 15,
        "shell"@.len() == 5,
        "sign-git-commit"@.len() == 15,
        "sign-git-tag"@.len() == 12,
        "strict-peer-deps"@.len() == 16,
        "strict-ssl"@.len() == 10,
        "tag"@.len() == 3,
        "tag-version-prefix"@.len() == 18,
        "timing"@.len() == 6,
        "umask"@.len() == 5,
        "unicode"@.len() == 7,
        "update-notifier"@.len() == 15,
        "usage"@.len() == 5,
        "user-agent"@.len() == 10,
        "userconfig"@.len() == 10,
        "version"@.len() == 7,
        "versions"@.len() == 8,
        "viewer"@.len() == 6,
        "which"@.len() == 5,
        "workspace"@.len() == 9,
        "workspaces"@.len() == 10,
        "workspaces-update"@.len() == 17,
        "yes"@.len() == 3,
        "also"@.len() == 4,
        "cache-max"@.len() == 9,
        "cache-min"@.len() == 9,
        "cert"@.len() == 4,
{
    reveal_strlit("_auth");
    reveal_strlit("access");
    reveal_strlit("all");
    reveal_strlit("allow-same-version");
    reveal_strlit("audit");
    reveal_strlit("audit-level");
    reveal_strlit("auth-type");
    reveal_strlit("before");
    reveal_strlit("bin-links");
    reveal_strlit("browser");
    reveal_strlit("ca");
    reveal_strlit("cache");
    reveal_strlit("cafile");
    reveal_strlit("call");
    reveal_strlit("cidr");
    reveal_strlit("color");
    reveal_strlit("commit-hooks");
    reveal_strlit("cpu");
    reveal_strlit("depth");
    reveal_strlit("description");
    reveal_strlit("diff");
    reveal_strlit("diff-dst-prefix");
    reveal_strlit("diff-ignore-all-space");
    reveal_strlit("diff-name-only");
    reveal_strlit("diff-no-prefix");
    reveal_strlit("diff-src-prefix");
    reveal_strlit("diff-text");
    reveal_strlit("diff-unified");
    reveal_strlit("dry-run");
    reveal_strlit("editor");
    reveal_strlit("engine-strict");
    reveal_strlit("expect-result-count");
    reveal_strlit("expect-results");
    reveal_strlit("fetch-retries");
    reveal_strlit("fetch-retry-factor");
    reveal_strlit("fetch-retry-maxtimeout");
    reveal_strlit("fetch-retry-mintimeout");
    reveal_strlit("fetch-timeout");
    reveal_strlit("force");
    reveal_strlit("foreground-scripts");
    reveal_strlit("format-package-lock");
    reveal_strlit("fund");
    reveal_strlit("git");
    reveal_strlit("git-tag-version");
    reveal_strlit("global");
    reveal_strlit("globalconfig");
    reveal_strlit("heading");
    reveal_strlit("https-proxy");
    reveal_strlit("if-present");
    reveal_strlit("ignore-scripts");
    reveal_strlit("include");
    reveal_strlit("include-staged");
    reveal_strlit("include-workspace-root");
    reveal_strlit("init-author-email");
    reveal_strlit("init-author-name");
    reveal_strlit("init-author-url");
    reveal_strlit("init-license");
    reveal_strlit("init-module");
    reveal_strlit("init-version");
    reveal_strlit("install-links");
    reveal_strlit("install-strategy");
    reveal_strlit("json");
    reveal_strlit("legacy-peer-deps");
    reveal_strlit("libc");
    reveal_strlit("link");
    reveal_strlit("local-address");
    reveal_strlit("location");
    reveal_strlit("lockfile-version");
    reveal_strlit("loglevel");
    reveal_strlit("logs-dir");
    reveal_strlit("logs-max");
    reveal_strlit("long");
    reveal_strlit("maxsockets");
    reveal_strlit("message");
    reveal_strlit("node-options");
    reveal_strlit("noproxy");
    reveal_strlit("offline");
    reveal_strlit("omit");
    reveal_strlit("omit-lockfile-registry-resolved");
    reveal_strlit("os");
    reveal_strlit("otp");
    reveal_strlit("pack-destination");
    reveal_strlit("package");
    reveal_strlit("package-lock");
    reveal_strlit("package-lock-only");
    reveal_strlit("parseable");
    reveal_strlit("prefer-dedupe");
    reveal_strlit("prefer-offline");
    reveal_strlit("prefer-online");
    reveal_strlit("prefix");
    reveal_strlit("preid");
    reveal_strlit("progress");
    reveal_strlit("provenance");
    reveal_strlit("provenance-file");
    reveal_strlit("proxy");
    reveal_strlit("read-only");
    reveal_strlit("rebuild-bundle");
    reveal_strlit("registry");
    reveal_strlit("replace-registry-host");
    reveal_strlit("save");
    reveal_strlit("save-bundle");
    reveal_strlit("save-dev");
    reveal_strlit("save-exact");
    reveal_strlit("save-optional");
    reveal_strlit("save-peer");
    reveal_strlit("save-prefix");
    reveal_strlit("save-prod");
    reveal_strlit("sbom-format");
    reveal_strlit("sbom-type");
    reveal_strlit("scope");
    reveal_strlit("script-shell");
    reveal_strlit("searchexclude");
    reveal_strlit("searchlimit");
    reveal_strlit("searchopts");
    reveal_strlit("searchstaleness");
    reveal_strlit("shell");
    reveal_strlit("sign-git-commit");
    reveal_strlit("sign-git-tag");
    reveal_strlit("strict-peer-deps");
    reveal_strlit("strict-ssl");
    reveal_strlit("tag");
    reveal_strlit("tag-version-prefix");
    reveal_strlit("timing");
    reveal_strlit("umask");
    reveal_strlit("unicode");
    reveal_strlit("update-notifier");
    reveal_strlit("usage");
    reveal_strlit("user-agent");
    reveal_strlit("userconfig");
    reveal_strlit("version");
    reveal_strlit("versions");
    reveal_strlit("viewer");
    reveal_strlit("which");
    reveal_strlit("workspace");
    reveal_strlit("workspaces");
    reveal_strlit("workspaces-update");
    reveal_strlit("yes");
    reveal_strlit("also");
    reveal_strlit("cache-max");
    reveal_strlit("cache-min");
    reveal_strlit("cert");
}

/// Names of one length differ in some character.
proof fn lemma_key_names_differ()
    ensures
        "audit"@[0] != "_auth"@[0],
        "before"@[0] != "access"@[0],
        "bin-links"@[0] != "auth-type"@[0],
        "cache"@[0] != "_auth"@[0],
        "cache"@[0] != "audit"@[0],
        "cafile"@[0] != "access"@[0],
        "cafile"@[0] != "before"@[0],
        "cidr"@[1] != "call"@[1],
        "color"@[0] != "_auth"@[0],
        "color"@[0] != "audit"@[0],
        "color"@[1] != "cache"@[1],
        "cpu"@[0] != "all"@[0],
        "depth"@[0] != "_auth"@[0],
        "depth"@[0] != "audit"@[0],
        "depth"@[0] != "cache"@[0],
        "depth"@[0] != "color"@[0],
        "description"@[0] != "audit-level"@[0],
        "diff"@[0] != "call"@[0],
        "diff"@[0] != "cidr"@[0],
        "diff-no-prefix"@[6] != "diff-name-only"@[6],
        "diff-src-prefix"@[5] != "diff-dst-prefix"@[5],
        "diff-text"@[0] != "auth-type"@[0],
        "diff-text"@[0] != "bin-links"@[0],
        "diff-unified"@[0] != "commit-hooks"@[0],
        "dry-run"@[0] != "browser"@[0],
        "editor"@[0] != "access"@[0],
        "editor"@[0] != "before"@[0],
        "editor"@[0] != "cafile"@[0],
        "expect-results"@[0] != "diff-name-only"@[0],
        "expect-results"@[0] != "diff-no-prefix"@[0],
        "fetch-retries"@[0] != "engine-strict"@[0],
        "fetch-retry-factor"@[0] != "allow-same-version"@[0],
        "fetch-retry-mintimeout"@[13] != "fetch-retry-maxtimeout"@[13],
        "fetch-timeout"@[0] != "engine-strict"@[0],
        "fetch-timeout"@[6] != "fetch-retries"@[6],
        "force"@[0] != "_auth"@[0],
        "force"@[0] != "audit"@[0],
        "force"@[0] != "cache"@[0],
        "force"@[0] != "color"@[0],
        "force"@[0] != "depth"@[0],
        "foreground-scripts"@[0] != "allow-same-version"@[0],
        "foreground-scripts"@[1] != "fetch-retry-factor"@[1],
        "format-package-lock"@[0] != "expect-result-count"@[0],
        "fund"@[0] != "call"@[0],
        "fund"@[0] != "cidr"@[0],
        "fund"@[0] != "diff"@[0],
        "git"@[0] != "all"@[0],
        "git"@[0] != "cpu"@[0],
        "git-tag-version"@[0] != "diff-dst-prefix"@[0],
        "git-tag-version"@[0] != "diff-src-prefix"@[0],
        "global"@[0] != "access"@[0],
        "global"@[0] != "before"@[0],
        "global"@[0] != "cafile"@[0],
        "global"@[0] != "editor"@[0],
        "globalconfig"@[0] != "commit-hooks"@[0],
        "globalconfig"@[0] != "diff-unified"@[0],
        "heading"@[0] != "browser"@[0],
        "heading"@[0] != "dry-run"@[0],
        "https-proxy"@[0] != "audit-level"@[0],
        "https-proxy"@[0] != "description"@[0],
        "ignore-scripts"@[0] != "diff-name-only"@[0],
        "ignore-scripts"@[0] != "diff-no-prefix"@[0],
        "ignore-scripts"@[0] != "expect-results"@[0],
        "include"@[0] != "browser"@[0],
        "include"@[0] != "dry-run"@[0],
        "include"@[0] != "heading"@[0],
        "include-staged"@[0] != "diff-name-only"@[0],
        "include-staged"@[0] != "diff-no-prefix"@[0],
        "include-staged"@[0] != "expect-results"@[0],
        "include-staged"@[1] != "ignore-scripts"@[1],
        "include-workspace-root"@[0] != "fetch-retry-maxtimeout"@[0],
        "include-workspace-root"@[0] != "fetch-retry-mintimeout"@[0],
        "init-author-url"@[0] != "diff-dst-prefix"@[0],
        "init-author-url"@[0] != "diff-src-prefix"@[0],
        "init-author-url"@[0] != "git-tag-version"@[0],
        "init-license"@[0] != "commit-hooks"@[0],
        "init-license"@[0] != "diff-unified"@[0],
        "init-license"@[0] != "globalconfig"@[0],
        "init-module"@[0] != "audit-level"@[0],
        "init-module"@[0] != "description"@[0],
        "init-module"@[0] != "https-proxy"@[0],
        "init-version"@[0] != "commit-hooks"@[0],
        "init-version"@[0] != "diff-unified"@[0],
        "init-version"@[0] != "globalconfig"@[0],
        "init-version"@[5] != "init-license"@[5],
        "install-links"@[0] != "engine-strict"@[0],
        "install-links"@[0] != "fetch-retries"@[0],
        "install-links"@[0] != "fetch-timeout"@[0],
        "install-strategy"@[2] != "init-author-name"@[2],
        "json"@[0] != "call"@[0],
        "json"@[0] != "cidr"@[0],
        "json"@[0] != "diff"@[0],
        "json"@[0] != "fund"@[0],
        "legacy-peer-deps"@[0] != "init-author-name"@[0],
        "legacy-peer-deps"@[0] != "install-strategy"@[0],
        "libc"@[0] != "call"@[0],
        "libc"@[0] != "cidr"@[0],
        "libc"@[0] != "diff"@[0],
        "libc"@[0] != "fund"@[0],
        "libc"@[0] != "json"@[0],
        "link"@[0] != "call"@[0],
        "link"@[0] != "cidr"@[0],
        "link"@[0] != "diff"@[0],
        "link"@[0] != "fund"@[0],
        "link"@[0] != "json"@[0],
        "link"@[2] != "libc"@[2],
        "local-address"@[0] != "engine-strict"@[0],
        "local-address"@[0] != "fetch-retries"@[0],
        "local-address"@[0] != "fetch-timeout"@[0],
        "local-address"@[0] != "install-links"@[0],
        "lockfile-version"@[0] != "init-author-name"@[0],
        "lockfile-version"@[0] != "install-strategy"@[0],
        "lockfile-version"@[1] != "legacy-peer-deps"@[1],
        "loglevel"@[2] != "location"@[2],
        "logs-dir"@[2] != "location"@[2],
        "logs-dir"@[3] != "loglevel"@[3],
        "logs-max"@[2] != "location"@[2],
        "logs-max"@[3] != "loglevel"@[3],
        "logs-max"@[5] != "logs-dir"@[5],
        "long"@[0] != "call"@[0],
        "long"@[0] != "cidr"@[0],
        "long"@[0] != "diff"@[0],
        "long"@[0] != "fund"@[0],
        "long"@[0] != "json"@[0],
        "long"@[1] != "libc"@[1],
        "long"@[1] != "link"@[1],
        "maxsockets"@[0] != "if-present"@[0],
        "message"@[0] != "browser"@[0],
        "message"@[0] != "dry-run"@[0],
        "message"@[0] != "heading"@[0],
        "message"@[0] != "include"@[0],
        "node-options"@[0] != "commit-hooks"@[0],
        "node-options"@[0] != "diff-unified"@[0],
        "node-options"@[0] != "globalconfig"@[0],
        "node-options"@[0] != "init-license"@[0],
        "node-options"@[0] != "init-version"@[0],
        "noproxy"@[0] != "browser"@[0],
        "noproxy"@[0] != "dry-run"@[0],
        "noproxy"@[0] != "heading"@[0],
        "noproxy"@[0] != "include"@[0],
        "noproxy"@[0] != "message"@[0],
        "offline"@[0] != "browser"@[0],
        "offline"@[0] != "dry-run"@[0],
        "offline"@[0] != "heading"@[0],
        "offline"@[0] != "include"@[0],
        "offline"@[0] != "message"@[0],
        "offline"@[0] != "noproxy"@[0],
        "omit"@[0] != "call"@[0],
        "omit"@[0] != "cidr"@[0],
        "omit"@[0] != "diff"@[0],
        "omit"@[0] != "fund"@[0],
        "omit"@[0] != "json"@[0],
        "omit"@[0] != "libc"@[0],
        "omit"@[0] != "link"@[0],
        "omit"@[0] != "long"@[0],
        "os"@[0] != "ca"@[0],
        "otp"@[0] != "all"@[0],
        "otp"@[0] != "cpu"@[0],
        "otp"@[0] != "git"@[0],
        "pack-destination"@[0] != "init-author-name"@[0],
        "pack-destination"@[0] != "install-strategy"@[0],
        "pack-destination"@[0] != "legacy-peer-deps"@[0],
        "pack-destination"@[0] != "lockfile-version"@[0],
        "package"@[0] != "browser"@[0],
        "package"@[0] != "dry-run"@[0],
        "package"@[0] != "heading"@[0],
        "package"@[0] != "include"@[0],
        "package"@[0] != "message"@[0],
        "package"@[0] != "noproxy"@[0],
        "package"@[0] != "offline"@[0],
        "package-lock"@[0] != "commit-hooks"@[0],
        "package-lock"@[0] != "diff-unified"@[0],
        "package-lock"@[0] != "globalconfig"@[0],
        "package-lock"@[0] != "init-license"@[0],
        "package-lock"@[0] != "init-version"@[0],
        "package-lock"@[0] != "node-options"@[0],
        "package-lock-only"@[0] != "init-author-email"@[0],
        "parseable"@[0] != "auth-type"@[0],
        "parseable"@[0] != "bin-links"@[0],
        "parseable"@[0] != "diff-text"@[0],
        "prefer-dedupe"@[0] != "engine-strict"@[0],
        "prefer-dedupe"@[0] != "fetch-retries"@[0],
        "prefer-dedupe"@[0] != "fetch-timeout"@[0],
        "prefer-dedupe"@[0] != "install-links"@[0],
        "prefer-dedupe"@[0] != "local-address"@[0],
        "prefer-offline"@[0] != "diff-name-only"@[0],
        "prefer-offline"@[0] != "diff-no-prefix"@[0],
        "prefer-offline"@[0] != "expect-results"@[0],
        "prefer-offline"@[0] != "ignore-scripts"@[0],
        "prefer-offline"@[0] != "include-staged"@[0],
        "prefer-online"@[0] != "engine-strict"@[0],
        "prefer-online"@[0] != "fetch-retries"@[0],
        "prefer-online"@[0] != "fetch-timeout"@[0],
        "prefer-online"@[0] != "install-links"@[0],
        "prefer-online"@[0] != "local-address"@[0],
        "prefer-online"@[7] != "prefer-dedupe"@[7],
        "prefix"@[0] != "access"@[0],
        "prefix"@[0] != "before"@[0],
        "prefix"@[0] != "cafile"@[0],
        "prefix"@[0] != "editor"@[0],
        "prefix"@[0] != "global"@[0],
        "preid"@[0] != "_auth"@[0],
        "preid"@[0] != "audit"@[0],
        "preid"@[0] != "cache"@[0],
        "preid"@[0] != "color"@[0],
        "preid"@[0] != "depth"@[0],
        "preid"@[0] != "force"@[0],
        "progress"@[0] != "location"@[0],
        "progress"@[0] != "loglevel"@[0],
        "progress"@[0] != "logs-dir"@[0],
        "progress"@[0] != "logs-max"@[0],
        "provenance"@[0] != "if-present"@[0],
        "provenance"@[0] != "maxsockets"@[0],
        "provenance-file"@[0] != "diff-dst-prefix"@[0],
        "provenance-file"@[0] != "diff-src-prefix"@[0],
        "provenance-file"@[0] != "git-tag-version"@[0],
        "provenance-file"@[0] != "init-author-url"@[0],
        "proxy"@[0] != "_auth"@[0],
        "proxy"@[0] != "audit"@[0],
        "proxy"@[0] != "cache"@[0],
        "proxy"@[0] != "color"@[0],
        "proxy"@[0] != "depth"@[0],
        "proxy"@[0] != "force"@[0],
        "proxy"@[2] != "preid"@[2],
        "read-only"@[0] != "auth-type"@[0],
        "read-only"@[0] != "bin-links"@[0],
        "read-only"@[0] != "diff-text"@[0],
        "read-only"@[0] != "parseable"@[0],
        "rebuild-bundle"@[0] != "diff-name-only"@[0],
        "rebuild-bundle"@[0] != "diff-no-prefix"@[0],
        "rebuild-bundle"@[0] != "expect-results"@[0],
        "rebuild-bundle"@[0] != "ignore-scripts"@[0],
        "rebuild-bundle"@[0] != "include-staged"@[0],
        "rebuild-bundle"@[0] != "prefer-offline"@[0],
        "registry"@[0] != "location"@[0],
        "registry"@[0] != "loglevel"@[0],
        "registry"@[0] != "logs-dir"@[0],
        "registry"@[0] != "logs-max"@[0],
        "registry"@[0] != "progress"@[0],
        "replace-registry-host"@[0] != "diff-ignore-all-space"@[0],
        "save"@[0] != "call"@[0],
        "save"@[0] != "cidr"@[0],
        "save"@[0] != "diff"@[0],
        "save"@[0] != "fund"@[0],
        "save"@[0] != "json"@[0],
        "save"@[0] != "libc"@[0],
        "save"@[0] != "link"@[0],
        "save"@[0] != "long"@[0],
        "save"@[0] != "omit"@[0],
        "save-bundle"@[0] != "audit-level"@[0],
        "save-bundle"@[0] != "description"@[0],
        "save-bundle"@[0] != "https-proxy"@[0],
        "save-bundle"@[0] != "init-module"@[0],
        "save-dev"@[0] != "location"@[0],
        "save-dev"@[0] != "loglevel"@[0],
        "save-dev"@[0] != "logs-dir"@[0],
        "save-dev"@[0] != "logs-max"@[0],
        "save-dev"@[0] != "progress"@[0],
        "save-dev"@[0] != "registry"@[0],
        "save-exact"@[0] != "if-present"@[0],
        "save-exact"@[0] != "maxsockets"@[0],
        "save-exact"@[0] != "provenance"@[0],
        "save-optional"@[0] != "engine-strict"@[0],
        "save-optional"@[0] != "fetch-retries"@[0],
        "save-optional"@[0] != "fetch-timeout"@[0],
        "save-optional"@[0] != "install-links"@[0],
        "save-optional"@[0] != "local-address"@[0],
        "save-optional"@[0] != "prefer-dedupe"@[0],
        "save-optional"@[0] != "prefer-online"@[0],
        "save-peer"@[0] != "auth-type"@[0],
        "save-peer"@[0] != "bin-links"@[0],
        "save-peer"@[0] != "diff-text"@[0],
        "save-peer"@[0] != "parseable"@[0],
        "save-peer"@[0] != "read-only"@[0],
        "save-prefix"@[0] != "audit-level"@[0],
        "save-prefix"@[0] != "description"@[0],
        "save-prefix"@[0] != "https-proxy"@[0],
        "save-prefix"@[0] != "init-module"@[0],
        "save-prefix"@[5] != "save-bundle"@[5],
        "save-prod"@[0] != "auth-type"@[0],
        "save-prod"@[0] != "bin-links"@[0],
        "save-prod"@[0] != "diff-text"@[0],
        "save-prod"@[0] != "parseable"@[0],
        "save-prod"@[0] != "read-only"@[0],
        "save-prod"@[6] != "save-peer"@[6],
        "sbom-format"@[0] != "audit-level"@[0],
        "sbom-format"@[0] != "description"@[0],
        "sbom-format"@[0] != "https-proxy"@[0],
        "sbom-format"@[0] != "init-module"@[0],
        "sbom-format"@[1] != "save-bundle"@[1],
        "sbom-format"@[1] != "save-prefix"@[1],
        "sbom-type"@[0] != "auth-type"@[0],
        "sbom-type"@[0] != "bin-links"@[0],
        "sbom-type"@[0] != "diff-text"@[0],
        "sbom-type"@[0] != "parseable"@[0],
        "sbom-type"@[0] != "read-only"@[0],
        "sbom-type"@[1] != "save-peer"@[1],
        "sbom-type"@[1] != "save-prod"@[1],
        "scope"@[0] != "_auth"@[0],
        "scope"@[0] != "audit"@[0],
        "scope"@[0] != "cache"@[0],
        "scope"@[0] != "color"@[0],
        "scope"@[0] != "depth"@[0],
        "scope"@[0] != "force"@[0],
        "scope"@[0] != "preid"@[0],
        "scope"@[0] != "proxy"@[0],
        "script-shell"@[0] != "commit-hooks"@[0],
        "script-shell"@[0] != "diff-unified"@[0],
        "script-shell"@[0] != "globalconfig"@[0],
        "script-shell"@[0] != "init-license"@[0],
        "script-shell"@[0] != "init-version"@[0],
        "script-shell"@[0] != "node-options"@[0],
        "script-shell"@[0] != "package-lock"@[0],
        "searchexclude"@[0] != "engine-strict"@[0],
        "searchexclude"@[0] != "fetch-retries"@[0],
        "searchexclude"@[0] != "fetch-timeout"@[0],
        "searchexclude"@[0] != "install-links"@[0],
        "searchexclude"@[0] != "local-address"@[0],
        "searchexclude"@[0] != "prefer-dedupe"@[0],
        "searchexclude"@[0] != "prefer-online"@[0],
        "searchexclude"@[1] != "save-optional"@[1],
        "searchlimit"@[0] != "audit-level"@[0],
        "searchlimit"@[0] != "description"@[0],
        "searchlimit"@[0] != "https-proxy"@[0],
        "searchlimit"@[0] != "init-module"@[0],
        "searchlimit"@[1] != "save-bundle"@[1],
        "searchlimit"@[1] != "save-prefix"@[1],
        "searchlimit"@[1] != "sbom-format"@[1],
        "searchopts"@[0] != "if-present"@[0],
        "searchopts"@[0] != "maxsockets"@[0],
        "searchopts"@[0] != "provenance"@[0],
        "searchopts"@[1] != "save-exact"@[1],
        "searchstaleness"@[0] != "diff-dst-prefix"@[0],
        "searchstaleness"@[0] != "diff-src-prefix"@[0],
        "searchstaleness"@[0] != "git-tag-version"@[0],
        "searchstaleness"@[0] != "init-author-url"@[0],
        "searchstaleness"@[0] != "provenance-file"@[0],
        "shell"@[0] != "_auth"@[0],
        "shell"@[0] != "audit"@[0],
        "shell"@[0] != "cache"@[0],
        "shell"@[0] != "color"@[0],
        "shell"@[0] != "depth"@[0],
        "shell"@[0] != "force"@[0],
        "shell"@[0] != "preid"@[0],
        "shell"@[0] != "proxy"@[0],
        "shell"@[1] != "scope"@[1],
        "sign-git-commit"@[0] != "diff-dst-prefix"@[0],
        "sign-git-commit"@[0] != "diff-src-prefix"@[0],
        "sign-git-commit"@[0] != "git-tag-version"@[0],
        "sign-git-commit"@[0] != "init-author-url"@[0],
        "sign-git-commit"@[0] != "provenance-file"@[0],
        "sign-git-commit"@[1] != "searchstaleness"@[1],
        "sign-git-tag"@[0] != "commit-hooks"@[0],
        "sign-git-tag"@[0] != "diff-unified"@[0],
        "sign-git-tag"@[0] != "globalconfig"@[0],
        "sign-git-tag"@[0] != "init-license"@[0],
        "sign-git-tag"@[0] != "init-version"@[0],
        "sign-git-tag"@[0] != "node-options"@[0],
        "sign-git-tag"@[0] != "package-lock"@[0],
        "sign-git-tag"@[1] != "script-shell"@[1],
        "strict-peer-deps"@[0] != "init-author-name"@[0],
        "strict-peer-deps"@[0] != "install-strategy"@[0],
        "strict-peer-deps"@[0] != "legacy-peer-deps"@[0],
        "strict-peer-deps"@[0] != "lockfile-version"@[0],
        "strict-peer-deps"@[0] != "pack-destination"@[0],
        "strict-ssl"@[0] != "if-present"@[0],
        "strict-ssl"@[0] != "maxsockets"@[0],
        "strict-ssl"@[0] != "provenance"@[0],
        "strict-ssl"@[1] != "save-exact"@[1],
        "strict-ssl"@[1] != "searchopts"@[1],
        "tag"@[0] != "all"@[0],
        "tag"@[0] != "cpu"@[0],
        "tag"@[0] != "git"@[0],
        "tag"@[0] != "otp"@[0],
        "tag-version-prefix"@[0] != "allow-same-version"@[0],
        "tag-version-prefix"@[0] != "fetch-retry-factor"@[0],
        "tag-version-prefix"@[0] != "foreground-scripts"@[0],
        "timing"@[0] != "access"@[0],
        "timing"@[0] != "before"@[0],
        "timing"@[0] != "cafile"@[0],
        "timing"@[0] != "editor"@[0],
        "timing"@[0] != "global"@[0],
        "timing"@[0] != "prefix"@[0],
        "umask"@[0] != "_auth"@[0],
        "umask"@[0] != "audit"@[0],
        "umask"@[0] != "cache"@[0],
        "umask"@[0] != "color"@[0],
        "umask"@[0] != "depth"@[0],
        "umask"@[0] != "force"@[0],
        "umask"@[0] != "preid"@[0],
        "umask"@[0] != "proxy"@[0],
        "umask"@[0] != "scope"@[0],
        "umask"@[0] != "shell"@[0],
        "unicode"@[0] != "browser"@[0],
        "unicode"@[0] != "dry-run"@[0],
        "unicode"@[0] != "heading"@[0],
        "unicode"@[0] != "include"@[0],
        "unicode"@[0] != "message"@[0],
        "unicode"@[0] != "noproxy"@[0],
        "unicode"@[0] != "offline"@[0],
        "unicode"@[0] != "package"@[0],
        "update-notifier"@[0] != "diff-dst-prefix"@[0],
        "update-notifier"@[0] != "diff-src-prefix"@[0],
        "update-notifier"@[0] != "git-tag-version"@[0],
        "update-notifier"@[0] != "init-author-url"@[0],
        "update-notifier"@[0] != "provenance-file"@[0],
        "update-notifier"@[0] != "searchstaleness"@[0],
        "update-notifier"@[0] != "sign-git-commit"@[0],
        "usage"@[0] != "_auth"@[0],
        "usage"@[0] != "audit"@[0],
        "usage"@[0] != "cache"@[0],
        "usage"@[0] != "color"@[0],
        "usage"@[0] != "depth"@[0],
        "usage"@[0] != "force"@[0],
        "usage"@[0] != "preid"@[0],
        "usage"@[0] != "proxy"@[0],
        "usage"@[0] != "scope"@[0],
        "usage"@[0] != "shell"@[0],
        "usage"@[1] != "umask"@[1],
        "user-agent"@[0] != "if-present"@[0],
        "user-agent"@[0] != "maxsockets"@[0],
        "user-agent"@[0] != "provenance"@[0],
        "user-agent"@[0] != "save-exact"@[0],
        "user-agent"@[0] != "searchopts"@[0],
        "user-agent"@[0] != "strict-ssl"@[0],
        "userconfig"@[0] != "if-present"@[0],
        "userconfig"@[0] != "maxsockets"@[0],
        "userconfig"@[0] != "provenance"@[0],
        "userconfig"@[0] != "save-exact"@[0],
        "userconfig"@[0] != "searchopts"@[0],
        "userconfig"@[0] != "strict-ssl"@[0],
        "userconfig"@[4] != "user-agent"@[4],
        "version"@[0] != "browser"@[0],
        "version"@[0] != "dry-run"@[0],
        "version"@[0] != "heading"@[0],
        "version"@[0] != "include"@[0],
        "version"@[0] != "message"@[0],
        "version"@[0] != "noproxy"@[0],
        "version"@[0] != "offline"@[0],
        "version"@[0] != "package"@[0],
        "version"@[0] != "unicode"@[0],
        "versions"@[0] != "location"@[0],
        "versions"@[0] != "loglevel"@[0],
        "versions"@[0] != "logs-dir"@[0],
        "versions"@[0] != "logs-max"@[0],
        "versions"@[0] != "progress"@[0],
        "versions"@[0] != "registry"@[0],
        "versions"@[0] != "save-dev"@[0],
        "viewer"@[0] != "access"@[0],
        "viewer"@[0] != "before"@[0],
        "viewer"@[0] != "cafile"@[0],
        "viewer"@[0] != "editor"@[0],
        "viewer"@[0] != "global"@[0],
        "viewer"@[0] != "prefix"@[0],
        "viewer"@[0] != "timing"@[0],
        "which"@[0] != "_auth"@[0],
        "which"@[0] != "audit"@[0],
        "which"@[0] != "cache"@[0],
        "which"@[0] != "color"@[0],
        "which"@[0] != "depth"@[0],
        "which"@[0] != "force"@[0],
        "which"@[0] != "preid"@[0],
        "which"@[0] != "proxy"@[0],
        "which"@[0] != "scope"@[0],
        "which"@[0] != "shell"@[0],
        "which"@[0] != "umask"@[0],
        "which"@[0] != "usage"@[0],
        "workspace"@[0] != "auth-type"@[0],
        "workspace"@[0] != "bin-links"@[0],
        "workspace"@[0] != "diff-text"@[0],
        "workspace"@[0] != "parseable"@[0],
        "workspace"@[0] != "read-only"@[0],
        "workspace"@[0] != "save-peer"@[0],
        "workspace"@[0] != "save-prod"@[0],
        "workspace"@[0] != "sbom-type"@[0],
        "workspaces"@[0] != "if-present"@[0],
        "workspaces"@[0] != "maxsockets"@[0],
        "workspaces"@[0] != "provenance"@[0],
        "workspaces"@[0] != "save-exact"@[0],
        "workspaces"@[0] != "searchopts"@[0],
        "workspaces"@[0] != "strict-ssl"@[0],
        "workspaces"@[0] != "user-agent"@[0],
        "workspaces"@[0] != "userconfig"@[0],
        "workspaces-update"@[0] != "init-author-email"@[0],
        "workspaces-update"@[0] != "package-lock-only"@[0],
        "yes"@[0] != "all"@[0],
        "yes"@[0] != "cpu"@[0],
        "yes"@[0] != "git"@[0],
        "yes"@[0] != "otp"@[0],
        "yes"@[0] != "tag"@[0],
        "also"@[0] != "call"@[0],
        "also"@[0] != "cidr"@[0],
        "also"@[0] != "diff"@[0],
        "also"@[0] != "fund"@[0],
        "also"@[0] != "json"@[0],
        "also"@[0] != "libc"@[0],
        "also"@[0] != "link"@[0],
        "also"@[0] != "long"@[0],
        "also"@[0] != "omit"@[0],
        "also"@[0] != "save"@[0],
        "cache-max"@[0] != "auth-type"@[0],
        "cache-max"@[0] != "bin-links"@[0],
        "cache-max"@[0] != "diff-text"@[0],
        "cache-max"@[0] != "parseable"@[0],
        "cache-max"@[0] != "read-only"@[0],
        "cache-max"@[0] != "save-peer"@[0],
        "cache-max"@[0] != "save-prod"@[0],
        "cache-max"@[0] != "sbom-type"@[0],
        "cache-max"@[0] != "workspace"@[0],
        "cache-min"@[0] != "auth-type"@[0],
        "cache-min"@[0] != "bin-links"@[0],
        "cache-min"@[0] != "diff-text"@[0],
        "cache-min"@[0] != "parseable"@[0],
        "cache-min"@[0] != "read-only"@[0],
        "cache-min"@[0] != "save-peer"@[0],
        "cache-min"@[0] != "save-prod"@[0],
        "cache-min"@[0] != "sbom-type"@[0],
        "cache-min"@[0] != "workspace"@[0],
        "cache-min"@[7] != "cache-max"@[7],
        "cert"@[1] != "call"@[1],
        "cert"@[1] != "cidr"@[1],
        "cert"@[0] != "diff"@[0],
        "cert"@[0] != "fund"@[0],
        "cert"@[0] != "json"@[0],
        "cert"@[0] != "libc"@[0],
        "cert"@[0] != "link"@[0],
        "cert"@[0] != "long"@[0],
        "cert"@[0] != "omit"@[0],
        "cert"@[0] != "save"@[0],
        "cert"@[0] != "also"@[0],
{
    reveal_strlit("_auth");
    reveal_strlit("access");
    reveal_strlit("all");
    reveal_strlit("allow-same-version");
    reveal_strlit("audit");
    reveal_strlit("audit-level");
    reveal_strlit("auth-type");
    reveal_strlit("before");
    reveal_strlit("bin-links");
    reveal_strlit("browser");
    reveal_strlit("ca");
    reveal_strlit("cache");
    reveal_strlit("cafile");
    reveal_strlit("call");
    reveal_strlit("cidr");
    reveal_strlit("color");
    reveal_strlit("commit-hooks");
    reveal_strlit("cpu");
    reveal_strlit("depth");
    reveal_strlit("description");
    reveal_strlit("diff");
    reveal_strlit("diff-dst-prefix");
    reveal_strlit("diff-ignore-all-space");
    reveal_strlit("diff-name-only");
    reveal_strlit("diff-no-prefix");
    reveal_strlit("diff-src-prefix");
    reveal_strlit("diff-text");
    reveal_strlit("diff-unified");
    reveal_strlit("dry-run");
    reveal_strlit("editor");
    reveal_strlit("engine-strict");
    reveal_strlit("expect-result-count");
    reveal_strlit("expect-results");
    reveal_strlit("fetch-retries");
    reveal_strlit("fetch-retry-factor");
    reveal_strlit("fetch-retry-maxtimeout");
    reveal_strlit("fetch-retry-mintimeout");
    reveal_strlit("fetch-timeout");
    reveal_strlit("force");
    reveal_strlit("foreground-scripts");
    reveal_strlit("format-package-lock");
    reveal_strlit("fund");
    reveal_strlit("git");
    reveal_strlit("git-tag-version");
    reveal_strlit("global");
    reveal_strlit("globalconfig");
    reveal_strlit("heading");
    reveal_strlit("https-proxy");
    reveal_strlit("if-present");
    reveal_strlit("ignore-scripts");
    reveal_strlit("include");
    reveal_strlit("include-staged");
    reveal_strlit("include-workspace-root");
    reveal_strlit("init-author-email");
    reveal_strlit("init-author-name");
    reveal_strlit("init-author-url");
    reveal_strlit("init-license");
    reveal_strlit("init-module");
    reveal_strlit("init-version");
    reveal_strlit("install-links");
    reveal_strlit("install-strategy");
    reveal_strlit("json");
    reveal_strlit("legacy-peer-deps");
    reveal_strlit("libc");
    reveal_strlit("link");
    reveal_strlit("local-address");
    reveal_strlit("location");
    reveal_strlit("lockfile-version");
    reveal_strlit("loglevel");
    reveal_strlit("logs-dir");
    reveal_strlit("logs-max");
    reveal_strlit("long");
    reveal_strlit("maxsockets");
    reveal_strlit("message");
    reveal_strlit("node-options");
    reveal_strlit("noproxy");
    reveal_strlit("offline");
    reveal_strlit("omit");
    reveal_strlit("os");
    reveal_strlit("otp");
    reveal_strlit("pack-destination");
    reveal_strlit("package");
    reveal_strlit("package-lock");
    reveal_strlit("package-lock-only");
    reveal_strlit("parseable");
    reveal_strlit("prefer-dedupe");
    reveal_strlit("prefer-offline");
    reveal_strlit("prefer-online");
    reveal_strlit("prefix");
    reveal_strlit("preid");
    reveal_strlit("progress");
    reveal_strlit("provenance");
    reveal_strlit("provenance-file");
    reveal_strlit("proxy");
    reveal_strlit("read-only");
    reveal_strlit("rebuild-bundle");
    reveal_strlit("registry");
    reveal_strlit("replace-registry-host");
    reveal_strlit("save");
    reveal_strlit("save-bundle");
    reveal_strlit("save-dev");
    reveal_strlit("save-exact");
    reveal_strlit("save-optional");
    reveal_strlit("save-peer");
    reveal_strlit("save-prefix");
    reveal_strlit("save-prod");
    reveal_strlit("sbom-format");
    reveal_strlit("sbom-type");
    reveal_strlit("scope");
    reveal_strlit("script-shell");
    reveal_strlit("searchexclude");
    reveal_strlit("searchlimit");
    reveal_strlit("searchopts");
    reveal_strlit("searchstaleness");
    reveal_strlit("shell");
    reveal_strlit("sign-git-commit");
    reveal_strlit("sign-git-tag");
    reveal_strlit("strict-peer-deps");
    reveal_strlit("strict-ssl");
    reveal_strlit("tag");
    reveal_strlit("tag-version-prefix");
    reveal_strlit("timing");
    reveal_strlit("umask");
    reveal_strlit("unicode");
    reveal_strlit("update-notifier");
    reveal_strlit("usage");
    reveal_strlit("user-agent");
    reveal_strlit("userconfig");
    reveal_strlit("version");
    reveal_strlit("versions");
    reveal_strlit("viewer");
    reveal_strlit("which");
    reveal_strlit("workspace");
    reveal_strlit("workspaces");
    reveal_strlit("workspaces-update");
    reveal_strlit("yes");
    reveal_strlit("also");
    reveal_strlit("cache-max");
    reveal_strlit("cache-min");
    reveal_strlit("cert");
}

#[verifier::spinoff_prover]
#[verifier::rlimit(100)]
proof fn lemma_key_names_part0()
    ensures
        config_key_of("_auth"@) == Some(ConfigKey::Auth),
        config_key_of("access"@) == Some(ConfigKey::Access),
        config_key_of("all"@) == Some(ConfigKey::All),
        config_key_of("allow-same-version"@) == Some(ConfigKey::AllowSameVersion),
        config_key_of("audit"@) == Some(ConfigKey::Audit),
        config_key_of("audit-level"@) == Some(ConfigKey::AuditLevel),
        config_key_of("auth-type"@) == Some(ConfigKey::AuthType),
        config_key_of("before"@) == Some(ConfigKey::Before),
        config_key_of("bin-links"@) == Some(ConfigKey::BinLinks),
        config_key_of("browser"@) == Some(ConfigKey::Browser),
        config_key_of("ca"@) == Some(ConfigKey::Ca),
        config_key_of("cache"@) == Some(ConfigKey::Cache),
        config_key_of("cafile"@) == Some(ConfigKey::CaFile),
        config_key_of("call"@) == Some(ConfigKey::Call),
        config_key_of("cidr"@) == Some(ConfigKey::Cidr),
        config_key_of("color"@) == Some(ConfigKey::Color),
        config_key_of("commit-hooks"@) == Some(ConfigKey::CommitHooks),
        config_key_of("cpu"@) == Some(ConfigKey::Cpu),
        config_key_of("depth"@) == Some(ConfigKey::Depth),
        config_key_of("description"@) == Some(ConfigKey::Description),
        config_key_of("diff"@) == Some(ConfigKey::Diff),
        config_key_of("diff-dst-prefix"@) == Some(ConfigKey::DiffDstPrefix),
        config_key_of("diff-ignore-all-space"@) == Some(ConfigKey::DiffIgnoreAllSpace),
        config_key_of("diff-name-only"@) == Some(ConfigKey::DiffNameOnly),
        config_key_of("diff-no-prefix"@) == Some(ConfigKey::DiffNoPrefix),
        config_key_of("diff-src-prefix"@) == Some(ConfigKey::DiffSrcPrefix),
        config_key_of("diff-text"@) == Some(ConfigKey::DiffText),
        config_key_of("diff-unified"@) == Some(ConfigKey::DiffUnified),
        config_key_of("dry-run"@) == Some(ConfigKey::DryRun),
        config_key_of("editor"@) == Some(ConfigKey::Editor),
        config_key_of("engine-strict"@) == Some(ConfigKey::EngineStrict),
        config_key_of("expect-result-count"@) == Some(ConfigKey::ExpectResultCount),
        config_key_of("expect-results"@) == Some(ConfigKey::ExpectResults),
        config_key_of("fetch-retries"@) == Some(ConfigKey::FetchRetries),
        config_key_of("fetch-retry-factor"@) == Some(ConfigKey::FetchRetryFactor),
        config_key_of("fetch-retry-maxtimeout"@) == Some(ConfigKey::FetchRetryMaxtimeout),
        config_key_of("fetch-retry-mintimeout"@) == Some(ConfigKey::FetchRetryMintimeout),
{
    lemma_key_name_lengths();
    lemma_key_names_differ();
}

#[verifier::spinoff_prover]
#[verifier::rlimit(100)]
proof fn lemma_key_names_part1()
    ensures
        config_key_of("fetch-timeout"@) == Some(ConfigKey::FetchTimeout),
        config_key_of("force"@) == Some(ConfigKey::Force),
        config_key_of("foreground-scripts"@) == Some(ConfigKey::ForegroundScripts),
        config_key_of("format-package-lock"@) == Some(ConfigKey::FormatPackageLock),
        config_key_of("fund"@) == Some(ConfigKey::Fund),
        config_key_of("git"@) == Some(ConfigKey::Git),
        config_key_of("git-tag-version"@) == Some(ConfigKey::GitTagVersion),
        config_key_of("global"@) == Some(ConfigKey::Global),
        config_key_of("globalconfig"@) == Some(ConfigKey::GlobalConfig),
        config_key_of("heading"@) == Some(ConfigKey::Heading),
        config_key_of("https-proxy"@) == Some(ConfigKey::HttpsProxy),
        config_key_of("if-present"@) == Some(ConfigKey::IfPresent),
        config_key_of("ignore-scripts"@) == Some(ConfigKey::IgnoreScripts),
        config_key_of("include"@) == Some(ConfigKey::Include),
        config_key_of("include-staged"@) == Some(ConfigKey::IncludeStaged),
        config_key_of("include-workspace-root"@) == Some(ConfigKey::IncludeWorkspaceRoot),
{
    lemma_key_name_lengths();
    lemma_key_names_differ();
}

#[verifier::spinoff_prover]
#[verifier::rlimit(100)]
proof fn lemma_key_names_part2()
    ensures
        config_key_of("init-author-email"@) == Some(ConfigKey::InitAuthorEmail),
        config_key_of("init-author-name"@) == Some(ConfigKey::InitAuthorName),
        config_key_of("init-author-url"@) == Some(ConfigKey::InitAuthorUrl),
        config_key_of("init-license"@) == Some(ConfigKey::InitLicense),
        config_key_of("init-module"@) == Some(ConfigKey::InitModule),
        config_key_of("init-version"@) == Some(ConfigKey::InitVersion),
        config_key_of("install-links"@) == Some(ConfigKey::InstallLinks),
        config_key_of("install-strategy"@) == Some(ConfigKey::InstallStrategy),
        config_key_of("json"@) == Some(ConfigKey::Json),
        config_key_of("legacy-peer-deps"@) == Some(ConfigKey::LegacyPeerDeps),
        config_key_of("libc"@) == Some(ConfigKey::Libc),
        config_key_of("link"@) == Some(ConfigKey::Link),
{
    lemma_key_name_lengths();
    lemma_key_names_differ();
}

#[verifier::spinoff_prover]
#[verifier::rlimit(100)]
proof fn lemma_key_names_part3()
    ensures
        config_key_of("local-address"@) == Some(ConfigKey::LocalAddress),
        config_key_of("location"@) == Some(ConfigKey::Location),
        config_key_of("lockfile-version"@) == Some(ConfigKey::LockfileVersion),
        config_key_of("loglevel"@) == Some(ConfigKey::Loglevel),
        config_key_of("logs-dir"@) == Some(ConfigKey::LogsDir),
        config_key_of("logs-max"@) == Some(ConfigKey::LogsMax),
        config_key_of("long"@) == Some(ConfigKey::Long),
        config_key_of("maxsockets"@) == Some(ConfigKey::MaxSockets),
        config_key_of("message"@) == Some(ConfigKey::Message),
        config_key_of("node-options"@) == Some(ConfigKey::NodeOptions),
{
    lemma_key_name_lengths();
    lemma_key_names_differ();
}

#[verifier::spinoff_prover]
#[verifier::rlimit(100)]
proof fn lemma_key_names_part4()
    ensures
        config_key_of("noproxy"@) == Some(ConfigKey::NoProxy),
        config_key_of("offline"@) == Some(ConfigKey::Offline),
        config_key_of("omit"@) == Some(ConfigKey::Omit),
        config_key_of("omit-lockfile-registry-resolved"@) == Some(ConfigKey::OmitLockfileRegistryResolved),
        config_key_of("os"@) == Some(ConfigKey::Os),
        config_key_of("otp"@) == Some(ConfigKey::Otp),
        config_key_of("pack-destination"@) == Some(ConfigKey::PackDestination),
        config_key_of("package"@) == Some(ConfigKey::Package),
        config_key_of("package-lock"@) == Some(ConfigKey::PackageLock),
{
    lemma_key_name_lengths();
    lemma_key_names_differ();
}

#[verifier::spinoff_prover]
#[verifier::rlimit(100)]
proof fn lemma_key_names_part5()
    ensures
        config_key_of("package-lock-only"@) == Some(ConfigKey::PackageLockOnly),
        config_key_of("parseable"@) == Some(ConfigKey::Parseable),
        config_key_of("prefer-dedupe"@) == Some(ConfigKey::PreferDedupe),
        config_key_of("prefer-offline"@) == Some(ConfigKey::PreferOffline),
        config_key_of("prefer-online"@) == Some(ConfigKey::PreferOnline),
        config_key_of("prefix"@) == Some(ConfigKey::Prefix),
        config_key_of("preid"@) == Some(ConfigKey::Preid),
        config_key_of("progress"@) == Some(ConfigKey::Progress),
{
    lemma_key_name_lengths();
    lemma_key_names_differ();
}

#[verifier::spinoff_prover]
#[verifier::rlimit(100)]
proof fn lemma_key_names_part6()
    ensures
        config_key_of("provenance"@) == Some(ConfigKey::Provenance),
        config_key_of("provenance-file"@) == Some(ConfigKey::ProvenanceFile),
        config_key_of("proxy"@) == Some(ConfigKey::Proxy),
        config_key_of("read-only"@) == Some(ConfigKey::ReadOnly),
        config_key_of("rebuild-bundle"@) == Some(ConfigKey::RebuildBundle),
        config_key_of("registry"@) == Some(ConfigKey::Registry),
        config_key_of("replace-registry-host"@) == Some(ConfigKey::ReplaceRegistryHost),
        config_key_of("save"@) == Some(ConfigKey::Save),
{
    lemma_key_name_lengths();
    lemma_key_names_differ();
}

#[verifier::spinoff_prover]
#[verifier::rlimit(100)]
proof fn lemma_key_names_part7()
    ensures
        config_key_of("save-bundle"@) == Some(ConfigKey::SaveBundle),
        config_key_of("save-dev"@) == Some(ConfigKey::SaveDev),
        config_key_of("save-exact"@) == Some(ConfigKey::SaveExact),
        config_key_of("save-optional"@) == Some(ConfigKey::SaveOptional),
        config_key_of("save-peer"@) == Some(ConfigKey::SavePeer),
        config_key_of("save-prefix"@) == Some(ConfigKey::SavePrefix),
        config_key_of("save-prod"@) == Some(ConfigKey::SaveProd),
{
    lemma_key_name_lengths();
    lemma_key_names_differ();
}

#[verifier::spinoff_prover]
#[verifier::rlimit(100)]
proof fn lemma_key_names_part8()
    ensures
        config_key_of("sbom-format"@) == Some(ConfigKey::SbomFormat),
        config_key_of("sbom-type"@) == Some(ConfigKey::SbomType),
        config_key_of("scope"@) == Some(ConfigKey::Scope),
        config_key_of("script-shell"@) == Some(ConfigKey::ScriptShell),
        config_key_of("searchexclude"@) == Some(ConfigKey::SearchExclude),
        config_key_of("searchlimit"@) == Some(ConfigKey::SearchLimit),
        config_key_of("searchopts"@) == Some(ConfigKey::SearchOpts),
{
    lemma_key_name_lengths();
    lemma_key_names_differ();
}

#[verifier::spinoff_prover]
#[verifier::rlimit(100)]
proof fn lemma_key_names_part9()
    ensures
        config_key_of("searchstaleness"@) == Some(ConfigKey::SearchStaleness),
        config_key_of("shell"@) == Some(ConfigKey::Shell),
        config_key_of("sign-git-commit"@) == Some(ConfigKey::SignGitCommit),
        config_key_of("sign-git-tag"@) == Some(ConfigKey::SignGitTag),
        config_key_of("strict-peer-deps"@) == Some(ConfigKey::StrictPeerDeps),
        config_key_of("strict-ssl"@) == Some(ConfigKey::StrictSsl),
{
    lemma_key_name_lengths();
    lemma_key_names_differ();
}

#[verifier::spinoff_prover]
#[verifier::rlimit(100)]
proof fn lemma_key_names_part10()
    ensures
        config_key_of("tag"@) == Some(ConfigKey::Tag),
        config_key_of("tag-version-prefix"@) == Some(ConfigKey::TagVersionPrefix),
        config_key_of("timing"@) == Some(ConfigKey::Timing),
        config_key_of("umask"@) == Some(ConfigKey::Umask),
        config_key_of("unicode"@) == Some(ConfigKey::Unicode),
        config_key_of("update-notifier"@) == Some(ConfigKey::UpdateNotifier),
{
    lemma_key_name_lengths();
    lemma_key_names_differ();
}

#[verifier::spinoff_prover]
#[verifier::rlimit(100)]
proof fn lemma_key_names_part11()
    ensures
        config_key_of("usage"@) == Some(ConfigKey::Usage),
        config_key_of("user-agent"@) == Some(ConfigKey::UserAgent),
        config_key_of("userconfig"@) == Some(ConfigKey::UserConfig),
        config_key_of("version"@) == Some(ConfigKey::Version),
        config_key_of("versions"@) == Some(ConfigKey::Versions),
        config_key_of("viewer"@) == Some(ConfigKey::Viewer),
{
    lemma_key_name_lengths();
    lemma_key_names_differ();
}

#[verifier::spinoff_prover]
#[verifier::rlimit(100)]
proof fn lemma_key_names_part12()
    ensures
        config_key_of("which"@) == Some(ConfigKey::Which),
        config_key_of("workspace"@) == Some(ConfigKey::Workspace),
        config_key_of("workspaces"@) == Some(ConfigKey::Workspaces),
        config_key_of("workspaces-update"@) == Some(ConfigKey::WorkspacesUpdate),
        config_key_of("yes"@) == Some(ConfigKey::Yes),
        config_key_of("also"@) == Some(ConfigKey::Also),
{
    lemma_key_name_lengths();
    lemma_key_names_differ();
}

#[verifier::spinoff_prover]
#[verifier::rlimit(100)]
proof fn lemma_key_names_part13()
    ensures
        config_key_of("cache-max"@) == Some(ConfigKey::CacheMax),
        config_key_of("cache-min"@) == Some(ConfigKey::CacheMin),
        config_key_of("cert"@) == Some(ConfigKey::Cert),
{
    lemma_key_name_lengths();
    lemma_key_names_differ();
}

/// Each key reads from its npm name, and from no other text.
pub proof fn lemma_key_names(k: ConfigKey, t: Seq<char>)
    ensures
        config_key_of(key_name(k)) == Some(k),
        config_key_of(t) == Some(k) ==> t == key_name(k),
{
    lemma_key_names_part0();
    lemma_key_names_part1();
    lemma_key_names_part2();
    lemma_key_names_part3();
    lemma_key_names_part4();
    lemma_key_names_part5();
    lemma_key_names_part6();
    lemma_key_names_part7();
    lemma_key_names_part8();
    lemma_key_names_part9();
    lemma_key_names_part10();
    lemma_key_names_part11();
    lemma_key_names_part12();
    lemma_key_names_part13();
}


/// An entry `name=v` of a configuration file changes the setting of the
/// key that `name` is the npm name of, as that key's value `v` does.
pub proof fn lemma_entry_sets_named_key(c: NpmConfig, k: ConfigKey, v: String)
    ensures
        entries_applied(c, seq![(key_name(k), Some(v))]) == key_effect(c, k, Some(v)),
{
    lemma_key_names(k, key_name(k));
    let s = seq![(key_name(k), Some(v))];
    assert(s.drop_last() =~= Seq::<(Seq<char>, Option<String>)>::empty());
    assert(entries_applied(c, s.drop_last()) == c);
    assert(s.last() == (key_name(k), Some(v)));
    assert(key_applied(c, key_name(k), Some(v)) == key_effect(c, k, Some(v)));
}

} // verus!
