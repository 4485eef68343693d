//! Settings that agree on every value, texts by their characters.
use vstd::prelude::*;

use crate::npm_conf::{has_defaults, opt_text, Depth, NpmConfig, Platform};

verus! {

pub open spec fn same_depth(a: Depth, b: Depth) -> bool {
    match (a, b) {
        (Depth::IntVal(x), Depth::IntVal(y)) => x == y,
        (Depth::StringVal(x), Depth::StringVal(y)) => x@ == y@,
        _ => false,
    }
}

/// Two settings that agree on every value, texts by their characters.
pub open spec fn same_settings(a: NpmConfig, b: NpmConfig) -> bool {
    &&& opt_text(a._auth) == opt_text(b._auth)
    &&& a.access == b.access
    &&& a.all == b.all
    &&& a.allow_same_version == b.allow_same_version
    &&& a.audit == b.audit
    &&& opt_text(a.audit_level) == opt_text(b.audit_level)
    &&& a.auth_type == b.auth_type
    &&& a.before == b.before
    &&& a.bin_links == b.bin_links
    &&& a.browser@ == b.browser@
    &&& opt_text(a.ca) == opt_text(b.ca)
    &&& a.cache@ == b.cache@
    &&& opt_text(a.ca_file) == opt_text(b.ca_file)
    &&& opt_text(a.call) == opt_text(b.call)
    &&& opt_text(a.cidr) == opt_text(b.cidr)
    &&& a.color == b.color
    &&& a.commit_hooks == b.commit_hooks
    &&& opt_text(a.cpu) == opt_text(b.cpu)
    &&& same_depth(a.depth, b.depth)
    &&& a.description == b.description
    &&& a.diff@ == b.diff@
    &&& a.diff_dst_prefix@ == b.diff_dst_prefix@
    &&& a.diff_ignore_all_space == b.diff_ignore_all_space
    &&& a.diff_name_only == b.diff_name_only
    &&& a.diff_no_prefix == b.diff_no_prefix
    &&& a.diff_src_prefix@ == b.diff_src_prefix@
    &&& a.diff_text == b.diff_text
    &&& a.diff_unified == b.diff_unified
    &&& a.dry_run == b.dry_run
    &&& a.editor@ == b.editor@
    &&& a.engine_strict == b.engine_strict
    &&& a.expect_result_count == b.expect_result_count
    &&& a.expect_results == b.expect_results
    &&& a.fetch_retries == b.fetch_retries
    &&& a.fetch_retry_factor == b.fetch_retry_factor
    &&& a.fetch_retry_maxtimeout == b.fetch_retry_maxtimeout
    &&& a.fetch_retry_mintimeout == b.fetch_retry_mintimeout
    &&& a.fetch_timeout == b.fetch_timeout
    &&& a.force == b.force
    &&& a.foreground_scripts == b.foreground_scripts
    &&& a.format_package_lock == b.format_package_lock
    &&& a.fund == b.fund
    &&& a.git@ == b.git@
    &&& a.git_tag_version == b.git_tag_version
    &&& a.global == b.global
    &&& opt_text(a.globalconfig) == opt_text(b.globalconfig)
    &&& a.heading@ == b.heading@
    &&& opt_text(a.https_proxy) == opt_text(b.https_proxy)
    &&& a.if_present == b.if_present
    &&& a.ignore_scripts == b.ignore_scripts
    &&& a.included == b.included
    &&& a.include_staged == b.include_staged
    &&& a.include_workspace_root == b.include_workspace_root
    &&& opt_text(a.init_author_email) == opt_text(b.init_author_email)
    &&& opt_text(a.init_author_name) == opt_text(b.init_author_name)
    &&& opt_text(a.init_author_url) == opt_text(b.init_author_url)
    &&& a.init_license@ == b.init_license@
    &&& a.init_module@ == b.init_module@
    &&& a.init_version@ == b.init_version@
    &&& a.install_links == b.install_links
    &&& a.install_strategy == b.install_strategy
    &&& a.json == b.json
    &&& a.legacy_peer_deps == b.legacy_peer_deps
    &&& opt_text(a.libc) == opt_text(b.libc)
    &&& a.link == b.link
    &&& opt_text(a.local_address) == opt_text(b.local_address)
    &&& a._location == b._location
    &&& a.lockfile_version == b.lockfile_version
    &&& a._log_level == b._log_level
    &&& a.logs_dir@ == b.logs_dir@
    &&& a.logs_max == b.logs_max
    &&& a.long == b.long
    &&& a.max_sockets == b.max_sockets
    &&& a.message@ == b.message@
    &&& opt_text(a.node_options) == opt_text(b.node_options)
    &&& opt_text(a.no_proxy) == opt_text(b.no_proxy)
    &&& a.offline == b.offline
    &&& opt_text(a.omit) == opt_text(b.omit)
    &&& a.omit_lockfile_registry_resolved == b.omit_lockfile_registry_resolved
    &&& opt_text(a.os) == opt_text(b.os)
    &&& opt_text(a.otp) == opt_text(b.otp)
    &&& opt_text(a.pack_destination) == opt_text(b.pack_destination)
    &&& a.package@ == b.package@
    &&& a.package_lock == b.package_lock
    &&& a.package_lock_only == b.package_lock_only
    &&& a.parseable == b.parseable
    &&& a.prefer_dedupe == b.prefer_dedupe
    &&& a.prefer_offline == b.prefer_offline
    &&& a.prefer_online == b.prefer_online
    &&& a.prefix@ == b.prefix@
    &&& opt_text(a.preid) == opt_text(b.preid)
    &&& a.progress == b.progress
    &&& a.provenance == b.provenance
    &&& opt_text(a.provenance_file) == opt_text(b.provenance_file)
    &&& opt_text(a.proxy) == opt_text(b.proxy)
    &&& a.read_only == b.read_only
    &&& a.rebuild_bundle == b.rebuild_bundle
    &&& a.registry@ == b.registry@
    &&& a.replace_registry_host@ == b.replace_registry_host@
    &&& a.save == b.save
    &&& a.save_bundle == b.save_bundle
    &&& a.save_dev == b.save_dev
    &&& a.save_exact == b.save_exact
    &&& a.save_optional == b.save_optional
    &&& a.save_peer == b.save_peer
    &&& a.save_prefix@ == b.save_prefix@
    &&& a.save_prod == b.save_prod
    &&& opt_text(a.sbom_format) == opt_text(b.sbom_format)
    &&& a.sbom_type@ == b.sbom_type@
    &&& opt_text(a.scope) == opt_text(b.scope)
    &&& a.script_shell@ == b.script_shell@
    &&& opt_text(a.search_exclude) == opt_text(b.search_exclude)
    &&& a.search_limit == b.search_limit
    &&& opt_text(a.search_opts) == opt_text(b.search_opts)
    &&& a.search_staleness == b.search_staleness
    &&& a.shell@ == b.shell@
    &&& a.sign_git_commit == b.sign_git_commit
    &&& a.sign_git_tag == b.sign_git_tag
    &&& a.strict_peer_deps == b.strict_peer_deps
    &&& a.strict_ssl == b.strict_ssl
    &&& a.tag@ == b.tag@
    &&& a.tag_version_prefix@ == b.tag_version_prefix@
    &&& a.timing == b.timing
    &&& a.umask == b.umask
    &&& a.unicode == b.unicode
    &&& a.update_notifier == b.update_notifier
    &&& a.usage == b.usage
    &&& a.user_agent@ == b.user_agent@
    &&& a.user_config@ == b.user_config@
    &&& a.version == b.version
    &&& a.versions == b.versions
    &&& a.viewer@ == b.viewer@
    &&& a.which == b.which
    &&& opt_text(a.workspace) == opt_text(b.workspace)
    &&& a.workspaces == b.workspaces
    &&& a.workspaces_update == b.workspaces_update
    &&& a.yes == b.yes
    &&& opt_text(a.also) == opt_text(b.also)
    &&& a.cache_max == b.cache_max
    &&& a.cache_min == b.cache_min
    &&& opt_text(a.cert) == opt_text(b.cert)
    &&& opt_text(a._key) == opt_text(b._key)
}

/// npm's defaults for one platform and environment agree.
pub proof fn lemma_defaults_agree(
    d1: NpmConfig,
    d2: NpmConfig,
    platform: Platform,
    env: Seq<(Seq<char>, String)>,
)
    requires
        has_defaults(d1, platform, env),
        has_defaults(d2, platform, env),
    ensures
        same_settings(d1, d2),
{
}

} // verus!
