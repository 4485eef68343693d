//! A package asked for by name and version.
use vstd::prelude::*;

use crate::cache::registry::key_parts;
use crate::common::errors::VersionError;
use crate::text::{chars_of, decimal, first_index, first_index_of, lemma_first_index_of, owned, push_char, push_decimal, str_eq};

verus! {

/// A package name and its version.
#[derive(Debug, Clone)]
pub struct Package {
    pub name: String,
    pub version: String,
}

/// `name@version` split at `@`: the first part, and the second, or
/// `latest` when there is none.
pub open spec fn package_parts(s: Seq<char>) -> (Seq<char>, Seq<char>) {
    if first_index_of(s, '@') < 0 {
        (s, "latest"@)
    } else {
        key_parts(s)
    }
}

/// What `semver::VersionReq::parse` gives for the text: `None` when it
/// refuses it, else major, minor and patch of its first comparator, if it
/// has one.
pub uninterp spec fn version_req_first(text: Seq<char>) -> Option<Option<(u64, Option<u64>, Option<u64>)>>;

/// The message of the error `semver::VersionReq::parse` gives for the text.
pub uninterp spec fn version_req_error(text: Seq<char>) -> Seq<char>;

/// `semver::VersionReq::parse`, keeping major, minor and patch of the first
/// comparator; the error by its message.
#[verifier::external_body]
fn first_comparator(version: &str) -> (r: Result<Option<(u64, Option<u64>, Option<u64>)>, String>)
    ensures
        match r {
            Ok(c) => version_req_first(version@) == Some(c),
            Err(e) => version_req_first(version@) is None && e@ == version_req_error(version@),
        },
{
    match semver::VersionReq::parse(version) {
        Ok(req) => Ok(req.comparators.first().map(|c| (c.major, c.minor, c.patch))),
        Err(e) => Err(e.to_string()),
    }
}

/// The version kept for a comparator: `major.minor.patch`, `major.minor`
/// or `major`, as far as it gives them.
pub open spec fn comparator_text(c: (u64, Option<u64>, Option<u64>)) -> Option<Seq<char>> {
    match (c.1, c.2) {
        (Some(minor), Some(patch)) => Some(
            decimal(c.0 as nat) + seq!['.'] + decimal(minor as nat) + seq!['.'] + decimal(patch as nat),
        ),
        (Some(minor), None) => Some(decimal(c.0 as nat) + seq!['.'] + decimal(minor as nat)),
        (None, None) => Some(decimal(c.0 as nat)),
        _ => None,
    }
}

/// The version a package keeps, or why it is refused: `latest` and `*` as
/// they are, any other the version of the first comparator of the
/// requirement it reads as.
pub open spec fn package_version(version: Seq<char>) -> Result<Seq<char>, Seq<char>> {
    if version == "latest"@ || version == "*"@ {
        Ok(version)
    } else {
        match version_req_first(version) {
            None => Err(version_req_error(version)),
            Some(None) => Err("Failed to get comparator"@),
            Some(Some(c)) => match comparator_text(c) {
                Some(t) => Ok(t),
                None => Err("Failed to get version"@),
            },
        }
    }
}

impl Package {
    /// Splits `name@version`; without an `@` the version is `latest`.
    pub fn parse_package(package: String) -> (r: (String, String))
        ensures
            (r.0@, r.1@) == package_parts(package@),
    {
        let s = chars_of(package.as_str());
        proof {
            lemma_first_index_of(s@, '@');
        }
        match first_index(&s, '@') {
            None => (package, owned("latest")),
            Some(_) => {
                let key = crate::cache::registry::convert_to_registry_key(package.as_str());
                (key.name, key.version)
            },
        }
    }

    /// A package with its version read as a requirement (see
    /// `package_version`); a version that does not read is refused.
    pub fn new(name: String, version: String) -> (r: Result<Self, VersionError>)
        ensures
            match package_version(version@) {
                Ok(v) => r matches Ok(p) && p.name == name && p.version@ == v,
                Err(reason) => r matches Err(e) && e.reason@ == reason,
            },
    {
        if str_eq(version.as_str(), "latest") || str_eq(version.as_str(), "*") {
            return Ok(Self { name, version });
        }
        let comparator = match first_comparator(version.as_str()) {
            Ok(c) => c,
            Err(e) => {
                return Err(VersionError::new(e));
            },
        };
        let (major, minor, patch) = match comparator {
            Some(c) => c,
            None => {
                return Err(VersionError::new(owned("Failed to get comparator")));
            },
        };
        let mut text = String::new();
        push_decimal(&mut text, major);
        match (minor, patch) {
            (Some(minor), Some(patch)) => {
                push_char(&mut text, '.');
                push_decimal(&mut text, minor);
                push_char(&mut text, '.');
                push_decimal(&mut text, patch);
            },
            (Some(minor), None) => {
                push_char(&mut text, '.');
                push_decimal(&mut text, minor);
            },
            (None, None) => {},
            _ => {
                return Err(VersionError::new(owned("Failed to get version")));
            },
        }
        assert(Some(text@) == comparator_text((major, minor, patch)));
        Ok(Self { name, version: text })
    }
}

} // verus!
