//! The plain records a category resolver hands back: one optional value per
//! key the category owns. A `None` field is not an error; it reflects data
//! that was legitimately unavailable.

use vstd::prelude::*;

verus! {

/// The view of an optional resolved value.
pub open spec fn opt_view(o: Option<String>) -> Option<Seq<char>> {
    match o {
        Option::Some(s) => Option::Some(s@),
        Option::None => Option::None,
    }
}

/// What the build-time resolver produced.
#[derive(Clone, Debug)]
pub struct BuildFacts {
    /// The build date.
    pub date: Option<String>,
    /// The build time.
    pub time: Option<String>,
    /// The combined build timestamp.
    pub timestamp: Option<String>,
    /// The crate's own semver.
    pub semver: Option<String>,
}

impl Default for BuildFacts {
    /// A record with nothing resolved.
    fn default() -> (r: Self)
        ensures
            r.date is None,
            r.time is None,
            r.timestamp is None,
            r.semver is None,
    {
        BuildFacts { date: None, time: None, timestamp: None, semver: None }
    }
}

/// What the version-control resolver produced.
#[derive(Clone, Debug)]
pub struct GitFacts {
    /// The current branch name.
    pub branch: Option<String>,
    /// The latest commit date.
    pub commit_date: Option<String>,
    /// The latest commit time.
    pub commit_time: Option<String>,
    /// The combined latest commit timestamp.
    pub commit_timestamp: Option<String>,
    /// The version string derived from annotated tags.
    pub semver: Option<String>,
    /// The version string with lightweight tags included.
    pub semver_lightweight: Option<String>,
    /// The latest commit hash.
    pub sha: Option<String>,
    /// The latest commit short hash.
    pub sha_short: Option<String>,
    /// The path to the repository's current head pointer.
    pub head_path: Option<String>,
    /// The path the head resolves to, when it is symbolic.
    pub ref_path: Option<String>,
}

impl Default for GitFacts {
    /// A record with nothing resolved.
    fn default() -> (r: Self)
        ensures
            r.branch is None,
            r.commit_date is None,
            r.commit_time is None,
            r.commit_timestamp is None,
            r.semver is None,
            r.semver_lightweight is None,
            r.sha is None,
            r.sha_short is None,
            r.head_path is None,
            r.ref_path is None,
    {
        GitFacts {
            branch: None,
            commit_date: None,
            commit_time: None,
            commit_timestamp: None,
            semver: None,
            semver_lightweight: None,
            sha: None,
            sha_short: None,
            head_path: None,
            ref_path: None,
        }
    }
}

/// What the compiler resolver produced.
#[derive(Clone, Debug)]
pub struct RustcFacts {
    /// The release channel of the compiler.
    pub channel: Option<String>,
    /// The compiler's commit date.
    pub commit_date: Option<String>,
    /// The compiler's commit hash.
    pub commit_hash: Option<String>,
    /// The host triple.
    pub host_triple: Option<String>,
    /// The LLVM version the compiler reports.
    pub llvm_version: Option<String>,
    /// The compiler's semver.
    pub semver: Option<String>,
}

impl Default for RustcFacts {
    /// A record with nothing resolved.
    fn default() -> (r: Self)
        ensures
            r.channel is None,
            r.commit_date is None,
            r.commit_hash is None,
            r.host_triple is None,
            r.llvm_version is None,
            r.semver is None,
    {
        RustcFacts {
            channel: None,
            commit_date: None,
            commit_hash: None,
            host_triple: None,
            llvm_version: None,
            semver: None,
        }
    }
}

/// What the package-manager resolver produced.
#[derive(Clone, Debug)]
pub struct CargoFacts {
    /// The enabled cargo features.
    pub features: Option<String>,
    /// The cargo profile.
    pub profile: Option<String>,
    /// The cargo target triple.
    pub target_triple: Option<String>,
}

impl Default for CargoFacts {
    /// A record with nothing resolved.
    fn default() -> (r: Self)
        ensures
            r.features is None,
            r.profile is None,
            r.target_triple is None,
    {
        CargoFacts { features: None, profile: None, target_triple: None }
    }
}

} // verus!
