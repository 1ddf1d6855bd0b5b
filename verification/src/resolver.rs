//! The capability a category resolver implements. Resolvers are external
//! collaborators (they query the filesystem, a subprocess, or a library);
//! the aggregator only defines what they must return and how their results
//! are merged, and it never invokes a resolver whose category has nothing
//! enabled.

use vstd::prelude::*;
use crate::error::Error;
use crate::facts::BuildFacts;
use crate::facts::CargoFacts;
use crate::facts::GitFacts;
use crate::facts::RustcFacts;
use crate::features::Build;
use crate::features::Cargo;
use crate::features::Git;
use crate::features::Rustc;

verus! {

/// One fact producer per category. Implementations are free to resolve a
/// field or leave it `None`; the aggregator keeps only the fields whose
/// switches are enabled, so an implementation may also compute eagerly.
pub trait Resolver {
    /// Produce the build-time facts. This category has no fallible
    /// prerequisite, so it cannot fail.
    fn resolve_build(&mut self, toggles: &Build) -> BuildFacts;

    /// Produce the version-control facts, looking for the repository at
    /// `repo_path` when given, or upward from the current working location
    /// otherwise. Fails as a unit when no repository is discoverable or its
    /// required state is unreadable.
    fn resolve_git(&mut self, toggles: &Git, repo_path: &Option<String>) -> Result<
        GitFacts,
        Error,
    >;

    /// Produce the compiler facts. Fails as a unit when the compiler's
    /// self-report cannot be parsed.
    fn resolve_rustc(&mut self, toggles: &Rustc) -> Result<RustcFacts, Error>;

    /// Produce the package-manager facts. This category has no fallible
    /// prerequisite, so it cannot fail.
    fn resolve_cargo(&mut self, toggles: &Cargo) -> CargoFacts;
}

} // verus!
