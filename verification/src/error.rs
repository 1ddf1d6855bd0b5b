//! The categorical failures an aggregation run can surface.

use vstd::prelude::*;

verus! {

/// Why a category resolver failed as a unit. The build and package-manager
/// categories have no fallible data source; only the version-control and
/// compiler categories can fail.
#[derive(Clone, Copy, Debug, PartialEq, Eq, Structural, Hash)]
pub enum Error {
    /// No version-control root was discoverable.
    RepositoryNotFound,
    /// A root was found, but required repository state was missing or unreadable.
    RepositoryStateUnavailable,
    /// The compiler's self-reported version string did not match the expected
    /// structure.
    CompilerVersionUnparseable,
}

} // verus!
