//! The per-category toggle models: which facts each category should resolve,
//! and the category-specific style options.

use vstd::prelude::*;

verus! {

/// The time representation used when rendering a timestamp fact.
#[derive(Clone, Copy, Debug, PartialEq, Eq, Structural, Hash)]
pub enum TimeZone {
    /// Coordinated Universal Time.
    Utc,
    /// The local time of the machine running the resolution.
    Local,
}

/// The granularity of the timestamp facts a category produces.
#[derive(Clone, Copy, Debug, PartialEq, Eq, Structural, Hash)]
pub enum TimestampKind {
    /// Only the date fact.
    DateOnly,
    /// Only the time fact.
    TimeOnly,
    /// The full set: date, time, and the combined timestamp.
    Timestamp,
}

/// The style of the version-string facts the version-control category produces.
#[derive(Clone, Copy, Debug, PartialEq, Eq, Structural, Hash)]
pub enum SemverKind {
    /// The version string derived from annotated tags only.
    Normal,
    /// The version string with lightweight tags included.
    Lightweight,
}

/// The style of the commit-hash facts the version-control category produces.
#[derive(Clone, Copy, Debug, PartialEq, Eq, Structural, Hash)]
pub enum ShaKind {
    /// The full hash, alongside its short form.
    Normal,
    /// The short form only.
    Short,
}

/// Configuration of the build-time facts.
#[derive(Clone, Copy, Debug, PartialEq, Eq, Structural, Hash)]
pub struct Build {
    /// Whether the timestamp facts are requested.
    pub timestamp: bool,
    /// The time representation of the timestamp facts.
    pub timezone: TimeZone,
    /// The granularity of the timestamp facts.
    pub kind: TimestampKind,
    /// Whether the build semver fact is requested.
    pub semver: bool,
}

impl Build {
    /// The default model: everything enabled, full timestamps in UTC.
    pub open spec fn default_spec() -> Build {
        Build {
            timestamp: true,
            timezone: TimeZone::Utc,
            kind: TimestampKind::Timestamp,
            semver: true,
        }
    }

    /// True iff at least one switch of this model is set.
    pub open spec fn has_enabled_spec(self) -> bool {
        self.timestamp || self.semver
    }

    /// True iff at least one switch of this model is set.
    pub fn has_enabled(&self) -> (r: bool)
        ensures
            r == self.has_enabled_spec(),
    {
        self.timestamp || self.semver
    }

    /// Whether the toggles call for the build date fact.
    pub open spec fn date_enabled(self) -> bool {
        self.timestamp && (self.kind == TimestampKind::DateOnly || self.kind
            == TimestampKind::Timestamp)
    }

    /// Whether the toggles call for the build time fact.
    pub open spec fn time_enabled(self) -> bool {
        self.timestamp && (self.kind == TimestampKind::TimeOnly || self.kind
            == TimestampKind::Timestamp)
    }

    /// Whether the toggles call for the combined build timestamp fact.
    pub open spec fn timestamp_enabled(self) -> bool {
        self.timestamp && self.kind == TimestampKind::Timestamp
    }

    /// Whether the timestamp facts are requested.
    pub fn timestamp(&self) -> (r: &bool)
        ensures
            *r == self.timestamp,
    {
        &self.timestamp
    }

    /// The time representation of the timestamp facts.
    pub fn timezone(&self) -> (r: &TimeZone)
        ensures
            *r == self.timezone,
    {
        &self.timezone
    }

    /// The granularity of the timestamp facts.
    pub fn kind(&self) -> (r: &TimestampKind)
        ensures
            *r == self.kind,
    {
        &self.kind
    }

    /// Whether the build semver fact is requested.
    pub fn semver(&self) -> (r: &bool)
        ensures
            *r == self.semver,
    {
        &self.semver
    }
}

impl Default for Build {
    /// Everything enabled: full timestamps in UTC, and the semver fact.
    fn default() -> (r: Self)
        ensures
            r == Build::default_spec(),
    {
        Build { timestamp: true, timezone: TimeZone::Utc, kind: TimestampKind::Timestamp, semver: true }
    }
}

/// Configuration of the package-manager facts.
#[derive(Clone, Copy, Debug, PartialEq, Eq, Structural, Hash)]
pub struct Cargo {
    /// Whether the cargo features fact is requested.
    pub features: bool,
    /// Whether the cargo profile fact is requested.
    pub profile: bool,
    /// Whether the cargo target triple fact is requested.
    pub target_triple: bool,
}

impl Cargo {
    /// The default model: everything enabled.
    pub open spec fn default_spec() -> Cargo {
        Cargo { features: true, profile: true, target_triple: true }
    }

    /// True iff at least one switch of this model is set.
    pub open spec fn has_enabled_spec(self) -> bool {
        self.features || self.profile || self.target_triple
    }

    /// True iff at least one switch of this model is set.
    pub fn has_enabled(&self) -> (r: bool)
        ensures
            r == self.has_enabled_spec(),
    {
        self.features || self.profile || self.target_triple
    }

    /// Whether the cargo features fact is requested.
    pub fn features(&self) -> (r: &bool)
        ensures
            *r == self.features,
    {
        &self.features
    }

    /// Whether the cargo profile fact is requested.
    pub fn profile(&self) -> (r: &bool)
        ensures
            *r == self.profile,
    {
        &self.profile
    }

    /// Whether the cargo target triple fact is requested.
    pub fn target_triple(&self) -> (r: &bool)
        ensures
            *r == self.target_triple,
    {
        &self.target_triple
    }
}

impl Default for Cargo {
    /// Everything enabled.
    fn default() -> (r: Self)
        ensures
            r == Cargo::default_spec(),
    {
        Cargo { features: true, profile: true, target_triple: true }
    }
}

/// Configuration of the version-control facts.
#[derive(Clone, Copy, Debug, PartialEq, Eq, Structural, Hash)]
pub struct Git {
    /// Whether the branch fact is requested.
    pub branch: bool,
    /// Whether the commit timestamp facts are requested.
    pub commit_timestamp: bool,
    /// The time representation of the commit timestamp facts.
    pub commit_timestamp_timezone: TimeZone,
    /// The granularity of the commit timestamp facts.
    pub commit_timestamp_kind: TimestampKind,
    /// Whether the watch paths for the repository head should be emitted.
    pub rerun_on_head_change: bool,
    /// Whether the tag-derived semver fact is requested.
    pub semver: bool,
    /// The style of the tag-derived semver fact.
    pub semver_kind: SemverKind,
    /// Whether the commit hash facts are requested.
    pub sha: bool,
    /// The style of the commit hash facts.
    pub sha_kind: ShaKind,
}

impl Git {
    /// The default model: everything enabled, full timestamps in UTC, normal
    /// semver and hash styles.
    pub open spec fn default_spec() -> Git {
        Git {
            branch: true,
            commit_timestamp: true,
            commit_timestamp_timezone: TimeZone::Utc,
            commit_timestamp_kind: TimestampKind::Timestamp,
            rerun_on_head_change: true,
            semver: true,
            semver_kind: SemverKind::Normal,
            sha: true,
            sha_kind: ShaKind::Normal,
        }
    }

    /// True iff at least one switch of this model is set.
    pub open spec fn has_enabled_spec(self) -> bool {
        self.branch || self.commit_timestamp || self.rerun_on_head_change || self.semver
            || self.sha
    }

    /// True iff at least one switch of this model is set.
    pub fn has_enabled(&self) -> (r: bool)
        ensures
            r == self.has_enabled_spec(),
    {
        self.branch || self.commit_timestamp || self.rerun_on_head_change || self.semver
            || self.sha
    }

    /// Whether the toggles call for the commit date fact.
    pub open spec fn commit_date_enabled(self) -> bool {
        self.commit_timestamp && (self.commit_timestamp_kind == TimestampKind::DateOnly
            || self.commit_timestamp_kind == TimestampKind::Timestamp)
    }

    /// Whether the toggles call for the commit time fact.
    pub open spec fn commit_time_enabled(self) -> bool {
        self.commit_timestamp && (self.commit_timestamp_kind == TimestampKind::TimeOnly
            || self.commit_timestamp_kind == TimestampKind::Timestamp)
    }

    /// Whether the toggles call for the combined commit timestamp fact.
    pub open spec fn commit_timestamp_enabled(self) -> bool {
        self.commit_timestamp && self.commit_timestamp_kind == TimestampKind::Timestamp
    }

    /// Whether the toggles call for the annotated-tag semver fact.
    pub open spec fn semver_enabled(self) -> bool {
        self.semver && self.semver_kind == SemverKind::Normal
    }

    /// Whether the toggles call for the lightweight-tag semver fact.
    pub open spec fn semver_lightweight_enabled(self) -> bool {
        self.semver && self.semver_kind == SemverKind::Lightweight
    }

    /// Whether the toggles call for the full commit hash fact.
    pub open spec fn sha_enabled(self) -> bool {
        self.sha && self.sha_kind == ShaKind::Normal
    }

    /// Whether the toggles call for the short commit hash fact; the short
    /// form accompanies both hash styles.
    pub open spec fn short_sha_enabled(self) -> bool {
        self.sha
    }

    /// Whether the branch fact is requested.
    pub fn branch(&self) -> (r: &bool)
        ensures
            *r == self.branch,
    {
        &self.branch
    }

    /// Whether the commit timestamp facts are requested.
    pub fn commit_timestamp(&self) -> (r: &bool)
        ensures
            *r == self.commit_timestamp,
    {
        &self.commit_timestamp
    }

    /// The time representation of the commit timestamp facts.
    pub fn commit_timestamp_timezone(&self) -> (r: &TimeZone)
        ensures
            *r == self.commit_timestamp_timezone,
    {
        &self.commit_timestamp_timezone
    }

    /// The granularity of the commit timestamp facts.
    pub fn commit_timestamp_kind(&self) -> (r: &TimestampKind)
        ensures
            *r == self.commit_timestamp_kind,
    {
        &self.commit_timestamp_kind
    }

    /// Whether the watch paths for the repository head should be emitted.
    pub fn rerun_on_head_change(&self) -> (r: &bool)
        ensures
            *r == self.rerun_on_head_change,
    {
        &self.rerun_on_head_change
    }

    /// Whether the tag-derived semver fact is requested.
    pub fn semver(&self) -> (r: &bool)
        ensures
            *r == self.semver,
    {
        &self.semver
    }

    /// The style of the tag-derived semver fact.
    pub fn semver_kind(&self) -> (r: &SemverKind)
        ensures
            *r == self.semver_kind,
    {
        &self.semver_kind
    }

    /// Whether the commit hash facts are requested.
    pub fn sha(&self) -> (r: &bool)
        ensures
            *r == self.sha,
    {
        &self.sha
    }

    /// The style of the commit hash facts.
    pub fn sha_kind(&self) -> (r: &ShaKind)
        ensures
            *r == self.sha_kind,
    {
        &self.sha_kind
    }
}

impl Default for Git {
    /// Everything enabled: full timestamps in UTC, normal semver and hash styles.
    fn default() -> (r: Self)
        ensures
            r == Git::default_spec(),
    {
        Git {
            branch: true,
            commit_timestamp: true,
            commit_timestamp_timezone: TimeZone::Utc,
            commit_timestamp_kind: TimestampKind::Timestamp,
            rerun_on_head_change: true,
            semver: true,
            semver_kind: SemverKind::Normal,
            sha: true,
            sha_kind: ShaKind::Normal,
        }
    }
}

/// Configuration of the compiler facts.
#[derive(Clone, Copy, Debug, PartialEq, Eq, Structural, Hash)]
pub struct Rustc {
    /// Whether the release channel fact is requested.
    pub channel: bool,
    /// Whether the compiler commit date fact is requested.
    pub commit_date: bool,
    /// Whether the host triple fact is requested.
    pub host_triple: bool,
    /// Whether the LLVM version fact is requested.
    pub llvm_version: bool,
    /// Whether the compiler commit hash fact is requested.
    pub sha: bool,
    /// Whether the compiler semver fact is requested.
    pub semver: bool,
}

impl Rustc {
    /// The default model: everything enabled.
    pub open spec fn default_spec() -> Rustc {
        Rustc {
            channel: true,
            commit_date: true,
            host_triple: true,
            llvm_version: true,
            sha: true,
            semver: true,
        }
    }

    /// True iff at least one switch of this model is set.
    pub open spec fn has_enabled_spec(self) -> bool {
        self.channel || self.commit_date || self.host_triple || self.llvm_version || self.sha
            || self.semver
    }

    /// True iff at least one switch of this model is set.
    pub fn has_enabled(&self) -> (r: bool)
        ensures
            r == self.has_enabled_spec(),
    {
        self.channel || self.commit_date || self.host_triple || self.llvm_version || self.sha
            || self.semver
    }

    /// Whether the release channel fact is requested.
    pub fn channel(&self) -> (r: &bool)
        ensures
            *r == self.channel,
    {
        &self.channel
    }

    /// Whether the compiler commit date fact is requested.
    pub fn commit_date(&self) -> (r: &bool)
        ensures
            *r == self.commit_date,
    {
        &self.commit_date
    }

    /// Whether the host triple fact is requested.
    pub fn host_triple(&self) -> (r: &bool)
        ensures
            *r == self.host_triple,
    {
        &self.host_triple
    }

    /// Whether the LLVM version fact is requested.
    pub fn llvm_version(&self) -> (r: &bool)
        ensures
            *r == self.llvm_version,
    {
        &self.llvm_version
    }

    /// Whether the compiler commit hash fact is requested.
    pub fn sha(&self) -> (r: &bool)
        ensures
            *r == self.sha,
    {
        &self.sha
    }

    /// Whether the compiler semver fact is requested.
    pub fn semver(&self) -> (r: &bool)
        ensures
            *r == self.semver,
    {
        &self.semver
    }
}

impl Default for Rustc {
    /// Everything enabled.
    fn default() -> (r: Self)
        ensures
            r == Rustc::default_spec(),
    {
        Rustc {
            channel: true,
            commit_date: true,
            host_triple: true,
            llvm_version: true,
            sha: true,
            semver: true,
        }
    }
}

} // verus!
