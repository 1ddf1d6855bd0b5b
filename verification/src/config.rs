//! The aggregation engine: `Config`, the total key/value result of one run,
//! and `Instructions`, the caller-facing composition of the four toggle
//! models that drives the run.

use vstd::prelude::*;
use crate::error::Error;
use crate::flags::ConstantsFlags;
use crate::facts::opt_view;
use crate::facts::BuildFacts;
use crate::facts::CargoFacts;
use crate::facts::GitFacts;
use crate::facts::RustcFacts;
use crate::features::Build;
use crate::features::Cargo;
use crate::features::Git;
use crate::features::Rustc;
use crate::features::SemverKind;
use crate::features::ShaKind;
use crate::features::TimestampKind;
use crate::keys::Category;
use crate::keys::VergenKey;
use crate::keys::NUM_KEYS;
use crate::resolver::Resolver;

verus! {

/// The result of one aggregation run: a total mapping from every recognized
/// key to an optional resolved value, plus the optional watch paths of the
/// version-control category. Entries are never added or removed; within one
/// run they only move from unset to resolved.
#[derive(Clone, Debug)]
pub struct Config {
    cfg_map: Vec<Option<String>>,
    head_path: Option<String>,
    ref_path: Option<String>,
}

impl Config {
    /// The mapping holds exactly one slot per key of the registry.
    pub closed spec fn wf(self) -> bool {
        self.cfg_map@.len() == NUM_KEYS
    }

    /// The value this run resolved for `k`, or `None` when unset.
    pub closed spec fn entry(self, k: VergenKey) -> Option<Seq<char>> {
        opt_view(self.cfg_map@[k.index_spec()])
    }

    /// The watch path of the repository's head pointer, when set.
    pub closed spec fn head_path_view(self) -> Option<Seq<char>> {
        opt_view(self.head_path)
    }

    /// The watch path the head resolves to, when set.
    pub closed spec fn ref_path_view(self) -> Option<Seq<char>> {
        opt_view(self.ref_path)
    }

    /// The full mapping, one slot per key in the registry's stable order.
    pub fn cfg_map(&self) -> (r: &Vec<Option<String>>)
        requires
            self.wf(),
        ensures
            r@.len() == NUM_KEYS,
            forall|k: VergenKey| opt_view(r@[#[trigger] k.index_spec()]) == self.entry(k),
    {
        &self.cfg_map
    }

    /// The resolved value of one key.
    pub fn get(&self, k: VergenKey) -> (r: &Option<String>)
        requires
            self.wf(),
        ensures
            opt_view(*r) == self.entry(k),
    {
        let i = k.index();
        &self.cfg_map[i]
    }

    /// The watch path of the repository's head pointer, when set.
    pub fn head_path(&self) -> (r: &Option<String>)
        ensures
            opt_view(*r) == self.head_path_view(),
    {
        &self.head_path
    }

    /// The watch path the head resolves to, when set.
    pub fn ref_path(&self) -> (r: &Option<String>)
        ensures
            opt_view(*r) == self.ref_path_view(),
    {
        &self.ref_path
    }

    /// Sets the slot of one key, leaving every other slot and the watch
    /// paths unchanged.
    fn set_entry(&mut self, k: VergenKey, v: Option<String>)
        requires
            old(self).wf(),
        ensures
            final(self).wf(),
            final(self).entry(k) == opt_view(v),
            forall|j: VergenKey| j != k ==> #[trigger] final(self).entry(j) == old(self).entry(j),
            final(self).head_path_view() == old(self).head_path_view(),
            final(self).ref_path_view() == old(self).ref_path_view(),
    {
        let i = k.index();
        self.cfg_map.set(i, v);
        proof {
            assert forall|j: VergenKey| j != k implies #[trigger] self.entry(j) == old(
                self,
            ).entry(j) by {
                crate::keys::lemma_key_index_bijective();
            }
        }
    }
    /// Contributes the build-time facts: each key the build category owns is
    /// set to the resolver's value when its switch calls for it, and left
    /// untouched otherwise. No other key and no watch path changes.
    fn apply_build(&mut self, b: &Build, f: BuildFacts)
        requires
            old(self).wf(),
        ensures
            final(self).wf(),
            final(self).entry(VergenKey::BuildDate) == (if b.date_enabled() {
                opt_view(f.date)
            } else {
                old(self).entry(VergenKey::BuildDate)
            }),
            final(self).entry(VergenKey::BuildTime) == (if b.time_enabled() {
                opt_view(f.time)
            } else {
                old(self).entry(VergenKey::BuildTime)
            }),
            final(self).entry(VergenKey::BuildTimestamp) == (if b.timestamp_enabled() {
                opt_view(f.timestamp)
            } else {
                old(self).entry(VergenKey::BuildTimestamp)
            }),
            final(self).entry(VergenKey::BuildSemver) == (if b.semver {
                opt_view(f.semver)
            } else {
                old(self).entry(VergenKey::BuildSemver)
            }),
            forall|k: VergenKey|
                k.category_spec() != Category::Build ==> #[trigger] final(self).entry(k) == old(
                    self,
                ).entry(k),
            final(self).head_path_view() == old(self).head_path_view(),
            final(self).ref_path_view() == old(self).ref_path_view(),
    {
        let BuildFacts { date, time, timestamp, semver } = f;
        if b.timestamp {
            match b.kind {
                TimestampKind::DateOnly => {
                    self.set_entry(VergenKey::BuildDate, date);
                },
                TimestampKind::TimeOnly => {
                    self.set_entry(VergenKey::BuildTime, time);
                },
                TimestampKind::Timestamp => {
                    self.set_entry(VergenKey::BuildDate, date);
                    self.set_entry(VergenKey::BuildTime, time);
                    self.set_entry(VergenKey::BuildTimestamp, timestamp);
                },
            }
        }
        if b.semver {
            self.set_entry(VergenKey::BuildSemver, semver);
        }
    }

    /// Contributes the version-control facts, and the watch paths when the
    /// head-change switch calls for them. No other key changes.
    fn apply_git(&mut self, g: &Git, f: GitFacts)
        requires
            old(self).wf(),
        ensures
            final(self).wf(),
            final(self).entry(VergenKey::Branch) == (if g.branch {
                opt_view(f.branch)
            } else {
                old(self).entry(VergenKey::Branch)
            }),
            final(self).entry(VergenKey::CommitDate) == (if g.commit_date_enabled() {
                opt_view(f.commit_date)
            } else {
                old(self).entry(VergenKey::CommitDate)
            }),
            final(self).entry(VergenKey::CommitTime) == (if g.commit_time_enabled() {
                opt_view(f.commit_time)
            } else {
                old(self).entry(VergenKey::CommitTime)
            }),
            final(self).entry(VergenKey::CommitTimestamp) == (if g.commit_timestamp_enabled() {
                opt_view(f.commit_timestamp)
            } else {
                old(self).entry(VergenKey::CommitTimestamp)
            }),
            final(self).entry(VergenKey::Semver) == (if g.semver_enabled() {
                opt_view(f.semver)
            } else {
                old(self).entry(VergenKey::Semver)
            }),
            final(self).entry(VergenKey::SemverLightweight) == (if g.semver_lightweight_enabled() {
                opt_view(f.semver_lightweight)
            } else {
                old(self).entry(VergenKey::SemverLightweight)
            }),
            final(self).entry(VergenKey::Sha) == (if g.sha_enabled() {
                opt_view(f.sha)
            } else {
                old(self).entry(VergenKey::Sha)
            }),
            final(self).entry(VergenKey::ShortSha) == (if g.short_sha_enabled() {
                opt_view(f.sha_short)
            } else {
                old(self).entry(VergenKey::ShortSha)
            }),
            forall|k: VergenKey|
                k.category_spec() != Category::Git ==> #[trigger] final(self).entry(k) == old(
                    self,
                ).entry(k),
            final(self).head_path_view() == (if g.rerun_on_head_change {
                opt_view(f.head_path)
            } else {
                old(self).head_path_view()
            }),
            final(self).ref_path_view() == (if g.rerun_on_head_change {
                opt_view(f.ref_path)
            } else {
                old(self).ref_path_view()
            }),
    {
        let GitFacts {
            branch,
            commit_date,
            commit_time,
            commit_timestamp,
            semver,
            semver_lightweight,
            sha,
            sha_short,
            head_path,
            ref_path,
        } = f;
        if g.branch {
            self.set_entry(VergenKey::Branch, branch);
        }
        if g.commit_timestamp {
            match g.commit_timestamp_kind {
                TimestampKind::DateOnly => {
                    self.set_entry(VergenKey::CommitDate, commit_date);
                },
                TimestampKind::TimeOnly => {
                    self.set_entry(VergenKey::CommitTime, commit_time);
                },
                TimestampKind::Timestamp => {
                    self.set_entry(VergenKey::CommitDate, commit_date);
                    self.set_entry(VergenKey::CommitTime, commit_time);
                    self.set_entry(VergenKey::CommitTimestamp, commit_timestamp);
                },
            }
        }
        if g.semver {
            match g.semver_kind {
                SemverKind::Normal => {
                    self.set_entry(VergenKey::Semver, semver);
                },
                SemverKind::Lightweight => {
                    self.set_entry(VergenKey::SemverLightweight, semver_lightweight);
                },
            }
        }
        if g.sha {
            match g.sha_kind {
                ShaKind::Normal => {
                    self.set_entry(VergenKey::Sha, sha);
                },
                ShaKind::Short => {},
            }
            self.set_entry(VergenKey::ShortSha, sha_short);
        }
        if g.rerun_on_head_change {
            self.set_paths(head_path, ref_path);
        }
    }

    /// Sets the two watch paths, leaving every key slot unchanged.
    fn set_paths(&mut self, head_path: Option<String>, ref_path: Option<String>)
        requires
            old(self).wf(),
        ensures
            final(self).wf(),
            forall|j: VergenKey| #[trigger] final(self).entry(j) == old(self).entry(j),
            final(self).head_path_view() == opt_view(head_path),
            final(self).ref_path_view() == opt_view(ref_path),
    {
        self.head_path = head_path;
        self.ref_path = ref_path;
    }

    /// Contributes the compiler facts. No other key and no watch path changes.
    fn apply_rustc(&mut self, t: &Rustc, f: RustcFacts)
        requires
            old(self).wf(),
        ensures
            final(self).wf(),
            final(self).entry(VergenKey::RustcChannel) == (if t.channel {
                opt_view(f.channel)
            } else {
                old(self).entry(VergenKey::RustcChannel)
            }),
            final(self).entry(VergenKey::RustcCommitDate) == (if t.commit_date {
                opt_view(f.commit_date)
            } else {
                old(self).entry(VergenKey::RustcCommitDate)
            }),
            final(self).entry(VergenKey::RustcCommitHash) == (if t.sha {
                opt_view(f.commit_hash)
            } else {
                old(self).entry(VergenKey::RustcCommitHash)
            }),
            final(self).entry(VergenKey::RustcHostTriple) == (if t.host_triple {
                opt_view(f.host_triple)
            } else {
                old(self).entry(VergenKey::RustcHostTriple)
            }),
            final(self).entry(VergenKey::RustcLlvmVersion) == (if t.llvm_version {
                opt_view(f.llvm_version)
            } else {
                old(self).entry(VergenKey::RustcLlvmVersion)
            }),
            final(self).entry(VergenKey::RustcSemver) == (if t.semver {
                opt_view(f.semver)
            } else {
                old(self).entry(VergenKey::RustcSemver)
            }),
            forall|k: VergenKey|
                k.category_spec() != Category::Rustc ==> #[trigger] final(self).entry(k) == old(
                    self,
                ).entry(k),
            final(self).head_path_view() == old(self).head_path_view(),
            final(self).ref_path_view() == old(self).ref_path_view(),
    {
        let RustcFacts { channel, commit_date, commit_hash, host_triple, llvm_version, semver } = f;
        if t.channel {
            self.set_entry(VergenKey::RustcChannel, channel);
        }
        if t.commit_date {
            self.set_entry(VergenKey::RustcCommitDate, commit_date);
        }
        if t.sha {
            self.set_entry(VergenKey::RustcCommitHash, commit_hash);
        }
        if t.host_triple {
            self.set_entry(VergenKey::RustcHostTriple, host_triple);
        }
        if t.llvm_version {
            self.set_entry(VergenKey::RustcLlvmVersion, llvm_version);
        }
        if t.semver {
            self.set_entry(VergenKey::RustcSemver, semver);
        }
    }

    /// Contributes the package-manager facts. No other key and no watch path
    /// changes.
    fn apply_cargo(&mut self, c: &Cargo, f: CargoFacts)
        requires
            old(self).wf(),
        ensures
            final(self).wf(),
            final(self).entry(VergenKey::CargoTargetTriple) == (if c.target_triple {
                opt_view(f.target_triple)
            } else {
                old(self).entry(VergenKey::CargoTargetTriple)
            }),
            final(self).entry(VergenKey::CargoProfile) == (if c.profile {
                opt_view(f.profile)
            } else {
                old(self).entry(VergenKey::CargoProfile)
            }),
            final(self).entry(VergenKey::CargoFeatures) == (if c.features {
                opt_view(f.features)
            } else {
                old(self).entry(VergenKey::CargoFeatures)
            }),
            forall|k: VergenKey|
                k.category_spec() != Category::Cargo ==> #[trigger] final(self).entry(k) == old(
                    self,
                ).entry(k),
            final(self).head_path_view() == old(self).head_path_view(),
            final(self).ref_path_view() == old(self).ref_path_view(),
    {
        let CargoFacts { features, profile, target_triple } = f;
        if c.target_triple {
            self.set_entry(VergenKey::CargoTargetTriple, target_triple);
        }
        if c.profile {
            self.set_entry(VergenKey::CargoProfile, profile);
        }
        if c.features {
            self.set_entry(VergenKey::CargoFeatures, features);
        }
    }
}

/// Configure which build instructions an aggregation run should produce.
///
/// The caller-facing composition of the four toggle models; default
/// construction enables every fact. Mutate the toggle fields, then call
/// [`Instructions::config`] to run the aggregation.
#[derive(Clone, Copy, Debug, PartialEq, Eq, Structural)]
pub struct Instructions {
    /// The toggle model of the build-time facts.
    pub build: Build,
    /// The toggle model of the package-manager facts.
    pub cargo: Cargo,
    /// The toggle model of the version-control facts.
    pub git: Git,
    /// The toggle model of the compiler facts.
    pub rustc: Rustc,
}

impl Default for Instructions {
    /// Every fact of every category enabled, with the default style options.
    fn default() -> (r: Self)
        ensures
            r == Instructions::default_spec(),
    {
        Instructions {
            build: Build::default(),
            cargo: Cargo::default(),
            git: Git::default(),
            rustc: Rustc::default(),
        }
    }
}

impl Instructions {
    /// The default instructions: every fact of every category enabled.
    pub open spec fn default_spec() -> Instructions {
        Instructions {
            build: Build::default_spec(),
            cargo: Cargo::default_spec(),
            git: Git::default_spec(),
            rustc: Rustc::default_spec(),
        }
    }

    /// The toggle model of the build-time facts.
    pub fn build(&self) -> (r: &Build)
        ensures
            *r == self.build,
    {
        &self.build
    }

    /// The toggle model of the package-manager facts.
    pub fn cargo(&self) -> (r: &Cargo)
        ensures
            *r == self.cargo,
    {
        &self.cargo
    }

    /// The toggle model of the version-control facts.
    pub fn git(&self) -> (r: &Git)
        ensures
            *r == self.git,
    {
        &self.git
    }

    /// The toggle model of the compiler facts.
    pub fn rustc(&self) -> (r: &Rustc)
        ensures
            *r == self.rustc,
    {
        &self.rustc
    }

    /// Whether the category owning `c` has anything enabled.
    pub open spec fn category_enabled(self, c: Category) -> bool {
        match c {
            Category::Build => self.build.has_enabled_spec(),
            Category::Cargo => self.cargo.has_enabled_spec(),
            Category::Git => self.git.has_enabled_spec(),
            Category::Rustc => self.rustc.has_enabled_spec(),
        }
    }

    /// Whether the toggles call for the fact `k`.
    pub open spec fn key_enabled(self, k: VergenKey) -> bool {
        match k {
            VergenKey::BuildDate => self.build.date_enabled(),
            VergenKey::BuildTime => self.build.time_enabled(),
            VergenKey::BuildTimestamp => self.build.timestamp_enabled(),
            VergenKey::BuildSemver => self.build.semver,
            VergenKey::Branch => self.git.branch,
            VergenKey::CommitDate => self.git.commit_date_enabled(),
            VergenKey::CommitTime => self.git.commit_time_enabled(),
            VergenKey::CommitTimestamp => self.git.commit_timestamp_enabled(),
            VergenKey::Semver => self.git.semver_enabled(),
            VergenKey::SemverLightweight => self.git.semver_lightweight_enabled(),
            VergenKey::Sha => self.git.sha_enabled(),
            VergenKey::ShortSha => self.git.short_sha_enabled(),
            VergenKey::RustcChannel => self.rustc.channel,
            VergenKey::RustcCommitDate => self.rustc.commit_date,
            VergenKey::RustcCommitHash => self.rustc.sha,
            VergenKey::RustcHostTriple => self.rustc.host_triple,
            VergenKey::RustcLlvmVersion => self.rustc.llvm_version,
            VergenKey::RustcSemver => self.rustc.semver,
            VergenKey::CargoTargetTriple => self.cargo.target_triple,
            VergenKey::CargoProfile => self.cargo.profile,
            VergenKey::CargoFeatures => self.cargo.features,
        }
    }

    /// What a run that did not fail resolved for `k`: the value the owning
    /// category's resolver produced when the toggles call for `k`, and unset
    /// otherwise.
    pub open spec fn ok_entry(
        self,
        bf: BuildFacts,
        gf: GitFacts,
        rf: RustcFacts,
        cf: CargoFacts,
        k: VergenKey,
    ) -> Option<Seq<char>> {
        if !self.key_enabled(k) {
            Option::None
        } else {
            match k {
                VergenKey::BuildDate => opt_view(bf.date),
                VergenKey::BuildTime => opt_view(bf.time),
                VergenKey::BuildTimestamp => opt_view(bf.timestamp),
                VergenKey::BuildSemver => opt_view(bf.semver),
                VergenKey::Branch => opt_view(gf.branch),
                VergenKey::CommitDate => opt_view(gf.commit_date),
                VergenKey::CommitTime => opt_view(gf.commit_time),
                VergenKey::CommitTimestamp => opt_view(gf.commit_timestamp),
                VergenKey::Semver => opt_view(gf.semver),
                VergenKey::SemverLightweight => opt_view(gf.semver_lightweight),
                VergenKey::Sha => opt_view(gf.sha),
                VergenKey::ShortSha => opt_view(gf.sha_short),
                VergenKey::RustcChannel => opt_view(rf.channel),
                VergenKey::RustcCommitDate => opt_view(rf.commit_date),
                VergenKey::RustcCommitHash => opt_view(rf.commit_hash),
                VergenKey::RustcHostTriple => opt_view(rf.host_triple),
                VergenKey::RustcLlvmVersion => opt_view(rf.llvm_version),
                VergenKey::RustcSemver => opt_view(rf.semver),
                VergenKey::CargoTargetTriple => opt_view(cf.target_triple),
                VergenKey::CargoProfile => opt_view(cf.profile),
                VergenKey::CargoFeatures => opt_view(cf.features),
            }
        }
    }

    /// The aggregation step on already-gathered category outcomes: seeds the
    /// total map, merges each enabled category's contribution in the fixed
    /// order build, version-control, compiler, package-manager, and aborts on
    /// the first failed category. The result is a function of the inputs
    /// alone: identical inputs yield identical configurations.
    #[verifier::rlimit(100)]
    pub fn resolve_with_facts(
        self,
        bf: BuildFacts,
        gf: Result<GitFacts, Error>,
        rf: Result<RustcFacts, Error>,
        cf: CargoFacts,
    ) -> (r: Result<Config, Error>)
        ensures
            r is Ok <==> ((self.git.has_enabled_spec() ==> gf is Ok) && (
            self.rustc.has_enabled_spec() ==> rf is Ok)),
            self.git.has_enabled_spec() && gf is Err ==> r == Result::<Config, Error>::Err(
                gf->Err_0,
            ),
            (self.git.has_enabled_spec() ==> gf is Ok) && self.rustc.has_enabled_spec() && rf
                is Err ==> r == Result::<Config, Error>::Err(rf->Err_0),
            r is Ok ==> r->Ok_0.wf(),
            r is Ok ==> r->Ok_0.entry(VergenKey::BuildDate) == self.ok_entry(
                bf,
                gf->Ok_0,
                rf->Ok_0,
                cf,
                VergenKey::BuildDate,
            ),
            r is Ok ==> r->Ok_0.entry(VergenKey::BuildTime) == self.ok_entry(
                bf,
                gf->Ok_0,
                rf->Ok_0,
                cf,
                VergenKey::BuildTime,
            ),
            r is Ok ==> r->Ok_0.entry(VergenKey::BuildTimestamp) == self.ok_entry(
                bf,
                gf->Ok_0,
                rf->Ok_0,
                cf,
                VergenKey::BuildTimestamp,
            ),
            r is Ok ==> r->Ok_0.entry(VergenKey::BuildSemver) == self.ok_entry(
                bf,
                gf->Ok_0,
                rf->Ok_0,
                cf,
                VergenKey::BuildSemver,
            ),
            r is Ok ==> r->Ok_0.entry(VergenKey::Branch) == self.ok_entry(
                bf,
                gf->Ok_0,
                rf->Ok_0,
                cf,
                VergenKey::Branch,
            ),
            r is Ok ==> r->Ok_0.entry(VergenKey::CommitDate) == self.ok_entry(
                bf,
                gf->Ok_0,
                rf->Ok_0,
                cf,
                VergenKey::CommitDate,
            ),
            r is Ok ==> r->Ok_0.entry(VergenKey::CommitTime) == self.ok_entry(
                bf,
                gf->Ok_0,
                rf->Ok_0,
                cf,
                VergenKey::CommitTime,
            ),
            r is Ok ==> r->Ok_0.entry(VergenKey::CommitTimestamp) == self.ok_entry(
                bf,
                gf->Ok_0,
                rf->Ok_0,
                cf,
                VergenKey::CommitTimestamp,
            ),
            r is Ok ==> r->Ok_0.entry(VergenKey::Semver) == self.ok_entry(
                bf,
                gf->Ok_0,
                rf->Ok_0,
                cf,
                VergenKey::Semver,
            ),
            r is Ok ==> r->Ok_0.entry(VergenKey::SemverLightweight) == self.ok_entry(
                bf,
                gf->Ok_0,
                rf->Ok_0,
                cf,
                VergenKey::SemverLightweight,
            ),
            r is Ok ==> r->Ok_0.entry(VergenKey::Sha) == self.ok_entry(
                bf,
                gf->Ok_0,
                rf->Ok_0,
                cf,
                VergenKey::Sha,
            ),
            r is Ok ==> r->Ok_0.entry(VergenKey::ShortSha) == self.ok_entry(
                bf,
                gf->Ok_0,
                rf->Ok_0,
                cf,
                VergenKey::ShortSha,
            ),
            r is Ok ==> r->Ok_0.entry(VergenKey::RustcChannel) == self.ok_entry(
                bf,
                gf->Ok_0,
                rf->Ok_0,
                cf,
                VergenKey::RustcChannel,
            ),
            r is Ok ==> r->Ok_0.entry(VergenKey::RustcCommitDate) == self.ok_entry(
                bf,
                gf->Ok_0,
                rf->Ok_0,
                cf,
                VergenKey::RustcCommitDate,
            ),
            r is Ok ==> r->Ok_0.entry(VergenKey::RustcCommitHash) == self.ok_entry(
                bf,
                gf->Ok_0,
                rf->Ok_0,
                cf,
                VergenKey::RustcCommitHash,
            ),
            r is Ok ==> r->Ok_0.entry(VergenKey::RustcHostTriple) == self.ok_entry(
                bf,
                gf->Ok_0,
                rf->Ok_0,
                cf,
                VergenKey::RustcHostTriple,
            ),
            r is Ok ==> r->Ok_0.entry(VergenKey::RustcLlvmVersion) == self.ok_entry(
                bf,
                gf->Ok_0,
                rf->Ok_0,
                cf,
                VergenKey::RustcLlvmVersion,
            ),
            r is Ok ==> r->Ok_0.entry(VergenKey::RustcSemver) == self.ok_entry(
                bf,
                gf->Ok_0,
                rf->Ok_0,
                cf,
                VergenKey::RustcSemver,
            ),
            r is Ok ==> r->Ok_0.entry(VergenKey::CargoTargetTriple) == self.ok_entry(
                bf,
                gf->Ok_0,
                rf->Ok_0,
                cf,
                VergenKey::CargoTargetTriple,
            ),
            r is Ok ==> r->Ok_0.entry(VergenKey::CargoProfile) == self.ok_entry(
                bf,
                gf->Ok_0,
                rf->Ok_0,
                cf,
                VergenKey::CargoProfile,
            ),
            r is Ok ==> r->Ok_0.entry(VergenKey::CargoFeatures) == self.ok_entry(
                bf,
                gf->Ok_0,
                rf->Ok_0,
                cf,
                VergenKey::CargoFeatures,
            ),
            r is Ok ==> r->Ok_0.head_path_view() == (if self.git.has_enabled_spec()
                && self.git.rerun_on_head_change {
                opt_view(gf->Ok_0.head_path)
            } else {
                Option::<Seq<char>>::None
            }),
            r is Ok ==> r->Ok_0.ref_path_view() == (if self.git.has_enabled_spec()
                && self.git.rerun_on_head_change {
                opt_view(gf->Ok_0.ref_path)
            } else {
                Option::<Seq<char>>::None
            }),
    {
        let mut config = Config::default();
        if self.build.has_enabled() {
            config.apply_build(&self.build, bf);
        }
        if self.git.has_enabled() {
            match gf {
                Result::Ok(f) => config.apply_git(&self.git, f),
                Result::Err(e) => {
                    return Result::Err(e);
                },
            }
        }
        if self.rustc.has_enabled() {
            match rf {
                Result::Ok(f) => config.apply_rustc(&self.rustc, f),
                Result::Err(e) => {
                    return Result::Err(e);
                },
            }
        }
        if self.cargo.has_enabled() {
            config.apply_cargo(&self.cargo, cf);
        }
        Result::Ok(config)
    }

    /// Runs one aggregation pass: seeds the total map, then, in the fixed
    /// order build, version-control, compiler, package-manager, invokes each
    /// category's resolver — skipping a category whose toggle model has
    /// nothing enabled — and merges the facts its enabled switches call for.
    /// The first resolver failure aborts the run and is returned unchanged,
    /// before any later resolver is invoked.
    pub fn config<R: Resolver>(self, repo_path: Option<String>, resolver: &mut R) -> (r: Result<
        Config,
        Error,
    >)
        ensures
            !self.git.has_enabled_spec() && !self.rustc.has_enabled_spec() ==> r is Ok,
            r is Err ==> self.git.has_enabled_spec() || self.rustc.has_enabled_spec(),
            r is Ok ==> r->Ok_0.wf(),
            r is Ok ==> forall|k: VergenKey|
                !self.key_enabled(k) ==> #[trigger] r->Ok_0.entry(k) is None,
            r is Ok ==> forall|k: VergenKey|
                !self.category_enabled(k.category_spec()) ==> #[trigger] r->Ok_0.entry(k) is None,
            r is Ok && !(self.git.has_enabled_spec() && self.git.rerun_on_head_change) ==> r->Ok_0
                .head_path_view() is None && r->Ok_0.ref_path_view() is None,
    {
        let bf = if self.build.has_enabled() {
            resolver.resolve_build(&self.build)
        } else {
            BuildFacts::default()
        };
        let gf = if self.git.has_enabled() {
            match resolver.resolve_git(&self.git, &repo_path) {
                Result::Ok(f) => Result::Ok(f),
                Result::Err(e) => {
                    return Result::Err(e);
                },
            }
        } else {
            Result::Ok(GitFacts::default())
        };
        let rf = if self.rustc.has_enabled() {
            match resolver.resolve_rustc(&self.rustc) {
                Result::Ok(f) => Result::Ok(f),
                Result::Err(e) => {
                    return Result::Err(e);
                },
            }
        } else {
            Result::Ok(RustcFacts::default())
        };
        let cf = if self.cargo.has_enabled() {
            resolver.resolve_cargo(&self.cargo)
        } else {
            CargoFacts::default()
        };
        let r = self.resolve_with_facts(bf, gf, rf, cf);
        proof {
            lemma_key_enabled_implies_category_enabled(self);
            if r is Ok {
                assert forall|k: VergenKey| !self.key_enabled(k) implies #[trigger] r->Ok_0.entry(
                    k,
                ) is None by {
                    match k {
                        VergenKey::BuildDate => {
                            assert(r->Ok_0.entry(VergenKey::BuildDate) is None);
                        },
                        VergenKey::BuildTime => {
                            assert(r->Ok_0.entry(VergenKey::BuildTime) is None);
                        },
                        VergenKey::BuildTimestamp => {
                            assert(r->Ok_0.entry(VergenKey::BuildTimestamp) is None);
                        },
                        VergenKey::BuildSemver => {
                            assert(r->Ok_0.entry(VergenKey::BuildSemver) is None);
                        },
                        VergenKey::Branch => {
                            assert(r->Ok_0.entry(VergenKey::Branch) is None);
                        },
                        VergenKey::CommitDate => {
                            assert(r->Ok_0.entry(VergenKey::CommitDate) is None);
                        },
                        VergenKey::CommitTime => {
                            assert(r->Ok_0.entry(VergenKey::CommitTime) is None);
                        },
                        VergenKey::CommitTimestamp => {
                            assert(r->Ok_0.entry(VergenKey::CommitTimestamp) is None);
                        },
                        VergenKey::Semver => {
                            assert(r->Ok_0.entry(VergenKey::Semver) is None);
                        },
                        VergenKey::SemverLightweight => {
                            assert(r->Ok_0.entry(VergenKey::SemverLightweight) is None);
                        },
                        VergenKey::Sha => {
                            assert(r->Ok_0.entry(VergenKey::Sha) is None);
                        },
                        VergenKey::ShortSha => {
                            assert(r->Ok_0.entry(VergenKey::ShortSha) is None);
                        },
                        VergenKey::RustcChannel => {
                            assert(r->Ok_0.entry(VergenKey::RustcChannel) is None);
                        },
                        VergenKey::RustcCommitDate => {
                            assert(r->Ok_0.entry(VergenKey::RustcCommitDate) is None);
                        },
                        VergenKey::RustcCommitHash => {
                            assert(r->Ok_0.entry(VergenKey::RustcCommitHash) is None);
                        },
                        VergenKey::RustcHostTriple => {
                            assert(r->Ok_0.entry(VergenKey::RustcHostTriple) is None);
                        },
                        VergenKey::RustcLlvmVersion => {
                            assert(r->Ok_0.entry(VergenKey::RustcLlvmVersion) is None);
                        },
                        VergenKey::RustcSemver => {
                            assert(r->Ok_0.entry(VergenKey::RustcSemver) is None);
                        },
                        VergenKey::CargoTargetTriple => {
                            assert(r->Ok_0.entry(VergenKey::CargoTargetTriple) is None);
                        },
                        VergenKey::CargoProfile => {
                            assert(r->Ok_0.entry(VergenKey::CargoProfile) is None);
                        },
                        VergenKey::CargoFeatures => {
                            assert(r->Ok_0.entry(VergenKey::CargoFeatures) is None);
                        },
                    }
                }
                assert forall|k: VergenKey|
                    !self.category_enabled(k.category_spec()) implies #[trigger] r->Ok_0.entry(
                    k,
                ) is None by {
                    assert(!self.key_enabled(k));
                }
            }
        }
        r
    }
}

/// A fact is only ever called for by a category that has something enabled:
/// when a category's `has_enabled` is false, every switch of its model is
/// off, so no key it owns is enabled.
pub proof fn lemma_key_enabled_implies_category_enabled(i: Instructions)
    ensures
        forall|k: VergenKey|
            #[trigger] i.key_enabled(k) ==> i.category_enabled(k.category_spec()),
{
}

impl Config {
    /// Runs one aggregation pass configured by the legacy flat bit-set:
    /// decomposes `flags` into the four toggle models and drives the same
    /// aggregation as [`Instructions::config`].
    pub fn build<R: Resolver>(
        flags: ConstantsFlags,
        repo_path: Option<String>,
        resolver: &mut R,
    ) -> (r: Result<Config, Error>)
        ensures
            !flags.instructions_spec().git.has_enabled_spec()
                && !flags.instructions_spec().rustc.has_enabled_spec() ==> r is Ok,
            r is Err ==> flags.instructions_spec().git.has_enabled_spec()
                || flags.instructions_spec().rustc.has_enabled_spec(),
            r is Ok ==> r->Ok_0.wf(),
            r is Ok ==> forall|k: VergenKey|
                !flags.instructions_spec().key_enabled(k) ==> #[trigger] r->Ok_0.entry(k) is None,
            r is Ok && !(flags.instructions_spec().git.has_enabled_spec()
                && flags.instructions_spec().git.rerun_on_head_change) ==> r->Ok_0
                .head_path_view() is None && r->Ok_0.ref_path_view() is None,
    {
        flags.to_instructions().config(repo_path, resolver)
    }
}

impl Default for Config {
    /// The seeded state: one slot per key, every key unset, no watch paths.
    fn default() -> (r: Config)
        ensures
            r.wf(),
            forall|k: VergenKey| #[trigger] r.entry(k) is None,
            r.head_path_view() is None,
            r.ref_path_view() is None,
    {
        let mut m: Vec<Option<String>> = Vec::new();
        let mut i: usize = 0;
        while i < NUM_KEYS
            invariant
                i <= NUM_KEYS,
                m@.len() == i,
                forall|j: int| 0 <= j < i ==> m@[j] is None,
            decreases NUM_KEYS - i,
        {
            m.push(Option::None);
            i = i + 1;
        }
        let r = Config { cfg_map: m, head_path: Option::None, ref_path: Option::None };
        proof {
            assert forall|k: VergenKey| #[trigger] r.entry(k) is None by {
                crate::keys::lemma_key_index_bijective();
            }
        }
        r
    }
}

} // verus!
