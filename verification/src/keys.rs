//! The key registry: the closed, enumerable set of recognized fact keys,
//! their canonical external names, and their stable order.

use vstd::prelude::*;

verus! {

/// How many fact keys the registry recognizes.
pub const NUM_KEYS: usize = 21;

/// The four fact categories; each key belongs to exactly one.
#[derive(Clone, Copy, Debug, PartialEq, Eq, Structural, Hash)]
pub enum Category {
    /// Build-time facts (dates, times, the crate's own version).
    Build,
    /// Package-manager facts (target triple, profile, features).
    Cargo,
    /// Version-control facts (branch, commit data, tags, hashes).
    Git,
    /// Compiler facts (channel, commit data, host triple, versions).
    Rustc,
}

/// Build information keys.
#[derive(Clone, Copy, Debug, PartialEq, Eq, Structural, Hash)]
pub enum VergenKey {
    /// The build date. (BUILD_DATE)
    BuildDate,
    /// The build time. (BUILD_TIME)
    BuildTime,
    /// The build timestamp. (BUILD_TIMESTAMP)
    BuildTimestamp,
    /// The build semver. (BUILD_SEMVER)
    BuildSemver,
    /// The current working branch name. (GIT_BRANCH)
    Branch,
    /// The commit date. (GIT_COMMIT_DATE)
    CommitDate,
    /// The commit time. (GIT_COMMIT_TIME)
    CommitTime,
    /// The commit timestamp. (GIT_COMMIT_TIMESTAMP)
    CommitTimestamp,
    /// The semver version from the last annotated tag. (GIT_SEMVER)
    Semver,
    /// The semver version from the last tag, lightweight tags included.
    /// (GIT_SEMVER_LIGHTWEIGHT)
    SemverLightweight,
    /// The latest commit hash. (GIT_SHA)
    Sha,
    /// The latest commit short hash. (GIT_SHA_SHORT)
    ShortSha,
    /// The release channel of the rust compiler. (RUSTC_CHANNEL)
    RustcChannel,
    /// The rustc commit date. (RUSTC_COMMIT_DATE)
    RustcCommitDate,
    /// The rustc commit hash. (RUSTC_COMMIT_HASH)
    RustcCommitHash,
    /// The host triple. (RUSTC_HOST_TRIPLE)
    RustcHostTriple,
    /// The rustc LLVM version. (RUSTC_LLVM_VERSION)
    RustcLlvmVersion,
    /// The version information of the rust compiler. (RUSTC_SEMVER)
    RustcSemver,
    /// The cargo target triple. (CARGO_TARGET_TRIPLE)
    CargoTargetTriple,
    /// The cargo profile. (CARGO_PROFILE)
    CargoProfile,
    /// The cargo features. (CARGO_FEATURES)
    CargoFeatures,
}

impl VergenKey {
    /// Position of this key in the registry's stable order.
    pub open spec fn index_spec(self) -> int {
        match self {
            VergenKey::BuildDate => 0,
            VergenKey::BuildTime => 1,
            VergenKey::BuildTimestamp => 2,
            VergenKey::BuildSemver => 3,
            VergenKey::Branch => 4,
            VergenKey::CommitDate => 5,
            VergenKey::CommitTime => 6,
            VergenKey::CommitTimestamp => 7,
            VergenKey::Semver => 8,
            VergenKey::SemverLightweight => 9,
            VergenKey::Sha => 10,
            VergenKey::ShortSha => 11,
            VergenKey::RustcChannel => 12,
            VergenKey::RustcCommitDate => 13,
            VergenKey::RustcCommitHash => 14,
            VergenKey::RustcHostTriple => 15,
            VergenKey::RustcLlvmVersion => 16,
            VergenKey::RustcSemver => 17,
            VergenKey::CargoTargetTriple => 18,
            VergenKey::CargoProfile => 19,
            VergenKey::CargoFeatures => 20,
        }
    }

    /// Position of this key in the registry's stable order.
    pub fn index(self) -> (r: usize)
        ensures
            r == self.index_spec(),
            r < NUM_KEYS,
    {
        match self {
            VergenKey::BuildDate => 0,
            VergenKey::BuildTime => 1,
            VergenKey::BuildTimestamp => 2,
            VergenKey::BuildSemver => 3,
            VergenKey::Branch => 4,
            VergenKey::CommitDate => 5,
            VergenKey::CommitTime => 6,
            VergenKey::CommitTimestamp => 7,
            VergenKey::Semver => 8,
            VergenKey::SemverLightweight => 9,
            VergenKey::Sha => 10,
            VergenKey::ShortSha => 11,
            VergenKey::RustcChannel => 12,
            VergenKey::RustcCommitDate => 13,
            VergenKey::RustcCommitHash => 14,
            VergenKey::RustcHostTriple => 15,
            VergenKey::RustcLlvmVersion => 16,
            VergenKey::RustcSemver => 17,
            VergenKey::CargoTargetTriple => 18,
            VergenKey::CargoProfile => 19,
            VergenKey::CargoFeatures => 20,
        }
    }

    /// The category that owns this key.
    pub open spec fn category_spec(self) -> Category {
        match self {
            VergenKey::BuildDate => Category::Build,
            VergenKey::BuildTime => Category::Build,
            VergenKey::BuildTimestamp => Category::Build,
            VergenKey::BuildSemver => Category::Build,
            VergenKey::Branch => Category::Git,
            VergenKey::CommitDate => Category::Git,
            VergenKey::CommitTime => Category::Git,
            VergenKey::CommitTimestamp => Category::Git,
            VergenKey::Semver => Category::Git,
            VergenKey::SemverLightweight => Category::Git,
            VergenKey::Sha => Category::Git,
            VergenKey::ShortSha => Category::Git,
            VergenKey::RustcChannel => Category::Rustc,
            VergenKey::RustcCommitDate => Category::Rustc,
            VergenKey::RustcCommitHash => Category::Rustc,
            VergenKey::RustcHostTriple => Category::Rustc,
            VergenKey::RustcLlvmVersion => Category::Rustc,
            VergenKey::RustcSemver => Category::Rustc,
            VergenKey::CargoTargetTriple => Category::Cargo,
            VergenKey::CargoProfile => Category::Cargo,
            VergenKey::CargoFeatures => Category::Cargo,
        }
    }

    /// The category that owns this key.
    pub fn category(self) -> (r: Category)
        ensures
            r == self.category_spec(),
    {
        match self {
            VergenKey::BuildDate => Category::Build,
            VergenKey::BuildTime => Category::Build,
            VergenKey::BuildTimestamp => Category::Build,
            VergenKey::BuildSemver => Category::Build,
            VergenKey::Branch => Category::Git,
            VergenKey::CommitDate => Category::Git,
            VergenKey::CommitTime => Category::Git,
            VergenKey::CommitTimestamp => Category::Git,
            VergenKey::Semver => Category::Git,
            VergenKey::SemverLightweight => Category::Git,
            VergenKey::Sha => Category::Git,
            VergenKey::ShortSha => Category::Git,
            VergenKey::RustcChannel => Category::Rustc,
            VergenKey::RustcCommitDate => Category::Rustc,
            VergenKey::RustcCommitHash => Category::Rustc,
            VergenKey::RustcHostTriple => Category::Rustc,
            VergenKey::RustcLlvmVersion => Category::Rustc,
            VergenKey::RustcSemver => Category::Rustc,
            VergenKey::CargoTargetTriple => Category::Cargo,
            VergenKey::CargoProfile => Category::Cargo,
            VergenKey::CargoFeatures => Category::Cargo,
        }
    }

    /// The canonical external name of this key.
    pub open spec fn name_spec(self) -> Seq<char> {
        match self {
            VergenKey::BuildDate => "BUILD_DATE"@,
            VergenKey::BuildTime => "BUILD_TIME"@,
            VergenKey::BuildTimestamp => "BUILD_TIMESTAMP"@,
            VergenKey::BuildSemver => "BUILD_SEMVER"@,
            VergenKey::Branch => "GIT_BRANCH"@,
            VergenKey::CommitDate => "GIT_COMMIT_DATE"@,
            VergenKey::CommitTime => "GIT_COMMIT_TIME"@,
            VergenKey::CommitTimestamp => "GIT_COMMIT_TIMESTAMP"@,
            VergenKey::Semver => "GIT_SEMVER"@,
            VergenKey::SemverLightweight => "GIT_SEMVER_LIGHTWEIGHT"@,
            VergenKey::Sha => "GIT_SHA"@,
            VergenKey::ShortSha => "GIT_SHA_SHORT"@,
            VergenKey::RustcChannel => "RUSTC_CHANNEL"@,
            VergenKey::RustcCommitDate => "RUSTC_COMMIT_DATE"@,
            VergenKey::RustcCommitHash => "RUSTC_COMMIT_HASH"@,
            VergenKey::RustcHostTriple => "RUSTC_HOST_TRIPLE"@,
            VergenKey::RustcLlvmVersion => "RUSTC_LLVM_VERSION"@,
            VergenKey::RustcSemver => "RUSTC_SEMVER"@,
            VergenKey::CargoTargetTriple => "CARGO_TARGET_TRIPLE"@,
            VergenKey::CargoProfile => "CARGO_PROFILE"@,
            VergenKey::CargoFeatures => "CARGO_FEATURES"@,
        }
    }

    /// Get the name for the given key.
    pub fn name(self) -> (r: &'static str)
        ensures
            r@ == self.name_spec(),
    {
        match self {
            VergenKey::BuildDate => "BUILD_DATE",
            VergenKey::BuildTime => "BUILD_TIME",
            VergenKey::BuildTimestamp => "BUILD_TIMESTAMP",
            VergenKey::BuildSemver => "BUILD_SEMVER",
            VergenKey::Branch => "GIT_BRANCH",
            VergenKey::CommitDate => "GIT_COMMIT_DATE",
            VergenKey::CommitTime => "GIT_COMMIT_TIME",
            VergenKey::CommitTimestamp => "GIT_COMMIT_TIMESTAMP",
            VergenKey::Semver => "GIT_SEMVER",
            VergenKey::SemverLightweight => "GIT_SEMVER_LIGHTWEIGHT",
            VergenKey::Sha => "GIT_SHA",
            VergenKey::ShortSha => "GIT_SHA_SHORT",
            VergenKey::RustcChannel => "RUSTC_CHANNEL",
            VergenKey::RustcCommitDate => "RUSTC_COMMIT_DATE",
            VergenKey::RustcCommitHash => "RUSTC_COMMIT_HASH",
            VergenKey::RustcHostTriple => "RUSTC_HOST_TRIPLE",
            VergenKey::RustcLlvmVersion => "RUSTC_LLVM_VERSION",
            VergenKey::RustcSemver => "RUSTC_SEMVER",
            VergenKey::CargoTargetTriple => "CARGO_TARGET_TRIPLE",
            VergenKey::CargoProfile => "CARGO_PROFILE",
            VergenKey::CargoFeatures => "CARGO_FEATURES",
        }
    }
}

/// The key standing at position `i` of the registry's stable order.
pub open spec fn key_at(i: int) -> VergenKey {
    if i == 0 {
        VergenKey::BuildDate
    } else if i == 1 {
        VergenKey::BuildTime
    } else if i == 2 {
        VergenKey::BuildTimestamp
    } else if i == 3 {
        VergenKey::BuildSemver
    } else if i == 4 {
        VergenKey::Branch
    } else if i == 5 {
        VergenKey::CommitDate
    } else if i == 6 {
        VergenKey::CommitTime
    } else if i == 7 {
        VergenKey::CommitTimestamp
    } else if i == 8 {
        VergenKey::Semver
    } else if i == 9 {
        VergenKey::SemverLightweight
    } else if i == 10 {
        VergenKey::Sha
    } else if i == 11 {
        VergenKey::ShortSha
    } else if i == 12 {
        VergenKey::RustcChannel
    } else if i == 13 {
        VergenKey::RustcCommitDate
    } else if i == 14 {
        VergenKey::RustcCommitHash
    } else if i == 15 {
        VergenKey::RustcHostTriple
    } else if i == 16 {
        VergenKey::RustcLlvmVersion
    } else if i == 17 {
        VergenKey::RustcSemver
    } else if i == 18 {
        VergenKey::CargoTargetTriple
    } else if i == 19 {
        VergenKey::CargoProfile
    } else {
        VergenKey::CargoFeatures
    }
}

/// Every recognized key, in the registry's stable order: the key with
/// position `i` stands at index `i`.
pub fn all_keys() -> (r: Vec<VergenKey>)
    ensures
        r@.len() == NUM_KEYS,
        forall|k: VergenKey| r@[#[trigger] k.index_spec()] == k,
{
    let mut v: Vec<VergenKey> = Vec::new();
    v.push(VergenKey::BuildDate);
    v.push(VergenKey::BuildTime);
    v.push(VergenKey::BuildTimestamp);
    v.push(VergenKey::BuildSemver);
    v.push(VergenKey::Branch);
    v.push(VergenKey::CommitDate);
    v.push(VergenKey::CommitTime);
    v.push(VergenKey::CommitTimestamp);
    v.push(VergenKey::Semver);
    v.push(VergenKey::SemverLightweight);
    v.push(VergenKey::Sha);
    v.push(VergenKey::ShortSha);
    v.push(VergenKey::RustcChannel);
    v.push(VergenKey::RustcCommitDate);
    v.push(VergenKey::RustcCommitHash);
    v.push(VergenKey::RustcHostTriple);
    v.push(VergenKey::RustcLlvmVersion);
    v.push(VergenKey::RustcSemver);
    v.push(VergenKey::CargoTargetTriple);
    v.push(VergenKey::CargoProfile);
    v.push(VergenKey::CargoFeatures);
    v
}

/// The registry's order is a bijection between the keys and the positions
/// `0 .. NUM_KEYS`: distinct keys have distinct positions, every position
/// belongs to a key, and every key's position is in range.
pub proof fn lemma_key_index_bijective()
    ensures
        forall|a: VergenKey, b: VergenKey|
            #![trigger a.index_spec(), b.index_spec()]
            a.index_spec() == b.index_spec() ==> a == b,
        forall|k: VergenKey| 0 <= #[trigger] k.index_spec() < NUM_KEYS,
        forall|i: int| 0 <= i < NUM_KEYS ==> (#[trigger] key_at(i)).index_spec() == i,
{
    assert(VergenKey::BuildDate.index_spec() == 0);
    assert(VergenKey::BuildTime.index_spec() == 1);
    assert(VergenKey::BuildTimestamp.index_spec() == 2);
    assert(VergenKey::BuildSemver.index_spec() == 3);
    assert(VergenKey::Branch.index_spec() == 4);
    assert(VergenKey::CommitDate.index_spec() == 5);
    assert(VergenKey::CommitTime.index_spec() == 6);
    assert(VergenKey::CommitTimestamp.index_spec() == 7);
    assert(VergenKey::Semver.index_spec() == 8);
    assert(VergenKey::SemverLightweight.index_spec() == 9);
    assert(VergenKey::Sha.index_spec() == 10);
    assert(VergenKey::ShortSha.index_spec() == 11);
    assert(VergenKey::RustcChannel.index_spec() == 12);
    assert(VergenKey::RustcCommitDate.index_spec() == 13);
    assert(VergenKey::RustcCommitHash.index_spec() == 14);
    assert(VergenKey::RustcHostTriple.index_spec() == 15);
    assert(VergenKey::RustcLlvmVersion.index_spec() == 16);
    assert(VergenKey::RustcSemver.index_spec() == 17);
    assert(VergenKey::CargoTargetTriple.index_spec() == 18);
    assert(VergenKey::CargoProfile.index_spec() == 19);
    assert(VergenKey::CargoFeatures.index_spec() == 20);
}

/// The canonical naming is injective: no two keys share a name.
#[verifier::rlimit(100)]
pub proof fn lemma_name_injective(a: VergenKey, b: VergenKey)
    ensures
        a.name_spec() == b.name_spec() ==> a == b,
{
    reveal_strlit("BUILD_DATE");
    reveal_strlit("BUILD_TIME");
    reveal_strlit("BUILD_TIMESTAMP");
    reveal_strlit("BUILD_SEMVER");
    reveal_strlit("GIT_BRANCH");
    reveal_strlit("GIT_COMMIT_DATE");
    reveal_strlit("GIT_COMMIT_TIME");
    reveal_strlit("GIT_COMMIT_TIMESTAMP");
    reveal_strlit("GIT_SEMVER");
    reveal_strlit("GIT_SEMVER_LIGHTWEIGHT");
    reveal_strlit("GIT_SHA");
    reveal_strlit("GIT_SHA_SHORT");
    reveal_strlit("RUSTC_CHANNEL");
    reveal_strlit("RUSTC_COMMIT_DATE");
    reveal_strlit("RUSTC_COMMIT_HASH");
    reveal_strlit("RUSTC_HOST_TRIPLE");
    reveal_strlit("RUSTC_LLVM_VERSION");
    reveal_strlit("RUSTC_SEMVER");
    reveal_strlit("CARGO_TARGET_TRIPLE");
    reveal_strlit("CARGO_PROFILE");
    reveal_strlit("CARGO_FEATURES");
    assert("BUILD_DATE"@.len() == 10);
    assert("BUILD_TIME"@.len() == 10);
    assert("BUILD_TIMESTAMP"@.len() == 15);
    assert("BUILD_SEMVER"@.len() == 12);
    assert("GIT_BRANCH"@.len() == 10);
    assert("GIT_COMMIT_DATE"@.len() == 15);
    assert("GIT_COMMIT_TIME"@.len() == 15);
    assert("GIT_COMMIT_TIMESTAMP"@.len() == 20);
    assert("GIT_SEMVER"@.len() == 10);
    assert("GIT_SEMVER_LIGHTWEIGHT"@.len() == 22);
    assert("GIT_SHA"@.len() == 7);
    assert("GIT_SHA_SHORT"@.len() == 13);
    assert("RUSTC_CHANNEL"@.len() == 13);
    assert("RUSTC_COMMIT_DATE"@.len() == 17);
    assert("RUSTC_COMMIT_HASH"@.len() == 17);
    assert("RUSTC_HOST_TRIPLE"@.len() == 17);
    assert("RUSTC_LLVM_VERSION"@.len() == 18);
    assert("RUSTC_SEMVER"@.len() == 12);
    assert("CARGO_TARGET_TRIPLE"@.len() == 19);
    assert("CARGO_PROFILE"@.len() == 13);
    assert("CARGO_FEATURES"@.len() == 14);
    assert("BUILD_DATE"@[6] != "BUILD_TIME"@[6]);
    assert("BUILD_DATE"@[0] != "GIT_BRANCH"@[0]);
    assert("BUILD_DATE"@[0] != "GIT_SEMVER"@[0]);
    assert("BUILD_TIME"@[0] != "GIT_BRANCH"@[0]);
    assert("BUILD_TIME"@[0] != "GIT_SEMVER"@[0]);
    assert("GIT_BRANCH"@[4] != "GIT_SEMVER"@[4]);
    assert("BUILD_SEMVER"@[0] != "RUSTC_SEMVER"@[0]);
    assert("GIT_SHA_SHORT"@[0] != "RUSTC_CHANNEL"@[0]);
    assert("GIT_SHA_SHORT"@[0] != "CARGO_PROFILE"@[0]);
    assert("RUSTC_CHANNEL"@[0] != "CARGO_PROFILE"@[0]);
    assert("BUILD_TIMESTAMP"@[0] != "GIT_COMMIT_DATE"@[0]);
    assert("BUILD_TIMESTAMP"@[0] != "GIT_COMMIT_TIME"@[0]);
    assert("GIT_COMMIT_DATE"@[11] != "GIT_COMMIT_TIME"@[11]);
    assert("RUSTC_COMMIT_DATE"@[13] != "RUSTC_COMMIT_HASH"@[13]);
    assert("RUSTC_COMMIT_DATE"@[6] != "RUSTC_HOST_TRIPLE"@[6]);
    assert("RUSTC_COMMIT_HASH"@[6] != "RUSTC_HOST_TRIPLE"@[6]);
}

/// Every key's canonical name is non-empty.
pub proof fn lemma_name_nonempty(k: VergenKey)
    ensures
        k.name_spec().len() > 0,
{
    reveal_strlit("BUILD_DATE");
    reveal_strlit("BUILD_TIME");
    reveal_strlit("BUILD_TIMESTAMP");
    reveal_strlit("BUILD_SEMVER");
    reveal_strlit("GIT_BRANCH");
    reveal_strlit("GIT_COMMIT_DATE");
    reveal_strlit("GIT_COMMIT_TIME");
    reveal_strlit("GIT_COMMIT_TIMESTAMP");
    reveal_strlit("GIT_SEMVER");
    reveal_strlit("GIT_SEMVER_LIGHTWEIGHT");
    reveal_strlit("GIT_SHA");
    reveal_strlit("GIT_SHA_SHORT");
    reveal_strlit("RUSTC_CHANNEL");
    reveal_strlit("RUSTC_COMMIT_DATE");
    reveal_strlit("RUSTC_COMMIT_HASH");
    reveal_strlit("RUSTC_HOST_TRIPLE");
    reveal_strlit("RUSTC_LLVM_VERSION");
    reveal_strlit("RUSTC_SEMVER");
    reveal_strlit("CARGO_TARGET_TRIPLE");
    reveal_strlit("CARGO_PROFILE");
    reveal_strlit("CARGO_FEATURES");
}

} // verus!
