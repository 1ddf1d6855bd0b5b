//! The legacy flat bit-set configuration surface: a single set of bits that
//! decomposes into the four toggle models. A compatibility adapter, not a
//! second algorithm.

use vstd::prelude::*;
use crate::config::Instructions;
use crate::features::Build;
use crate::features::Cargo;
use crate::features::Git;
use crate::features::Rustc;
use crate::features::SemverKind;
use crate::features::ShaKind;
use crate::features::TimeZone;
use crate::features::TimestampKind;

verus! {

/// Requests the build timestamp facts.
pub const BUILD_TIMESTAMP: u32 = 0x1;

/// Requests the build semver fact.
pub const BUILD_SEMVER: u32 = 0x2;

/// Requests the branch fact.
pub const GIT_BRANCH: u32 = 0x4;

/// Requests the commit timestamp facts.
pub const GIT_COMMIT_TIMESTAMP: u32 = 0x8;

/// Requests the watch paths for the repository head.
pub const GIT_REBUILD_ON_HEAD_CHANGE: u32 = 0x10;

/// Requests the tag-derived semver fact.
pub const GIT_SEMVER: u32 = 0x20;

/// Selects the lightweight-tag style for the semver fact.
pub const GIT_SEMVER_LIGHTWEIGHT: u32 = 0x40;

/// Requests the commit hash facts.
pub const GIT_SHA: u32 = 0x80;

/// Selects the short-only style for the commit hash facts.
pub const GIT_SHA_SHORT: u32 = 0x100;

/// Requests the compiler release channel fact.
pub const RUSTC_CHANNEL: u32 = 0x200;

/// Requests the compiler commit date fact.
pub const RUSTC_COMMIT_DATE: u32 = 0x400;

/// Requests the compiler commit hash fact.
pub const RUSTC_COMMIT_HASH: u32 = 0x800;

/// Requests the host triple fact.
pub const RUSTC_HOST_TRIPLE: u32 = 0x1000;

/// Requests the LLVM version fact.
pub const RUSTC_LLVM_VERSION: u32 = 0x2000;

/// Requests the compiler semver fact.
pub const RUSTC_SEMVER: u32 = 0x4000;

/// Requests the cargo features fact.
pub const CARGO_FEATURES: u32 = 0x8000;

/// Requests the cargo profile fact.
pub const CARGO_PROFILE: u32 = 0x10000;

/// Requests the cargo target triple fact.
pub const CARGO_TARGET_TRIPLE: u32 = 0x20000;

/// Every switch bit, with both style bits left clear.
pub const ALL_FLAGS: u32 = 0x3ffff & !(GIT_SEMVER_LIGHTWEIGHT | GIT_SHA_SHORT);

/// The legacy flat bit-set: one bit per switch of the four toggle models,
/// plus two style bits. Unknown bits are ignored.
#[derive(Clone, Copy, Debug, PartialEq, Eq, Structural, Hash)]
pub struct ConstantsFlags {
    /// The raw bits.
    pub bits: u32,
}

impl ConstantsFlags {
    /// Whether every bit of `flag` is set.
    pub open spec fn contains_spec(self, flag: u32) -> bool {
        self.bits & flag == flag
    }

    /// A set with every switch bit on and the style bits off.
    pub fn all() -> (r: Self)
        ensures
            r.bits == ALL_FLAGS,
    {
        ConstantsFlags { bits: ALL_FLAGS }
    }

    /// The empty set.
    pub fn empty() -> (r: Self)
        ensures
            r.bits == 0,
    {
        ConstantsFlags { bits: 0 }
    }

    /// Whether every bit of `flag` is set.
    pub fn contains(&self, flag: u32) -> (r: bool)
        ensures
            r == self.contains_spec(flag),
    {
        self.bits & flag == flag
    }

    /// Sets every bit of `flag`.
    pub fn insert(&mut self, flag: u32)
        ensures
            final(self).bits == old(self).bits | flag,
            final(self).contains_spec(flag),
    {
        let b = self.bits;
        self.bits = b | flag;
        proof {
            assert((b | flag) & flag == flag) by (bit_vector);
        }
    }

    /// Clears every bit of `flag`.
    pub fn remove(&mut self, flag: u32)
        ensures
            final(self).bits == old(self).bits & !flag,
            flag != 0 ==> !final(self).contains_spec(flag),
    {
        let b = self.bits;
        self.bits = b & !flag;
        proof {
            assert(flag != 0 ==> (b & !flag) & flag != flag) by (bit_vector);
        }
    }

    /// The toggle models this bit-set decomposes into: each switch follows
    /// its bit, and the style options follow the two style bits; everything
    /// else keeps its default.
    pub open spec fn instructions_spec(self) -> Instructions {
        Instructions {
            build: Build {
                timestamp: self.contains_spec(BUILD_TIMESTAMP),
                timezone: TimeZone::Utc,
                kind: TimestampKind::Timestamp,
                semver: self.contains_spec(BUILD_SEMVER),
            },
            cargo: Cargo {
                features: self.contains_spec(CARGO_FEATURES),
                profile: self.contains_spec(CARGO_PROFILE),
                target_triple: self.contains_spec(CARGO_TARGET_TRIPLE),
            },
            git: Git {
                branch: self.contains_spec(GIT_BRANCH),
                commit_timestamp: self.contains_spec(GIT_COMMIT_TIMESTAMP),
                commit_timestamp_timezone: TimeZone::Utc,
                commit_timestamp_kind: TimestampKind::Timestamp,
                rerun_on_head_change: self.contains_spec(GIT_REBUILD_ON_HEAD_CHANGE),
                semver: self.contains_spec(GIT_SEMVER),
                semver_kind: if self.contains_spec(GIT_SEMVER_LIGHTWEIGHT) {
                    SemverKind::Lightweight
                } else {
                    SemverKind::Normal
                },
                sha: self.contains_spec(GIT_SHA),
                sha_kind: if self.contains_spec(GIT_SHA_SHORT) {
                    ShaKind::Short
                } else {
                    ShaKind::Normal
                },
            },
            rustc: Rustc {
                channel: self.contains_spec(RUSTC_CHANNEL),
                commit_date: self.contains_spec(RUSTC_COMMIT_DATE),
                host_triple: self.contains_spec(RUSTC_HOST_TRIPLE),
                llvm_version: self.contains_spec(RUSTC_LLVM_VERSION),
                sha: self.contains_spec(RUSTC_COMMIT_HASH),
                semver: self.contains_spec(RUSTC_SEMVER),
            },
        }
    }

    /// Decomposes this bit-set into the four toggle models.
    pub fn to_instructions(&self) -> (r: Instructions)
        ensures
            r == self.instructions_spec(),
    {
        Instructions {
            build: Build {
                timestamp: self.contains(BUILD_TIMESTAMP),
                timezone: TimeZone::Utc,
                kind: TimestampKind::Timestamp,
                semver: self.contains(BUILD_SEMVER),
            },
            cargo: Cargo {
                features: self.contains(CARGO_FEATURES),
                profile: self.contains(CARGO_PROFILE),
                target_triple: self.contains(CARGO_TARGET_TRIPLE),
            },
            git: Git {
                branch: self.contains(GIT_BRANCH),
                commit_timestamp: self.contains(GIT_COMMIT_TIMESTAMP),
                commit_timestamp_timezone: TimeZone::Utc,
                commit_timestamp_kind: TimestampKind::Timestamp,
                rerun_on_head_change: self.contains(GIT_REBUILD_ON_HEAD_CHANGE),
                semver: self.contains(GIT_SEMVER),
                semver_kind: if self.contains(GIT_SEMVER_LIGHTWEIGHT) {
                    SemverKind::Lightweight
                } else {
                    SemverKind::Normal
                },
                sha: self.contains(GIT_SHA),
                sha_kind: if self.contains(GIT_SHA_SHORT) {
                    ShaKind::Short
                } else {
                    ShaKind::Normal
                },
            },
            rustc: Rustc {
                channel: self.contains(RUSTC_CHANNEL),
                commit_date: self.contains(RUSTC_COMMIT_DATE),
                host_triple: self.contains(RUSTC_HOST_TRIPLE),
                llvm_version: self.contains(RUSTC_LLVM_VERSION),
                sha: self.contains(RUSTC_COMMIT_HASH),
                semver: self.contains(RUSTC_SEMVER),
            },
        }
    }
}

} // verus!
