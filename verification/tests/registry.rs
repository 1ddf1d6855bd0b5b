use vergen::keys::all_keys;
use vergen::keys::Category;
use vergen::VergenKey;

#[test]
fn all_keys_is_the_full_registry_in_order() {
    let keys = all_keys();
    assert_eq!(keys.len(), 21);
    assert_eq!(keys[0], VergenKey::BuildDate);
    assert_eq!(keys[4], VergenKey::Branch);
    assert_eq!(keys[12], VergenKey::RustcChannel);
    assert_eq!(keys[20], VergenKey::CargoFeatures);
    for (i, key) in keys.iter().enumerate() {
        assert_eq!(key.index(), i);
    }
}

#[test]
fn names_are_the_canonical_external_names() {
    assert_eq!(VergenKey::BuildDate.name(), "BUILD_DATE");
    assert_eq!(VergenKey::BuildTime.name(), "BUILD_TIME");
    assert_eq!(VergenKey::BuildTimestamp.name(), "BUILD_TIMESTAMP");
    assert_eq!(VergenKey::BuildSemver.name(), "BUILD_SEMVER");
    assert_eq!(VergenKey::Branch.name(), "GIT_BRANCH");
    assert_eq!(VergenKey::CommitDate.name(), "GIT_COMMIT_DATE");
    assert_eq!(VergenKey::CommitTime.name(), "GIT_COMMIT_TIME");
    assert_eq!(VergenKey::CommitTimestamp.name(), "GIT_COMMIT_TIMESTAMP");
    assert_eq!(VergenKey::Semver.name(), "GIT_SEMVER");
    assert_eq!(VergenKey::SemverLightweight.name(), "GIT_SEMVER_LIGHTWEIGHT");
    assert_eq!(VergenKey::Sha.name(), "GIT_SHA");
    assert_eq!(VergenKey::ShortSha.name(), "GIT_SHA_SHORT");
    assert_eq!(VergenKey::RustcChannel.name(), "RUSTC_CHANNEL");
    assert_eq!(VergenKey::RustcCommitDate.name(), "RUSTC_COMMIT_DATE");
    assert_eq!(VergenKey::RustcCommitHash.name(), "RUSTC_COMMIT_HASH");
    assert_eq!(VergenKey::RustcHostTriple.name(), "RUSTC_HOST_TRIPLE");
    assert_eq!(VergenKey::RustcLlvmVersion.name(), "RUSTC_LLVM_VERSION");
    assert_eq!(VergenKey::RustcSemver.name(), "RUSTC_SEMVER");
    assert_eq!(VergenKey::CargoTargetTriple.name(), "CARGO_TARGET_TRIPLE");
    assert_eq!(VergenKey::CargoProfile.name(), "CARGO_PROFILE");
    assert_eq!(VergenKey::CargoFeatures.name(), "CARGO_FEATURES");
}

#[test]
fn naming_is_injective_and_total() {
    let keys = all_keys();
    for a in &keys {
        assert!(!a.name().is_empty());
        for b in &keys {
            if a != b {
                assert_ne!(a.name(), b.name());
            }
        }
    }
}

#[test]
fn each_category_owns_its_keys() {
    assert_eq!(VergenKey::BuildTimestamp.category(), Category::Build);
    assert_eq!(VergenKey::ShortSha.category(), Category::Git);
    assert_eq!(VergenKey::RustcLlvmVersion.category(), Category::Rustc);
    assert_eq!(VergenKey::CargoProfile.category(), Category::Cargo);
    let keys = all_keys();
    let git_owned = keys.iter().filter(|k| k.category() == Category::Git).count();
    assert_eq!(git_owned, 8);
    let build_owned = keys.iter().filter(|k| k.category() == Category::Build).count();
    assert_eq!(build_owned, 4);
    let rustc_owned = keys.iter().filter(|k| k.category() == Category::Rustc).count();
    assert_eq!(rustc_owned, 6);
    let cargo_owned = keys.iter().filter(|k| k.category() == Category::Cargo).count();
    assert_eq!(cargo_owned, 3);
}
