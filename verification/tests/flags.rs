use vergen::flags;
use vergen::Build;
use vergen::BuildFacts;
use vergen::Cargo;
use vergen::CargoFacts;
use vergen::Config;
use vergen::ConstantsFlags;
use vergen::Error;
use vergen::Git;
use vergen::GitFacts;
use vergen::Instructions;
use vergen::Resolver;
use vergen::Rustc;
use vergen::RustcFacts;
use vergen::SemverKind;
use vergen::ShaKind;
use vergen::VergenKey;

/// Hands back a fixed build record and leaves every other category empty.
struct StubResolver;

impl Resolver for StubResolver {
    fn resolve_build(&mut self, _toggles: &Build) -> BuildFacts {
        BuildFacts {
            date: Some(String::from("2021-02-25")),
            time: Some(String::from("23:28:39")),
            timestamp: Some(String::from("2021-02-25T23:28:39Z")),
            semver: Some(String::from("4.1.0")),
        }
    }

    fn resolve_git(&mut self, _toggles: &Git, _repo_path: &Option<String>) -> Result<GitFacts, Error> {
        Ok(GitFacts::default())
    }

    fn resolve_rustc(&mut self, _toggles: &Rustc) -> Result<RustcFacts, Error> {
        Ok(RustcFacts::default())
    }

    fn resolve_cargo(&mut self, _toggles: &Cargo) -> CargoFacts {
        CargoFacts::default()
    }
}

#[test]
fn all_flags_match_the_default_instructions() {
    let instructions = ConstantsFlags::all().to_instructions();
    assert_eq!(instructions, Instructions::default());
}

#[test]
fn empty_flags_disable_everything() {
    let instructions = ConstantsFlags::empty().to_instructions();
    assert!(!instructions.build().has_enabled());
    assert!(!instructions.cargo().has_enabled());
    assert!(!instructions.git().has_enabled());
    assert!(!instructions.rustc().has_enabled());
}

#[test]
fn contains_insert_and_remove_follow_the_bits() {
    let mut set = ConstantsFlags::empty();
    assert!(!set.contains(flags::GIT_SHA));
    set.insert(flags::GIT_SHA);
    assert!(set.contains(flags::GIT_SHA));
    assert!(!set.contains(flags::GIT_BRANCH));
    set.remove(flags::GIT_SHA);
    assert!(!set.contains(flags::GIT_SHA));
    let mut all = ConstantsFlags::all();
    assert!(all.contains(flags::BUILD_TIMESTAMP));
    all.remove(flags::BUILD_TIMESTAMP);
    assert!(!all.contains(flags::BUILD_TIMESTAMP));
    assert!(all.contains(flags::BUILD_SEMVER));
}

#[test]
fn style_bits_select_the_alternate_styles() {
    let mut set = ConstantsFlags::all();
    set.insert(flags::GIT_SEMVER_LIGHTWEIGHT);
    set.insert(flags::GIT_SHA_SHORT);
    let instructions = set.to_instructions();
    assert_eq!(*instructions.git().semver_kind(), SemverKind::Lightweight);
    assert_eq!(*instructions.git().sha_kind(), ShaKind::Short);
}

#[test]
fn build_from_flags_drives_the_aggregation() {
    let mut set = ConstantsFlags::empty();
    set.insert(flags::BUILD_TIMESTAMP);
    let mut resolver = StubResolver;
    let config = Config::build(set, None, &mut resolver).unwrap();
    assert_eq!(
        config.get(VergenKey::BuildTimestamp).clone(),
        Some(String::from("2021-02-25T23:28:39Z"))
    );
    assert_eq!(config.get(VergenKey::BuildSemver).clone(), None);
    assert_eq!(config.get(VergenKey::Branch).clone(), None);
}
