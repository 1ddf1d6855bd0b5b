use vergen::Build;
use vergen::BuildFacts;
use vergen::Cargo;
use vergen::CargoFacts;
use vergen::Config;
use vergen::Error;
use vergen::Git;
use vergen::GitFacts;
use vergen::Instructions;
use vergen::Resolver;
use vergen::Rustc;
use vergen::RustcFacts;
use vergen::SemverKind;
use vergen::ShaKind;
use vergen::TimeZone;
use vergen::TimestampKind;
use vergen::VergenKey;

/// A stand-in for the external collaborators: hands back canned facts and
/// records which categories were invoked.
struct FakeResolver {
    build: BuildFacts,
    git: Result<GitFacts, Error>,
    rustc: Result<RustcFacts, Error>,
    cargo: CargoFacts,
    build_called: bool,
    git_called: bool,
    rustc_called: bool,
    cargo_called: bool,
}

impl FakeResolver {
    fn happy() -> Self {
        let git = GitFacts {
            branch: Some(String::from("master")),
            commit_date: Some(String::from("2021-02-12")),
            commit_time: Some(String::from("01:54:15")),
            commit_timestamp: Some(String::from("2021-02-12T01:54:15Z")),
            semver: Some(String::from("v3.2.0")),
            semver_lightweight: Some(String::from("v3.2.0-lw")),
            sha: Some(String::from("0c9ba167b0b9aae1be86acc3ae6329fa3180d8f8")),
            sha_short: Some(String::from("0c9ba16")),
            head_path: Some(String::from(".git/HEAD")),
            ref_path: Some(String::from(".git/refs/heads/master")),
        };
        let rustc = RustcFacts {
            channel: Some(String::from("nightly")),
            commit_date: Some(String::from("2021-02-10")),
            commit_hash: Some(String::from("07194ffcd25b0871ce560b9f702e52db27ac9f77")),
            host_triple: Some(String::from("x86_64-unknown-linux-gnu")),
            llvm_version: Some(String::from("11.0")),
            semver: Some(String::from("1.52.0-nightly")),
        };
        let build = BuildFacts {
            date: Some(String::from("2021-02-25")),
            time: Some(String::from("23:28:39")),
            timestamp: Some(String::from("2021-02-25T23:28:39Z")),
            semver: Some(String::from("4.1.0")),
        };
        let cargo = CargoFacts {
            features: Some(String::from("git,build")),
            profile: Some(String::from("debug")),
            target_triple: Some(String::from("x86_64-unknown-linux-gnu")),
        };
        FakeResolver {
            build,
            git: Ok(git),
            rustc: Ok(rustc),
            cargo,
            build_called: false,
            git_called: false,
            rustc_called: false,
            cargo_called: false,
        }
    }
}

impl Resolver for FakeResolver {
    fn resolve_build(&mut self, _toggles: &Build) -> BuildFacts {
        self.build_called = true;
        self.build.clone()
    }

    fn resolve_git(&mut self, _toggles: &Git, _repo_path: &Option<String>) -> Result<GitFacts, Error> {
        self.git_called = true;
        self.git.clone()
    }

    fn resolve_rustc(&mut self, _toggles: &Rustc) -> Result<RustcFacts, Error> {
        self.rustc_called = true;
        self.rustc.clone()
    }

    fn resolve_cargo(&mut self, _toggles: &Cargo) -> CargoFacts {
        self.cargo_called = true;
        self.cargo.clone()
    }
}

fn value_of(config: &Config, key: VergenKey) -> Option<String> {
    config.get(key).clone()
}

#[test]
fn default_config_works() {
    assert!(!Config::default().cfg_map().is_empty());
}

fn check_build_config(instructions: &Instructions) {
    let config = instructions.build();
    assert!(config.has_enabled());
    assert!(config.timestamp());
    assert_eq!(*config.timezone(), TimeZone::Utc);
    assert_eq!(*config.kind(), TimestampKind::Timestamp);
    assert!(config.semver());
}

fn check_cargo_config(instructions: &Instructions) {
    let config = instructions.cargo();
    assert!(config.has_enabled());
    assert!(config.features());
    assert!(config.profile());
    assert!(config.target_triple());
}

fn check_git_config(instructions: &Instructions) {
    let config = instructions.git();
    assert!(config.has_enabled());
    assert!(config.branch());
    assert!(config.commit_timestamp());
    assert_eq!(*config.commit_timestamp_timezone(), TimeZone::Utc);
    assert_eq!(*config.commit_timestamp_kind(), TimestampKind::Timestamp);
    assert!(config.rerun_on_head_change());
    assert!(config.semver());
    assert_eq!(*config.semver_kind(), SemverKind::Normal);
    assert!(config.sha());
    assert_eq!(*config.sha_kind(), ShaKind::Normal);
}

fn check_rustc_config(instructions: &Instructions) {
    let config = instructions.rustc();
    assert!(config.has_enabled());
    assert!(config.channel());
    assert!(config.commit_date());
    assert!(config.host_triple());
    assert!(config.llvm_version());
    assert!(config.sha());
}

#[test]
fn default_instructions() {
    let default = Instructions::default();
    check_build_config(&default);
    check_cargo_config(&default);
    check_git_config(&default);
    check_rustc_config(&default);
}

#[test]
fn totality_every_key_has_exactly_one_entry() {
    let mut resolver = FakeResolver::happy();
    let config = Instructions::default().config(None, &mut resolver).unwrap();
    assert_eq!(config.cfg_map().len(), 21);
    assert_eq!(vergen::keys::all_keys().len(), 21);
    for key in vergen::keys::all_keys() {
        // Every recognized key can be looked up; a missing slot would panic.
        let _ = config.get(key);
    }
}

#[test]
fn default_run_resolves_every_fact() {
    let mut resolver = FakeResolver::happy();
    let config = Instructions::default().config(None, &mut resolver).unwrap();
    for key in vergen::keys::all_keys() {
        // GIT_SEMVER_LIGHTWEIGHT is the one fact the default styles leave out.
        if key == VergenKey::SemverLightweight {
            assert_eq!(value_of(&config, key), None);
        } else {
            assert!(value_of(&config, key).is_some());
        }
    }
    assert_eq!(
        value_of(&config, VergenKey::BuildTimestamp),
        Some(String::from("2021-02-25T23:28:39Z"))
    );
    assert_eq!(config.head_path().clone(), Some(String::from(".git/HEAD")));
    assert_eq!(
        config.ref_path().clone(),
        Some(String::from(".git/refs/heads/master"))
    );
}

#[test]
fn toggled_off_category_stays_unset() {
    let mut instructions = Instructions::default();
    instructions.git.branch = false;
    instructions.git.commit_timestamp = false;
    instructions.git.rerun_on_head_change = false;
    instructions.git.semver = false;
    instructions.git.sha = false;
    let mut resolver = FakeResolver::happy();
    let config = instructions.config(None, &mut resolver).unwrap();
    assert_eq!(value_of(&config, VergenKey::Branch), None);
    assert_eq!(value_of(&config, VergenKey::CommitDate), None);
    assert_eq!(value_of(&config, VergenKey::CommitTime), None);
    assert_eq!(value_of(&config, VergenKey::CommitTimestamp), None);
    assert_eq!(value_of(&config, VergenKey::Semver), None);
    assert_eq!(value_of(&config, VergenKey::SemverLightweight), None);
    assert_eq!(value_of(&config, VergenKey::Sha), None);
    assert_eq!(value_of(&config, VergenKey::ShortSha), None);
    assert_eq!(config.head_path().clone(), None);
    assert_eq!(config.ref_path().clone(), None);
    // The other categories still resolve.
    assert!(value_of(&config, VergenKey::BuildDate).is_some());
    assert!(value_of(&config, VergenKey::RustcChannel).is_some());
    assert!(value_of(&config, VergenKey::CargoProfile).is_some());
}

#[test]
fn disabled_category_resolver_is_not_invoked() {
    let mut instructions = Instructions::default();
    instructions.git.branch = false;
    instructions.git.commit_timestamp = false;
    instructions.git.rerun_on_head_change = false;
    instructions.git.semver = false;
    instructions.git.sha = false;
    instructions.cargo.features = false;
    instructions.cargo.profile = false;
    instructions.cargo.target_triple = false;
    let mut resolver = FakeResolver::happy();
    let config = instructions.config(None, &mut resolver);
    assert!(config.is_ok());
    assert!(resolver.build_called);
    assert!(!resolver.git_called);
    assert!(resolver.rustc_called);
    assert!(!resolver.cargo_called);
}

#[test]
fn nothing_enabled_invokes_nothing() {
    let mut instructions = Instructions::default();
    instructions.build.timestamp = false;
    instructions.build.semver = false;
    instructions.git.branch = false;
    instructions.git.commit_timestamp = false;
    instructions.git.rerun_on_head_change = false;
    instructions.git.semver = false;
    instructions.git.sha = false;
    instructions.rustc.channel = false;
    instructions.rustc.commit_date = false;
    instructions.rustc.host_triple = false;
    instructions.rustc.llvm_version = false;
    instructions.rustc.sha = false;
    instructions.rustc.semver = false;
    instructions.cargo.features = false;
    instructions.cargo.profile = false;
    instructions.cargo.target_triple = false;
    let mut resolver = FakeResolver::happy();
    let config = instructions.config(None, &mut resolver).unwrap();
    assert!(!resolver.build_called);
    assert!(!resolver.git_called);
    assert!(!resolver.rustc_called);
    assert!(!resolver.cargo_called);
    for key in vergen::keys::all_keys() {
        assert_eq!(value_of(&config, key), None);
    }
}

#[test]
fn version_control_failure_is_reported_before_compiler_failure() {
    let mut resolver = FakeResolver::happy();
    resolver.git = Err(Error::RepositoryStateUnavailable);
    resolver.rustc = Err(Error::CompilerVersionUnparseable);
    let result = Instructions::default().config(None, &mut resolver);
    assert_eq!(result.unwrap_err(), Error::RepositoryStateUnavailable);
    // The compiler resolver was never reached.
    assert!(!resolver.rustc_called);
}

#[test]
fn compiler_failure_alone_is_reported() {
    let mut resolver = FakeResolver::happy();
    resolver.rustc = Err(Error::CompilerVersionUnparseable);
    let result = Instructions::default().config(None, &mut resolver);
    assert_eq!(result.unwrap_err(), Error::CompilerVersionUnparseable);
}

#[test]
fn identical_inputs_yield_identical_configs() {
    let mut resolver = FakeResolver::happy();
    let first = Instructions::default().config(None, &mut resolver).unwrap();
    let second = Instructions::default().config(None, &mut resolver).unwrap();
    for key in vergen::keys::all_keys() {
        assert_eq!(value_of(&first, key), value_of(&second, key));
    }
    assert_eq!(first.head_path().clone(), second.head_path().clone());
    assert_eq!(first.ref_path().clone(), second.ref_path().clone());
}

#[test]
fn missing_repository_fails_the_aggregation() {
    let mut resolver = FakeResolver::happy();
    resolver.git = Err(Error::RepositoryNotFound);
    let result = Instructions::default().config(None, &mut resolver);
    assert_eq!(result.unwrap_err(), Error::RepositoryNotFound);
}

#[test]
fn fresh_repository_without_tags() {
    let mut resolver = FakeResolver::happy();
    resolver.git = Ok(GitFacts {
        branch: Some(String::from("master")),
        commit_date: Some(String::from("2021-02-12")),
        commit_time: Some(String::from("01:54:15")),
        commit_timestamp: Some(String::from("2021-02-12T01:54:15Z")),
        semver: None,
        semver_lightweight: None,
        sha: Some(String::from("0c9ba167b0b9aae1be86acc3ae6329fa3180d8f8")),
        sha_short: Some(String::from("0c9ba16")),
        head_path: Some(String::from(".git/HEAD")),
        ref_path: Some(String::from(".git/refs/heads/master")),
    });
    let config = Instructions::default().config(None, &mut resolver).unwrap();
    let sha = value_of(&config, VergenKey::Sha).unwrap();
    assert_eq!(sha.len(), 40);
    assert!(sha.chars().all(|c| c.is_ascii_hexdigit()));
    let short = value_of(&config, VergenKey::ShortSha).unwrap();
    assert_eq!(short.len(), 7);
    assert_eq!(short, &sha[..7]);
    assert_eq!(value_of(&config, VergenKey::Semver), None);
    assert_eq!(
        value_of(&config, VergenKey::Branch),
        Some(String::from("master"))
    );
}

#[test]
fn build_semver_off_leaves_dates_resolved() {
    let mut instructions = Instructions::default();
    instructions.build.semver = false;
    let mut resolver = FakeResolver::happy();
    let config = instructions.config(None, &mut resolver).unwrap();
    assert_eq!(value_of(&config, VergenKey::BuildSemver), None);
    assert_eq!(
        value_of(&config, VergenKey::BuildDate),
        Some(String::from("2021-02-25"))
    );
    assert_eq!(
        value_of(&config, VergenKey::BuildTime),
        Some(String::from("23:28:39"))
    );
}

#[test]
fn date_only_granularity_leaves_time_unset() {
    let mut instructions = Instructions::default();
    instructions.build.kind = TimestampKind::DateOnly;
    let mut resolver = FakeResolver::happy();
    let config = instructions.config(None, &mut resolver).unwrap();
    assert!(value_of(&config, VergenKey::BuildDate).is_some());
    assert_eq!(value_of(&config, VergenKey::BuildTime), None);
    assert_eq!(value_of(&config, VergenKey::BuildTimestamp), None);
}

#[test]
fn lightweight_semver_style_switches_key() {
    let mut instructions = Instructions::default();
    instructions.git.semver_kind = SemverKind::Lightweight;
    let mut resolver = FakeResolver::happy();
    let config = instructions.config(None, &mut resolver).unwrap();
    assert_eq!(value_of(&config, VergenKey::Semver), None);
    assert_eq!(
        value_of(&config, VergenKey::SemverLightweight),
        Some(String::from("v3.2.0-lw"))
    );
}

#[test]
fn short_sha_style_drops_the_full_hash() {
    let mut instructions = Instructions::default();
    instructions.git.sha_kind = ShaKind::Short;
    let mut resolver = FakeResolver::happy();
    let config = instructions.config(None, &mut resolver).unwrap();
    assert_eq!(value_of(&config, VergenKey::Sha), None);
    assert_eq!(
        value_of(&config, VergenKey::ShortSha),
        Some(String::from("0c9ba16"))
    );
}

#[test]
fn head_change_watch_paths_follow_their_switch() {
    let mut instructions = Instructions::default();
    instructions.git.rerun_on_head_change = false;
    let mut resolver = FakeResolver::happy();
    let config = instructions.config(None, &mut resolver).unwrap();
    assert_eq!(config.head_path().clone(), None);
    assert_eq!(config.ref_path().clone(), None);
}

#[test]
fn watch_paths_alone_still_query_version_control() {
    let mut instructions = Instructions::default();
    instructions.git.branch = false;
    instructions.git.commit_timestamp = false;
    instructions.git.semver = false;
    instructions.git.sha = false;
    let mut resolver = FakeResolver::happy();
    let config = instructions.config(None, &mut resolver).unwrap();
    assert!(resolver.git_called);
    assert_eq!(value_of(&config, VergenKey::Branch), None);
    assert_eq!(value_of(&config, VergenKey::Sha), None);
    assert_eq!(config.head_path().clone(), Some(String::from(".git/HEAD")));
    assert_eq!(
        config.ref_path().clone(),
        Some(String::from(".git/refs/heads/master"))
    );
}
