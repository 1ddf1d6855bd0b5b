//! Build-provenance configuration: a closed registry of fact keys, per-category
//! toggle models, and a deterministic aggregation engine that composes the
//! per-category fact resolvers into one total key/value configuration.

pub mod config;
pub mod error;
pub mod facts;
pub mod features;
pub mod flags;
pub mod keys;
pub mod resolver;

pub use config::Config;
pub use config::Instructions;
pub use error::Error;
pub use facts::BuildFacts;
pub use facts::CargoFacts;
pub use facts::GitFacts;
pub use facts::RustcFacts;
pub use features::Build;
pub use features::Cargo;
pub use features::Git;
pub use features::Rustc;
pub use features::SemverKind;
pub use features::ShaKind;
pub use features::TimeZone;
pub use features::TimestampKind;
pub use flags::ConstantsFlags;
pub use keys::VergenKey;
pub use resolver::Resolver;
