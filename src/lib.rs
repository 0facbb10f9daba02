//! Cluster resource model of a ZooKeeper ensemble: the supported versions and
//! the rules for moving between them, the typed configuration and its flat
//! key/value projection, and the desired and observed state of a cluster.

pub mod cluster;
pub mod config;
pub mod decimal;
pub mod status;
pub mod validation;
pub mod version;

pub use cluster::{ZooKeeperClusterSpec, ZooKeeperServer};
pub use config::ZooKeeperConfiguration;
pub use status::ZooKeeperClusterStatus;
pub use validation::{validation_requests, OptionKind, ValidationRequest};
pub use version::{SemVer, VersionError, ZooKeeperVersion};
