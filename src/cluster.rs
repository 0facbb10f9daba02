//! Desired state of a ZooKeeper cluster.

use crate::config::ZooKeeperConfiguration;
use crate::version::ZooKeeperVersion;
use vstd::prelude::*;

verus! {

/// One ensemble member, named by the node that it is scheduled to.
#[derive(Clone, Debug, PartialEq, Eq)]
pub struct ZooKeeperServer {
    pub node_name: String,
}

/// What the user asks of a cluster: the version to run, the members, and
/// the tuning options, if any.
#[derive(Clone, Debug, PartialEq)]
pub struct ZooKeeperClusterSpec {
    pub version: ZooKeeperVersion,
    pub servers: Vec<ZooKeeperServer>,
    pub config: Option<ZooKeeperConfiguration>,
}

} // verus!
