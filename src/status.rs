//! Observed state of a ZooKeeper cluster.

use crate::version::ZooKeeperVersion;
use k8s_openapi::apimachinery::pkg::apis::meta::v1::Condition;
use vstd::prelude::*;

verus! {

#[verifier::external_type_specification]
#[verifier::external_body]
pub struct ExCondition(Condition);

/// The image of a version: the repository, a colon, and the version's text.
pub open spec fn image_name(v: ZooKeeperVersion) -> Seq<char> {
    "stackable/zookeeper"@ + seq![':'] + v.spec_text()
}

/// What the controller has seen of a cluster: the version it runs, once it
/// has been deployed, the version it is moving to, while a change is under
/// way, and the status conditions, in the order the controller wrote them.
#[derive(Clone, Debug)]
pub struct ZooKeeperClusterStatus {
    pub current_version: Option<ZooKeeperVersion>,
    pub target_version: Option<ZooKeeperVersion>,
    pub conditions: Vec<Condition>,
}

impl Default for ZooKeeperClusterStatus {
    fn default() -> (r: Self)
        ensures
            r.current_version is None,
            r.target_version is None,
            r.conditions@.len() == 0,
    {
        ZooKeeperClusterStatus { current_version: None, target_version: None, conditions: Vec::new() }
    }
}

impl ZooKeeperClusterStatus {
    /// The container image of the target version; `None` while no version
    /// change is under way.
    pub fn target_image_name(&self) -> (r: Option<String>)
        ensures
            match self.target_version {
                Some(v) => r is Some && r->Some_0@ == image_name(v),
                None => r is None,
            },
    {
        match self.target_version {
            Some(version) => {
                let mut name = String::from_str("stackable/zookeeper");
                name.append(":");
                let text = version.to_string();
                name.append(text.as_str());
                proof {
                    reveal_strlit(":");
                }
                assert(name@ =~= image_name(version));
                Some(name)
            },
            None => None,
        }
    }
}

} // verus!
