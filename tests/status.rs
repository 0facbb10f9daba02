use zookeeper_crd::{
    ZooKeeperClusterSpec, ZooKeeperClusterStatus, ZooKeeperServer, ZooKeeperVersion,
};

#[test]
fn no_target_version_gives_no_image() {
    let status = ZooKeeperClusterStatus::default();
    assert_eq!(status.target_image_name(), None);
    assert!(status.conditions.is_empty());
    assert_eq!(status.current_version, None);
}

#[test]
fn target_version_gives_image_reference() {
    let mut status = ZooKeeperClusterStatus::default();
    status.current_version = Some(ZooKeeperVersion::v3_4_14);
    status.target_version = Some(ZooKeeperVersion::v3_5_8);
    assert_eq!(
        status.target_image_name(),
        Some("stackable/zookeeper:3.5.8".to_string())
    );
    status.target_version = Some(ZooKeeperVersion::v3_4_14);
    assert_eq!(
        status.target_image_name(),
        Some("stackable/zookeeper:3.4.14".to_string())
    );
}

#[test]
fn cluster_spec_holds_its_servers_in_order() {
    let spec = ZooKeeperClusterSpec {
        version: ZooKeeperVersion::v3_5_8,
        servers: vec![
            ZooKeeperServer { node_name: "node-b".to_string() },
            ZooKeeperServer { node_name: "node-a".to_string() },
        ],
        config: None,
    };
    assert_eq!(spec.servers[0].node_name, "node-b");
    assert_eq!(spec.clone(), spec);
}
