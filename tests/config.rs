use zookeeper_crd::{validation_requests, OptionKind, ZooKeeperConfiguration, ZooKeeperVersion};

fn empty() -> ZooKeeperConfiguration {
    ZooKeeperConfiguration {
        client_port: None,
        data_dir: None,
        init_limit: None,
        sync_limit: None,
        tick_time: None,
    }
}

fn pairs(entries: &[(&str, &str)]) -> Vec<(String, String)> {
    entries
        .iter()
        .map(|(k, v)| (k.to_string(), v.to_string()))
        .collect()
}

#[test]
fn empty_configuration_projects_to_nothing() {
    assert!(empty().project().is_empty());
}

#[test]
fn tick_time_projects_to_single_entry() {
    let conf = ZooKeeperConfiguration {
        client_port: None,
        data_dir: None,
        init_limit: None,
        sync_limit: None,
        tick_time: Some(123),
    };
    assert_eq!(conf.project(), pairs(&[("tickTime", "123")]));
}

#[test]
fn every_option_projects_under_its_name() {
    let conf = ZooKeeperConfiguration {
        client_port: Some(2181),
        data_dir: Some("/var/lib/zookeeper".to_string()),
        init_limit: Some(5),
        sync_limit: Some(2),
        tick_time: Some(2000),
    };
    assert_eq!(
        conf.project(),
        pairs(&[
            ("clientPort", "2181"),
            ("dataDir", "/var/lib/zookeeper"),
            ("initLimit", "5"),
            ("syncLimit", "2"),
            ("tickTime", "2000"),
        ])
    );
}

#[test]
fn numbers_are_rendered_in_base_ten() {
    let mut conf = empty();
    conf.client_port = Some(0);
    conf.init_limit = Some(u32::MAX);
    conf.sync_limit = Some(10);
    assert_eq!(
        conf.project(),
        pairs(&[
            ("clientPort", "0"),
            ("initLimit", "4294967295"),
            ("syncLimit", "10"),
        ])
    );
}

#[test]
fn data_dir_is_kept_verbatim() {
    let mut conf = empty();
    conf.data_dir = Some(" a dir/with:odd chars ".to_string());
    assert_eq!(
        conf.project(),
        pairs(&[("dataDir", " a dir/with:odd chars ")])
    );
    conf.data_dir = Some(String::new());
    assert_eq!(conf.project(), pairs(&[("dataDir", "")]));
}

#[test]
fn one_entry_per_present_option() {
    let mut conf = empty();
    conf.sync_limit = Some(7);
    conf.client_port = Some(1);
    let projected = conf.project();
    assert_eq!(projected.len(), 2);
    assert_ne!(projected[0].0, projected[1].0);
    assert!(projected.iter().all(|(k, _)| k == "clientPort" || k == "syncLimit"));
}

#[test]
fn projection_is_deterministic() {
    let mut conf = empty();
    conf.tick_time = Some(42);
    conf.data_dir = Some("/data".to_string());
    assert_eq!(conf.project(), conf.clone().project());
}

#[test]
fn validation_requests_follow_the_projection() {
    let mut conf = empty();
    conf.tick_time = Some(123);
    conf.client_port = Some(2181);
    let requests = validation_requests(&ZooKeeperVersion::v3_5_8, &conf);
    assert_eq!(requests.len(), 2);
    assert_eq!(requests[0].version, "3.5.8");
    assert_eq!(requests[0].kind, OptionKind::Conf);
    assert_eq!(requests[0].key, "clientPort");
    assert_eq!(requests[0].value, "2181");
    assert_eq!(requests[1].key, "tickTime");
    assert_eq!(requests[1].value, "123");
    assert!(validation_requests(&ZooKeeperVersion::v3_4_14, &empty()).is_empty());
}
