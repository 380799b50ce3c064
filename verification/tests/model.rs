use multipathd_exporter::common::{DeviceState, MarginalState, PathDeviceMapperState,
    PathGroupDeviceMapperState};
use multipathd_exporter::document::DocValue;
use multipathd_exporter::map::{Device, MapAction, MapFailback, MapQueueing, MapWriteProtection};
use multipathd_exporter::path::{Path, PathChecker, PathCheckerState};
use multipathd_exporter::path_group::PathGroup;
use multipathd_exporter::Multipathd;

fn text(s: &str) -> DocValue {
    DocValue::Text(s.to_owned())
}

fn num(n: u64) -> DocValue {
    DocValue::Unsigned(n)
}

fn obj(fields: Vec<(&str, DocValue)>) -> DocValue {
    DocValue::Object(fields.into_iter().map(|(k, v)| (k.to_owned(), v)).collect())
}

fn full_path_doc() -> DocValue {
    obj(vec![
        ("dev", text("sdag")),
        ("dev_t", text("66:0")),
        ("dm_st", text("active")),
        ("dev_st", text("running")),
        ("chk_st", text("ready")),
        ("checker", text("tur")),
        ("pri", num(50)),
        ("host_wwnn", text("[undef]")),
        ("target_wwnn", text("iqn.2010-06.com.purestorage:flasharray.1007a309fb52d942")),
        ("host_wwpn", text("[undef]")),
        ("target_wwpn", text("[undef]")),
        ("host_adapter", text("192.168.131.31")),
        ("lun_hex", text("0x000e000000000000")),
        ("marginal_st", text("normal")),
    ])
}

#[test]
fn path_from_full_document() {
    let p = Path::from_doc(&full_path_doc()).unwrap();
    assert_eq!(p.device_name, "sdag");
    assert_eq!(p.device_major_minor, "66:0");
    assert_eq!(p.device_mapper_state, PathDeviceMapperState::Active);
    assert_eq!(p.device_state, DeviceState::Running);
    assert_eq!(p.checker_state, PathCheckerState::Ready);
    assert_eq!(p.checker, PathChecker::TestUnitReady);
    assert_eq!(p.priority, 50);
    assert_eq!(p.host_world_wide_node_name, None);
    assert_eq!(
        p.target_world_wide_node_name,
        "iqn.2010-06.com.purestorage:flasharray.1007a309fb52d942"
    );
    assert_eq!(p.host_world_wide_port_name, None);
    assert_eq!(p.target_world_wide_port_name, None);
    assert_eq!(p.host_adapter, Some("192.168.131.31".to_owned()));
    assert_eq!(p.logical_unit_number, Some(0x000e000000000000));
    assert_eq!(p.marginal_path_state, MarginalState::Normal);
}

#[test]
fn path_lun_absent_is_none_without_error() {
    let p = Path::from_doc(&obj(vec![
        ("dev", text("sdcx")),
        ("dev_t", text("70:80")),
        ("dm_st", text("active")),
        ("dev_st", text("running")),
        ("chk_st", text("ready")),
        ("checker", text("tur")),
        ("pri", num(50)),
        ("host_wwnn", text("0x20000090fa678144")),
        ("target_wwnn", text("0x524a937247e74300")),
        ("host_wwpn", text("0x10000090fa678144")),
        ("target_wwpn", text("0x524a937247e74300")),
        ("host_adapter", text("0000:00:03.0")),
        ("marginal_st", text("normal")),
    ]))
    .unwrap();
    assert_eq!(p.logical_unit_number, None);
    assert_eq!(p.host_world_wide_node_name, Some("0x20000090fa678144".to_owned()));
    assert_eq!(p.host_world_wide_port_name, Some("0x10000090fa678144".to_owned()));
    assert_eq!(p.target_world_wide_port_name, Some("0x524a937247e74300".to_owned()));
}

#[test]
fn path_from_empty_document_is_all_defaults() {
    let p = Path::from_doc(&obj(vec![])).unwrap();
    assert_eq!(p.device_name, "");
    assert_eq!(p.device_major_minor, "");
    assert_eq!(p.device_mapper_state, PathDeviceMapperState::Undefined);
    assert_eq!(p.device_state, DeviceState::Unknown);
    assert_eq!(p.checker, PathChecker::Invalid);
    assert_eq!(p.checker_state, PathCheckerState::Undefined);
    assert_eq!(p.priority, 0);
    assert_eq!(p.host_world_wide_node_name, None);
    assert_eq!(p.target_world_wide_node_name, "");
    assert_eq!(p.logical_unit_number, None);
    assert_eq!(p.marginal_path_state, MarginalState::Normal);
}

#[test]
fn path_with_bad_state_token_fails() {
    assert!(Path::from_doc(&obj(vec![("dev_st", text("sleeping"))])).is_err());
    assert!(Path::from_doc(&obj(vec![("dm_st", text("Active"))])).is_err());
    assert!(Path::from_doc(&obj(vec![("chk_st", text("READY"))])).is_err());
    assert!(Path::from_doc(&obj(vec![("lun_hex", text("0xzz"))])).is_err());
    assert!(Path::from_doc(&obj(vec![("pri", text("50"))])).is_err());
    assert!(Path::from_doc(&obj(vec![("dev", num(3))])).is_err());
    assert!(Path::from_doc(&text("not an object")).is_err());
}

#[test]
fn path_group_from_document() {
    let g = PathGroup::from_doc(&obj(vec![
        ("selector", text("service-time 0")),
        ("pri", num(50)),
        ("dm_st", text("active")),
        ("marginal_st", text("normal")),
        ("group", num(1)),
    ]))
    .unwrap();
    assert_eq!(g.selector, "service-time 0");
    assert_eq!(g.priority, 50);
    assert_eq!(g.device_mapper_state, PathGroupDeviceMapperState::Active);
    assert_eq!(g.marginal_path_state, MarginalState::Normal);
    assert_eq!(g.group, 1);
    assert_eq!(g.paths.len(), 0);
}

#[test]
fn path_group_bad_path_aborts_group() {
    let g = PathGroup::from_doc(&obj(vec![
        ("selector", text("service-time 0")),
        ("paths", DocValue::List(vec![obj(vec![("dev_st", text("bogus"))])])),
    ]));
    assert!(g.is_err());
}

fn full_device_doc(uuid: &str, path_faults: u64, loads: u64) -> DocValue {
    obj(vec![
        ("name", text(uuid)),
        ("uuid", text(uuid)),
        ("sysfs", text("dm-31")),
        ("failback", text("immediate")),
        ("queueing", text("off")),
        ("paths", num(8)),
        ("write_prot", text("rw")),
        ("dm_st", text("active")),
        ("features", text("0")),
        ("hwhandler", text("1 alua")),
        ("action", text("")),
        ("path_faults", num(path_faults)),
        ("vend", text("PURE")),
        ("prod", text("FlashArray")),
        ("rev", text("8888")),
        ("switch_grp", num(0)),
        ("map_loads", num(loads)),
        ("total_q_time", num(0)),
        ("q_timeouts", num(0)),
        ("path_groups", DocValue::List(vec![])),
    ])
}

#[test]
fn device_from_full_document() {
    let d = Device::from_doc(&full_device_doc("3624a9370e92ace0b12e941bf000cb4d5", 23, 16))
        .unwrap();
    assert_eq!(d.name, "3624a9370e92ace0b12e941bf000cb4d5");
    assert_eq!(d.uuid, "3624a9370e92ace0b12e941bf000cb4d5");
    assert_eq!(d.sysfs, Some("dm-31".to_owned()));
    assert_eq!(d.failback, MapFailback::Immediate);
    assert_eq!(d.queueing, MapQueueing::Off);
    assert_eq!(d.paths, 8);
    assert_eq!(d.write_protection, MapWriteProtection::ReadWrite);
    assert_eq!(d.device_mapper_state, PathDeviceMapperState::Active);
    assert_eq!(d.features, "0");
    assert_eq!(d.hwhandler, "1 alua");
    assert_eq!(d.action, MapAction::NoAction);
    assert_eq!(d.path_faults, 23);
    assert_eq!(d.vendor, "PURE");
    assert_eq!(d.product, "FlashArray");
    assert_eq!(d.rev, "8888");
    assert_eq!(d.switch_group, 0);
    assert_eq!(d.loads, 16);
    assert_eq!(d.total_queue_time, 0);
    assert_eq!(d.queue_timeouts, 0);
    assert_eq!(d.path_groups.len(), 0);
}

#[test]
fn device_empty_action_is_the_none_variant() {
    let d = Device::from_doc(&obj(vec![("action", text(""))])).unwrap();
    assert_eq!(d.action, MapAction::NoAction);
}

#[test]
fn device_sysfs_sentinel_is_absent() {
    let d = Device::from_doc(&obj(vec![("sysfs", text("[undef]"))])).unwrap();
    assert_eq!(d.sysfs, None);
}

#[test]
fn multipathd_from_document() {
    let root = obj(vec![
        ("major_version", num(0)),
        ("minor_version", num(9)),
        ("maps", DocValue::List(vec![full_device_doc("3624a9370ca38a5c63c724ca8000a5c6d", 0, 0)])),
    ]);
    let m = Multipathd::from_doc(&root).unwrap();
    assert_eq!(m.major_version, 0);
    assert_eq!(m.minor_version, 9);
    assert_eq!(m.maps.len(), 1);
    assert_eq!(m.maps[0].uuid, "3624a9370ca38a5c63c724ca8000a5c6d");
}

#[test]
fn multipathd_defaults_when_keys_absent() {
    let m = Multipathd::from_doc(&obj(vec![])).unwrap();
    assert_eq!(m.major_version, 0);
    assert_eq!(m.minor_version, 0);
    assert_eq!(m.maps.len(), 0);
}

#[test]
fn multipathd_bad_device_aborts_whole_document() {
    let root = obj(vec![
        ("maps", DocValue::List(vec![
            full_device_doc("a", 0, 0),
            obj(vec![("failback", text("sometimes"))]),
        ])),
    ]);
    assert!(Multipathd::from_doc(&root).is_err());
}

#[test]
fn multipathd_wrong_container_shape_fails() {
    assert!(Multipathd::from_doc(&obj(vec![("maps", text("none"))])).is_err());
    assert!(Multipathd::from_doc(&obj(vec![("major_version", text("0"))])).is_err());
    assert!(Multipathd::from_doc(&DocValue::List(vec![])).is_err());
    assert!(Multipathd::from_doc(&obj(vec![
        ("maps", DocValue::List(vec![text("not a map")])),
    ]))
    .is_err());
}

#[test]
fn multipathd_rejects_other_scalar_kinds() {
    // A scalar the model never accepts (null, boolean, negative or
    // fractional number) is a structural error wherever a value is
    // required.
    assert!(Multipathd::from_doc(&obj(vec![("major_version", DocValue::Other)])).is_err());
    let m = Multipathd::from_doc(&obj(vec![("unrelated", DocValue::Other)]));
    assert!(m.is_ok());
}
