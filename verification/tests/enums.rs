use multipathd_exporter::common::{DeviceState, MarginalState, PathDeviceMapperState,
    PathGroupDeviceMapperState};
use multipathd_exporter::map::{MapAction, MapFailback, MapQueueing, MapWriteProtection,
    QueueingValue};
use multipathd_exporter::path::{PathChecker, PathCheckerState};

#[test]
fn path_group_device_mapper_state_table() {
    assert_eq!(
        PathGroupDeviceMapperState::decode("active").unwrap(),
        PathGroupDeviceMapperState::Active
    );
    assert_eq!(
        PathGroupDeviceMapperState::decode("enabled").unwrap(),
        PathGroupDeviceMapperState::Enabled
    );
    assert_eq!(
        PathGroupDeviceMapperState::decode("disabled").unwrap(),
        PathGroupDeviceMapperState::Disabled
    );
    assert_eq!(
        PathGroupDeviceMapperState::decode("undef").unwrap(),
        PathGroupDeviceMapperState::Undefined
    );
    assert!(PathGroupDeviceMapperState::decode("Active").is_err());
    assert!(PathGroupDeviceMapperState::decode("undefined").is_err());
    assert!(PathGroupDeviceMapperState::decode("").is_err());
    assert_eq!(
        PathGroupDeviceMapperState::default(),
        PathGroupDeviceMapperState::Undefined
    );
}

#[test]
fn path_group_device_mapper_state_ordinals() {
    assert_eq!(PathGroupDeviceMapperState::Active.ordinal(), 0);
    assert_eq!(PathGroupDeviceMapperState::Enabled.ordinal(), 1);
    assert_eq!(PathGroupDeviceMapperState::Disabled.ordinal(), 2);
    assert_eq!(PathGroupDeviceMapperState::Undefined.ordinal(), 3);
}

#[test]
fn path_device_mapper_state_table() {
    assert_eq!(
        PathDeviceMapperState::decode("active").unwrap(),
        PathDeviceMapperState::Active
    );
    assert_eq!(
        PathDeviceMapperState::decode("failed").unwrap(),
        PathDeviceMapperState::Failed
    );
    assert_eq!(
        PathDeviceMapperState::decode("undef").unwrap(),
        PathDeviceMapperState::Undefined
    );
    assert!(PathDeviceMapperState::decode("enabled").is_err());
    assert_eq!(PathDeviceMapperState::default(), PathDeviceMapperState::Undefined);
    assert_eq!(PathDeviceMapperState::Active.ordinal(), 0);
    assert_eq!(PathDeviceMapperState::Failed.ordinal(), 1);
    assert_eq!(PathDeviceMapperState::Undefined.ordinal(), 2);
}

#[test]
fn device_state_table() {
    assert_eq!(DeviceState::decode("running").unwrap(), DeviceState::Running);
    assert_eq!(DeviceState::decode("offline").unwrap(), DeviceState::Offline);
    // `unknown` has no textual form: even its own name is an error.
    assert!(DeviceState::decode("unknown").is_err());
    assert!(DeviceState::decode("").is_err());
    assert_eq!(DeviceState::default(), DeviceState::Unknown);
    assert_eq!(DeviceState::Running.ordinal(), 0);
    assert_eq!(DeviceState::Offline.ordinal(), 1);
    assert_eq!(DeviceState::Unknown.ordinal(), 2);
}

#[test]
fn marginal_state_table() {
    assert_eq!(MarginalState::decode("marginal").unwrap(), MarginalState::Marginal);
    assert_eq!(MarginalState::decode("normal").unwrap(), MarginalState::Normal);
    assert!(MarginalState::decode("abnormal").is_err());
    assert_eq!(MarginalState::default(), MarginalState::Normal);
}

#[test]
fn map_failback_table() {
    assert_eq!(MapFailback::decode("immediate").unwrap(), MapFailback::Immediate);
    assert_eq!(MapFailback::decode("followover").unwrap(), MapFailback::FollowOver);
    assert_eq!(MapFailback::decode("manual").unwrap(), MapFailback::Manual);
    assert_eq!(MapFailback::decode("undef").unwrap(), MapFailback::Undefined);
    assert_eq!(MapFailback::decode("deferred:42").unwrap(), MapFailback::Deferred(42));
    assert_eq!(MapFailback::decode("deferred:-7").unwrap(), MapFailback::Deferred(-7));
    assert!(MapFailback::decode("deferred").is_err());
    assert!(MapFailback::decode("deferred:x").is_err());
    assert!(MapFailback::decode("other").is_err());
    assert_eq!(MapFailback::default(), MapFailback::Undefined);
}

#[test]
fn map_write_protection_table() {
    assert_eq!(MapWriteProtection::decode("ro").unwrap(), MapWriteProtection::ReadOnly);
    assert_eq!(MapWriteProtection::decode("rw").unwrap(), MapWriteProtection::ReadWrite);
    assert_eq!(MapWriteProtection::decode("undef").unwrap(), MapWriteProtection::Undefined);
    assert!(MapWriteProtection::decode("readonly").is_err());
    assert_eq!(MapWriteProtection::default(), MapWriteProtection::Undefined);
}

#[test]
fn map_queueing_table() {
    assert_eq!(MapQueueing::decode("off").unwrap(), MapQueueing::Off);
    assert_eq!(MapQueueing::decode("on").unwrap(), MapQueueing::On);
    assert_eq!(MapQueueing::decode("-").unwrap(), MapQueueing::Undefined);
    assert_eq!(
        MapQueueing::decode("10 sec").unwrap(),
        MapQueueing::Timed(QueueingValue::Seconds(10))
    );
    assert_eq!(
        MapQueueing::decode("3 chk").unwrap(),
        MapQueueing::Timed(QueueingValue::Checks(3))
    );
    assert!(MapQueueing::decode("timed").is_err());
    assert!(MapQueueing::decode("10 min").is_err());
    assert_eq!(MapQueueing::default(), MapQueueing::Undefined);
}

#[test]
fn map_action_table() {
    assert_eq!(MapAction::decode("reject").unwrap(), MapAction::Reject);
    assert_eq!(MapAction::decode("rename").unwrap(), MapAction::Rename);
    assert_eq!(MapAction::decode("reload").unwrap(), MapAction::Reload);
    assert_eq!(MapAction::decode("create").unwrap(), MapAction::Create);
    assert_eq!(MapAction::decode("switchpg").unwrap(), MapAction::SwitchPathGroup);
    // The empty string is a present value: the `none` variant.
    assert_eq!(MapAction::decode("").unwrap(), MapAction::NoAction);
    assert!(MapAction::decode("switchpathgroup").is_err());
    assert!(MapAction::decode("none").is_err());
    assert_eq!(MapAction::default(), MapAction::NoAction);
}

#[test]
fn path_checker_table_is_total() {
    assert_eq!(PathChecker::decode("directio"), PathChecker::DirectIO);
    assert_eq!(PathChecker::decode("tur"), PathChecker::TestUnitReady);
    assert_eq!(PathChecker::decode("hp_sw"), PathChecker::HpServiceGuard);
    assert_eq!(PathChecker::decode("rdac"), PathChecker::RDAC);
    assert_eq!(PathChecker::decode("emcclariion"), PathChecker::EmcClariion);
    assert_eq!(PathChecker::decode("readsector0"), PathChecker::ReadSector0);
    assert_eq!(PathChecker::decode("cciss_tur"), PathChecker::HpSmartArrayTestUnitReady);
    assert_eq!(PathChecker::decode("none"), PathChecker::NoChecker);
    // The catch-all: anything outside the table is `invalid`, never an
    // error.
    assert_eq!(PathChecker::decode("something else"), PathChecker::Invalid);
    assert_eq!(PathChecker::decode(""), PathChecker::Invalid);
    assert_eq!(PathChecker::decode("TUR"), PathChecker::Invalid);
    assert_eq!(PathChecker::default(), PathChecker::Invalid);
}

#[test]
fn path_checker_state_table() {
    assert_eq!(PathCheckerState::decode("ready").unwrap(), PathCheckerState::Ready);
    assert_eq!(PathCheckerState::decode("faulty").unwrap(), PathCheckerState::Faulty);
    assert_eq!(PathCheckerState::decode("shaky").unwrap(), PathCheckerState::Shaky);
    assert_eq!(PathCheckerState::decode("ghost").unwrap(), PathCheckerState::GhostPath);
    assert_eq!(PathCheckerState::decode("delayed").unwrap(), PathCheckerState::Delayed);
    assert_eq!(PathCheckerState::decode("i/o pending").unwrap(), PathCheckerState::IoPending);
    assert_eq!(PathCheckerState::decode("i/o timeout").unwrap(), PathCheckerState::IoTimeout);
    assert_eq!(PathCheckerState::decode("undef").unwrap(), PathCheckerState::Undefined);
    assert!(PathCheckerState::decode("iopending").is_err());
    assert!(PathCheckerState::decode("").is_err());
    assert_eq!(PathCheckerState::default(), PathCheckerState::Undefined);
}

#[test]
fn path_checker_state_ordinals() {
    assert_eq!(PathCheckerState::Ready.ordinal(), 0);
    assert_eq!(PathCheckerState::Faulty.ordinal(), 1);
    assert_eq!(PathCheckerState::Shaky.ordinal(), 2);
    assert_eq!(PathCheckerState::GhostPath.ordinal(), 3);
    assert_eq!(PathCheckerState::Delayed.ordinal(), 4);
    assert_eq!(PathCheckerState::IoPending.ordinal(), 5);
    assert_eq!(PathCheckerState::IoTimeout.ordinal(), 6);
    assert_eq!(PathCheckerState::Undefined.ordinal(), 7);
}
