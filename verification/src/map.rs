//! Device-level ("map") state enumerations and the device entity.

use vstd::prelude::*;

use crate::common::{MarginalState, PathDeviceMapperState};
use crate::deserializers::{deferred_failback, deferred_ok, deferred_val, queueing_ok,
    queueing_spec_val, queueing_value, DecodeError, SpecErr};
use crate::document::{get_opt_text_field, get_text_field, get_u64_field, lookup, spec_lookup,
    spec_opt_text_field, spec_state_field, spec_text_field, spec_u64_field, DocValue};
use crate::path_group::{path_groups_from_list, spec_path_groups_from_list, PathGroup,
    SpecPathGroup};
use crate::text::str_eq;

verus! {

/// Failback policy of a device; `deferred:<int>` carries a payload.
/// Declared order: immediate, followover, manual, deferred, undefined.
#[derive(Clone, Copy, Debug, PartialEq, Eq, Structural)]
pub enum MapFailback {
    Immediate,
    FollowOver,
    Manual,
    Deferred(i32),
    Undefined,
}

impl MapFailback {
    /// Token table: `immediate`, `followover`, `manual`, `undef`, and
    /// the `deferred:<int>` composite form.
    pub open spec fn spec_decode(t: Seq<char>) -> Option<MapFailback> {
        if t == "immediate"@ {
            Some(MapFailback::Immediate)
        } else if t == "followover"@ {
            Some(MapFailback::FollowOver)
        } else if t == "manual"@ {
            Some(MapFailback::Manual)
        } else if t == "undef"@ {
            Some(MapFailback::Undefined)
        } else if deferred_ok(t) {
            Some(MapFailback::Deferred(deferred_val(t) as i32))
        } else {
            None
        }
    }

    /// Decodes a present token strictly: anything outside the declared
    /// table fails.
    pub fn decode(token: &str) -> (r: Result<MapFailback, DecodeError>)
        ensures
            r is Ok <==> Self::spec_decode(token@) is Some,
            r matches Ok(v) ==> Self::spec_decode(token@) == Some(v),
            r matches Err(e) ==> e@ == SpecErr::Token(token@),
    {
        if str_eq(token, "immediate") {
            Ok(MapFailback::Immediate)
        } else if str_eq(token, "followover") {
            Ok(MapFailback::FollowOver)
        } else if str_eq(token, "manual") {
            Ok(MapFailback::Manual)
        } else if str_eq(token, "undef") {
            Ok(MapFailback::Undefined)
        } else {
            match deferred_failback(token) {
                Ok(n) => Ok(MapFailback::Deferred(n)),
                Err(e) => Err(e),
            }
        }
    }
}

impl Default for MapFailback {
    /// The variant used when the source document omits the key.
    fn default() -> (r: Self)
        ensures
            r == MapFailback::Undefined,
    {
        MapFailback::Undefined
    }
}

/// Write-protection mode of a device.
/// Declared order: readonly, readwrite, undefined.
#[derive(Clone, Copy, Debug, PartialEq, Eq, Structural)]
pub enum MapWriteProtection {
    ReadOnly,
    ReadWrite,
    Undefined,
}

impl MapWriteProtection {
    /// Token table: `ro`, `rw`, `undef`.
    pub open spec fn spec_decode(t: Seq<char>) -> Option<MapWriteProtection> {
        if t == "ro"@ {
            Some(MapWriteProtection::ReadOnly)
        } else if t == "rw"@ {
            Some(MapWriteProtection::ReadWrite)
        } else if t == "undef"@ {
            Some(MapWriteProtection::Undefined)
        } else {
            None
        }
    }

    /// Decodes a present token strictly: anything outside the declared
    /// table fails.
    pub fn decode(token: &str) -> (r: Result<MapWriteProtection, DecodeError>)
        ensures
            r is Ok <==> Self::spec_decode(token@) is Some,
            r matches Ok(v) ==> Self::spec_decode(token@) == Some(v),
            r matches Err(e) ==> e@ == SpecErr::Token(token@),
    {
        if str_eq(token, "ro") {
            Ok(MapWriteProtection::ReadOnly)
        } else if str_eq(token, "rw") {
            Ok(MapWriteProtection::ReadWrite)
        } else if str_eq(token, "undef") {
            Ok(MapWriteProtection::Undefined)
        } else {
            Err(DecodeError::Token(token.to_owned()))
        }
    }
}

impl Default for MapWriteProtection {
    /// The variant used when the source document omits the key.
    fn default() -> (r: Self)
        ensures
            r == MapWriteProtection::Undefined,
    {
        MapWriteProtection::Undefined
    }
}

/// Payload of the timed queueing mode: a number of seconds or of
/// checker intervals.
#[derive(Clone, Copy, Debug, PartialEq, Eq, Structural)]
pub enum QueueingValue {
    Seconds(u32),
    Checks(u32),
}

/// Queueing policy of a device; the timed mode carries a payload.
/// Declared order: off, on, timed, undefined.
#[derive(Clone, Copy, Debug, PartialEq, Eq, Structural)]
pub enum MapQueueing {
    Off,
    On,
    Timed(QueueingValue),
    Undefined,
}

impl MapQueueing {
    /// Token table: `off`, `on`, `-`, and the `<uint> sec` /
    /// `<uint> chk` composite forms.
    pub open spec fn spec_decode(t: Seq<char>) -> Option<MapQueueing> {
        if t == "off"@ {
            Some(MapQueueing::Off)
        } else if t == "on"@ {
            Some(MapQueueing::On)
        } else if t == "-"@ {
            Some(MapQueueing::Undefined)
        } else if queueing_ok(t) {
            Some(MapQueueing::Timed(queueing_spec_val(t)))
        } else {
            None
        }
    }

    /// Decodes a present token strictly: anything outside the declared
    /// table fails.
    pub fn decode(token: &str) -> (r: Result<MapQueueing, DecodeError>)
        ensures
            r is Ok <==> Self::spec_decode(token@) is Some,
            r matches Ok(v) ==> Self::spec_decode(token@) == Some(v),
            r matches Err(e) ==> e@ == SpecErr::Token(token@),
    {
        if str_eq(token, "off") {
            Ok(MapQueueing::Off)
        } else if str_eq(token, "on") {
            Ok(MapQueueing::On)
        } else if str_eq(token, "-") {
            Ok(MapQueueing::Undefined)
        } else {
            match queueing_value(token) {
                Ok(v) => Ok(MapQueueing::Timed(v)),
                Err(e) => Err(e),
            }
        }
    }
}

impl Default for MapQueueing {
    /// The variant used when the source document omits the key.
    fn default() -> (r: Self)
        ensures
            r == MapQueueing::Undefined,
    {
        MapQueueing::Undefined
    }
}

/// Pending device-mapper action on a device; the empty token is a
/// present value, the `none` variant.
/// Declared order: reject, rename, reload, create, switchpathgroup, none.
#[derive(Clone, Copy, Debug, PartialEq, Eq, Structural)]
pub enum MapAction {
    Reject,
    Rename,
    Reload,
    Create,
    SwitchPathGroup,
    NoAction,
}

impl MapAction {
    /// Token table: `reject`, `rename`, `reload`, `create`,
    /// `switchpg`, and the empty string.
    pub open spec fn spec_decode(t: Seq<char>) -> Option<MapAction> {
        if t == "reject"@ {
            Some(MapAction::Reject)
        } else if t == "rename"@ {
            Some(MapAction::Rename)
        } else if t == "reload"@ {
            Some(MapAction::Reload)
        } else if t == "create"@ {
            Some(MapAction::Create)
        } else if t == "switchpg"@ {
            Some(MapAction::SwitchPathGroup)
        } else if t == ""@ {
            Some(MapAction::NoAction)
        } else {
            None
        }
    }

    /// Decodes a present token strictly: anything outside the declared
    /// table fails.
    pub fn decode(token: &str) -> (r: Result<MapAction, DecodeError>)
        ensures
            r is Ok <==> Self::spec_decode(token@) is Some,
            r matches Ok(v) ==> Self::spec_decode(token@) == Some(v),
            r matches Err(e) ==> e@ == SpecErr::Token(token@),
    {
        if str_eq(token, "reject") {
            Ok(MapAction::Reject)
        } else if str_eq(token, "rename") {
            Ok(MapAction::Rename)
        } else if str_eq(token, "reload") {
            Ok(MapAction::Reload)
        } else if str_eq(token, "create") {
            Ok(MapAction::Create)
        } else if str_eq(token, "switchpg") {
            Ok(MapAction::SwitchPathGroup)
        } else if str_eq(token, "") {
            Ok(MapAction::NoAction)
        } else {
            Err(DecodeError::Token(token.to_owned()))
        }
    }
}

impl Default for MapAction {
    /// The variant used when the source document omits the key.
    fn default() -> (r: Self)
        ensures
            r == MapAction::NoAction,
    {
        MapAction::NoAction
    }
}

/// Ghost model of a [`Device`], over character sequences.
#[verifier::ext_equal]
pub struct SpecDevice {
    pub name: Seq<char>,
    pub uuid: Seq<char>,
    pub sysfs: Option<Seq<char>>,
    pub failback: MapFailback,
    pub queueing: MapQueueing,
    pub paths: u64,
    pub write_protection: MapWriteProtection,
    pub device_mapper_state: PathDeviceMapperState,
    pub features: Seq<char>,
    pub hwhandler: Seq<char>,
    pub action: MapAction,
    pub path_faults: u64,
    pub vendor: Seq<char>,
    pub product: Seq<char>,
    pub rev: Seq<char>,
    pub switch_group: u64,
    pub loads: u64,
    pub total_queue_time: u64,
    pub queue_timeouts: u64,
    pub path_groups: Seq<SpecPathGroup>,
}

/// A multipath-managed logical block device ("map"), aggregating
/// several physical paths.
pub struct Device {
    pub name: String,
    pub uuid: String,
    pub sysfs: Option<String>,
    pub failback: MapFailback,
    pub queueing: MapQueueing,
    pub paths: u64,
    pub write_protection: MapWriteProtection,
    pub device_mapper_state: PathDeviceMapperState,
    pub features: String,
    pub hwhandler: String,
    pub action: MapAction,
    pub path_faults: u64,
    pub vendor: String,
    pub product: String,
    pub rev: String,
    pub switch_group: u64,
    pub loads: u64,
    pub total_queue_time: u64,
    pub queue_timeouts: u64,
    pub path_groups: Vec<PathGroup>,
}

impl View for Device {
    type V = SpecDevice;

    open spec fn view(&self) -> SpecDevice {
        SpecDevice {
            name: self.name@,
            uuid: self.uuid@,
            sysfs: match self.sysfs {
                Some(s) => Some(s@),
                None => None,
            },
            failback: self.failback,
            queueing: self.queueing,
            paths: self.paths,
            write_protection: self.write_protection,
            device_mapper_state: self.device_mapper_state,
            features: self.features@,
            hwhandler: self.hwhandler@,
            action: self.action,
            path_faults: self.path_faults,
            vendor: self.vendor@,
            product: self.product@,
            rev: self.rev@,
            switch_group: self.switch_group,
            loads: self.loads,
            total_queue_time: self.total_queue_time,
            queue_timeouts: self.queue_timeouts,
            path_groups: self.path_groups@.map_values(|g: PathGroup| g@),
        }
    }
}

/// A list-of-path-groups field: absent means the empty list; any
/// non-list kind is a structural error.
pub open spec fn spec_path_groups_field(f: Seq<(String, DocValue)>, key: Seq<char>) -> Result<
    Seq<SpecPathGroup>,
    SpecErr,
> {
    match spec_lookup(f, key) {
        None => Ok(Seq::<SpecPathGroup>::empty()),
        Some(v) => match v {
            DocValue::List(items) => spec_path_groups_from_list(items@),
            _ => Err(SpecErr::Structure(key)),
        },
    }
}

/// Decode of a device from the fields of its document object, field by
/// field in declared order; the first failing field decides the error.
pub open spec fn spec_device_from_fields(f: Seq<(String, DocValue)>) -> Result<
    SpecDevice,
    SpecErr,
> {
    let name = spec_text_field(f, "name"@);
    let uuid = spec_text_field(f, "uuid"@);
    let sysfs = spec_opt_text_field(f, "sysfs"@);
    let failback = spec_state_field(
        f,
        "failback"@,
        |t: Seq<char>| MapFailback::spec_decode(t),
        MapFailback::Undefined,
    );
    let queueing = spec_state_field(
        f,
        "queueing"@,
        |t: Seq<char>| MapQueueing::spec_decode(t),
        MapQueueing::Undefined,
    );
    let paths = spec_u64_field(f, "paths"@);
    let write_protection = spec_state_field(
        f,
        "write_prot"@,
        |t: Seq<char>| MapWriteProtection::spec_decode(t),
        MapWriteProtection::Undefined,
    );
    let device_mapper_state = spec_state_field(
        f,
        "dm_st"@,
        |t: Seq<char>| PathDeviceMapperState::spec_decode(t),
        PathDeviceMapperState::Undefined,
    );
    let features = spec_text_field(f, "features"@);
    let hwhandler = spec_text_field(f, "hwhandler"@);
    let action = spec_state_field(
        f,
        "action"@,
        |t: Seq<char>| MapAction::spec_decode(t),
        MapAction::NoAction,
    );
    let path_faults = spec_u64_field(f, "path_faults"@);
    let vendor = spec_text_field(f, "vend"@);
    let product = spec_text_field(f, "prod"@);
    let rev = spec_text_field(f, "rev"@);
    let switch_group = spec_u64_field(f, "switch_grp"@);
    let loads = spec_u64_field(f, "map_loads"@);
    let total_queue_time = spec_u64_field(f, "total_q_time"@);
    let queue_timeouts = spec_u64_field(f, "q_timeouts"@);
    let path_groups = spec_path_groups_field(f, "path_groups"@);
    if name is Err {
        Err(name->Err_0)
    } else if uuid is Err {
        Err(uuid->Err_0)
    } else if sysfs is Err {
        Err(sysfs->Err_0)
    } else if failback is Err {
        Err(failback->Err_0)
    } else if queueing is Err {
        Err(queueing->Err_0)
    } else if paths is Err {
        Err(paths->Err_0)
    } else if write_protection is Err {
        Err(write_protection->Err_0)
    } else if device_mapper_state is Err {
        Err(device_mapper_state->Err_0)
    } else if features is Err {
        Err(features->Err_0)
    } else if hwhandler is Err {
        Err(hwhandler->Err_0)
    } else if action is Err {
        Err(action->Err_0)
    } else if path_faults is Err {
        Err(path_faults->Err_0)
    } else if vendor is Err {
        Err(vendor->Err_0)
    } else if product is Err {
        Err(product->Err_0)
    } else if rev is Err {
        Err(rev->Err_0)
    } else if switch_group is Err {
        Err(switch_group->Err_0)
    } else if loads is Err {
        Err(loads->Err_0)
    } else if total_queue_time is Err {
        Err(total_queue_time->Err_0)
    } else if queue_timeouts is Err {
        Err(queue_timeouts->Err_0)
    } else if path_groups is Err {
        Err(path_groups->Err_0)
    } else {
        Ok(
            SpecDevice {
                name: name->Ok_0,
                uuid: uuid->Ok_0,
                sysfs: sysfs->Ok_0,
                failback: failback->Ok_0,
                queueing: queueing->Ok_0,
                paths: paths->Ok_0,
                write_protection: write_protection->Ok_0,
                device_mapper_state: device_mapper_state->Ok_0,
                features: features->Ok_0,
                hwhandler: hwhandler->Ok_0,
                action: action->Ok_0,
                path_faults: path_faults->Ok_0,
                vendor: vendor->Ok_0,
                product: product->Ok_0,
                rev: rev->Ok_0,
                switch_group: switch_group->Ok_0,
                loads: loads->Ok_0,
                total_queue_time: total_queue_time->Ok_0,
                queue_timeouts: queue_timeouts->Ok_0,
                path_groups: path_groups->Ok_0,
            },
        )
    }
}

/// Decode of a device from one document value: anything but an object
/// is a structural error.
pub open spec fn spec_device_doc(v: DocValue) -> Result<SpecDevice, SpecErr> {
    match v {
        DocValue::Object(fs) => spec_device_from_fields(fs@),
        _ => Err(SpecErr::Structure("map"@)),
    }
}

impl Device {
    /// Builds a device from its document object, applying each field
    /// decoder when the key is present and the field default when it
    /// is absent; any failure, of a field or of a contained path
    /// group, aborts the whole construction.
    pub fn from_doc(doc: &DocValue) -> (r: Result<Device, DecodeError>)
        ensures
            r is Ok <==> spec_device_doc(*doc) is Ok,
            r matches Ok(d) ==> spec_device_doc(*doc) matches Ok(sd) && d@ == sd,
            r matches Err(e) ==> spec_device_doc(*doc) matches Err(t) && e@ == t,
    {
        let fields = match doc {
            DocValue::Object(fs) => fs,
            _ => {
                return Err(DecodeError::Structure("map".to_owned()));
            },
        };
        let name = match get_text_field(fields, "name") {
            Ok(s) => s,
            Err(e) => {
                return Err(e);
            },
        };
        let uuid = match get_text_field(fields, "uuid") {
            Ok(s) => s,
            Err(e) => {
                return Err(e);
            },
        };
        let sysfs = match get_opt_text_field(fields, "sysfs") {
            Ok(o) => o,
            Err(e) => {
                return Err(e);
            },
        };
        let failback = match lookup(fields, "failback") {
            None => MapFailback::Undefined,
            Some(v) => match v {
                DocValue::Text(s) => match MapFailback::decode(s.as_str()) {
                    Ok(x) => x,
                    Err(e) => {
                        return Err(e);
                    },
                },
                _ => {
                    return Err(DecodeError::Structure("failback".to_owned()));
                },
            },
        };
        let queueing = match lookup(fields, "queueing") {
            None => MapQueueing::Undefined,
            Some(v) => match v {
                DocValue::Text(s) => match MapQueueing::decode(s.as_str()) {
                    Ok(x) => x,
                    Err(e) => {
                        return Err(e);
                    },
                },
                _ => {
                    return Err(DecodeError::Structure("queueing".to_owned()));
                },
            },
        };
        let paths = match get_u64_field(fields, "paths") {
            Ok(n) => n,
            Err(e) => {
                return Err(e);
            },
        };
        let write_protection = match lookup(fields, "write_prot") {
            None => MapWriteProtection::Undefined,
            Some(v) => match v {
                DocValue::Text(s) => match MapWriteProtection::decode(s.as_str()) {
                    Ok(x) => x,
                    Err(e) => {
                        return Err(e);
                    },
                },
                _ => {
                    return Err(DecodeError::Structure("write_prot".to_owned()));
                },
            },
        };
        let device_mapper_state = match lookup(fields, "dm_st") {
            None => PathDeviceMapperState::Undefined,
            Some(v) => match v {
                DocValue::Text(s) => match PathDeviceMapperState::decode(s.as_str()) {
                    Ok(x) => x,
                    Err(e) => {
                        return Err(e);
                    },
                },
                _ => {
                    return Err(DecodeError::Structure("dm_st".to_owned()));
                },
            },
        };
        let features = match get_text_field(fields, "features") {
            Ok(s) => s,
            Err(e) => {
                return Err(e);
            },
        };
        let hwhandler = match get_text_field(fields, "hwhandler") {
            Ok(s) => s,
            Err(e) => {
                return Err(e);
            },
        };
        let action = match lookup(fields, "action") {
            None => MapAction::NoAction,
            Some(v) => match v {
                DocValue::Text(s) => match MapAction::decode(s.as_str()) {
                    Ok(x) => x,
                    Err(e) => {
                        return Err(e);
                    },
                },
                _ => {
                    return Err(DecodeError::Structure("action".to_owned()));
                },
            },
        };
        let path_faults = match get_u64_field(fields, "path_faults") {
            Ok(n) => n,
            Err(e) => {
                return Err(e);
            },
        };
        let vendor = match get_text_field(fields, "vend") {
            Ok(s) => s,
            Err(e) => {
                return Err(e);
            },
        };
        let product = match get_text_field(fields, "prod") {
            Ok(s) => s,
            Err(e) => {
                return Err(e);
            },
        };
        let rev = match get_text_field(fields, "rev") {
            Ok(s) => s,
            Err(e) => {
                return Err(e);
            },
        };
        let switch_group = match get_u64_field(fields, "switch_grp") {
            Ok(n) => n,
            Err(e) => {
                return Err(e);
            },
        };
        let loads = match get_u64_field(fields, "map_loads") {
            Ok(n) => n,
            Err(e) => {
                return Err(e);
            },
        };
        let total_queue_time = match get_u64_field(fields, "total_q_time") {
            Ok(n) => n,
            Err(e) => {
                return Err(e);
            },
        };
        let queue_timeouts = match get_u64_field(fields, "q_timeouts") {
            Ok(n) => n,
            Err(e) => {
                return Err(e);
            },
        };
        let path_groups = match lookup(fields, "path_groups") {
            None => Vec::new(),
            Some(v) => match v {
                DocValue::List(items) => match path_groups_from_list(items) {
                    Ok(gs) => gs,
                    Err(e) => {
                        return Err(e);
                    },
                },
                _ => {
                    return Err(DecodeError::Structure("path_groups".to_owned()));
                },
            },
        };
        let d = Device {
            name,
            uuid,
            sysfs,
            failback,
            queueing,
            paths,
            write_protection,
            device_mapper_state,
            features,
            hwhandler,
            action,
            path_faults,
            vendor,
            product,
            rev,
            switch_group,
            loads,
            total_queue_time,
            queue_timeouts,
            path_groups,
        };
        proof {
            let gfr = spec_path_groups_field(fields@, "path_groups"@);
            if gfr is Ok {
                assert(d@.path_groups =~= gfr->Ok_0);
            }
            assert(spec_device_doc(*doc) matches Ok(sd) && d@ =~= sd);
        }
        Ok(d)
    }
}

/// Decode of a list of devices, item by item in input order; every
/// item must be an object; the first failing item decides the error.
pub open spec fn spec_devices_from_list(items: Seq<DocValue>) -> Result<Seq<SpecDevice>, SpecErr>
    decreases items.len(),
{
    if items.len() == 0 {
        Ok(Seq::<SpecDevice>::empty())
    } else {
        match spec_devices_from_list(items.drop_last()) {
            Ok(rest) => match spec_device_doc(items.last()) {
                Ok(d) => Ok(rest.push(d)),
                Err(e) => Err(e),
            },
            Err(e) => Err(e),
        }
    }
}

/// Once a prefix of the list fails to decode, the whole list fails the
/// same way.
proof fn lemma_devices_list_err_prefix(items: Seq<DocValue>, k: int)
    requires
        0 <= k <= items.len(),
        spec_devices_from_list(items.take(k)) is Err,
    ensures
        spec_devices_from_list(items) == spec_devices_from_list(items.take(k)),
    decreases items.len() - k,
{
    if k == items.len() {
        assert(items.take(k) =~= items);
    } else {
        assert(items.take(k + 1).drop_last() =~= items.take(k));
        lemma_devices_list_err_prefix(items, k + 1);
    }
}

/// Builds every device of a list, in input order; any item failure
/// aborts the whole construction.
pub fn devices_from_list(items: &Vec<DocValue>) -> (r: Result<Vec<Device>, DecodeError>)
    ensures
        r is Ok <==> spec_devices_from_list(items@) is Ok,
        r matches Ok(ds) ==> spec_devices_from_list(items@) == Ok::<Seq<SpecDevice>, SpecErr>(
            ds@.map_values(|d: Device| d@),
        ),
        r matches Err(e) ==> spec_devices_from_list(items@) matches Err(t) && e@ == t,
{
    let n: usize = items.len();
    let mut out: Vec<Device> = Vec::new();
    let mut i: usize = 0;
    proof {
        assert(items@.take(0) =~= Seq::<DocValue>::empty());
        assert(out@.map_values(|d: Device| d@) =~= Seq::<SpecDevice>::empty());
    }
    while i < n
        invariant
            0 <= i <= n,
            n == items@.len(),
            out@.len() == i,
            spec_devices_from_list(items@.take(i as int)) == Ok::<Seq<SpecDevice>, SpecErr>(
                out@.map_values(|d: Device| d@),
            ),
        decreases n - i,
    {
        let ghost prefix = out@.map_values(|d: Device| d@);
        let d = match Device::from_doc(&items[i]) {
            Ok(d) => d,
            Err(e) => {
                proof {
                    assert(items@.take(i as int + 1).drop_last() =~= items@.take(i as int));
                    assert(items@.take(i as int + 1).last() == items@[i as int]);
                    assert(spec_devices_from_list(items@.take(i as int + 1)) is Err);
                    lemma_devices_list_err_prefix(items@, i as int + 1);
                }
                return Err(e);
            },
        };
        out.push(d);
        proof {
            assert(items@.take(i as int + 1).drop_last() =~= items@.take(i as int));
            assert(items@.take(i as int + 1).last() == items@[i as int]);
            assert(out@.map_values(|d: Device| d@) =~= prefix.push(d@));
        }
        i += 1;
    }
    proof {
        assert(items@.take(n as int) =~= items@);
    }
    Ok(out)
}

} // verus!
