//! Path-level state enumerations and the path entity.

use vstd::prelude::*;

use crate::common::{DeviceState, MarginalState, PathDeviceMapperState};
use crate::deserializers::{hex_string, hex_token_ok, hex_token_val, DecodeError, SpecErr};
use crate::document::{get_opt_text_field, get_text_field, get_u64_field, lookup, spec_lookup,
    spec_opt_text_field, spec_state_field, spec_text_field, spec_u64_field, DocValue};
use crate::text::str_eq;

verus! {

/// Method used to probe a path's health. The one non-strict
/// enumeration: any unrecognized token maps to `invalid` instead of
/// failing.
/// Declared order: directio, testunitready, hpserviceguard, rdac,
/// emcclariion, readsector0, hpsmartarraytestunitready, nochecker,
/// invalid.
#[derive(Clone, Copy, Debug, PartialEq, Eq, Structural)]
pub enum PathChecker {
    DirectIO,
    TestUnitReady,
    HpServiceGuard,
    RDAC,
    EmcClariion,
    ReadSector0,
    HpSmartArrayTestUnitReady,
    NoChecker,
    Invalid,
}

impl PathChecker {
    /// Token table: `directio`, `tur`, `hp_sw`, `rdac`, `emcclariion`,
    /// `readsector0`, `cciss_tur`, `none`; every other token is the
    /// catch-all `invalid`.
    pub open spec fn spec_decode(t: Seq<char>) -> PathChecker {
        if t == "directio"@ {
            PathChecker::DirectIO
        } else if t == "tur"@ {
            PathChecker::TestUnitReady
        } else if t == "hp_sw"@ {
            PathChecker::HpServiceGuard
        } else if t == "rdac"@ {
            PathChecker::RDAC
        } else if t == "emcclariion"@ {
            PathChecker::EmcClariion
        } else if t == "readsector0"@ {
            PathChecker::ReadSector0
        } else if t == "cciss_tur"@ {
            PathChecker::HpSmartArrayTestUnitReady
        } else if t == "none"@ {
            PathChecker::NoChecker
        } else {
            PathChecker::Invalid
        }
    }

    /// Decodes a present token; total, thanks to the catch-all.
    pub fn decode(token: &str) -> (r: PathChecker)
        ensures
            r == Self::spec_decode(token@),
    {
        if str_eq(token, "directio") {
            PathChecker::DirectIO
        } else if str_eq(token, "tur") {
            PathChecker::TestUnitReady
        } else if str_eq(token, "hp_sw") {
            PathChecker::HpServiceGuard
        } else if str_eq(token, "rdac") {
            PathChecker::RDAC
        } else if str_eq(token, "emcclariion") {
            PathChecker::EmcClariion
        } else if str_eq(token, "readsector0") {
            PathChecker::ReadSector0
        } else if str_eq(token, "cciss_tur") {
            PathChecker::HpSmartArrayTestUnitReady
        } else if str_eq(token, "none") {
            PathChecker::NoChecker
        } else {
            PathChecker::Invalid
        }
    }
}

impl Default for PathChecker {
    /// The variant used when the source document omits the key.
    fn default() -> (r: Self)
        ensures
            r == PathChecker::Invalid,
    {
        PathChecker::Invalid
    }
}

/// State reported by a path's checker.
/// Declared order: ready, faulty, shaky, ghost, delayed, iopending,
/// iotimeout, undefined.
#[derive(Clone, Copy, Debug, PartialEq, Eq, Structural)]
pub enum PathCheckerState {
    Ready,
    Faulty,
    Shaky,
    GhostPath,
    Delayed,
    IoPending,
    IoTimeout,
    Undefined,
}

impl PathCheckerState {
    /// Token table: `ready`, `faulty`, `shaky`, `ghost`, `delayed`,
    /// `i/o pending`, `i/o timeout`, `undef`.
    pub open spec fn spec_decode(t: Seq<char>) -> Option<PathCheckerState> {
        if t == "ready"@ {
            Some(PathCheckerState::Ready)
        } else if t == "faulty"@ {
            Some(PathCheckerState::Faulty)
        } else if t == "shaky"@ {
            Some(PathCheckerState::Shaky)
        } else if t == "ghost"@ {
            Some(PathCheckerState::GhostPath)
        } else if t == "delayed"@ {
            Some(PathCheckerState::Delayed)
        } else if t == "i/o pending"@ {
            Some(PathCheckerState::IoPending)
        } else if t == "i/o timeout"@ {
            Some(PathCheckerState::IoTimeout)
        } else if t == "undef"@ {
            Some(PathCheckerState::Undefined)
        } else {
            None
        }
    }

    /// Decodes a present token strictly: anything outside the declared
    /// table fails.
    pub fn decode(token: &str) -> (r: Result<PathCheckerState, DecodeError>)
        ensures
            r is Ok <==> Self::spec_decode(token@) is Some,
            r matches Ok(v) ==> Self::spec_decode(token@) == Some(v),
            r matches Err(e) ==> e@ == SpecErr::Token(token@),
    {
        if str_eq(token, "ready") {
            Ok(PathCheckerState::Ready)
        } else if str_eq(token, "faulty") {
            Ok(PathCheckerState::Faulty)
        } else if str_eq(token, "shaky") {
            Ok(PathCheckerState::Shaky)
        } else if str_eq(token, "ghost") {
            Ok(PathCheckerState::GhostPath)
        } else if str_eq(token, "delayed") {
            Ok(PathCheckerState::Delayed)
        } else if str_eq(token, "i/o pending") {
            Ok(PathCheckerState::IoPending)
        } else if str_eq(token, "i/o timeout") {
            Ok(PathCheckerState::IoTimeout)
        } else if str_eq(token, "undef") {
            Ok(PathCheckerState::Undefined)
        } else {
            Err(DecodeError::Token(token.to_owned()))
        }
    }

    /// Zero-based position in the declared order.
    pub open spec fn spec_ordinal(self) -> int {
        match self {
            PathCheckerState::Ready => 0,
            PathCheckerState::Faulty => 1,
            PathCheckerState::Shaky => 2,
            PathCheckerState::GhostPath => 3,
            PathCheckerState::Delayed => 4,
            PathCheckerState::IoPending => 5,
            PathCheckerState::IoTimeout => 6,
            PathCheckerState::Undefined => 7,
        }
    }

    /// Stable ordinal published as the sample value.
    pub fn ordinal(&self) -> (r: i64)
        ensures
            r == self.spec_ordinal(),
    {
        match self {
            PathCheckerState::Ready => 0,
            PathCheckerState::Faulty => 1,
            PathCheckerState::Shaky => 2,
            PathCheckerState::GhostPath => 3,
            PathCheckerState::Delayed => 4,
            PathCheckerState::IoPending => 5,
            PathCheckerState::IoTimeout => 6,
            PathCheckerState::Undefined => 7,
        }
    }

    /// Display name used in help text: the variant name, lowercased.
    pub open spec fn spec_display(self) -> Seq<char> {
        match self {
            PathCheckerState::Ready => "ready"@,
            PathCheckerState::Faulty => "faulty"@,
            PathCheckerState::Shaky => "shaky"@,
            PathCheckerState::GhostPath => "ghost"@,
            PathCheckerState::Delayed => "delayed"@,
            PathCheckerState::IoPending => "iopending"@,
            PathCheckerState::IoTimeout => "iotimeout"@,
            PathCheckerState::Undefined => "undefined"@,
        }
    }
}

impl Default for PathCheckerState {
    /// The variant used when the source document omits the key.
    fn default() -> (r: Self)
        ensures
            r == PathCheckerState::Undefined,
    {
        PathCheckerState::Undefined
    }
}

/// Ghost model of a [`Path`], over character sequences.
#[verifier::ext_equal]
pub struct SpecPath {
    pub device_name: Seq<char>,
    pub device_major_minor: Seq<char>,
    pub device_mapper_state: PathDeviceMapperState,
    pub device_state: DeviceState,
    pub checker: PathChecker,
    pub checker_state: PathCheckerState,
    pub priority: u64,
    pub host_world_wide_node_name: Option<Seq<char>>,
    pub target_world_wide_node_name: Seq<char>,
    pub host_world_wide_port_name: Option<Seq<char>>,
    pub target_world_wide_port_name: Option<Seq<char>>,
    pub host_adapter: Option<Seq<char>>,
    pub logical_unit_number: Option<u64>,
    pub marginal_path_state: MarginalState,
}

/// One physical route to the underlying storage.
pub struct Path {
    pub device_name: String,
    pub device_major_minor: String,
    pub device_mapper_state: PathDeviceMapperState,
    pub device_state: DeviceState,
    pub checker: PathChecker,
    pub checker_state: PathCheckerState,
    pub priority: u64,
    pub host_world_wide_node_name: Option<String>,
    pub target_world_wide_node_name: String,
    pub host_world_wide_port_name: Option<String>,
    pub target_world_wide_port_name: Option<String>,
    pub host_adapter: Option<String>,
    pub logical_unit_number: Option<u64>,
    pub marginal_path_state: MarginalState,
}

impl View for Path {
    type V = SpecPath;

    open spec fn view(&self) -> SpecPath {
        SpecPath {
            device_name: self.device_name@,
            device_major_minor: self.device_major_minor@,
            device_mapper_state: self.device_mapper_state,
            device_state: self.device_state,
            checker: self.checker,
            checker_state: self.checker_state,
            priority: self.priority,
            host_world_wide_node_name: match self.host_world_wide_node_name {
                Some(s) => Some(s@),
                None => None,
            },
            target_world_wide_node_name: self.target_world_wide_node_name@,
            host_world_wide_port_name: match self.host_world_wide_port_name {
                Some(s) => Some(s@),
                None => None,
            },
            target_world_wide_port_name: match self.target_world_wide_port_name {
                Some(s) => Some(s@),
                None => None,
            },
            host_adapter: match self.host_adapter {
                Some(s) => Some(s@),
                None => None,
            },
            logical_unit_number: self.logical_unit_number,
            marginal_path_state: self.marginal_path_state,
        }
    }
}

/// A logical-unit-number field: absent means `None`; present text goes
/// through hexadecimal decoding; any other kind is a structural error.
pub open spec fn spec_lun_field(fields: Seq<(String, DocValue)>, key: Seq<char>) -> Result<
    Option<u64>,
    SpecErr,
> {
    match spec_lookup(fields, key) {
        None => Ok(None),
        Some(v) => match v {
            DocValue::Text(s) => if hex_token_ok(s@) {
                Ok(Some(hex_token_val(s@) as u64))
            } else {
                Err(SpecErr::Token(s@))
            },
            _ => Err(SpecErr::Structure(key)),
        },
    }
}

/// Decode of a path from the fields of its document object, field by
/// field in declared order; the first failing field decides the error.
pub open spec fn spec_path_from_fields(f: Seq<(String, DocValue)>) -> Result<SpecPath, SpecErr> {
    let device_name = spec_text_field(f, "dev"@);
    let device_major_minor = spec_text_field(f, "dev_t"@);
    let device_mapper_state = spec_state_field(
        f,
        "dm_st"@,
        |t: Seq<char>| PathDeviceMapperState::spec_decode(t),
        PathDeviceMapperState::Undefined,
    );
    let device_state = spec_state_field(
        f,
        "dev_st"@,
        |t: Seq<char>| DeviceState::spec_decode(t),
        DeviceState::Unknown,
    );
    let checker = spec_state_field(
        f,
        "checker"@,
        |t: Seq<char>| Some(PathChecker::spec_decode(t)),
        PathChecker::Invalid,
    );
    let checker_state = spec_state_field(
        f,
        "chk_st"@,
        |t: Seq<char>| PathCheckerState::spec_decode(t),
        PathCheckerState::Undefined,
    );
    let priority = spec_u64_field(f, "pri"@);
    let host_wwnn = spec_opt_text_field(f, "host_wwnn"@);
    let target_wwnn = spec_text_field(f, "target_wwnn"@);
    let host_wwpn = spec_opt_text_field(f, "host_wwpn"@);
    let target_wwpn = spec_opt_text_field(f, "target_wwpn"@);
    let host_adapter = spec_opt_text_field(f, "host_adapter"@);
    let lun = spec_lun_field(f, "lun_hex"@);
    let marginal = spec_state_field(
        f,
        "marginal_st"@,
        |t: Seq<char>| MarginalState::spec_decode(t),
        MarginalState::Normal,
    );
    if device_name is Err {
        Err(device_name->Err_0)
    } else if device_major_minor is Err {
        Err(device_major_minor->Err_0)
    } else if device_mapper_state is Err {
        Err(device_mapper_state->Err_0)
    } else if device_state is Err {
        Err(device_state->Err_0)
    } else if checker is Err {
        Err(checker->Err_0)
    } else if checker_state is Err {
        Err(checker_state->Err_0)
    } else if priority is Err {
        Err(priority->Err_0)
    } else if host_wwnn is Err {
        Err(host_wwnn->Err_0)
    } else if target_wwnn is Err {
        Err(target_wwnn->Err_0)
    } else if host_wwpn is Err {
        Err(host_wwpn->Err_0)
    } else if target_wwpn is Err {
        Err(target_wwpn->Err_0)
    } else if host_adapter is Err {
        Err(host_adapter->Err_0)
    } else if lun is Err {
        Err(lun->Err_0)
    } else if marginal is Err {
        Err(marginal->Err_0)
    } else {
        Ok(
            SpecPath {
                device_name: device_name->Ok_0,
                device_major_minor: device_major_minor->Ok_0,
                device_mapper_state: device_mapper_state->Ok_0,
                device_state: device_state->Ok_0,
                checker: checker->Ok_0,
                checker_state: checker_state->Ok_0,
                priority: priority->Ok_0,
                host_world_wide_node_name: host_wwnn->Ok_0,
                target_world_wide_node_name: target_wwnn->Ok_0,
                host_world_wide_port_name: host_wwpn->Ok_0,
                target_world_wide_port_name: target_wwpn->Ok_0,
                host_adapter: host_adapter->Ok_0,
                logical_unit_number: lun->Ok_0,
                marginal_path_state: marginal->Ok_0,
            },
        )
    }
}

/// Decode of a path from one document value: anything but an object is
/// a structural error.
pub open spec fn spec_path_doc(v: DocValue) -> Result<SpecPath, SpecErr> {
    match v {
        DocValue::Object(fs) => spec_path_from_fields(fs@),
        _ => Err(SpecErr::Structure("path"@)),
    }
}

impl Path {
    /// Builds a path from its document object, applying each field decoder
    /// when the key is present and the field default when it
    /// is absent; any field failure aborts the whole construction.
    pub fn from_doc(doc: &DocValue) -> (r: Result<Path, DecodeError>)
        ensures
            r is Ok <==> spec_path_doc(*doc) is Ok,
            r matches Ok(p) ==> spec_path_doc(*doc) matches Ok(sp) && p@ == sp,
            r matches Err(e) ==> spec_path_doc(*doc) matches Err(t) && e@ == t,
    {
        let fields = match doc {
            DocValue::Object(fs) => fs,
            _ => {
                return Err(DecodeError::Structure("path".to_owned()));
            },
        };
        let device_name = match get_text_field(fields, "dev") {
            Ok(s) => s,
            Err(e) => {
                return Err(e);
            },
        };
        let device_major_minor = match get_text_field(fields, "dev_t") {
            Ok(s) => s,
            Err(e) => {
                return Err(e);
            },
        };
        let device_mapper_state = match lookup(fields, "dm_st") {
            None => PathDeviceMapperState::Undefined,
            Some(v) => match v {
                DocValue::Text(s) => match PathDeviceMapperState::decode(s.as_str()) {
                    Ok(x) => x,
                    Err(e) => {
                        return Err(e);
                    },
                },
                _ => {
                    return Err(DecodeError::Structure("dm_st".to_owned()));
                },
            },
        };
        let device_state = match lookup(fields, "dev_st") {
            None => DeviceState::Unknown,
            Some(v) => match v {
                DocValue::Text(s) => match DeviceState::decode(s.as_str()) {
                    Ok(x) => x,
                    Err(e) => {
                        return Err(e);
                    },
                },
                _ => {
                    return Err(DecodeError::Structure("dev_st".to_owned()));
                },
            },
        };
        let checker = match lookup(fields, "checker") {
            None => PathChecker::Invalid,
            Some(v) => match v {
                DocValue::Text(s) => PathChecker::decode(s.as_str()),
                _ => {
                    return Err(DecodeError::Structure("checker".to_owned()));
                },
            },
        };
        let checker_state = match lookup(fields, "chk_st") {
            None => PathCheckerState::Undefined,
            Some(v) => match v {
                DocValue::Text(s) => match PathCheckerState::decode(s.as_str()) {
                    Ok(x) => x,
                    Err(e) => {
                        return Err(e);
                    },
                },
                _ => {
                    return Err(DecodeError::Structure("chk_st".to_owned()));
                },
            },
        };
        let priority = match get_u64_field(fields, "pri") {
            Ok(n) => n,
            Err(e) => {
                return Err(e);
            },
        };
        let host_world_wide_node_name = match get_opt_text_field(fields, "host_wwnn") {
            Ok(o) => o,
            Err(e) => {
                return Err(e);
            },
        };
        let target_world_wide_node_name = match get_text_field(fields, "target_wwnn") {
            Ok(s) => s,
            Err(e) => {
                return Err(e);
            },
        };
        let host_world_wide_port_name = match get_opt_text_field(fields, "host_wwpn") {
            Ok(o) => o,
            Err(e) => {
                return Err(e);
            },
        };
        let target_world_wide_port_name = match get_opt_text_field(fields, "target_wwpn") {
            Ok(o) => o,
            Err(e) => {
                return Err(e);
            },
        };
        let host_adapter = match get_opt_text_field(fields, "host_adapter") {
            Ok(o) => o,
            Err(e) => {
                return Err(e);
            },
        };
        let logical_unit_number = match lookup(fields, "lun_hex") {
            None => None,
            Some(v) => match v {
                DocValue::Text(s) => match hex_string(s.as_str()) {
                    Ok(n) => Some(n),
                    Err(e) => {
                        return Err(e);
                    },
                },
                _ => {
                    return Err(DecodeError::Structure("lun_hex".to_owned()));
                },
            },
        };
        let marginal_path_state = match lookup(fields, "marginal_st") {
            None => MarginalState::Normal,
            Some(v) => match v {
                DocValue::Text(s) => match MarginalState::decode(s.as_str()) {
                    Ok(x) => x,
                    Err(e) => {
                        return Err(e);
                    },
                },
                _ => {
                    return Err(DecodeError::Structure("marginal_st".to_owned()));
                },
            },
        };
        let p = Path {
            device_name,
            device_major_minor,
            device_mapper_state,
            device_state,
            checker,
            checker_state,
            priority,
            host_world_wide_node_name,
            target_world_wide_node_name,
            host_world_wide_port_name,
            target_world_wide_port_name,
            host_adapter,
            logical_unit_number,
            marginal_path_state,
        };
        proof {
            assert(spec_path_doc(*doc) matches Ok(sp) && p@ =~= sp);
        }
        Ok(p)
    }
}

/// Decode of a list of paths, item by item in input order; every item
/// must be an object; the first failing item decides the error.
pub open spec fn spec_paths_from_list(items: Seq<DocValue>) -> Result<Seq<SpecPath>, SpecErr>
    decreases items.len(),
{
    if items.len() == 0 {
        Ok(Seq::<SpecPath>::empty())
    } else {
        match spec_paths_from_list(items.drop_last()) {
            Ok(rest) => match spec_path_doc(items.last()) {
                Ok(p) => Ok(rest.push(p)),
                Err(e) => Err(e),
            },
            Err(e) => Err(e),
        }
    }
}

/// Once a prefix of the list fails to decode, the whole list fails the
/// same way.
proof fn lemma_paths_list_err_prefix(items: Seq<DocValue>, k: int)
    requires
        0 <= k <= items.len(),
        spec_paths_from_list(items.take(k)) is Err,
    ensures
        spec_paths_from_list(items) == spec_paths_from_list(items.take(k)),
    decreases items.len() - k,
{
    if k == items.len() {
        assert(items.take(k) =~= items);
    } else {
        assert(items.take(k + 1).drop_last() =~= items.take(k));
        lemma_paths_list_err_prefix(items, k + 1);
    }
}

/// Builds every path of a list, in input order; any item failure
/// aborts the whole construction.
pub fn paths_from_list(items: &Vec<DocValue>) -> (r: Result<Vec<Path>, DecodeError>)
    ensures
        r is Ok <==> spec_paths_from_list(items@) is Ok,
        r matches Ok(ps) ==> spec_paths_from_list(items@) == Ok::<Seq<SpecPath>, SpecErr>(
            ps@.map_values(|p: Path| p@),
        ),
        r matches Err(e) ==> spec_paths_from_list(items@) matches Err(t) && e@ == t,
{
    let n: usize = items.len();
    let mut out: Vec<Path> = Vec::new();
    let mut i: usize = 0;
    proof {
        assert(items@.take(0) =~= Seq::<DocValue>::empty());
        assert(out@.map_values(|p: Path| p@) =~= Seq::<SpecPath>::empty());
    }
    while i < n
        invariant
            0 <= i <= n,
            n == items@.len(),
            out@.len() == i,
            spec_paths_from_list(items@.take(i as int)) == Ok::<Seq<SpecPath>, SpecErr>(
                out@.map_values(|p: Path| p@),
            ),
        decreases n - i,
    {
        let ghost prefix = out@.map_values(|p: Path| p@);
        let p = match Path::from_doc(&items[i]) {
            Ok(p) => p,
            Err(e) => {
                proof {
                    assert(items@.take(i as int + 1).drop_last() =~= items@.take(i as int));
                    assert(items@.take(i as int + 1).last() == items@[i as int]);
                    assert(spec_paths_from_list(items@.take(i as int + 1)) is Err);
                    lemma_paths_list_err_prefix(items@, i as int + 1);
                }
                return Err(e);
            },
        };
        out.push(p);
        proof {
            assert(items@.take(i as int + 1).drop_last() =~= items@.take(i as int));
            assert(items@.take(i as int + 1).last() == items@[i as int]);
            assert(out@.map_values(|p: Path| p@) =~= prefix.push(p@));
        }
        i += 1;
    }
    proof {
        assert(items@.take(n as int) =~= items@);
    }
    Ok(out)
}

} // verus!
