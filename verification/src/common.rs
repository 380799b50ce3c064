//! State enumerations shared by several levels of the entity tree.
//!
//! Each enumeration is a closed, ordered set of named variants; the
//! declared order is significant, it is the ordinal published by the
//! metric translator. Matching is case-sensitive on the exact token.

use vstd::prelude::*;

use crate::deserializers::{DecodeError, SpecErr};
use crate::text::str_eq;

verus! {

/// Device-mapper state of a path group.
/// Declared order: active, enabled, disabled, undefined.
#[derive(Clone, Copy, Debug, PartialEq, Eq, Structural)]
pub enum PathGroupDeviceMapperState {
    Active,
    Enabled,
    Disabled,
    Undefined,
}

impl PathGroupDeviceMapperState {
    /// Token table: `active`, `enabled`, `disabled`, `undef`.
    pub open spec fn spec_decode(t: Seq<char>) -> Option<PathGroupDeviceMapperState> {
        if t == "active"@ {
            Some(PathGroupDeviceMapperState::Active)
        } else if t == "enabled"@ {
            Some(PathGroupDeviceMapperState::Enabled)
        } else if t == "disabled"@ {
            Some(PathGroupDeviceMapperState::Disabled)
        } else if t == "undef"@ {
            Some(PathGroupDeviceMapperState::Undefined)
        } else {
            None
        }
    }

    /// Decodes a present token strictly: anything outside the declared
    /// table fails.
    pub fn decode(token: &str) -> (r: Result<PathGroupDeviceMapperState, DecodeError>)
        ensures
            r is Ok <==> Self::spec_decode(token@) is Some,
            r matches Ok(v) ==> Self::spec_decode(token@) == Some(v),
            r matches Err(e) ==> e@ == SpecErr::Token(token@),
    {
        if str_eq(token, "active") {
            Ok(PathGroupDeviceMapperState::Active)
        } else if str_eq(token, "enabled") {
            Ok(PathGroupDeviceMapperState::Enabled)
        } else if str_eq(token, "disabled") {
            Ok(PathGroupDeviceMapperState::Disabled)
        } else if str_eq(token, "undef") {
            Ok(PathGroupDeviceMapperState::Undefined)
        } else {
            Err(DecodeError::Token(token.to_owned()))
        }
    }

    /// Zero-based position in the declared order.
    pub open spec fn spec_ordinal(self) -> int {
        match self {
            PathGroupDeviceMapperState::Active => 0,
            PathGroupDeviceMapperState::Enabled => 1,
            PathGroupDeviceMapperState::Disabled => 2,
            PathGroupDeviceMapperState::Undefined => 3,
        }
    }

    /// Stable ordinal published as the sample value.
    pub fn ordinal(&self) -> (r: i64)
        ensures
            r == self.spec_ordinal(),
    {
        match self {
            PathGroupDeviceMapperState::Active => 0,
            PathGroupDeviceMapperState::Enabled => 1,
            PathGroupDeviceMapperState::Disabled => 2,
            PathGroupDeviceMapperState::Undefined => 3,
        }
    }

    /// Display name used in help text: the variant name, lowercased.
    pub open spec fn spec_display(self) -> Seq<char> {
        match self {
            PathGroupDeviceMapperState::Active => "active"@,
            PathGroupDeviceMapperState::Enabled => "enabled"@,
            PathGroupDeviceMapperState::Disabled => "disabled"@,
            PathGroupDeviceMapperState::Undefined => "undefined"@,
        }
    }
}

impl Default for PathGroupDeviceMapperState {
    /// The variant used when the source document omits the key.
    fn default() -> (r: Self)
        ensures
            r == PathGroupDeviceMapperState::Undefined,
    {
        PathGroupDeviceMapperState::Undefined
    }
}

/// Device-mapper state of a path (also of the whole device).
/// Declared order: active, failed, undefined.
#[derive(Clone, Copy, Debug, PartialEq, Eq, Structural)]
pub enum PathDeviceMapperState {
    Active,
    Failed,
    Undefined,
}

impl PathDeviceMapperState {
    /// Token table: `active`, `failed`, `undef`.
    pub open spec fn spec_decode(t: Seq<char>) -> Option<PathDeviceMapperState> {
        if t == "active"@ {
            Some(PathDeviceMapperState::Active)
        } else if t == "failed"@ {
            Some(PathDeviceMapperState::Failed)
        } else if t == "undef"@ {
            Some(PathDeviceMapperState::Undefined)
        } else {
            None
        }
    }

    /// Decodes a present token strictly: anything outside the declared
    /// table fails.
    pub fn decode(token: &str) -> (r: Result<PathDeviceMapperState, DecodeError>)
        ensures
            r is Ok <==> Self::spec_decode(token@) is Some,
            r matches Ok(v) ==> Self::spec_decode(token@) == Some(v),
            r matches Err(e) ==> e@ == SpecErr::Token(token@),
    {
        if str_eq(token, "active") {
            Ok(PathDeviceMapperState::Active)
        } else if str_eq(token, "failed") {
            Ok(PathDeviceMapperState::Failed)
        } else if str_eq(token, "undef") {
            Ok(PathDeviceMapperState::Undefined)
        } else {
            Err(DecodeError::Token(token.to_owned()))
        }
    }

    /// Zero-based position in the declared order.
    pub open spec fn spec_ordinal(self) -> int {
        match self {
            PathDeviceMapperState::Active => 0,
            PathDeviceMapperState::Failed => 1,
            PathDeviceMapperState::Undefined => 2,
        }
    }

    /// Stable ordinal published as the sample value.
    pub fn ordinal(&self) -> (r: i64)
        ensures
            r == self.spec_ordinal(),
    {
        match self {
            PathDeviceMapperState::Active => 0,
            PathDeviceMapperState::Failed => 1,
            PathDeviceMapperState::Undefined => 2,
        }
    }

    /// Display name used in help text: the variant name, lowercased.
    pub open spec fn spec_display(self) -> Seq<char> {
        match self {
            PathDeviceMapperState::Active => "active"@,
            PathDeviceMapperState::Failed => "failed"@,
            PathDeviceMapperState::Undefined => "undefined"@,
        }
    }
}

impl Default for PathDeviceMapperState {
    /// The variant used when the source document omits the key.
    fn default() -> (r: Self)
        ensures
            r == PathDeviceMapperState::Undefined,
    {
        PathDeviceMapperState::Undefined
    }
}

/// Operational state of a path's device. The `unknown` variant has no
/// textual form: any unmatched present token is an error, and `unknown`
/// comes only from an absent key.
/// Declared order: running, offline, unknown.
#[derive(Clone, Copy, Debug, PartialEq, Eq, Structural)]
pub enum DeviceState {
    Running,
    Offline,
    Unknown,
}

impl DeviceState {
    /// Token table: `running`, `offline`.
    pub open spec fn spec_decode(t: Seq<char>) -> Option<DeviceState> {
        if t == "running"@ {
            Some(DeviceState::Running)
        } else if t == "offline"@ {
            Some(DeviceState::Offline)
        } else {
            None
        }
    }

    /// Decodes a present token strictly: anything outside the declared
    /// table fails.
    pub fn decode(token: &str) -> (r: Result<DeviceState, DecodeError>)
        ensures
            r is Ok <==> Self::spec_decode(token@) is Some,
            r matches Ok(v) ==> Self::spec_decode(token@) == Some(v),
            r matches Err(e) ==> e@ == SpecErr::Token(token@),
    {
        if str_eq(token, "running") {
            Ok(DeviceState::Running)
        } else if str_eq(token, "offline") {
            Ok(DeviceState::Offline)
        } else {
            Err(DecodeError::Token(token.to_owned()))
        }
    }

    /// Zero-based position in the declared order.
    pub open spec fn spec_ordinal(self) -> int {
        match self {
            DeviceState::Running => 0,
            DeviceState::Offline => 1,
            DeviceState::Unknown => 2,
        }
    }

    /// Stable ordinal published as the sample value.
    pub fn ordinal(&self) -> (r: i64)
        ensures
            r == self.spec_ordinal(),
    {
        match self {
            DeviceState::Running => 0,
            DeviceState::Offline => 1,
            DeviceState::Unknown => 2,
        }
    }

    /// Display name used in help text: the variant name, lowercased.
    pub open spec fn spec_display(self) -> Seq<char> {
        match self {
            DeviceState::Running => "running"@,
            DeviceState::Offline => "offline"@,
            DeviceState::Unknown => "unknown"@,
        }
    }
}

impl Default for DeviceState {
    /// The variant used when the source document omits the key.
    fn default() -> (r: Self)
        ensures
            r == DeviceState::Unknown,
    {
        DeviceState::Unknown
    }
}

/// Marginal-path flag of a path or path group.
/// Declared order: marginal, normal.
#[derive(Clone, Copy, Debug, PartialEq, Eq, Structural)]
pub enum MarginalState {
    Marginal,
    Normal,
}

impl MarginalState {
    /// Token table: `marginal`, `normal`.
    pub open spec fn spec_decode(t: Seq<char>) -> Option<MarginalState> {
        if t == "marginal"@ {
            Some(MarginalState::Marginal)
        } else if t == "normal"@ {
            Some(MarginalState::Normal)
        } else {
            None
        }
    }

    /// Decodes a present token strictly: anything outside the declared
    /// table fails.
    pub fn decode(token: &str) -> (r: Result<MarginalState, DecodeError>)
        ensures
            r is Ok <==> Self::spec_decode(token@) is Some,
            r matches Ok(v) ==> Self::spec_decode(token@) == Some(v),
            r matches Err(e) ==> e@ == SpecErr::Token(token@),
    {
        if str_eq(token, "marginal") {
            Ok(MarginalState::Marginal)
        } else if str_eq(token, "normal") {
            Ok(MarginalState::Normal)
        } else {
            Err(DecodeError::Token(token.to_owned()))
        }
    }
}

impl Default for MarginalState {
    /// The variant used when the source document omits the key.
    fn default() -> (r: Self)
        ensures
            r == MarginalState::Normal,
    {
        MarginalState::Normal
    }
}

} // verus!
