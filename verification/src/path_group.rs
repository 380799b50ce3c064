//! The path-group entity: a priority-ordered subset of a device's
//! paths.

use vstd::prelude::*;

use crate::common::{MarginalState, PathGroupDeviceMapperState};
use crate::deserializers::{DecodeError, SpecErr};
use crate::document::{get_text_field, get_u64_field, lookup, spec_lookup, spec_state_field,
    spec_text_field, spec_u64_field, DocValue};
use crate::path::{paths_from_list, spec_paths_from_list, Path, SpecPath};

verus! {

/// Ghost model of a [`PathGroup`], over character sequences.
#[verifier::ext_equal]
pub struct SpecPathGroup {
    pub selector: Seq<char>,
    pub priority: u64,
    pub device_mapper_state: PathGroupDeviceMapperState,
    pub marginal_path_state: MarginalState,
    pub group: u64,
    pub paths: Seq<SpecPath>,
}

/// A priority-ordered subset of paths within a device, used for
/// failover and load-balancing policy.
pub struct PathGroup {
    pub selector: String,
    pub priority: u64,
    pub device_mapper_state: PathGroupDeviceMapperState,
    pub marginal_path_state: MarginalState,
    pub group: u64,
    pub paths: Vec<Path>,
}

impl View for PathGroup {
    type V = SpecPathGroup;

    open spec fn view(&self) -> SpecPathGroup {
        SpecPathGroup {
            selector: self.selector@,
            priority: self.priority,
            device_mapper_state: self.device_mapper_state,
            marginal_path_state: self.marginal_path_state,
            group: self.group,
            paths: self.paths@.map_values(|p: Path| p@),
        }
    }
}

/// A list-of-paths field: absent means the empty list; any non-list
/// kind is a structural error.
pub open spec fn spec_paths_field(f: Seq<(String, DocValue)>, key: Seq<char>) -> Result<
    Seq<SpecPath>,
    SpecErr,
> {
    match spec_lookup(f, key) {
        None => Ok(Seq::<SpecPath>::empty()),
        Some(v) => match v {
            DocValue::List(items) => spec_paths_from_list(items@),
            _ => Err(SpecErr::Structure(key)),
        },
    }
}

/// Decode of a path group from the fields of its document object,
/// field by field in declared order; the first failing field decides
/// the error.
pub open spec fn spec_path_group_from_fields(f: Seq<(String, DocValue)>) -> Result<
    SpecPathGroup,
    SpecErr,
> {
    let selector = spec_text_field(f, "selector"@);
    let priority = spec_u64_field(f, "pri"@);
    let device_mapper_state = spec_state_field(
        f,
        "dm_st"@,
        |t: Seq<char>| PathGroupDeviceMapperState::spec_decode(t),
        PathGroupDeviceMapperState::Undefined,
    );
    let marginal = spec_state_field(
        f,
        "marginal_st"@,
        |t: Seq<char>| MarginalState::spec_decode(t),
        MarginalState::Normal,
    );
    let group = spec_u64_field(f, "group"@);
    let paths = spec_paths_field(f, "paths"@);
    if selector is Err {
        Err(selector->Err_0)
    } else if priority is Err {
        Err(priority->Err_0)
    } else if device_mapper_state is Err {
        Err(device_mapper_state->Err_0)
    } else if marginal is Err {
        Err(marginal->Err_0)
    } else if group is Err {
        Err(group->Err_0)
    } else if paths is Err {
        Err(paths->Err_0)
    } else {
        Ok(
            SpecPathGroup {
                selector: selector->Ok_0,
                priority: priority->Ok_0,
                device_mapper_state: device_mapper_state->Ok_0,
                marginal_path_state: marginal->Ok_0,
                group: group->Ok_0,
                paths: paths->Ok_0,
            },
        )
    }
}

/// Decode of a path group from one document value: anything but an
/// object is a structural error.
pub open spec fn spec_path_group_doc(v: DocValue) -> Result<SpecPathGroup, SpecErr> {
    match v {
        DocValue::Object(fs) => spec_path_group_from_fields(fs@),
        _ => Err(SpecErr::Structure("path_group"@)),
    }
}

impl PathGroup {
    /// Builds a path group from its document object, applying each
    /// field decoder when the key is present and the field default
    /// when it is absent; any failure, of a field or of a contained
    /// path, aborts the whole construction.
    pub fn from_doc(doc: &DocValue) -> (r: Result<PathGroup, DecodeError>)
        ensures
            r is Ok <==> spec_path_group_doc(*doc) is Ok,
            r matches Ok(g) ==> spec_path_group_doc(*doc) matches Ok(sg) && g@ == sg,
            r matches Err(e) ==> spec_path_group_doc(*doc) matches Err(t) && e@ == t,
    {
        let fields = match doc {
            DocValue::Object(fs) => fs,
            _ => {
                return Err(DecodeError::Structure("path_group".to_owned()));
            },
        };
        let selector = match get_text_field(fields, "selector") {
            Ok(s) => s,
            Err(e) => {
                return Err(e);
            },
        };
        let priority = match get_u64_field(fields, "pri") {
            Ok(n) => n,
            Err(e) => {
                return Err(e);
            },
        };
        let device_mapper_state = match lookup(fields, "dm_st") {
            None => PathGroupDeviceMapperState::Undefined,
            Some(v) => match v {
                DocValue::Text(s) => match PathGroupDeviceMapperState::decode(s.as_str()) {
                    Ok(x) => x,
                    Err(e) => {
                        return Err(e);
                    },
                },
                _ => {
                    return Err(DecodeError::Structure("dm_st".to_owned()));
                },
            },
        };
        let marginal_path_state = match lookup(fields, "marginal_st") {
            None => MarginalState::Normal,
            Some(v) => match v {
                DocValue::Text(s) => match MarginalState::decode(s.as_str()) {
                    Ok(x) => x,
                    Err(e) => {
                        return Err(e);
                    },
                },
                _ => {
                    return Err(DecodeError::Structure("marginal_st".to_owned()));
                },
            },
        };
        let group = match get_u64_field(fields, "group") {
            Ok(n) => n,
            Err(e) => {
                return Err(e);
            },
        };
        let paths = match lookup(fields, "paths") {
            None => Vec::new(),
            Some(v) => match v {
                DocValue::List(items) => match paths_from_list(items) {
                    Ok(ps) => ps,
                    Err(e) => {
                        return Err(e);
                    },
                },
                _ => {
                    return Err(DecodeError::Structure("paths".to_owned()));
                },
            },
        };
        let g = PathGroup { selector, priority, device_mapper_state, marginal_path_state, group, paths };
        proof {
            let sfr = spec_paths_field(fields@, "paths"@);
            if sfr is Ok {
                assert(g@.paths =~= sfr->Ok_0);
            }
            assert(spec_path_group_doc(*doc) matches Ok(sg) && g@ =~= sg);
        }
        Ok(g)
    }
}

/// Decode of a list of path groups, item by item in input order; every
/// item must be an object; the first failing item decides the error.
pub open spec fn spec_path_groups_from_list(items: Seq<DocValue>) -> Result<
    Seq<SpecPathGroup>,
    SpecErr,
>
    decreases items.len(),
{
    if items.len() == 0 {
        Ok(Seq::<SpecPathGroup>::empty())
    } else {
        match spec_path_groups_from_list(items.drop_last()) {
            Ok(rest) => match spec_path_group_doc(items.last()) {
                Ok(g) => Ok(rest.push(g)),
                Err(e) => Err(e),
            },
            Err(e) => Err(e),
        }
    }
}

/// Once a prefix of the list fails to decode, the whole list fails the
/// same way.
proof fn lemma_path_groups_list_err_prefix(items: Seq<DocValue>, k: int)
    requires
        0 <= k <= items.len(),
        spec_path_groups_from_list(items.take(k)) is Err,
    ensures
        spec_path_groups_from_list(items) == spec_path_groups_from_list(items.take(k)),
    decreases items.len() - k,
{
    if k == items.len() {
        assert(items.take(k) =~= items);
    } else {
        assert(items.take(k + 1).drop_last() =~= items.take(k));
        lemma_path_groups_list_err_prefix(items, k + 1);
    }
}

/// Builds every path group of a list, in input order; any item failure
/// aborts the whole construction.
pub fn path_groups_from_list(items: &Vec<DocValue>) -> (r: Result<Vec<PathGroup>, DecodeError>)
    ensures
        r is Ok <==> spec_path_groups_from_list(items@) is Ok,
        r matches Ok(gs) ==> spec_path_groups_from_list(items@) == Ok::<Seq<SpecPathGroup>, SpecErr>(
            gs@.map_values(|g: PathGroup| g@),
        ),
        r matches Err(e) ==> spec_path_groups_from_list(items@) matches Err(t) && e@ == t,
{
    let n: usize = items.len();
    let mut out: Vec<PathGroup> = Vec::new();
    let mut i: usize = 0;
    proof {
        assert(items@.take(0) =~= Seq::<DocValue>::empty());
        assert(out@.map_values(|g: PathGroup| g@) =~= Seq::<SpecPathGroup>::empty());
    }
    while i < n
        invariant
            0 <= i <= n,
            n == items@.len(),
            out@.len() == i,
            spec_path_groups_from_list(items@.take(i as int)) == Ok::<Seq<SpecPathGroup>, SpecErr>(
                out@.map_values(|g: PathGroup| g@),
            ),
        decreases n - i,
    {
        let ghost prefix = out@.map_values(|g: PathGroup| g@);
        let g = match PathGroup::from_doc(&items[i]) {
            Ok(g) => g,
            Err(e) => {
                proof {
                    assert(items@.take(i as int + 1).drop_last() =~= items@.take(i as int));
                    assert(items@.take(i as int + 1).last() == items@[i as int]);
                    assert(spec_path_groups_from_list(items@.take(i as int + 1)) is Err);
                    lemma_path_groups_list_err_prefix(items@, i as int + 1);
                }
                return Err(e);
            },
        };
        out.push(g);
        proof {
            assert(items@.take(i as int + 1).drop_last() =~= items@.take(i as int));
            assert(items@.take(i as int + 1).last() == items@[i as int]);
            assert(out@.map_values(|g: PathGroup| g@) =~= prefix.push(g@));
        }
        i += 1;
    }
    proof {
        assert(items@.take(n as int) =~= items@);
    }
    Ok(out)
}

} // verus!
