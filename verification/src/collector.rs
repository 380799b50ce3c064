//! The metric translator: walks the domain model tree and emits one
//! sample per (entity, state dimension) pair, with labels drawn from
//! ancestor identifiers and each state mapped to its stable ordinal.
//!
//! The translation is a pure function of the model: every cycle builds
//! a fresh, complete sample set from scratch, so publishing it as a
//! whole replaces any previously published series and entities absent
//! from the current cycle leave no stale series behind.

use vstd::prelude::*;

use crate::common::{DeviceState, PathDeviceMapperState, PathGroupDeviceMapperState};
use crate::map::SpecDevice;
use crate::path::{PathCheckerState, SpecPath};
use crate::path_group::SpecPathGroup;
use crate::text::{spec_dec_str, u64_to_dec_string};
use crate::Multipathd;
use crate::SpecMultipathd;

verus! {

/// Ghost model of a [`PathGroupSample`].
#[verifier::ext_equal]
pub struct SpecPathGroupSample {
    pub map_uuid: Seq<char>,
    pub group: Seq<char>,
    pub value: int,
}

/// One sample of the path-group dimension: labeled by the owning
/// device's UUID and the group index rendered in decimal.
pub struct PathGroupSample {
    pub map_uuid: String,
    pub group: String,
    pub value: i64,
}

impl View for PathGroupSample {
    type V = SpecPathGroupSample;

    open spec fn view(&self) -> SpecPathGroupSample {
        SpecPathGroupSample {
            map_uuid: self.map_uuid@,
            group: self.group@,
            value: self.value as int,
        }
    }
}

/// Ghost model of a [`PathSample`].
#[verifier::ext_equal]
pub struct SpecPathSample {
    pub map_uuid: Seq<char>,
    pub group: Seq<char>,
    pub target_wwnn: Seq<char>,
    pub dev: Seq<char>,
    pub value: int,
}

/// One sample of a path dimension: labeled by the owning device's
/// UUID, the group index rendered in decimal, the path's target
/// world-wide node name, and the path's device name.
pub struct PathSample {
    pub map_uuid: String,
    pub group: String,
    pub target_wwnn: String,
    pub dev: String,
    pub value: i64,
}

impl View for PathSample {
    type V = SpecPathSample;

    open spec fn view(&self) -> SpecPathSample {
        SpecPathSample {
            map_uuid: self.map_uuid@,
            group: self.group@,
            target_wwnn: self.target_wwnn@,
            dev: self.dev@,
            value: self.value as int,
        }
    }
}

/// Ghost model of a [`SampleSet`].
#[verifier::ext_equal]
pub struct SpecSampleSet {
    pub path_group_device_mapper_state: Seq<SpecPathGroupSample>,
    pub path_device_mapper_state: Seq<SpecPathSample>,
    pub path_device_state: Seq<SpecPathSample>,
    pub path_checker_state: Seq<SpecPathSample>,
}

/// The complete sample set of one translation cycle: one series per
/// dimension, each in traversal order (device, then group, then path,
/// each in input order).
pub struct SampleSet {
    pub path_group_device_mapper_state: Vec<PathGroupSample>,
    pub path_device_mapper_state: Vec<PathSample>,
    pub path_device_state: Vec<PathSample>,
    pub path_checker_state: Vec<PathSample>,
}

impl View for SampleSet {
    type V = SpecSampleSet;

    open spec fn view(&self) -> SpecSampleSet {
        SpecSampleSet {
            path_group_device_mapper_state: self.path_group_device_mapper_state@.map_values(
                |s: PathGroupSample| s@,
            ),
            path_device_mapper_state: self.path_device_mapper_state@.map_values(
                |s: PathSample| s@,
            ),
            path_device_state: self.path_device_state@.map_values(|s: PathSample| s@),
            path_checker_state: self.path_checker_state@.map_values(|s: PathSample| s@),
        }
    }
}

/// The path-group sample of a group: derived from the owning group
/// alone, never from the individual path.
pub open spec fn spec_pg_sample(uuid: Seq<char>, g: SpecPathGroup) -> SpecPathGroupSample {
    SpecPathGroupSample {
        map_uuid: uuid,
        group: spec_dec_str(g.group as nat),
        value: g.device_mapper_state.spec_ordinal(),
    }
}

/// `n` copies of one path-group sample: the dimension is re-emitted
/// once per path under the group.
pub open spec fn spec_pg_samples_repeated(s: SpecPathGroupSample, n: nat) -> Seq<
    SpecPathGroupSample,
>
    decreases n,
{
    if n == 0 {
        Seq::<SpecPathGroupSample>::empty()
    } else {
        spec_pg_samples_repeated(s, (n - 1) as nat).push(s)
    }
}

/// Path-group samples of the groups of one device, in input order.
pub open spec fn spec_pg_samples_in_groups(uuid: Seq<char>, gs: Seq<SpecPathGroup>) -> Seq<
    SpecPathGroupSample,
>
    decreases gs.len(),
{
    if gs.len() == 0 {
        Seq::<SpecPathGroupSample>::empty()
    } else {
        spec_pg_samples_in_groups(uuid, gs.drop_last()) + spec_pg_samples_repeated(
            spec_pg_sample(uuid, gs.last()),
            gs.last().paths.len(),
        )
    }
}

/// Path-group samples of the whole model, in traversal order.
pub open spec fn spec_pg_samples(ds: Seq<SpecDevice>) -> Seq<SpecPathGroupSample>
    decreases ds.len(),
{
    if ds.len() == 0 {
        Seq::<SpecPathGroupSample>::empty()
    } else {
        spec_pg_samples(ds.drop_last()) + spec_pg_samples_in_groups(
            ds.last().uuid,
            ds.last().path_groups,
        )
    }
}

/// The sample of one path in a given dimension, the dimension being
/// the function from path to ordinal value.
pub open spec fn spec_path_sample(
    uuid: Seq<char>,
    group: Seq<char>,
    p: SpecPath,
    f: spec_fn(SpecPath) -> int,
) -> SpecPathSample {
    SpecPathSample {
        map_uuid: uuid,
        group: group,
        target_wwnn: p.target_world_wide_node_name,
        dev: p.device_name,
        value: f(p),
    }
}

/// Path samples of a list of paths, in input order.
pub open spec fn spec_path_samples_in_paths(
    uuid: Seq<char>,
    group: Seq<char>,
    ps: Seq<SpecPath>,
    f: spec_fn(SpecPath) -> int,
) -> Seq<SpecPathSample>
    decreases ps.len(),
{
    if ps.len() == 0 {
        Seq::<SpecPathSample>::empty()
    } else {
        spec_path_samples_in_paths(uuid, group, ps.drop_last(), f).push(
            spec_path_sample(uuid, group, ps.last(), f),
        )
    }
}

/// Path samples of the groups of one device, in input order.
pub open spec fn spec_path_samples_in_groups(
    uuid: Seq<char>,
    gs: Seq<SpecPathGroup>,
    f: spec_fn(SpecPath) -> int,
) -> Seq<SpecPathSample>
    decreases gs.len(),
{
    if gs.len() == 0 {
        Seq::<SpecPathSample>::empty()
    } else {
        spec_path_samples_in_groups(uuid, gs.drop_last(), f) + spec_path_samples_in_paths(
            uuid,
            spec_dec_str(gs.last().group as nat),
            gs.last().paths,
            f,
        )
    }
}

/// Path samples of the whole model, in traversal order.
pub open spec fn spec_path_samples(ds: Seq<SpecDevice>, f: spec_fn(SpecPath) -> int) -> Seq<
    SpecPathSample,
>
    decreases ds.len(),
{
    if ds.len() == 0 {
        Seq::<SpecPathSample>::empty()
    } else {
        spec_path_samples(ds.drop_last(), f) + spec_path_samples_in_groups(
            ds.last().uuid,
            ds.last().path_groups,
            f,
        )
    }
}

/// The path device-mapper-state dimension.
pub open spec fn dim_device_mapper_state() -> spec_fn(SpecPath) -> int {
    |p: SpecPath| p.device_mapper_state.spec_ordinal()
}

/// The path device-state dimension.
pub open spec fn dim_device_state() -> spec_fn(SpecPath) -> int {
    |p: SpecPath| p.device_state.spec_ordinal()
}

/// The path checker-state dimension.
pub open spec fn dim_checker_state() -> spec_fn(SpecPath) -> int {
    |p: SpecPath| p.checker_state.spec_ordinal()
}

/// The complete, deterministic sample set of one model: all four
/// dimensions, a function of the model alone.
pub open spec fn spec_sample_set(sm: SpecMultipathd) -> SpecSampleSet {
    SpecSampleSet {
        path_group_device_mapper_state: spec_pg_samples(sm.maps),
        path_device_mapper_state: spec_path_samples(sm.maps, dim_device_mapper_state()),
        path_device_state: spec_path_samples(sm.maps, dim_device_state()),
        path_checker_state: spec_path_samples(sm.maps, dim_checker_state()),
    }
}

/// Translates a model into its complete sample set: for every path,
/// one sample of each of the four dimensions, in traversal order. The
/// result is a function of the model alone; building it afresh and
/// swapping it in atomically replaces every previously published
/// series.
pub fn translate(m: &Multipathd) -> (r: SampleSet)
    ensures
        r@ == spec_sample_set(m@),
{
    let ghost sm = m@;
    let mut pg_dms: Vec<PathGroupSample> = Vec::new();
    let mut p_dms: Vec<PathSample> = Vec::new();
    let mut p_ds: Vec<PathSample> = Vec::new();
    let mut p_cs: Vec<PathSample> = Vec::new();
    let nd: usize = m.maps.len();
    let mut di: usize = 0;
    proof {
        assert(sm.maps.take(0) =~= Seq::<SpecDevice>::empty());
        assert(pg_dms@.map_values(|s: PathGroupSample| s@) =~= Seq::<SpecPathGroupSample>::empty());
        assert(p_dms@.map_values(|s: PathSample| s@) =~= Seq::<SpecPathSample>::empty());
    }
    while di < nd
        invariant
            0 <= di <= nd,
            nd == m.maps@.len(),
            sm == m@,
            sm.maps.len() == nd,
            pg_dms@.map_values(|s: PathGroupSample| s@) == spec_pg_samples(sm.maps.take(di as int)),
            p_dms@.map_values(|s: PathSample| s@) == spec_path_samples(
                sm.maps.take(di as int),
                dim_device_mapper_state(),
            ),
            p_ds@.map_values(|s: PathSample| s@) == spec_path_samples(
                sm.maps.take(di as int),
                dim_device_state(),
            ),
            p_cs@.map_values(|s: PathSample| s@) == spec_path_samples(
                sm.maps.take(di as int),
                dim_checker_state(),
            ),
        decreases nd - di,
    {
        let d = &m.maps[di];
        let ghost sd = sm.maps[di as int];
        proof {
            assert(d@ == sd);
        }
        let ng: usize = d.path_groups.len();
        let mut gi: usize = 0;
        proof {
            assert(sd.path_groups.take(0) =~= Seq::<SpecPathGroup>::empty());
            assert(spec_pg_samples_in_groups(sd.uuid, sd.path_groups.take(0)) =~= Seq::<
                SpecPathGroupSample,
            >::empty());
            assert(spec_path_samples_in_groups(sd.uuid, sd.path_groups.take(0), dim_device_mapper_state())
                =~= Seq::<SpecPathSample>::empty());
        }
        while gi < ng
            invariant
                0 <= gi <= ng,
                nd == m.maps@.len(),
                di < nd,
                sm == m@,
                sm.maps.len() == nd,
                d@ == sd,
                sd == sm.maps[di as int],
                ng == sd.path_groups.len(),
                pg_dms@.map_values(|s: PathGroupSample| s@) == spec_pg_samples(
                    sm.maps.take(di as int),
                ) + spec_pg_samples_in_groups(sd.uuid, sd.path_groups.take(gi as int)),
                p_dms@.map_values(|s: PathSample| s@) == spec_path_samples(
                    sm.maps.take(di as int),
                    dim_device_mapper_state(),
                ) + spec_path_samples_in_groups(
                    sd.uuid,
                    sd.path_groups.take(gi as int),
                    dim_device_mapper_state(),
                ),
                p_ds@.map_values(|s: PathSample| s@) == spec_path_samples(
                    sm.maps.take(di as int),
                    dim_device_state(),
                ) + spec_path_samples_in_groups(
                    sd.uuid,
                    sd.path_groups.take(gi as int),
                    dim_device_state(),
                ),
                p_cs@.map_values(|s: PathSample| s@) == spec_path_samples(
                    sm.maps.take(di as int),
                    dim_checker_state(),
                ) + spec_path_samples_in_groups(
                    sd.uuid,
                    sd.path_groups.take(gi as int),
                    dim_checker_state(),
                ),
            decreases ng - gi,
        {
            let g = &d.path_groups[gi];
            let ghost sg = sd.path_groups[gi as int];
            proof {
                assert(g@ == sg);
            }
            let group_label = u64_to_dec_string(g.group);
            let pg_value: i64 = g.device_mapper_state.ordinal();
            let np: usize = g.paths.len();
            let mut pi: usize = 0;
            proof {
                assert(sg.paths.take(0) =~= Seq::<SpecPath>::empty());
            }
            while pi < np
                invariant
                    0 <= pi <= np,
                    nd == m.maps@.len(),
                    di < nd,
                    sm == m@,
                    sm.maps.len() == nd,
                    d@ == sd,
                    sd == sm.maps[di as int],
                    ng == sd.path_groups.len(),
                    gi < ng,
                    g@ == sg,
                    sg == sd.path_groups[gi as int],
                    np == sg.paths.len(),
                    group_label@ == spec_dec_str(sg.group as nat),
                    pg_value == sg.device_mapper_state.spec_ordinal(),
                    pg_dms@.map_values(|s: PathGroupSample| s@) == spec_pg_samples(
                        sm.maps.take(di as int),
                    ) + spec_pg_samples_in_groups(sd.uuid, sd.path_groups.take(gi as int))
                        + spec_pg_samples_repeated(spec_pg_sample(sd.uuid, sg), pi as nat),
                    p_dms@.map_values(|s: PathSample| s@) == spec_path_samples(
                        sm.maps.take(di as int),
                        dim_device_mapper_state(),
                    ) + spec_path_samples_in_groups(
                        sd.uuid,
                        sd.path_groups.take(gi as int),
                        dim_device_mapper_state(),
                    ) + spec_path_samples_in_paths(
                        sd.uuid,
                        spec_dec_str(sg.group as nat),
                        sg.paths.take(pi as int),
                        dim_device_mapper_state(),
                    ),
                    p_ds@.map_values(|s: PathSample| s@) == spec_path_samples(
                        sm.maps.take(di as int),
                        dim_device_state(),
                    ) + spec_path_samples_in_groups(
                        sd.uuid,
                        sd.path_groups.take(gi as int),
                        dim_device_state(),
                    ) + spec_path_samples_in_paths(
                        sd.uuid,
                        spec_dec_str(sg.group as nat),
                        sg.paths.take(pi as int),
                        dim_device_state(),
                    ),
                    p_cs@.map_values(|s: PathSample| s@) == spec_path_samples(
                        sm.maps.take(di as int),
                        dim_checker_state(),
                    ) + spec_path_samples_in_groups(
                        sd.uuid,
                        sd.path_groups.take(gi as int),
                        dim_checker_state(),
                    ) + spec_path_samples_in_paths(
                        sd.uuid,
                        spec_dec_str(sg.group as nat),
                        sg.paths.take(pi as int),
                        dim_checker_state(),
                    ),
                decreases np - pi,
            {
                let p = &g.paths[pi];
                let ghost sp = sg.paths[pi as int];
                proof {
                    assert(p@ == sp);
                }
                let ghost pg_prefix = pg_dms@.map_values(|s: PathGroupSample| s@);
                let ghost dms_prefix = p_dms@.map_values(|s: PathSample| s@);
                let ghost ds_prefix = p_ds@.map_values(|s: PathSample| s@);
                let ghost cs_prefix = p_cs@.map_values(|s: PathSample| s@);
                let pg_sample = PathGroupSample {
                    map_uuid: d.uuid.clone(),
                    group: group_label.clone(),
                    value: pg_value,
                };
                pg_dms.push(pg_sample);
                let dms_sample = PathSample {
                    map_uuid: d.uuid.clone(),
                    group: group_label.clone(),
                    target_wwnn: p.target_world_wide_node_name.clone(),
                    dev: p.device_name.clone(),
                    value: p.device_mapper_state.ordinal(),
                };
                p_dms.push(dms_sample);
                let ds_sample = PathSample {
                    map_uuid: d.uuid.clone(),
                    group: group_label.clone(),
                    target_wwnn: p.target_world_wide_node_name.clone(),
                    dev: p.device_name.clone(),
                    value: p.device_state.ordinal(),
                };
                p_ds.push(ds_sample);
                let cs_sample = PathSample {
                    map_uuid: d.uuid.clone(),
                    group: group_label.clone(),
                    target_wwnn: p.target_world_wide_node_name.clone(),
                    dev: p.device_name.clone(),
                    value: p.checker_state.ordinal(),
                };
                p_cs.push(cs_sample);
                proof {
                    assert(sg.paths.take(pi as int + 1).drop_last() =~= sg.paths.take(pi as int));
                    assert(sg.paths.take(pi as int + 1).last() == sp);
                    assert(pg_dms@.map_values(|s: PathGroupSample| s@) =~= pg_prefix.push(
                        spec_pg_sample(sd.uuid, sg),
                    ));
                    assert(p_dms@.map_values(|s: PathSample| s@) =~= dms_prefix.push(
                        spec_path_sample(
                            sd.uuid,
                            spec_dec_str(sg.group as nat),
                            sp,
                            dim_device_mapper_state(),
                        ),
                    ));
                    assert(p_ds@.map_values(|s: PathSample| s@) =~= ds_prefix.push(
                        spec_path_sample(
                            sd.uuid,
                            spec_dec_str(sg.group as nat),
                            sp,
                            dim_device_state(),
                        ),
                    ));
                    assert(p_cs@.map_values(|s: PathSample| s@) =~= cs_prefix.push(
                        spec_path_sample(
                            sd.uuid,
                            spec_dec_str(sg.group as nat),
                            sp,
                            dim_checker_state(),
                        ),
                    ));
                }
                pi += 1;
            }
            proof {
                assert(sg.paths.take(np as int) =~= sg.paths);
                assert(sd.path_groups.take(gi as int + 1).drop_last() =~= sd.path_groups.take(
                    gi as int,
                ));
                assert(sd.path_groups.take(gi as int + 1).last() == sg);
                assert(pg_dms@.map_values(|s: PathGroupSample| s@) =~= spec_pg_samples(
                    sm.maps.take(di as int),
                ) + spec_pg_samples_in_groups(sd.uuid, sd.path_groups.take(gi as int + 1)));
                assert(p_dms@.map_values(|s: PathSample| s@) =~= spec_path_samples(
                    sm.maps.take(di as int),
                    dim_device_mapper_state(),
                ) + spec_path_samples_in_groups(
                    sd.uuid,
                    sd.path_groups.take(gi as int + 1),
                    dim_device_mapper_state(),
                ));
                assert(p_ds@.map_values(|s: PathSample| s@) =~= spec_path_samples(
                    sm.maps.take(di as int),
                    dim_device_state(),
                ) + spec_path_samples_in_groups(
                    sd.uuid,
                    sd.path_groups.take(gi as int + 1),
                    dim_device_state(),
                ));
                assert(p_cs@.map_values(|s: PathSample| s@) =~= spec_path_samples(
                    sm.maps.take(di as int),
                    dim_checker_state(),
                ) + spec_path_samples_in_groups(
                    sd.uuid,
                    sd.path_groups.take(gi as int + 1),
                    dim_checker_state(),
                ));
            }
            gi += 1;
        }
        proof {
            assert(sd.path_groups.take(ng as int) =~= sd.path_groups);
            assert(sm.maps.take(di as int + 1).drop_last() =~= sm.maps.take(di as int));
            assert(sm.maps.take(di as int + 1).last() == sd);
            assert(pg_dms@.map_values(|s: PathGroupSample| s@) =~= spec_pg_samples(
                sm.maps.take(di as int + 1),
            ));
            assert(p_dms@.map_values(|s: PathSample| s@) =~= spec_path_samples(
                sm.maps.take(di as int + 1),
                dim_device_mapper_state(),
            ));
            assert(p_ds@.map_values(|s: PathSample| s@) =~= spec_path_samples(
                sm.maps.take(di as int + 1),
                dim_device_state(),
            ));
            assert(p_cs@.map_values(|s: PathSample| s@) =~= spec_path_samples(
                sm.maps.take(di as int + 1),
                dim_checker_state(),
            ));
        }
        di += 1;
    }
    proof {
        assert(sm.maps.take(nd as int) =~= sm.maps);
    }
    let r = SampleSet {
        path_group_device_mapper_state: pg_dms,
        path_device_mapper_state: p_dms,
        path_device_state: p_ds,
        path_checker_state: p_cs,
    };
    proof {
        assert(r@ =~= spec_sample_set(sm));
    }
    r
}

/// One item of a help enumeration: `<name> = <ordinal>`.
pub open spec fn spec_help_item(name: Seq<char>, i: nat) -> Seq<char> {
    name + " = "@ + spec_dec_str(i)
}

/// The items of the first `k` positions, joined with `, `.
pub open spec fn spec_help_items(names: Seq<Seq<char>>, k: nat) -> Seq<char>
    decreases k,
{
    if k == 0 {
        Seq::<char>::empty()
    } else if k == 1 {
        spec_help_item(names[0], 0)
    } else {
        spec_help_items(names, (k - 1) as nat) + ", "@ + spec_help_item(
            names[k - 1],
            (k - 1) as nat,
        )
    }
}

/// Help text of a dimension: the wire field name, then every variant
/// name with its ordinal, in declared order — inline documentation of
/// the ordinal mapping.
pub open spec fn spec_enum_help(dim: Seq<char>, names: Seq<Seq<char>>) -> Seq<char> {
    dim + " ("@ + spec_help_items(names, names.len()) + ")"@
}

/// Builds the help text of a dimension from its ordered variant names.
fn enum_help(dim: &str, names: &Vec<&str>) -> (r: String)
    ensures
        r@ == spec_enum_help(dim@, names@.map_values(|n: &str| n@)),
{
    let ghost name_views = names@.map_values(|n: &str| n@);
    let mut out = String::from_str(dim);
    out.append(" (");
    let k: usize = names.len();
    let mut i: usize = 0;
    while i < k
        invariant
            0 <= i <= k,
            k == names@.len(),
            name_views == names@.map_values(|n: &str| n@),
            out@ == dim@ + " ("@ + spec_help_items(name_views, i as nat),
        decreases k - i,
    {
        if i > 0 {
            out.append(", ");
        }
        out.append(names[i]);
        out.append(" = ");
        let num = u64_to_dec_string(i as u64);
        out.append(num.as_str());
        proof {
            assert(name_views[i as int] == names@[i as int]@);
            assert(out@ == dim@ + " ("@ + spec_help_items(name_views, i as nat + 1));
        }
        i += 1;
    }
    out.append(")");
    out
}

/// Fixed description of one metric family: its name parts, its help
/// text, and its label keys, in order.
pub struct MetricDescriptor {
    pub namespace: String,
    pub subsystem: String,
    pub name: String,
    pub help: String,
    pub labels: Vec<String>,
}

/// Variant names of [`PathGroupDeviceMapperState`], in declared order.
pub open spec fn path_group_state_names() -> Seq<Seq<char>> {
    seq!["active"@, "enabled"@, "disabled"@, "undefined"@]
}

/// Variant names of [`crate::common::PathDeviceMapperState`], in
/// declared order.
pub open spec fn path_state_names() -> Seq<Seq<char>> {
    seq!["active"@, "failed"@, "undefined"@]
}

/// Variant names of [`crate::common::DeviceState`], in declared order.
pub open spec fn device_state_names() -> Seq<Seq<char>> {
    seq!["running"@, "offline"@, "unknown"@]
}

/// Variant names of [`crate::path::PathCheckerState`], in declared
/// order.
pub open spec fn checker_state_names() -> Seq<Seq<char>> {
    seq![
        "ready"@,
        "faulty"@,
        "shaky"@,
        "ghost"@,
        "delayed"@,
        "iopending"@,
        "iotimeout"@,
        "undefined"@,
    ]
}

/// Label keys of the path-group dimension.
pub open spec fn path_group_label_keys() -> Seq<Seq<char>> {
    seq!["map"@, "group"@]
}

/// Label keys of the path dimensions.
pub open spec fn path_label_keys() -> Seq<Seq<char>> {
    seq!["map"@, "group"@, "target_wwnn"@, "dev"@]
}

/// Builds the two path-group label keys.
fn path_group_labels() -> (r: Vec<String>)
    ensures
        r@.map_values(|s: String| s@) == path_group_label_keys(),
{
    let mut labels: Vec<String> = Vec::new();
    labels.push(String::from_str("map"));
    labels.push(String::from_str("group"));
    proof {
        assert(labels@.map_values(|s: String| s@) =~= path_group_label_keys());
    }
    labels
}

/// Builds the four path label keys.
fn path_labels() -> (r: Vec<String>)
    ensures
        r@.map_values(|s: String| s@) == path_label_keys(),
{
    let mut labels: Vec<String> = Vec::new();
    labels.push(String::from_str("map"));
    labels.push(String::from_str("group"));
    labels.push(String::from_str("target_wwnn"));
    labels.push(String::from_str("dev"));
    proof {
        assert(labels@.map_values(|s: String| s@) =~= path_label_keys());
    }
    labels
}

/// Descriptor of the path-group device-mapper-state family.
pub fn path_group_device_mapper_state_descriptor() -> (r: MetricDescriptor)
    ensures
        r.namespace@ == "multipathd"@,
        r.subsystem@ == "path_group"@,
        r.name@ == "device_mapper_state"@,
        r.help@ == spec_enum_help("dm_st"@, path_group_state_names()),
        r.labels@.map_values(|s: String| s@) == path_group_label_keys(),
{
    let mut names: Vec<&str> = Vec::new();
    names.push("active");
    names.push("enabled");
    names.push("disabled");
    names.push("undefined");
    proof {
        assert(names@.map_values(|n: &str| n@) =~= path_group_state_names());
    }
    MetricDescriptor {
        namespace: String::from_str("multipathd"),
        subsystem: String::from_str("path_group"),
        name: String::from_str("device_mapper_state"),
        help: enum_help("dm_st", &names),
        labels: path_group_labels(),
    }
}

/// Descriptor of the path device-mapper-state family.
pub fn path_device_mapper_state_descriptor() -> (r: MetricDescriptor)
    ensures
        r.namespace@ == "multipathd"@,
        r.subsystem@ == "path"@,
        r.name@ == "device_mapper_state"@,
        r.help@ == spec_enum_help("dm_st"@, path_state_names()),
        r.labels@.map_values(|s: String| s@) == path_label_keys(),
{
    let mut names: Vec<&str> = Vec::new();
    names.push("active");
    names.push("failed");
    names.push("undefined");
    proof {
        assert(names@.map_values(|n: &str| n@) =~= path_state_names());
    }
    MetricDescriptor {
        namespace: String::from_str("multipathd"),
        subsystem: String::from_str("path"),
        name: String::from_str("device_mapper_state"),
        help: enum_help("dm_st", &names),
        labels: path_labels(),
    }
}

/// Descriptor of the path device-state family.
pub fn path_device_state_descriptor() -> (r: MetricDescriptor)
    ensures
        r.namespace@ == "multipathd"@,
        r.subsystem@ == "path"@,
        r.name@ == "device_state"@,
        r.help@ == spec_enum_help("dev_st"@, device_state_names()),
        r.labels@.map_values(|s: String| s@) == path_label_keys(),
{
    let mut names: Vec<&str> = Vec::new();
    names.push("running");
    names.push("offline");
    names.push("unknown");
    proof {
        assert(names@.map_values(|n: &str| n@) =~= device_state_names());
    }
    MetricDescriptor {
        namespace: String::from_str("multipathd"),
        subsystem: String::from_str("path"),
        name: String::from_str("device_state"),
        help: enum_help("dev_st", &names),
        labels: path_labels(),
    }
}

/// Descriptor of the path checker-state family.
pub fn path_checker_state_descriptor() -> (r: MetricDescriptor)
    ensures
        r.namespace@ == "multipathd"@,
        r.subsystem@ == "path"@,
        r.name@ == "checker_state"@,
        r.help@ == spec_enum_help("chk_st"@, checker_state_names()),
        r.labels@.map_values(|s: String| s@) == path_label_keys(),
{
    let mut names: Vec<&str> = Vec::new();
    names.push("ready");
    names.push("faulty");
    names.push("shaky");
    names.push("ghost");
    names.push("delayed");
    names.push("iopending");
    names.push("iotimeout");
    names.push("undefined");
    proof {
        assert(names@.map_values(|n: &str| n@) =~= checker_state_names());
    }
    MetricDescriptor {
        namespace: String::from_str("multipathd"),
        subsystem: String::from_str("path"),
        name: String::from_str("checker_state"),
        help: enum_help("chk_st", &names),
        labels: path_labels(),
    }
}

/// Translating the same domain model twice yields identical sample
/// sets, with the same labels and values: the translation is a
/// function of the model alone, independent of any prior state.
pub proof fn lemma_translate_idempotent(
    sm: SpecMultipathd,
    r1: SpecSampleSet,
    r2: SpecSampleSet,
)
    requires
        r1 == spec_sample_set(sm),
        r2 == spec_sample_set(sm),
    ensures
        r1 == r2,
{
}

/// A group's path-group sample is emitted once per path of the group.
pub proof fn lemma_pg_repeated_len(s: SpecPathGroupSample, n: nat)
    ensures
        spec_pg_samples_repeated(s, n).len() == n,
    decreases n,
{
    if n > 0 {
        lemma_pg_repeated_len(s, (n - 1) as nat);
    }
}

/// Every re-emission of a group's path-group sample is identical: the
/// sample is derived from the owning group alone, never from the
/// individual path, so repeating it per path is idempotent.
pub proof fn lemma_pg_reemission_identical(s: SpecPathGroupSample, n: nat, k: int)
    requires
        0 <= k < n,
    ensures
        spec_pg_samples_repeated(s, n)[k] == s,
    decreases n,
{
    lemma_pg_repeated_len(s, n);
    lemma_pg_repeated_len(s, (n - 1) as nat);
    if k < n - 1 {
        lemma_pg_reemission_identical(s, (n - 1) as nat, k);
    }
}

/// The help table of the path-group dimension lists every variant's
/// display name at that variant's own ordinal: the help text documents
/// the published ordinal mapping.
pub proof fn lemma_path_group_state_help_matches_ordinals(v: PathGroupDeviceMapperState)
    ensures
        path_group_state_names()[v.spec_ordinal()] == v.spec_display(),
{
}

/// The help table of the path device-mapper-state dimension lists
/// every variant's display name at that variant's own ordinal.
pub proof fn lemma_path_state_help_matches_ordinals(v: PathDeviceMapperState)
    ensures
        path_state_names()[v.spec_ordinal()] == v.spec_display(),
{
}

/// The help table of the path device-state dimension lists every
/// variant's display name at that variant's own ordinal.
pub proof fn lemma_device_state_help_matches_ordinals(v: DeviceState)
    ensures
        device_state_names()[v.spec_ordinal()] == v.spec_display(),
{
}

/// The help table of the path checker-state dimension lists every
/// variant's display name at that variant's own ordinal.
pub proof fn lemma_checker_state_help_matches_ordinals(v: PathCheckerState)
    ensures
        checker_state_names()[v.spec_ordinal()] == v.spec_display(),
{
}

} // verus!
