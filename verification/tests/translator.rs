use multipathd_exporter::collector::{path_checker_state_descriptor,
    path_device_mapper_state_descriptor, path_device_state_descriptor,
    path_group_device_mapper_state_descriptor, translate, PathGroupSample, PathSample, SampleSet};
use multipathd_exporter::document::DocValue;
use multipathd_exporter::Multipathd;

fn text(s: &str) -> DocValue {
    DocValue::Text(s.to_owned())
}

fn num(n: u64) -> DocValue {
    DocValue::Unsigned(n)
}

fn obj(fields: Vec<(&str, DocValue)>) -> DocValue {
    DocValue::Object(fields.into_iter().map(|(k, v)| (k.to_owned(), v)).collect())
}

fn one_path_model() -> Multipathd {
    let path = obj(vec![
        ("dev", text("sda")),
        ("dm_st", text("active")),
        ("dev_st", text("running")),
        ("chk_st", text("ready")),
        ("target_wwnn", text("0x524a937247e74300")),
    ]);
    let group = obj(vec![
        ("dm_st", text("active")),
        ("group", num(1)),
        ("paths", DocValue::List(vec![path])),
    ]);
    let device = obj(vec![
        ("uuid", text("3624a9370e92ace0b12e941bf000cb4d5")),
        ("dm_st", text("active")),
        ("path_groups", DocValue::List(vec![group])),
    ]);
    let root = obj(vec![("maps", DocValue::List(vec![device]))]);
    Multipathd::from_doc(&root).unwrap()
}

fn pg_samples_equal(a: &PathGroupSample, b: &PathGroupSample) -> bool {
    a.map_uuid == b.map_uuid && a.group == b.group && a.value == b.value
}

fn path_samples_equal(a: &PathSample, b: &PathSample) -> bool {
    a.map_uuid == b.map_uuid && a.group == b.group && a.target_wwnn == b.target_wwnn
        && a.dev == b.dev && a.value == b.value
}

fn sample_sets_equal(a: &SampleSet, b: &SampleSet) -> bool {
    a.path_group_device_mapper_state.len() == b.path_group_device_mapper_state.len()
        && a.path_device_mapper_state.len() == b.path_device_mapper_state.len()
        && a.path_device_state.len() == b.path_device_state.len()
        && a.path_checker_state.len() == b.path_checker_state.len()
        && a.path_group_device_mapper_state
            .iter()
            .zip(b.path_group_device_mapper_state.iter())
            .all(|(x, y)| pg_samples_equal(x, y))
        && a.path_device_mapper_state
            .iter()
            .zip(b.path_device_mapper_state.iter())
            .all(|(x, y)| path_samples_equal(x, y))
        && a.path_device_state
            .iter()
            .zip(b.path_device_state.iter())
            .all(|(x, y)| path_samples_equal(x, y))
        && a.path_checker_state
            .iter()
            .zip(b.path_checker_state.iter())
            .all(|(x, y)| path_samples_equal(x, y))
}

#[test]
fn end_to_end_one_path_emits_four_samples() {
    let m = one_path_model();
    let s = translate(&m);
    assert_eq!(s.path_group_device_mapper_state.len(), 1);
    assert_eq!(s.path_device_mapper_state.len(), 1);
    assert_eq!(s.path_device_state.len(), 1);
    assert_eq!(s.path_checker_state.len(), 1);

    let pg = &s.path_group_device_mapper_state[0];
    assert_eq!(pg.map_uuid, "3624a9370e92ace0b12e941bf000cb4d5");
    assert_eq!(pg.group, "1");
    // ordinal of `active` in the path-group variant
    assert_eq!(pg.value, 0);

    let dms = &s.path_device_mapper_state[0];
    assert_eq!(dms.map_uuid, "3624a9370e92ace0b12e941bf000cb4d5");
    assert_eq!(dms.group, "1");
    assert_eq!(dms.target_wwnn, "0x524a937247e74300");
    assert_eq!(dms.dev, "sda");
    // ordinal of `active` in the path variant
    assert_eq!(dms.value, 0);

    // ordinal of `running`
    assert_eq!(s.path_device_state[0].value, 0);
    // ordinal of `ready`
    assert_eq!(s.path_checker_state[0].value, 0);
}

#[test]
fn translation_is_idempotent() {
    let m = one_path_model();
    let first = translate(&m);
    let second = translate(&m);
    assert!(sample_sets_equal(&first, &second));
}

#[test]
fn path_group_series_repeats_identically_per_path() {
    let path_a = obj(vec![("dev", text("sda")), ("target_wwnn", text("wwnn-a"))]);
    let path_b = obj(vec![
        ("dev", text("sdb")),
        ("dm_st", text("failed")),
        ("target_wwnn", text("wwnn-b")),
    ]);
    let group = obj(vec![
        ("dm_st", text("enabled")),
        ("group", num(3)),
        ("paths", DocValue::List(vec![path_a, path_b])),
    ]);
    let device = obj(vec![
        ("uuid", text("uuid-1")),
        ("path_groups", DocValue::List(vec![group])),
    ]);
    let root = obj(vec![("maps", DocValue::List(vec![device]))]);
    let m = Multipathd::from_doc(&root).unwrap();
    let s = translate(&m);

    // one path-group sample per path, all identical
    assert_eq!(s.path_group_device_mapper_state.len(), 2);
    let first = &s.path_group_device_mapper_state[0];
    let second = &s.path_group_device_mapper_state[1];
    assert!(pg_samples_equal(first, second));
    assert_eq!(first.map_uuid, "uuid-1");
    assert_eq!(first.group, "3");
    // ordinal of `enabled`
    assert_eq!(first.value, 1);

    // the path dimension distinguishes the two paths
    assert_eq!(s.path_device_mapper_state.len(), 2);
    assert_eq!(s.path_device_mapper_state[0].dev, "sda");
    // absent dm_st: ordinal of `undefined` in the path variant
    assert_eq!(s.path_device_mapper_state[0].value, 2);
    assert_eq!(s.path_device_mapper_state[1].dev, "sdb");
    // ordinal of `failed`
    assert_eq!(s.path_device_mapper_state[1].value, 1);
}

#[test]
fn traversal_order_is_input_order() {
    let mk_path = |dev: &str| obj(vec![("dev", text(dev))]);
    let group_one = obj(vec![
        ("group", num(1)),
        ("paths", DocValue::List(vec![mk_path("sda"), mk_path("sdb")])),
    ]);
    let group_two = obj(vec![
        ("group", num(2)),
        ("paths", DocValue::List(vec![mk_path("sdc")])),
    ]);
    let dev_one = obj(vec![
        ("uuid", text("uuid-1")),
        ("path_groups", DocValue::List(vec![group_one, group_two])),
    ]);
    let dev_two = obj(vec![
        ("uuid", text("uuid-2")),
        ("path_groups", DocValue::List(vec![obj(vec![
            ("group", num(1)),
            ("paths", DocValue::List(vec![mk_path("sdd")])),
        ])])),
    ]);
    let root = obj(vec![("maps", DocValue::List(vec![dev_one, dev_two]))]);
    let m = Multipathd::from_doc(&root).unwrap();
    let s = translate(&m);

    let devs: Vec<&str> = s.path_device_state.iter().map(|x| x.dev.as_str()).collect();
    assert_eq!(devs, vec!["sda", "sdb", "sdc", "sdd"]);
    let groups: Vec<&str> = s
        .path_group_device_mapper_state
        .iter()
        .map(|x| x.group.as_str())
        .collect();
    assert_eq!(groups, vec!["1", "1", "2", "1"]);
    let uuids: Vec<&str> = s
        .path_group_device_mapper_state
        .iter()
        .map(|x| x.map_uuid.as_str())
        .collect();
    assert_eq!(uuids, vec!["uuid-1", "uuid-1", "uuid-1", "uuid-2"]);
}

#[test]
fn empty_model_emits_no_samples() {
    let m = Multipathd::from_doc(&obj(vec![])).unwrap();
    let s = translate(&m);
    assert_eq!(s.path_group_device_mapper_state.len(), 0);
    assert_eq!(s.path_device_mapper_state.len(), 0);
    assert_eq!(s.path_device_state.len(), 0);
    assert_eq!(s.path_checker_state.len(), 0);
}

#[test]
fn group_index_labels_render_in_decimal() {
    let group = obj(vec![
        ("group", num(12034)),
        ("paths", DocValue::List(vec![obj(vec![("dev", text("sda"))])])),
    ]);
    let device = obj(vec![
        ("uuid", text("u")),
        ("path_groups", DocValue::List(vec![group])),
    ]);
    let root = obj(vec![("maps", DocValue::List(vec![device]))]);
    let m = Multipathd::from_doc(&root).unwrap();
    let s = translate(&m);
    assert_eq!(s.path_group_device_mapper_state[0].group, "12034");
}

#[test]
fn descriptors_enumerate_ordinals_in_help_text() {
    let pg = path_group_device_mapper_state_descriptor();
    assert_eq!(pg.namespace, "multipathd");
    assert_eq!(pg.subsystem, "path_group");
    assert_eq!(pg.name, "device_mapper_state");
    assert_eq!(pg.help, "dm_st (active = 0, enabled = 1, disabled = 2, undefined = 3)");
    assert_eq!(pg.labels, vec!["map".to_owned(), "group".to_owned()]);

    let dms = path_device_mapper_state_descriptor();
    assert_eq!(dms.subsystem, "path");
    assert_eq!(dms.name, "device_mapper_state");
    assert_eq!(dms.help, "dm_st (active = 0, failed = 1, undefined = 2)");
    assert_eq!(
        dms.labels,
        vec!["map".to_owned(), "group".to_owned(), "target_wwnn".to_owned(), "dev".to_owned()]
    );

    let ds = path_device_state_descriptor();
    assert_eq!(ds.name, "device_state");
    assert_eq!(ds.help, "dev_st (running = 0, offline = 1, unknown = 2)");

    let cs = path_checker_state_descriptor();
    assert_eq!(cs.name, "checker_state");
    assert_eq!(
        cs.help,
        "chk_st (ready = 0, faulty = 1, shaky = 2, ghost = 3, delayed = 4, iopending = 5, iotimeout = 6, undefined = 7)"
    );
}
