//! Checkpoints: file names, dates and the order of payloads.

use cobre_io::error::OutputError;
use cobre_io::float::Float64;
use cobre_io::policy::checkpoint::{
    assemble_checkpoint, bin_file_name, check_transit_bucket_monotonicity, is_bin_file,
    is_well_formed_delivery_date, validate_checkpoint_dates,
};
use cobre_io::policy::decode::{
    deserialize_checkpoint_manifest, deserialize_stage_basis, deserialize_stage_cuts,
    deserialize_stage_states,
};
use cobre_io::policy::encode::{
    serialize_stage_basis, serialize_stage_cuts, serialize_stage_states,
};
use cobre_io::policy::manifest::serialize_checkpoint_manifest;
use cobre_io::policy::records::{
    CheckpointManifest, EntitySlot, GraphManifest, PolicyBasisRecord, PolicyCheckpoint,
    PolicyCutRecord, ProducerBlock, SeasonManifest, StageCutsPayload, StageCutsReadResult,
    StageStatesPayload, FORMAT_VERSION, STAGE_CUTS_PRICED_STATE_DATE_SENTINEL,
};

fn float(x: f64) -> Float64 {
    Float64 { bits: x.to_bits() }
}

fn floats(xs: &[f64]) -> Vec<Float64> {
    xs.iter().map(|x| float(*x)).collect()
}

fn message(e: &OutputError) -> String {
    match e {
        OutputError::SerializationError { entity, message } => format!("{entity}: {message}"),
        other => panic!("expected a serialization error, got: {other:?}"),
    }
}

fn make_cut_record(
    cut_id: u64,
    slot_index: u32,
    iteration: u32,
    coefficients: &[Float64],
) -> PolicyCutRecord<'_> {
    PolicyCutRecord {
        cut_id,
        slot_index,
        iteration,
        forward_pass_index: 0,
        intercept: float(42.0),
        coefficients,
        is_active: true,
    }
}

fn make_stage_cuts_payload<'a>(
    stage_id: u32,
    cuts: &'a [PolicyCutRecord<'a>],
    active_cut_indices: &'a [u32],
    state_dimension: u32,
) -> StageCutsPayload<'a> {
    StageCutsPayload {
        stage_id,
        state_dimension,
        capacity: 100,
        warm_start_count: 0,
        cuts,
        active_cut_indices,
        populated_count: u32::try_from(cuts.len()).unwrap(),
        entity_manifest: &[],
        cost_scale_factor: float(1_000_000.0),
        node_id: -1,
        graph_stage_id: -1,
        priced_state_date: STAGE_CUTS_PRICED_STATE_DATE_SENTINEL,
    }
}

fn make_basis_record(stage_id: u32) -> PolicyBasisRecord<'static> {
    PolicyBasisRecord {
        stage_id,
        iteration: 10,
        column_status: &[0, 1, 2, 3],
        row_status: &[1, 0, 1, 0, 1],
        num_cut_rows: 2,
    }
}

fn make_metadata(num_stages: u32) -> CheckpointManifest {
    CheckpointManifest {
        format_version: FORMAT_VERSION,
        cobre_version: "0.0.1".to_string(),
        created_at: "2026-03-08T00:00:00Z".to_string(),
        num_stages,
        graph_manifest: GraphManifest {
            n_pools: 0,
            nodes: vec![],
            edges: vec![],
        },
        producer: ProducerBlock {
            completed_iterations: 10,
            final_lower_bound: float(999.0),
            best_upper_bound: Some(float(1050.0)),
            max_iterations: 100,
            forward_passes: 4,
            warm_start_cuts: 0,
            warm_start_counts: vec![0; num_stages as usize],
            rng_seed: 42,
            total_visited_states: 0,
            training_block_mode: "parallel".to_string(),
            training_block_mode_per_stage: vec![],
            cost_scale_factor: None,
        },
        season_manifest: SeasonManifest::default(),
    }
}

/// Writes payloads to bytes and reads them back in the order given.
fn through_bytes(
    metadata: &CheckpointManifest,
    cuts: &[StageCutsPayload<'_>],
    bases: &[PolicyBasisRecord<'_>],
    states: &[StageStatesPayload<'_>],
) -> Result<PolicyCheckpoint, OutputError> {
    assemble_checkpoint(
        deserialize_checkpoint_manifest(&serialize_checkpoint_manifest(metadata))?,
        cuts.iter()
            .map(|p| deserialize_stage_cuts(&serialize_stage_cuts(p)))
            .collect::<Result<Vec<_>, _>>()?,
        bases
            .iter()
            .map(|p| deserialize_stage_basis(&serialize_stage_basis(p)))
            .collect::<Result<Vec<_>, _>>()?,
        states
            .iter()
            .map(|p| deserialize_stage_states(&serialize_stage_states(p)))
            .collect::<Result<Vec<_>, _>>()?,
    )
}

// ── Reading a checkpoint ─────────────────────────────────────────────────────

#[test]
fn read_policy_checkpoint_full_round_trip() {
    let c0 = floats(&[1.0, 2.0, 3.0]);
    let c1 = floats(&[4.0, 5.0, 6.0]);
    let c2 = floats(&[7.0, 8.0, 9.0]);

    let cuts_s0 = [make_cut_record(1, 0, 1, &c0), make_cut_record(2, 1, 1, &c1)];
    let cuts_s1 = [make_cut_record(3, 0, 2, &c2)];

    let checkpoint = through_bytes(
        &make_metadata(2),
        &[
            make_stage_cuts_payload(0, &cuts_s0, &[0, 1], 3),
            make_stage_cuts_payload(1, &cuts_s1, &[0], 3),
        ],
        &[make_basis_record(0), make_basis_record(1)],
        &[],
    )
    .expect("read must succeed");

    assert_eq!(checkpoint.metadata.producer.completed_iterations, 10);
    assert_eq!(checkpoint.metadata.num_stages, 2);
    assert_eq!(checkpoint.stage_cuts[0].state_dimension, 3);
    assert_eq!(checkpoint.metadata.producer.rng_seed, 42);

    assert_eq!(
        checkpoint.stage_cuts.len(),
        2,
        "must have two stage cut results"
    );
    assert_eq!(checkpoint.stage_cuts[0].stage_id, 0);
    assert_eq!(checkpoint.stage_cuts[1].stage_id, 1);
    assert_eq!(checkpoint.stage_cuts[0].cuts.len(), 2);
    assert_eq!(checkpoint.stage_cuts[1].cuts.len(), 1);

    let cut00 = &checkpoint.stage_cuts[0].cuts[0];
    assert_eq!(cut00.cut_id, 1);
    assert_eq!(cut00.coefficients, floats(&[1.0, 2.0, 3.0]));
    assert_eq!(cut00.intercept, float(42.0));
    assert!(cut00.is_active);

    let cut01 = &checkpoint.stage_cuts[0].cuts[1];
    assert_eq!(cut01.cut_id, 2);
    assert_eq!(cut01.coefficients, floats(&[4.0, 5.0, 6.0]));

    let cut10 = &checkpoint.stage_cuts[1].cuts[0];
    assert_eq!(cut10.cut_id, 3);
    assert_eq!(cut10.coefficients, floats(&[7.0, 8.0, 9.0]));

    assert_eq!(checkpoint.stage_bases.len(), 2, "must have two stage bases");
    assert_eq!(checkpoint.stage_bases[0].stage_id, 0);
    assert_eq!(checkpoint.stage_bases[1].stage_id, 1);
    assert_eq!(checkpoint.stage_bases[0].column_status, &[0u8, 1, 2, 3]);
    assert_eq!(checkpoint.stage_bases[0].row_status, &[1u8, 0, 1, 0, 1]);
    assert_eq!(checkpoint.stage_bases[0].num_cut_rows, 2);
}

#[test]
fn read_policy_checkpoint_no_bases_empty_stage_bases() {
    let c0 = floats(&[1.0]);
    let cuts_s0 = [make_cut_record(1, 0, 1, &c0)];
    let checkpoint = through_bytes(
        &make_metadata(1),
        &[make_stage_cuts_payload(0, &cuts_s0, &[0], 1)],
        &[],
        &[],
    )
    .expect("read must succeed");

    assert_eq!(checkpoint.stage_cuts.len(), 1);
    assert!(
        checkpoint.stage_bases.is_empty(),
        "no basis files must produce empty stage_bases"
    );
}

#[test]
fn read_policy_checkpoint_stages_sorted_by_id() {
    let c = floats(&[1.0, 2.0]);
    let cuts2 = [make_cut_record(1, 0, 1, &c)];
    let cuts0 = [make_cut_record(2, 0, 1, &c)];
    let cuts1 = [make_cut_record(3, 0, 1, &c)];
    let data = floats(&[1.0]);
    let states = |stage_id: u32| StageStatesPayload {
        stage_id,
        node_id: -1,
        state_dimension: 1,
        count: 1,
        data: &data,
        entity_manifest: &[],
    };

    let checkpoint = through_bytes(
        &make_metadata(3),
        &[
            make_stage_cuts_payload(2, &cuts2, &[0], 2),
            make_stage_cuts_payload(0, &cuts0, &[0], 2),
            make_stage_cuts_payload(1, &cuts1, &[0], 2),
        ],
        &[make_basis_record(5), make_basis_record(4)],
        &[states(9), states(8)],
    )
    .expect("read must succeed");

    assert_eq!(checkpoint.stage_cuts.len(), 3);
    assert_eq!(
        checkpoint.stage_cuts[0].stage_id, 0,
        "first result must be stage 0"
    );
    assert_eq!(
        checkpoint.stage_cuts[1].stage_id, 1,
        "second result must be stage 1"
    );
    assert_eq!(
        checkpoint.stage_cuts[2].stage_id, 2,
        "third result must be stage 2"
    );
    assert_eq!(checkpoint.stage_bases[0].stage_id, 4);
    assert_eq!(checkpoint.stage_states[0].stage_id, 8);
}

#[test]
fn read_policy_checkpoint_metadata_json_field_by_field() {
    let mut meta_in = make_metadata(4);
    meta_in.created_at = "2026-01-01T00:00:00Z".to_string();
    meta_in.producer.completed_iterations = 77;
    meta_in.producer.final_lower_bound = float(12345.678);
    meta_in.producer.best_upper_bound = Some(float(13000.0));
    meta_in.producer.max_iterations = 500;
    meta_in.producer.forward_passes = 8;
    meta_in.producer.warm_start_cuts = 20;
    meta_in.producer.warm_start_counts = vec![20; 4];
    meta_in.producer.rng_seed = 99999;

    let checkpoint = through_bytes(&meta_in, &[], &[], &[]).expect("read must succeed");
    let m = &checkpoint.metadata;

    assert_eq!(m.producer.completed_iterations, 77);
    assert_eq!(m.producer.final_lower_bound, float(12345.678));
    assert_eq!(m.producer.best_upper_bound, Some(float(13000.0)));
    assert_eq!(m.num_stages, 4);
    assert_eq!(m.producer.max_iterations, 500);
    assert_eq!(m.producer.forward_passes, 8);
    assert_eq!(m.producer.warm_start_cuts, 20);
    assert_eq!(m.producer.warm_start_counts, vec![20u32; 4]);
    assert_eq!(m.producer.rng_seed, 99999);
}

#[test]
fn policy_checkpoint_metadata_deserializes_none_upper_bound() {
    let mut meta = make_metadata(1);
    meta.producer.best_upper_bound = None;
    let back = deserialize_checkpoint_manifest(&serialize_checkpoint_manifest(&meta))
        .expect("deserialize must succeed");
    assert!(
        back.producer.best_upper_bound.is_none(),
        "None upper bound must round-trip"
    );
}

#[test]
fn policy_checkpoint_metadata_warm_start_counts_round_trips() {
    let mut meta = make_metadata(3);
    meta.producer.warm_start_cuts = 8;
    meta.producer.warm_start_counts = vec![10, 8, 6];
    let back = deserialize_checkpoint_manifest(&serialize_checkpoint_manifest(&meta))
        .expect("deserialize must succeed");
    assert_eq!(
        back.producer.warm_start_counts,
        vec![10u32, 8, 6],
        "warm_start_counts must round-trip"
    );
}

#[test]
fn policy_checkpoint_metadata_deserializes_from_json() {
    let mut meta = make_metadata(3);
    meta.producer.completed_iterations = 42;
    meta.producer.final_lower_bound = float(9999.0);
    meta.producer.best_upper_bound = Some(float(10100.0));
    meta.producer.max_iterations = 100;
    meta.producer.forward_passes = 4;
    meta.producer.warm_start_cuts = 10;
    meta.producer.warm_start_counts = vec![10, 10, 10];
    meta.producer.rng_seed = 12345;
    let back = deserialize_checkpoint_manifest(&serialize_checkpoint_manifest(&meta))
        .expect("deserialize must succeed");
    assert_eq!(back.cobre_version, meta.cobre_version);
    assert_eq!(back.created_at, meta.created_at);
    assert_eq!(back.num_stages, 3);
    assert_eq!(back.producer.completed_iterations, 42);
    assert_eq!(back.producer.final_lower_bound, float(9999.0));
    assert_eq!(back.producer.best_upper_bound, Some(float(10100.0)));
    assert_eq!(back.producer.max_iterations, 100);
    assert_eq!(back.producer.forward_passes, 4);
    assert_eq!(back.producer.warm_start_cuts, 10);
    assert_eq!(back.producer.rng_seed, 12345);
}

#[test]
fn read_policy_checkpoint_warm_start_counts_in_metadata() {
    let c0 = floats(&[1.0, 2.0]);
    let c1 = floats(&[3.0, 4.0]);
    let c2 = floats(&[5.0, 6.0]);
    let cuts_s0 = [make_cut_record(1, 0, 1, &c0), make_cut_record(2, 1, 1, &c0)];
    let cuts_s1 = [
        make_cut_record(3, 0, 2, &c1),
        make_cut_record(4, 1, 2, &c1),
        make_cut_record(5, 2, 2, &c1),
    ];
    let cuts_s2 = [
        make_cut_record(6, 0, 3, &c2),
        make_cut_record(7, 1, 3, &c2),
        make_cut_record(8, 2, 3, &c2),
        make_cut_record(9, 3, 3, &c2),
    ];
    let mut payloads = [
        make_stage_cuts_payload(0, &cuts_s0, &[0, 1], 2),
        make_stage_cuts_payload(1, &cuts_s1, &[0, 1, 2], 2),
        make_stage_cuts_payload(2, &cuts_s2, &[0, 1, 2, 3], 2),
    ];
    payloads[0].warm_start_count = 10;
    payloads[1].warm_start_count = 8;
    payloads[2].warm_start_count = 6;
    let mut metadata = make_metadata(3);
    metadata.producer.best_upper_bound = None;
    metadata.producer.warm_start_cuts = 10;
    metadata.producer.warm_start_counts = vec![10, 8, 6];
    let checkpoint = through_bytes(&metadata, &payloads, &[], &[]).expect("read must succeed");
    assert_eq!(
        checkpoint.metadata.producer.warm_start_counts,
        vec![10u32, 8, 6]
    );
    assert_eq!(
        checkpoint
            .stage_cuts
            .iter()
            .map(|p| p.warm_start_count)
            .collect::<Vec<u32>>(),
        vec![10, 8, 6]
    );
}

// ── Written bytes ────────────────────────────────────────────────────────────

/// The bytes start with an offset that stays inside them.
fn assert_root_in_range(bytes: &[u8]) {
    assert!(!bytes.is_empty());
    assert!(bytes.len() >= 4);
    let root_offset = u32::from_le_bytes([bytes[0], bytes[1], bytes[2], bytes[3]]) as usize;
    assert!(root_offset < bytes.len(), "root offset must be in-range");
}

#[test]
fn write_policy_checkpoint_cut_files_non_empty() {
    let c0 = floats(&[1.0, 2.0, 3.0]);
    let c1 = floats(&[4.0, 5.0, 6.0]);
    let cuts_s0 = [make_cut_record(1, 0, 1, &c0), make_cut_record(2, 1, 1, &c1)];
    let cuts_s1 = [make_cut_record(3, 0, 2, &c0)];
    let cuts_s2 = [make_cut_record(4, 0, 3, &c1)];
    let stage_cuts = [
        make_stage_cuts_payload(0, &cuts_s0, &[0, 1], 3),
        make_stage_cuts_payload(1, &cuts_s1, &[0], 3),
        make_stage_cuts_payload(2, &cuts_s2, &[0], 3),
    ];
    for payload in &stage_cuts {
        assert_root_in_range(&serialize_stage_cuts(payload));
    }
}

#[test]
fn write_policy_checkpoint_basis_files_non_empty() {
    assert_root_in_range(&serialize_stage_basis(&make_basis_record(0)));
}

// ── File names ───────────────────────────────────────────────────────────────

#[test]
fn bin_file_names_are_zero_padded() {
    assert_eq!(bin_file_name(0), "000.bin");
    assert_eq!(bin_file_name(1), "001.bin");
    assert_eq!(bin_file_name(59), "059.bin");
    assert_eq!(bin_file_name(100), "100.bin");
    assert_eq!(bin_file_name(1000), "1000.bin");
    assert_eq!(bin_file_name(u32::MAX), "4294967295.bin");
}

#[test]
fn other_files_are_passed_over() {
    assert!(is_bin_file("000.bin"));
    assert!(is_bin_file(".bin"));
    assert!(!is_bin_file("000.bin.tmp"));
    assert!(!is_bin_file("bin"));
    assert!(!is_bin_file(""));
}

// ── Dates ────────────────────────────────────────────────────────────────────

fn pool_with(slots: Vec<EntitySlot>) -> StageCutsReadResult {
    StageCutsReadResult {
        stage_id: 4,
        state_dimension: 1,
        capacity: 1,
        warm_start_count: 0,
        populated_count: 0,
        cuts: vec![],
        entity_manifest: slots,
        cost_scale_factor: None,
        node_id: -1,
        graph_stage_id: -1,
        priced_state_date: STAGE_CUTS_PRICED_STATE_DATE_SENTINEL,
    }
}

#[test]
fn well_formed_dates() {
    assert!(is_well_formed_delivery_date(i32::MIN));
    assert!(is_well_formed_delivery_date(20_240_229));
    assert!(!is_well_formed_delivery_date(20_230_229));
    assert!(!is_well_formed_delivery_date(-1));
    assert!(!is_well_formed_delivery_date(0));
    assert!(!is_well_formed_delivery_date(-20_240_101));
}

#[test]
fn transit_buckets_may_not_go_back_in_time() {
    let slot = |lag: u32, start: i32| {
        EntitySlot::transit_bucket(9, lag, true).with_interval(start, 20_400_101)
    };
    check_transit_bucket_monotonicity(&pool_with(vec![
        slot(2, 20_311_201),
        slot(1, 20_311_101),
        slot(3, 20_311_201),
    ]))
    .expect("ascending with the lag");
    let err = check_transit_bucket_monotonicity(&pool_with(vec![
        slot(1, 20_311_201),
        slot(2, 20_311_101),
    ]))
    .expect_err("descending with the lag");
    let text = message(&err);
    assert!(text.contains("pool 4") && text.contains("20311101"), "{text}");
    // Buckets of another plant, and other families, are not compared.
    check_transit_bucket_monotonicity(&pool_with(vec![
        slot(1, 20_311_201),
        EntitySlot::transit_bucket(8, 2, true).with_interval(20_311_101, 20_400_101),
        EntitySlot::anticipated(9, 2, true).with_interval(20_300_101, 20_400_101),
    ]))
    .expect("nothing to compare");
}

#[test]
fn a_checkpoint_with_a_malformed_date_is_refused() {
    let good = pool_with(vec![
        EntitySlot::inflow_lag(1, 1, true).with_reference_date(20_310_401)
    ]);
    let bad = pool_with(vec![
        EntitySlot::inflow_lag(1, 7, true).with_reference_date(20_311_301)
    ]);
    let checkpoint = |pools: Vec<StageCutsReadResult>| PolicyCheckpoint {
        metadata: make_metadata(1),
        stage_cuts: pools,
        stage_bases: vec![],
        stage_states: vec![],
    };
    validate_checkpoint_dates(&checkpoint(vec![good.clone()])).expect("well formed");
    let err = validate_checkpoint_dates(&checkpoint(vec![good.clone(), bad.clone()]))
        .expect_err("malformed");
    assert_eq!(
        message(&err),
        "policy_checkpoint_dates: pool 4 subindex 7 carries malformed reference_date 20311301"
    );
    assert!(assemble_checkpoint(make_metadata(1), vec![bad], vec![], vec![]).is_err());
}
