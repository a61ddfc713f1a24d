//! Encoding and decoding of policy artifacts.

use cobre_io::error::OutputError;
use cobre_io::float::Float64;
use cobre_io::policy::decode::{
    deserialize_checkpoint_manifest, deserialize_stage_basis, deserialize_stage_cuts,
    deserialize_stage_states,
};
use cobre_io::policy::encode::{
    serialize_stage_basis, serialize_stage_cuts, serialize_stage_states,
};
use cobre_io::policy::manifest::serialize_checkpoint_manifest;
use cobre_io::policy::records::{
    CheckpointManifest, EntitySlot, GraphManifest, HydroSeasonOrders, ManifestEdge, ManifestNode,
    PolicyBasisRecord, PolicyCutRecord, ProducerBlock, SeasonManifest, StageCutsPayload,
    StageStatesPayload, ENTITY_SLOT_DELIVERY_DATE_SENTINEL, FORMAT_VERSION,
    SEASON_CYCLE_CODE_ABSENT, SEASON_CYCLE_CODE_MONTHLY, STAGE_CUTS_PRICED_STATE_DATE_SENTINEL,
};
use cobre_io::policy::schema;
use flatbuffers::{FlatBufferBuilder, WIPOffset};

fn float(x: f64) -> Float64 {
    Float64 { bits: x.to_bits() }
}

fn floats(xs: &[f64]) -> Vec<Float64> {
    xs.iter().map(|x| float(*x)).collect()
}

fn message(e: &OutputError) -> String {
    match e {
        OutputError::IoError { message, .. } => message.clone(),
        OutputError::SerializationError { message, .. } => message.clone(),
        OutputError::ManifestError { message, .. } => message.clone(),
    }
}

fn make_cut_record(
    cut_id: u64,
    slot_index: u32,
    iteration: u32,
    coefficients: &[Float64],
) -> PolicyCutRecord<'_> {
    PolicyCutRecord {
        cut_id,
        slot_index,
        iteration,
        forward_pass_index: 0,
        intercept: float(42.0),
        coefficients,
        is_active: true,
    }
}

fn pool<'a>(
    stage_id: u32,
    state_dimension: u32,
    capacity: u32,
    warm_start_count: u32,
    cuts: &'a [PolicyCutRecord<'a>],
    active_cut_indices: &'a [u32],
    populated_count: u32,
) -> StageCutsPayload<'a> {
    StageCutsPayload {
        stage_id,
        state_dimension,
        capacity,
        warm_start_count,
        cuts,
        active_cut_indices,
        populated_count,
        entity_manifest: &[],
        cost_scale_factor: float(1_000_000.0),
        node_id: -1,
        graph_stage_id: -1,
        priced_state_date: STAGE_CUTS_PRICED_STATE_DATE_SENTINEL,
    }
}

fn assert_root_in_range(buf: &[u8]) {
    assert!(!buf.is_empty(), "buffer must not be empty");
    assert!(buf.len() >= 4, "buffer must have at least 4 bytes");
    let root_offset = u32::from_le_bytes([buf[0], buf[1], buf[2], buf[3]]) as usize;
    assert!(
        root_offset < buf.len(),
        "root offset must point inside the buffer"
    );
}

// ── Cut pools ────────────────────────────────────────────────────────────────

#[test]
fn serialize_stage_cuts_single_cut_round_trip() {
    let coefficients = floats(&[1.0, 2.0, 3.0]);
    let cut = PolicyCutRecord {
        cut_id: 7,
        slot_index: 5,
        iteration: 3,
        forward_pass_index: 0,
        intercept: float(42.0),
        coefficients: &coefficients,
        is_active: true,
    };

    let buf = serialize_stage_cuts(&pool(0, 3, 100, 0, &[cut], &[0], 1));

    assert_root_in_range(&buf);
}

#[test]
fn serialize_stage_cuts_empty_cuts_valid_buffer() {
    let buf = serialize_stage_cuts(&pool(0, 3, 100, 0, &[], &[], 0));

    assert_root_in_range(&buf);
}

#[test]
fn serialize_stage_cuts_multiple_cuts_deterministic() {
    let c0 = floats(&[1.0, 2.0, 3.0]);
    let c1 = floats(&[4.0, 5.0, 6.0]);
    let c2 = floats(&[7.0, 8.0, 9.0]);

    let cuts = [
        make_cut_record(1, 0, 1, &c0),
        make_cut_record(2, 1, 1, &c1),
        make_cut_record(3, 2, 1, &c2),
    ];

    let buf_a = serialize_stage_cuts(&pool(5, 3, 50, 0, &cuts, &[0, 1, 2], 3));
    let buf_b = serialize_stage_cuts(&pool(5, 3, 50, 0, &cuts, &[0, 1, 2], 3));

    assert_eq!(buf_a, buf_b, "output must be byte-identical for same input");
}

#[test]
fn serialize_stage_cuts_non_empty_for_varying_state_dimensions() {
    for &dim in &[1u32, 10, 100, 1000] {
        let coefs: Vec<Float64> = (0..dim).map(|x| float(f64::from(x))).collect();
        let cut = PolicyCutRecord {
            cut_id: 0,
            slot_index: 0,
            iteration: 1,
            forward_pass_index: 0,
            intercept: float(0.0),
            coefficients: &coefs,
            is_active: true,
        };
        let buf = serialize_stage_cuts(&pool(0, dim, 10, 0, &[cut], &[0], 1));
        assert!(
            !buf.is_empty(),
            "buffer must not be empty for state_dimension={dim}"
        );
    }
}

#[test]
fn deserialize_stage_cuts_single_cut_all_fields() {
    let coefficients = floats(&[1.0, 2.0, 3.0]);
    let cut = PolicyCutRecord {
        cut_id: 7,
        slot_index: 5,
        iteration: 3,
        forward_pass_index: 2,
        intercept: float(42.0),
        coefficients: &coefficients,
        is_active: true,
    };

    let buf = serialize_stage_cuts(&pool(0, 3, 100, 0, &[cut], &[0], 1));
    let result = deserialize_stage_cuts(&buf).expect("deserialization must succeed");

    assert_eq!(result.stage_id, 0, "stage_id must round-trip");
    assert_eq!(result.state_dimension, 3, "state_dimension must round-trip");
    assert_eq!(result.capacity, 100, "capacity must round-trip");
    assert_eq!(
        result.warm_start_count, 0,
        "warm_start_count must round-trip"
    );
    assert_eq!(result.populated_count, 1, "populated_count must round-trip");
    assert_eq!(result.cuts.len(), 1, "one cut must be deserialized");

    let c = &result.cuts[0];
    assert_eq!(c.cut_id, 7, "cut_id must round-trip");
    assert_eq!(c.slot_index, 5, "slot_index must round-trip");
    assert_eq!(c.iteration, 3, "iteration must round-trip");
    assert_eq!(
        c.forward_pass_index, 2,
        "forward_pass_index must round-trip"
    );
    assert_eq!(c.intercept, float(42.0), "intercept must round-trip");
    assert_eq!(
        c.coefficients,
        floats(&[1.0, 2.0, 3.0]),
        "coefficients must round-trip"
    );
    assert!(c.is_active, "is_active must round-trip");
}

#[test]
fn deserialize_stage_cuts_three_cuts_all_match() {
    let c0 = floats(&[1.0, 0.5]);
    let c1 = floats(&[2.0, 1.5]);
    let c2 = floats(&[3.0, 2.5]);
    let cuts = [
        PolicyCutRecord {
            cut_id: 10,
            slot_index: 0,
            iteration: 1,
            forward_pass_index: 0,
            intercept: float(100.0),
            coefficients: &c0,
            is_active: true,
        },
        PolicyCutRecord {
            cut_id: 20,
            slot_index: 1,
            iteration: 2,
            forward_pass_index: 1,
            intercept: float(200.0),
            coefficients: &c1,
            is_active: false,
        },
        PolicyCutRecord {
            cut_id: 30,
            slot_index: 2,
            iteration: 3,
            forward_pass_index: 2,
            intercept: float(300.0),
            coefficients: &c2,
            is_active: true,
        },
    ];

    let buf = serialize_stage_cuts(&pool(5, 2, 50, 1, &cuts, &[0, 2], 3));
    let result = deserialize_stage_cuts(&buf).expect("deserialization must succeed");

    assert_eq!(result.stage_id, 5);
    assert_eq!(result.state_dimension, 2);
    assert_eq!(result.capacity, 50);
    assert_eq!(result.warm_start_count, 1);
    assert_eq!(result.populated_count, 3);
    assert_eq!(result.cuts.len(), 3);

    let expected_cut_ids = [10u64, 20, 30];
    let expected_intercepts = [100.0f64, 200.0, 300.0];
    let expected_coefficients = [&c0[..], &c1[..], &c2[..]];
    let expected_active = [true, false, true];

    for (i, cut) in result.cuts.iter().enumerate() {
        assert_eq!(cut.cut_id, expected_cut_ids[i], "cut {i} cut_id");
        assert_eq!(
            cut.intercept,
            float(expected_intercepts[i]),
            "cut {i} intercept"
        );
        assert_eq!(
            cut.coefficients, expected_coefficients[i],
            "cut {i} coefficients"
        );
        assert_eq!(cut.is_active, expected_active[i], "cut {i} is_active");
    }
}

#[test]
fn deserialize_stage_cuts_empty_cut_pool() {
    let buf = serialize_stage_cuts(&pool(2, 10, 200, 0, &[], &[], 0));
    let result =
        deserialize_stage_cuts(&buf).expect("deserialization of empty cut pool must succeed");

    assert_eq!(result.stage_id, 2);
    assert_eq!(result.capacity, 200);
    assert_eq!(result.populated_count, 0);
    assert!(
        result.cuts.is_empty(),
        "empty cut pool must produce zero cuts"
    );
}

#[test]
fn deserialize_stage_cuts_zero_length_coefficients() {
    let cut = PolicyCutRecord {
        cut_id: 1,
        slot_index: 0,
        iteration: 1,
        forward_pass_index: 0,
        intercept: float(5.0),
        coefficients: &[],
        is_active: true,
    };
    let buf = serialize_stage_cuts(&pool(0, 0, 10, 0, &[cut], &[0], 1));
    let result = deserialize_stage_cuts(&buf).expect("zero-length coefficients must deserialize");
    assert_eq!(result.cuts.len(), 1);
    assert!(
        result.cuts[0].coefficients.is_empty(),
        "empty coefficients must round-trip"
    );
}

#[test]
fn deserialize_stage_cuts_large_coefficient_vector() {
    let dim = 1000u32;
    let coefs: Vec<Float64> = (0..dim).map(|x| float(f64::from(x))).collect();
    let cut = PolicyCutRecord {
        cut_id: 42,
        slot_index: 0,
        iteration: 1,
        forward_pass_index: 0,
        intercept: float(-99.0),
        coefficients: &coefs,
        is_active: false,
    };
    let buf = serialize_stage_cuts(&pool(3, dim, 10, 0, &[cut], &[0], 1));
    let result = deserialize_stage_cuts(&buf).expect("large coefficient vector must deserialize");
    assert_eq!(result.cuts[0].coefficients.len(), dim as usize);
    assert_eq!(result.cuts[0].coefficients[999], float(999.0));
    assert_eq!(result.cuts[0].intercept, float(-99.0));
}

#[test]
fn deserialize_stage_cuts_truncated_buffer_returns_error() {
    let coefs = floats(&[1.0, 2.0]);
    let cut = make_cut_record(1, 0, 1, &coefs);
    let full_buf = serialize_stage_cuts(&pool(0, 2, 10, 0, &[cut], &[0], 1));
    // Truncate to 2 bytes: the root offset itself is incomplete.
    let truncated = &full_buf[..2];
    let result = deserialize_stage_cuts(truncated);
    assert!(result.is_err(), "truncated buffer must return an error");
}

#[test]
fn deserialize_stage_cuts_stage_id_nonzero() {
    let buf = serialize_stage_cuts(&pool(59, 4, 50, 0, &[], &[], 0));
    let result = deserialize_stage_cuts(&buf).expect("stage_id=59 must deserialize");
    assert_eq!(result.stage_id, 59, "stage_id=59 must round-trip");
}

#[test]
fn deserialize_rejects_buffer_without_cbvf_identifier() {
    let coeffs = floats(&[1.0, 2.0]);
    let cut = PolicyCutRecord {
        cut_id: 1,
        slot_index: 0,
        iteration: 1,
        forward_pass_index: 0,
        intercept: float(3.0),
        coefficients: &coeffs,
        is_active: true,
    };
    let mut buf = serialize_stage_cuts(&pool(0, 2, 8, 0, &[cut], &[0], 1));
    assert_eq!(
        buf.get(4..8),
        Some(schema::POLICY_FILE_IDENTIFIER.as_bytes()),
        "a freshly written buffer must carry the CBVF identifier"
    );

    buf[4..8].copy_from_slice(&[0, 0, 0, 0]);
    let err = deserialize_stage_cuts(&buf)
        .expect_err("a buffer without the CBVF identifier must be rejected");
    assert!(
        message(&err).contains(schema::POLICY_FILE_IDENTIFIER),
        "rejection must name the expected identifier: {err:?}"
    );
}

#[test]
fn every_decoder_rejects_a_buffer_without_the_identifier() {
    let bytes = [0u8; 64];
    for err in [
        deserialize_stage_cuts(&bytes).expect_err("cuts"),
        deserialize_stage_basis(&bytes).expect_err("basis"),
        deserialize_stage_states(&bytes).expect_err("states"),
        deserialize_checkpoint_manifest(&bytes).expect_err("manifest"),
    ] {
        assert!(message(&err).contains("CBVF"), "{err:?}");
    }
}

#[test]
fn entity_slot_new_date_fields_round_trip() {
    let coeffs = floats(&[1.0, 2.0]);
    let cut = PolicyCutRecord {
        cut_id: 1,
        slot_index: 0,
        iteration: 1,
        forward_pass_index: 0,
        intercept: float(3.0),
        coefficients: &coeffs,
        is_active: true,
    };
    let manifest = [
        EntitySlot::inflow_lag(5, 3, true).with_reference_date(20_310_401),
        EntitySlot::transit_bucket(9, 2, true).with_interval(20_311_201, 20_320_101),
    ];
    let cuts = [cut];
    let mut payload = pool(0, 2, 8, 0, &cuts, &[0], 1);
    payload.entity_manifest = &manifest;
    let buf = serialize_stage_cuts(&payload);

    let result = deserialize_stage_cuts(&buf).expect("round-trip must succeed");
    assert_eq!(result.entity_manifest[0].reference_date, 20_310_401);
    assert_eq!(
        result.entity_manifest[0].interval_start,
        ENTITY_SLOT_DELIVERY_DATE_SENTINEL
    );
    assert_eq!(
        result.entity_manifest[0].interval_end,
        ENTITY_SLOT_DELIVERY_DATE_SENTINEL
    );
    assert_eq!(result.entity_manifest[1].interval_start, 20_311_201);
    assert_eq!(result.entity_manifest[1].interval_end, 20_320_101);
    assert_eq!(
        result.entity_manifest[1].reference_date,
        ENTITY_SLOT_DELIVERY_DATE_SENTINEL
    );
}

#[test]
fn stage_cuts_priced_state_date_round_trips() {
    let coeffs = floats(&[1.0, 2.0]);
    let cut = PolicyCutRecord {
        cut_id: 1,
        slot_index: 0,
        iteration: 1,
        forward_pass_index: 0,
        intercept: float(3.0),
        coefficients: &coeffs,
        is_active: true,
    };
    let cuts = [cut];
    let mut payload = pool(0, 2, 8, 0, &cuts, &[0], 1);
    payload.priced_state_date = 20_311_201;
    let buf = serialize_stage_cuts(&payload);

    let result = deserialize_stage_cuts(&buf).expect("round-trip must succeed");
    assert_eq!(result.priced_state_date, 20_311_201);
}

#[test]
fn stage_cuts_absent_priced_state_date_reads_as_sentinel() {
    let mut builder = FlatBufferBuilder::with_capacity(64);
    let cuts_vec = builder.create_vector::<WIPOffset<flatbuffers::TableFinishedWIPOffset>>(&[]);
    let active_vec = builder.create_vector::<u32>(&[]);
    let manifest_vec =
        builder.create_vector::<WIPOffset<flatbuffers::TableFinishedWIPOffset>>(&[]);

    let root = builder.start_table();
    builder.push_slot_always::<u32>(schema::STAGE_CUTS_FIELD_STAGE_ID, 3);
    builder.push_slot_always::<u32>(schema::STAGE_CUTS_FIELD_STATE_DIMENSION, 0);
    builder.push_slot_always::<u32>(schema::STAGE_CUTS_FIELD_CAPACITY, 0);
    builder.push_slot_always::<u32>(schema::STAGE_CUTS_FIELD_WARM_START_COUNT, 0);
    builder.push_slot_always(schema::STAGE_CUTS_FIELD_CUTS, cuts_vec);
    builder.push_slot_always(schema::STAGE_CUTS_FIELD_ACTIVE_CUT_INDICES, active_vec);
    builder.push_slot_always::<u32>(schema::STAGE_CUTS_FIELD_POPULATED_COUNT, 0);
    builder.push_slot_always(schema::STAGE_CUTS_FIELD_ENTITY_MANIFEST, manifest_vec);
    builder.push_slot_always::<f64>(schema::STAGE_CUTS_FIELD_COST_SCALE_FACTOR, 1_000_000.0);
    builder.push_slot_always::<i32>(schema::STAGE_CUTS_FIELD_NODE_ID, -1);
    builder.push_slot_always::<i32>(schema::STAGE_CUTS_FIELD_GRAPH_STAGE_ID, -1);
    // The field of the priced state's date is left out.
    let root_offset = builder.end_table(root);
    builder.finish(root_offset, Some(schema::POLICY_FILE_IDENTIFIER));

    let buf = builder.finished_data().to_vec();
    let result = deserialize_stage_cuts(&buf)
        .expect("a buffer with only ids 0-10 present must still decode");
    assert_eq!(
        result.priced_state_date,
        STAGE_CUTS_PRICED_STATE_DATE_SENTINEL
    );
    assert_eq!(result.stage_id, 3);
    assert_eq!(result.cost_scale_factor, Some(float(1_000_000.0)));
}

// ── Bases ────────────────────────────────────────────────────────────────────

#[test]
fn serialize_stage_basis_round_trip() {
    let record = PolicyBasisRecord {
        stage_id: 0,
        iteration: 5,
        column_status: &[0, 1, 2],
        row_status: &[1, 1, 0, 0],
        num_cut_rows: 2,
    };

    let buf = serialize_stage_basis(&record);

    assert!(!buf.is_empty(), "buffer must not be empty");
    assert!(buf.len() >= 4, "buffer must have at least 4 bytes");
    let root_offset = u32::from_le_bytes([buf[0], buf[1], buf[2], buf[3]]) as usize;
    assert!(
        root_offset < buf.len(),
        "root offset must point inside the buffer"
    );
}

#[test]
fn serialize_stage_basis_empty_status_vectors() {
    let record = PolicyBasisRecord {
        stage_id: 1,
        iteration: 0,
        column_status: &[],
        row_status: &[],
        num_cut_rows: 0,
    };

    let buf = serialize_stage_basis(&record);

    assert!(
        !buf.is_empty(),
        "buffer must not be empty even with empty status vectors"
    );
    assert!(
        buf.len() >= 4,
        "buffer must have at least 4 bytes even with empty status vectors"
    );
}

#[test]
fn serialize_stage_basis_deterministic() {
    let col = [0u8, 1, 2, 3];
    let row = [1u8, 0, 1, 0, 1];
    let record = PolicyBasisRecord {
        stage_id: 7,
        iteration: 12,
        column_status: &col,
        row_status: &row,
        num_cut_rows: 3,
    };

    let buf_a = serialize_stage_basis(&record);
    let buf_b = serialize_stage_basis(&record);

    assert_eq!(
        buf_a, buf_b,
        "basis output must be byte-identical for same input"
    );
}

#[test]
fn deserialize_stage_basis_all_fields() {
    let record = PolicyBasisRecord {
        stage_id: 3,
        iteration: 7,
        column_status: &[0, 1, 2, 3],
        row_status: &[1, 0, 1, 0, 1],
        num_cut_rows: 2,
    };

    let buf = serialize_stage_basis(&record);
    let owned = deserialize_stage_basis(&buf).expect("basis round-trip must succeed");

    assert_eq!(owned.stage_id, 3, "stage_id must round-trip");
    assert_eq!(owned.iteration, 7, "iteration must round-trip");
    assert_eq!(
        owned.column_status,
        &[0u8, 1, 2, 3],
        "column_status must round-trip"
    );
    assert_eq!(
        owned.row_status,
        &[1u8, 0, 1, 0, 1],
        "row_status must round-trip"
    );
    assert_eq!(owned.num_cut_rows, 2, "num_cut_rows must round-trip");
}

#[test]
fn deserialize_stage_basis_empty_status_vectors() {
    let record = PolicyBasisRecord {
        stage_id: 0,
        iteration: 0,
        column_status: &[],
        row_status: &[],
        num_cut_rows: 0,
    };

    let buf = serialize_stage_basis(&record);
    let owned = deserialize_stage_basis(&buf).expect("empty basis must deserialize");

    assert!(
        owned.column_status.is_empty(),
        "empty column_status must round-trip"
    );
    assert!(
        owned.row_status.is_empty(),
        "empty row_status must round-trip"
    );
    assert_eq!(owned.num_cut_rows, 0);
}

#[test]
fn deserialize_stage_basis_large_status_vectors() {
    let col: Vec<u8> = (0..200u8).collect();
    let row: Vec<u8> = (0..100u8).rev().collect();
    let record = PolicyBasisRecord {
        stage_id: 10,
        iteration: 99,
        column_status: &col,
        row_status: &row,
        num_cut_rows: 50,
    };

    let buf = serialize_stage_basis(&record);
    let owned = deserialize_stage_basis(&buf).expect("large basis must deserialize");

    assert_eq!(owned.column_status, col);
    assert_eq!(owned.row_status, row);
    assert_eq!(owned.num_cut_rows, 50);
}

#[test]
fn deserialize_stage_basis_truncated_buffer_returns_error() {
    let record = PolicyBasisRecord {
        stage_id: 0,
        iteration: 1,
        column_status: &[0, 1],
        row_status: &[1, 0],
        num_cut_rows: 0,
    };
    let full_buf = serialize_stage_basis(&record);
    let truncated = &full_buf[..3];
    let result = deserialize_stage_basis(truncated);
    assert!(
        result.is_err(),
        "truncated basis buffer must return an error"
    );
}

/// A root table whose vtable places `stage_id` behind the end of the buffer.
#[test]
fn a_basis_field_outside_the_buffer_is_an_error() {
    let buf = [
        16, 0, 0, 0, b'C', b'B', b'V', b'F', 6, 0, 8, 0, 4, 0, 0, 0, 8, 0, 0, 0,
    ];
    let err = deserialize_stage_basis(&buf).expect_err("stage_id is cut off");
    assert!(message(&err).contains("truncated"), "{err:?}");
    let mut whole = buf.to_vec();
    whole.extend_from_slice(&[7, 0, 0, 0]);
    assert_eq!(
        deserialize_stage_basis(&whole).map(|b| b.stage_id).ok(),
        Some(7),
        "the same table with its field in the buffer"
    );
}

/// A root table whose vtable holds no field: each has its default.
#[test]
fn absent_basis_fields_have_their_defaults() {
    let buf = [
        12, 0, 0, 0, b'C', b'B', b'V', b'F', 4, 0, 4, 0, 4, 0, 0, 0,
    ];
    let basis = deserialize_stage_basis(&buf).expect("an empty table");
    assert_eq!(basis.stage_id, 0);
    assert_eq!(basis.iteration, 0);
    assert!(basis.column_status.is_empty());
    assert!(basis.row_status.is_empty());
    assert_eq!(basis.num_cut_rows, 0);
}

/// A vtable that claims more bytes than the buffer has.
#[test]
fn a_vtable_that_is_cut_off_is_an_error() {
    let buf = [
        8, 0, 0, 0, b'C', b'B', b'V', b'F', 252, 255, 255, 255, 12, 0, 4, 0,
    ];
    assert!(deserialize_stage_basis(&buf).is_err());
    assert!(deserialize_stage_states(&buf).is_err());
    assert!(deserialize_stage_cuts(&buf).is_err());
    assert!(deserialize_checkpoint_manifest(&buf).is_err());
}

/// No first part of a stored basis, pool, set of states or manifest that loses a
/// field reads as something else.
#[test]
fn cut_buffers_are_refused_or_read_as_they_were() {
    let basis = serialize_stage_basis(&PolicyBasisRecord {
        stage_id: 3,
        iteration: 9,
        column_status: &[1, 2, 3],
        row_status: &[4],
        num_cut_rows: 2,
    });
    let whole = deserialize_stage_basis(&basis).expect("whole basis");
    for n in 0..basis.len() {
        if let Ok(read) = deserialize_stage_basis(&basis[..n]) {
            assert_eq!(read, whole, "first {n} bytes");
        }
    }
    let coefficients = floats(&[1.0, 2.0]);
    let cuts = serialize_stage_cuts(&pool(
        4,
        2,
        10,
        1,
        &[make_cut_record(7, 0, 1, &coefficients)],
        &[0],
        1,
    ));
    let whole = deserialize_stage_cuts(&cuts).expect("whole pool");
    for n in 0..cuts.len() {
        if let Ok(read) = deserialize_stage_cuts(&cuts[..n]) {
            assert_eq!(read, whole, "first {n} bytes");
        }
    }
}

/// Buffers are stored for targets that align each integer to its own size.
#[test]
fn integers_are_aligned_to_their_size() {
    assert_eq!(std::mem::align_of::<u16>(), 2);
    assert_eq!(std::mem::align_of::<u32>(), 4);
    assert_eq!(std::mem::align_of::<i32>(), 4);
    assert_eq!(std::mem::align_of::<u64>(), 8);
}

/// The root table of a basis is aligned and has seven fields.
#[test]
fn a_basis_table_is_aligned_and_has_seven_fields() {
    let buf = serialize_stage_basis(&PolicyBasisRecord {
        stage_id: 1,
        iteration: 2,
        column_status: &[9],
        row_status: &[],
        num_cut_rows: 3,
    });
    assert_eq!(buf.len() % 4, 0);
    assert_eq!(buf.get(4..8), Some(&b"CBVF"[..]));
    let root = u32::from_le_bytes([buf[0], buf[1], buf[2], buf[3]]) as usize;
    assert_eq!(root % 4, 0);
    let back = i32::from_le_bytes([buf[root], buf[root + 1], buf[root + 2], buf[root + 3]]);
    let vtable = usize::try_from(root as i64 - i64::from(back)).expect("vtable");
    assert_eq!(vtable % 2, 0);
    assert_eq!(buf[vtable], 18, "four bytes and seven fields of two");
}

// ── States ───────────────────────────────────────────────────────────────────

#[test]
fn stage_states_round_trip() {
    let data = floats(&[1.5, -2.5, f64::INFINITY, 0.0]);
    let manifest = [
        EntitySlot::storage(4, true),
        EntitySlot::anticipated(8, 1, false),
    ];
    let buf = serialize_stage_states(&StageStatesPayload {
        stage_id: 6,
        node_id: 11,
        state_dimension: 2,
        count: 2,
        data: &data,
        entity_manifest: &manifest,
    });
    assert_root_in_range(&buf);
    assert_eq!(buf.get(4..8), Some(&b"CBVF"[..]));

    let result = deserialize_stage_states(&buf).expect("states must deserialize");
    assert_eq!(result.stage_id, 6);
    assert_eq!(result.node_id, 11);
    assert_eq!(result.state_dimension, 2);
    assert_eq!(result.count, 2);
    assert_eq!(result.data, data);
    assert_eq!(result.entity_manifest, manifest.to_vec());
}

#[test]
fn truncated_stage_states_return_an_error() {
    let buf = serialize_stage_states(&StageStatesPayload {
        stage_id: 0,
        node_id: -1,
        state_dimension: 1,
        count: 1,
        data: &floats(&[1.0]),
        entity_manifest: &[],
    });
    for n in 0..16 {
        assert!(deserialize_stage_states(&buf[..n]).is_err(), "first {n} bytes");
    }
}

// ── Manifest ─────────────────────────────────────────────────────────────────

fn minimal_manifest_producer() -> ProducerBlock {
    ProducerBlock {
        completed_iterations: 0,
        final_lower_bound: float(0.0),
        best_upper_bound: None,
        max_iterations: 0,
        forward_passes: 0,
        warm_start_cuts: 0,
        warm_start_counts: vec![],
        rng_seed: 0,
        total_visited_states: 0,
        training_block_mode: "parallel".to_string(),
        training_block_mode_per_stage: vec![],
        cost_scale_factor: None,
    }
}

fn no_graph() -> GraphManifest {
    GraphManifest {
        n_pools: 0,
        nodes: vec![],
        edges: vec![],
    }
}

#[test]
fn checkpoint_manifest_season_descriptor_round_trips() {
    let manifest = CheckpointManifest {
        format_version: FORMAT_VERSION,
        cobre_version: "0.14.0".to_string(),
        created_at: "2026-09-15T00:00:00Z".to_string(),
        num_stages: 2,
        graph_manifest: no_graph(),
        producer: minimal_manifest_producer(),
        season_manifest: SeasonManifest {
            cycle_code: SEASON_CYCLE_CODE_MONTHLY,
            n_seasons: 12,
            hydro_orders: vec![
                HydroSeasonOrders {
                    hydro_id: 3,
                    orders: vec![1, 2, 1, 1, 3, 2, 1, 1, 2, 2, 1, 1],
                },
                HydroSeasonOrders {
                    hydro_id: 9,
                    orders: vec![4, 4, 3, 3, 2, 2, 1, 1, 2, 2, 3, 3],
                },
            ],
        },
    };

    let buf = serialize_checkpoint_manifest(&manifest);
    let decoded = deserialize_checkpoint_manifest(&buf).expect("round-trip must succeed");

    assert_eq!(
        decoded.season_manifest.cycle_code,
        SEASON_CYCLE_CODE_MONTHLY
    );
    assert_eq!(decoded.season_manifest.n_seasons, 12);
    assert_eq!(decoded.season_manifest.hydro_orders.len(), 2);
    assert_eq!(decoded.season_manifest.hydro_orders[0].hydro_id, 3);
    assert_eq!(
        decoded.season_manifest.hydro_orders[0].orders,
        vec![1, 2, 1, 1, 3, 2, 1, 1, 2, 2, 1, 1]
    );
    assert_eq!(decoded.season_manifest.hydro_orders[1].hydro_id, 9);
    assert_eq!(
        decoded.season_manifest.hydro_orders[1].orders,
        vec![4, 4, 3, 3, 2, 2, 1, 1, 2, 2, 3, 3]
    );
}

#[test]
fn checkpoint_manifest_rejects_unsorted_season_hydro_orders() {
    let manifest = CheckpointManifest {
        format_version: FORMAT_VERSION,
        cobre_version: "0.14.0".to_string(),
        created_at: "2026-09-16T00:00:00Z".to_string(),
        num_stages: 1,
        graph_manifest: no_graph(),
        producer: minimal_manifest_producer(),
        season_manifest: SeasonManifest {
            cycle_code: SEASON_CYCLE_CODE_MONTHLY,
            n_seasons: 2,
            hydro_orders: vec![
                HydroSeasonOrders {
                    hydro_id: 9,
                    orders: vec![1, 1],
                },
                HydroSeasonOrders {
                    hydro_id: 3,
                    orders: vec![1, 1],
                },
            ],
        },
    };
    let buf = serialize_checkpoint_manifest(&manifest);

    let err = deserialize_checkpoint_manifest(&buf)
        .expect_err("hydro_orders not ascending by hydro_id must be rejected");
    let msg = message(&err);
    assert!(
        msg.contains("hydro_orders") && msg.contains("ascending"),
        "rejection must name the ordering violation: {err:?}"
    );
}

#[test]
fn checkpoint_manifest_rejects_season_orders_length_mismatch() {
    let manifest = CheckpointManifest {
        format_version: FORMAT_VERSION,
        cobre_version: "0.14.0".to_string(),
        created_at: "2026-09-16T00:00:00Z".to_string(),
        num_stages: 1,
        graph_manifest: no_graph(),
        producer: minimal_manifest_producer(),
        season_manifest: SeasonManifest {
            cycle_code: SEASON_CYCLE_CODE_MONTHLY,
            n_seasons: 4,
            hydro_orders: vec![HydroSeasonOrders {
                hydro_id: 3,
                orders: vec![1, 1, 1],
            }],
        },
    };
    let buf = serialize_checkpoint_manifest(&manifest);

    let err = deserialize_checkpoint_manifest(&buf)
        .expect_err("orders.len() != n_seasons must be rejected");
    let msg = message(&err);
    assert!(
        msg.contains("hydro_id 3") && msg.contains("n_seasons=4"),
        "rejection must name the hydro and the expected season count: {err:?}"
    );
}

#[test]
fn checkpoint_manifest_absent_season_descriptor_reads_as_absent_cycle_code() {
    let mut builder = FlatBufferBuilder::with_capacity(128);

    let cobre_version = builder.create_string("0.13.0");
    let created_at = builder.create_string("2026-01-01T00:00:00Z");
    let training_block_mode = builder.create_string("parallel");
    let nodes_vec = builder.create_vector::<WIPOffset<flatbuffers::TableFinishedWIPOffset>>(&[]);
    let edges_vec = builder.create_vector::<WIPOffset<flatbuffers::TableFinishedWIPOffset>>(&[]);
    let warm_start_counts_vec = builder.create_vector::<u32>(&[]);
    let per_stage_offsets: Vec<WIPOffset<&str>> = Vec::new();
    let per_stage_vec = builder.create_vector(&per_stage_offsets);

    let root = builder.start_table();
    builder.push_slot_always::<u32>(schema::MANIFEST_FIELD_FORMAT_VERSION, FORMAT_VERSION);
    builder.push_slot_always(schema::MANIFEST_FIELD_COBRE_VERSION, cobre_version);
    builder.push_slot_always(schema::MANIFEST_FIELD_CREATED_AT, created_at);
    builder.push_slot_always::<u32>(schema::MANIFEST_FIELD_NUM_STAGES, 1);
    builder.push_slot_always::<u32>(schema::MANIFEST_FIELD_N_POOLS, 0);
    builder.push_slot_always(schema::MANIFEST_FIELD_NODES, nodes_vec);
    builder.push_slot_always(schema::MANIFEST_FIELD_EDGES, edges_vec);
    builder.push_slot_always::<u32>(schema::MANIFEST_FIELD_COMPLETED_ITERATIONS, 0);
    builder.push_slot_always::<f64>(schema::MANIFEST_FIELD_FINAL_LOWER_BOUND, 0.0);
    builder.push_slot_always::<u32>(schema::MANIFEST_FIELD_MAX_ITERATIONS, 0);
    builder.push_slot_always::<u32>(schema::MANIFEST_FIELD_FORWARD_PASSES, 0);
    builder.push_slot_always::<u32>(schema::MANIFEST_FIELD_WARM_START_CUTS, 0);
    builder.push_slot_always(
        schema::MANIFEST_FIELD_WARM_START_COUNTS,
        warm_start_counts_vec,
    );
    builder.push_slot_always::<u64>(schema::MANIFEST_FIELD_RNG_SEED, 0);
    builder.push_slot_always::<u64>(schema::MANIFEST_FIELD_TOTAL_VISITED_STATES, 0);
    builder.push_slot_always(
        schema::MANIFEST_FIELD_TRAINING_BLOCK_MODE,
        training_block_mode,
    );
    builder.push_slot_always(
        schema::MANIFEST_FIELD_TRAINING_BLOCK_MODE_PER_STAGE,
        per_stage_vec,
    );
    // The field of the season descriptor is left out.
    let root_offset = builder.end_table(root);
    builder.finish(root_offset, Some(schema::POLICY_FILE_IDENTIFIER));

    let buf = builder.finished_data().to_vec();
    let decoded = deserialize_checkpoint_manifest(&buf)
        .expect("a buffer with only ids 0-18 present must still decode");

    assert_eq!(decoded.season_manifest.cycle_code, SEASON_CYCLE_CODE_ABSENT);
    assert_eq!(decoded.season_manifest.n_seasons, 0);
    assert!(decoded.season_manifest.hydro_orders.is_empty());
}

#[test]
fn checkpoint_manifest_all_fields_round_trip() {
    let manifest = CheckpointManifest {
        format_version: FORMAT_VERSION,
        cobre_version: "0.14.0-\u{e9}".to_string(),
        created_at: "2026-09-15T00:00:00Z".to_string(),
        num_stages: 3,
        graph_manifest: GraphManifest {
            n_pools: 2,
            nodes: vec![
                ManifestNode {
                    id: -1,
                    stage_id: 0,
                    pool_id: 0,
                },
                ManifestNode {
                    id: 5,
                    stage_id: 1,
                    pool_id: 1,
                },
            ],
            edges: vec![ManifestEdge {
                source_id: -1,
                target_id: 5,
                probability: float(0.25),
            }],
        },
        producer: ProducerBlock {
            completed_iterations: 77,
            final_lower_bound: float(12345.678),
            best_upper_bound: Some(float(13000.0)),
            max_iterations: 500,
            forward_passes: 8,
            warm_start_cuts: 20,
            warm_start_counts: vec![20, 20, 20, 20],
            rng_seed: 99999,
            total_visited_states: u64::MAX,
            training_block_mode: "chronological".to_string(),
            training_block_mode_per_stage: vec!["parallel".to_string(), String::new()],
            cost_scale_factor: Some(float(1_000_000.0)),
        },
        season_manifest: SeasonManifest::default(),
    };

    let decoded = deserialize_checkpoint_manifest(&serialize_checkpoint_manifest(&manifest))
        .expect("round-trip must succeed");
    assert_eq!(decoded.format_version, FORMAT_VERSION);
    assert_eq!(decoded.cobre_version, manifest.cobre_version);
    assert_eq!(decoded.created_at, manifest.created_at);
    assert_eq!(decoded.num_stages, 3);
    assert_eq!(decoded.graph_manifest.n_pools, 2);
    assert_eq!(decoded.graph_manifest.nodes, manifest.graph_manifest.nodes);
    assert_eq!(decoded.graph_manifest.edges, manifest.graph_manifest.edges);
    let p = &decoded.producer;
    assert_eq!(p.completed_iterations, 77);
    assert_eq!(p.final_lower_bound, float(12345.678));
    assert_eq!(p.best_upper_bound, Some(float(13000.0)));
    assert_eq!(p.max_iterations, 500);
    assert_eq!(p.forward_passes, 8);
    assert_eq!(p.warm_start_cuts, 20);
    assert_eq!(p.warm_start_counts, vec![20, 20, 20, 20]);
    assert_eq!(p.rng_seed, 99999);
    assert_eq!(p.total_visited_states, u64::MAX);
    assert_eq!(p.training_block_mode, "chronological");
    assert_eq!(
        p.training_block_mode_per_stage,
        vec!["parallel".to_string(), String::new()]
    );
    assert_eq!(p.cost_scale_factor, Some(float(1_000_000.0)));
    assert_eq!(decoded.season_manifest.cycle_code, SEASON_CYCLE_CODE_ABSENT);
}

#[test]
fn checkpoint_manifest_of_another_version_is_refused() {
    let manifest = CheckpointManifest {
        format_version: FORMAT_VERSION + 1,
        cobre_version: "0.15.0".to_string(),
        created_at: "2026-09-15T00:00:00Z".to_string(),
        num_stages: 1,
        graph_manifest: no_graph(),
        producer: minimal_manifest_producer(),
        season_manifest: SeasonManifest::default(),
    };
    let err = deserialize_checkpoint_manifest(&serialize_checkpoint_manifest(&manifest))
        .expect_err("another version must be refused");
    assert!(message(&err).contains("version"), "{err:?}");
}

/// The message names the first plant whose orders are too many or too few.
#[test]
fn a_badly_shaped_season_manifest_is_refused_with_its_message() {
    let season = |hydro_orders: Vec<HydroSeasonOrders>| {
        serialize_checkpoint_manifest(&CheckpointManifest {
            format_version: FORMAT_VERSION,
            cobre_version: "0.14.0".to_string(),
            created_at: "2026-09-16T00:00:00Z".to_string(),
            num_stages: 1,
            graph_manifest: no_graph(),
            producer: minimal_manifest_producer(),
            season_manifest: SeasonManifest {
                cycle_code: SEASON_CYCLE_CODE_MONTHLY,
                n_seasons: 2,
                hydro_orders,
            },
        })
    };
    let of = |hydro_id: i32, n: usize| HydroSeasonOrders {
        hydro_id,
        orders: vec![1; n],
    };
    assert!(deserialize_checkpoint_manifest(&season(vec![of(3, 2), of(9, 2)])).is_ok());
    let repeated = deserialize_checkpoint_manifest(&season(vec![of(3, 2), of(3, 2)]))
        .expect_err("a plant that comes twice");
    assert!(message(&repeated).contains("ascending"), "{repeated:?}");
    let short = deserialize_checkpoint_manifest(&season(vec![of(3, 2), of(9, 1)]))
        .expect_err("too few orders");
    assert!(message(&short).contains("hydro_id 9"), "{short:?}");
    assert!(message(&short).contains("n_seasons=2"), "{short:?}");
}
