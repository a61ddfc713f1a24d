//! Production models of hydro plants.

use cobre_io::entities::EntityId;
use cobre_io::error::LoadError;
use cobre_io::extensions::production_models::{
    parse_production_models, rejected_text, FittingWindow, FphaColumnLayout,
    PlaneReductionConfig, ProductionModelFile, RawProductionModel, RawProductionModelFile,
    RawReferenceVolume, RawSeasonConfig, RawSelectionMode, RawStageRange, ReferenceVolume,
    SelectionMode,
};
use cobre_io::float::Float64;
use cobre_io::text::Piece;
use serde_json::Value;

#[derive(Debug)]
enum Failure {
    Schema { field: String, message: String },
    Other(String),
}

fn render(message: &[Piece]) -> String {
    message
        .iter()
        .map(|p| match p {
            Piece::Text(s) => s.to_string(),
            Piece::Name(s) => s.clone(),
            Piece::Quoted(s) => format!("{s:?}"),
            Piece::Int(n) => n.to_string(),
            Piece::Count(n) => n.to_string(),
            Piece::Float(x) => format!("{}", f64::from_bits(x.bits)),
            Piece::Day(d) => format!("{:04}-{:02}-{:02}", d.year, d.month, d.day),
        })
        .collect()
}

fn failure(e: LoadError) -> Failure {
    match e {
        LoadError::SchemaError { field, message, .. } => Failure::Schema {
            field,
            message: render(&message),
        },
        other => Failure::Other(format!("{other:?}")),
    }
}

fn float(x: f64) -> Float64 {
    Float64 { bits: x.to_bits() }
}

// ── Reading the values of a file ─────────────────────────────────────────────

fn number(v: &Value, key: &str) -> Option<Float64> {
    v.get(key).and_then(Value::as_f64).map(float)
}

fn integer(v: &Value, key: &str) -> Option<i32> {
    v.get(key)
        .and_then(Value::as_i64)
        .map(|n| i32::try_from(n).expect("i32"))
}

fn text(v: &Value, key: &str) -> String {
    v.get(key).and_then(Value::as_str).expect("text").to_string()
}

fn layout(v: &Value) -> Option<FphaColumnLayout> {
    let c = v.get("fpha_config").filter(|c| c.is_object())?;
    Some(FphaColumnLayout {
        source: text(c, "source"),
        volume_discretization_points: integer(c, "volume_discretization_points"),
        turbine_discretization_points: integer(c, "turbine_discretization_points"),
        spillage_discretization_points: integer(c, "spillage_discretization_points"),
        max_planes_per_hydro: integer(c, "max_planes_per_hydro"),
        fitting_window: c.get("fitting_window").map(|w| FittingWindow {
            volume_min_hm3: number(w, "volume_min_hm3"),
            volume_max_hm3: number(w, "volume_max_hm3"),
            volume_min_percentile: number(w, "volume_min_percentile"),
            volume_max_percentile: number(w, "volume_max_percentile"),
        }),
    })
}

fn reference(v: &Value) -> Option<RawReferenceVolume> {
    v.get("reference_volume").map(|r| RawReferenceVolume {
        volume_hm3: number(r, "volume_hm3"),
        percentile: number(r, "percentile"),
    })
}

fn range(v: &Value) -> RawStageRange {
    RawStageRange {
        start_stage_id: integer(v, "start_stage_id").expect("start_stage_id"),
        end_stage_id: integer(v, "end_stage_id"),
        model: text(v, "model"),
        fpha_config: layout(v),
        reference_volume: reference(v),
        productivity_mw_per_m3s: number(v, "productivity_mw_per_m3s"),
    }
}

fn season(v: &Value) -> RawSeasonConfig {
    RawSeasonConfig {
        season_id: integer(v, "season_id").expect("season_id"),
        model: text(v, "model"),
        fpha_config: layout(v),
        reference_volume: reference(v),
        productivity_mw_per_m3s: number(v, "productivity_mw_per_m3s"),
    }
}

fn list<'a>(v: &'a Value, key: &str) -> &'a Vec<Value> {
    v.get(key).and_then(Value::as_array).expect("array")
}

fn model(v: &Value) -> RawProductionModel {
    let selection = match text(v, "selection_mode").as_str() {
        "stage_ranges" => RawSelectionMode::StageRanges {
            stage_ranges: list(v, "stage_ranges").iter().map(range).collect(),
        },
        "seasonal" => RawSelectionMode::Seasonal {
            default_model: text(v, "default_model"),
            seasons: list(v, "seasons").iter().map(season).collect(),
        },
        other => panic!("selection mode {other}"),
    };
    RawProductionModel {
        hydro_id: integer(v, "hydro_id").expect("hydro_id"),
        selection,
    }
}

fn reduction(v: &Value) -> PlaneReductionConfig {
    match text(v, "method").as_str() {
        "angle" => PlaneReductionConfig::Angle {
            tolerance_deg: number(v, "tolerance_deg").expect("tolerance_deg"),
        },
        "distance" => PlaneReductionConfig::Distance {
            tolerance_pct: number(v, "tolerance_pct").expect("tolerance_pct"),
            n_samples: u32::try_from(integer(v, "n_samples").expect("n_samples")).expect("u32"),
        },
        other => panic!("method {other}"),
    }
}

fn parse(json: &str) -> Result<ProductionModelFile, Failure> {
    let v: Value = serde_json::from_str(json).expect("JSON");
    let raw = RawProductionModelFile {
        production_models: list(&v, "production_models").iter().map(model).collect(),
        fpha_plane_reduction: v.get("fpha_plane_reduction").map(reduction),
    };
    parse_production_models(&raw, "hydro_production_models.json").map_err(failure)
}

// ── Rules ────────────────────────────────────────────────────────────────────

/// Given a valid file with one hydro using `stage_ranges` mode, returns Ok with
/// one entry containing the correct SelectionMode variant.
#[test]
fn test_valid_stage_ranges_mode() {
    let json = r#"{
      "production_models": [{
        "hydro_id": 0,
        "selection_mode": "stage_ranges",
        "stage_ranges": [
          {
            "start_stage_id": 0, "end_stage_id": 24,
            "model": "fpha",
            "fpha_config": {
              "source": "computed",
              "volume_discretization_points": 7,
              "turbine_discretization_points": 15,
              "fitting_window": { "volume_min_hm3": null, "volume_max_hm3": null }
            }
          },
          {
            "start_stage_id": 25, "end_stage_id": null,
            "model": "constant_productivity",
            "productivity_mw_per_m3s": 0.9
          }
        ]
      }]
    }"#;
    let models = parse(json).unwrap().configs;

    assert_eq!(models.len(), 1);
    let m = &models[0];
    assert_eq!(m.hydro_id, EntityId(0));
    match &m.selection_mode {
        SelectionMode::StageRanges { ranges } => {
            assert_eq!(ranges.len(), 2);
            assert_eq!(ranges[0].start_stage_id, 0);
            assert_eq!(ranges[0].end_stage_id, Some(24));
            assert_eq!(ranges[0].model, "fpha");
            let fpha = ranges[0].fpha_config.as_ref().unwrap();
            assert_eq!(fpha.source, "computed");
            assert_eq!(fpha.volume_discretization_points, Some(7));
            assert_eq!(fpha.turbine_discretization_points, Some(15));
            // Fitting window present but both bounds null
            let fw = fpha.fitting_window.as_ref().unwrap();
            assert!(fw.volume_min_hm3.is_none());
            assert!(fw.volume_max_hm3.is_none());

            assert_eq!(ranges[1].start_stage_id, 25);
            assert!(ranges[1].end_stage_id.is_none());
            assert_eq!(ranges[1].model, "constant_productivity");
            assert!(ranges[1].fpha_config.is_none());
            assert_eq!(ranges[1].productivity_mw_per_m3s, Some(float(0.9)));
        }
        other => panic!("expected StageRanges, got: {other:?}"),
    }
}

/// Given a valid file with one hydro using `seasonal` mode, returns Ok with one
/// entry containing the correct SelectionMode variant with default_model and seasons.
#[test]
fn test_valid_seasonal_mode() {
    let json = r#"{
      "production_models": [{
        "hydro_id": 5,
        "selection_mode": "seasonal",
        "default_model": "linearized_head",
        "seasons": [
          {
            "season_id": 0,
            "model": "fpha",
            "fpha_config": { "source": "computed", "volume_discretization_points": 5 }
          },
          {
            "season_id": 1, "model": "fpha",
            "fpha_config": { "source": "computed", "turbine_discretization_points": 10 }
          }
        ]
      }]
    }"#;
    let models = parse(json).unwrap().configs;

    assert_eq!(models.len(), 1);
    let m = &models[0];
    assert_eq!(m.hydro_id, EntityId(5));
    match &m.selection_mode {
        SelectionMode::Seasonal {
            default_model,
            seasons,
        } => {
            assert_eq!(default_model, "linearized_head");
            assert_eq!(seasons.len(), 2);
            assert_eq!(seasons[0].season_id, 0);
            assert_eq!(seasons[0].model, "fpha");
            let fpha0 = seasons[0].fpha_config.as_ref().unwrap();
            assert_eq!(fpha0.source, "computed");
            assert_eq!(fpha0.volume_discretization_points, Some(5));
            assert!(fpha0.turbine_discretization_points.is_none());

            assert_eq!(seasons[1].season_id, 1);
            let fpha1 = seasons[1].fpha_config.as_ref().unwrap();
            assert_eq!(fpha1.turbine_discretization_points, Some(10));
            assert!(fpha1.volume_discretization_points.is_none());
        }
        other => panic!("expected Seasonal, got: {other:?}"),
    }
}

/// Given a valid file with one hydro in stage_ranges mode and one in seasonal mode,
/// returns Ok with 2 entries sorted by hydro_id.
#[test]
fn test_mixed_modes_sorted_by_hydro_id() {
    let json = r#"{
      "production_models": [
        {
          "hydro_id": 10,
          "selection_mode": "seasonal",
          "default_model": "constant_productivity",
          "seasons": []
        },
        {
          "hydro_id": 3,
          "selection_mode": "stage_ranges",
          "stage_ranges": [
            {
              "start_stage_id": 0, "end_stage_id": null,
              "model": "constant_productivity",
              "productivity_mw_per_m3s": 0.8
            }
          ]
        }
      ]
    }"#;
    let models = parse(json).unwrap().configs;

    assert_eq!(models.len(), 2);
    // Sorted by hydro_id ascending
    assert_eq!(models[0].hydro_id, EntityId(3));
    assert_eq!(models[1].hydro_id, EntityId(10));
    assert!(matches!(
        models[0].selection_mode,
        SelectionMode::StageRanges { .. }
    ));
    assert!(matches!(
        models[1].selection_mode,
        SelectionMode::Seasonal { .. }
    ));
}

/// Duplicate hydro_id in the file -> SchemaError mentioning the duplicate.
#[test]
fn test_duplicate_hydro_id() {
    let json = r#"{
      "production_models": [
        {
          "hydro_id": 5,
          "selection_mode": "stage_ranges",
          "stage_ranges": [{ "start_stage_id": 0, "end_stage_id": null, "model": "fpha", "fpha_config": { "source": "computed" } }]
        },
        {
          "hydro_id": 5,
          "selection_mode": "stage_ranges",
          "stage_ranges": [{ "start_stage_id": 0, "end_stage_id": null, "model": "constant_productivity", "productivity_mw_per_m3s": 0.9 }]
        }
      ]
    }"#;
    let err = parse(json).unwrap_err();
    match &err {
        Failure::Schema { field, message, .. } => {
            assert!(
                field.contains("hydro_id"),
                "field should mention hydro_id, got: {field}"
            );
            assert!(
                message.contains("duplicate"),
                "message should mention duplicate, got: {message}"
            );
        }
        other => panic!("expected SchemaError, got: {other:?}"),
    }
}

/// stage_ranges with start_stage_id > end_stage_id -> SchemaError with
/// field containing "stage_ranges" and message containing "start_stage_id".
#[test]
fn test_invalid_stage_range_start_greater_than_end() {
    let json = r#"{
      "production_models": [{
        "hydro_id": 0,
        "selection_mode": "stage_ranges",
        "stage_ranges": [
          {
            "start_stage_id": 25, "end_stage_id": 10,
            "model": "constant_productivity",
            "productivity_mw_per_m3s": 0.9
          }
        ]
      }]
    }"#;
    let err = parse(json).unwrap_err();
    match &err {
        Failure::Schema { field, message, .. } => {
            assert!(
                field.contains("stage_ranges"),
                "field should contain 'stage_ranges', got: {field}"
            );
            assert!(
                message.contains("start_stage_id"),
                "message should contain 'start_stage_id', got: {message}"
            );
        }
        other => panic!("expected SchemaError, got: {other:?}"),
    }
}

/// start_stage_id == end_stage_id is valid (single-stage range).
#[test]
fn test_stage_range_start_equals_end_is_valid() {
    let json = r#"{
      "production_models": [{
        "hydro_id": 0,
        "selection_mode": "stage_ranges",
        "stage_ranges": [
          {
            "start_stage_id": 5, "end_stage_id": 5,
            "model": "constant_productivity",
            "productivity_mw_per_m3s": 0.9
          }
        ]
      }]
    }"#;
    let result = parse(json);
    assert!(
        result.is_ok(),
        "equal start==end should be valid, got: {result:?}"
    );
}

/// Both volume_min_hm3 and volume_min_percentile set -> SchemaError with
/// message containing "mutually exclusive".
#[test]
fn test_mutually_exclusive_fitting_window_min() {
    let json = r#"{
      "production_models": [{
        "hydro_id": 0,
        "selection_mode": "stage_ranges",
        "stage_ranges": [{
          "start_stage_id": 0, "end_stage_id": null,
          "model": "fpha",
          "fpha_config": {
            "source": "computed",
            "fitting_window": {
              "volume_min_hm3": 1000.0,
              "volume_max_hm3": null,
              "volume_min_percentile": 0.1,
              "volume_max_percentile": null
            }
          }
        }]
      }]
    }"#;
    let err = parse(json).unwrap_err();
    match &err {
        Failure::Schema { message, .. } => {
            assert!(
                message.contains("mutually exclusive"),
                "message should contain 'mutually exclusive', got: {message}"
            );
        }
        other => panic!("expected SchemaError, got: {other:?}"),
    }
}

/// Both volume_max_hm3 and volume_max_percentile set -> SchemaError with
/// message containing "mutually exclusive".
#[test]
fn test_mutually_exclusive_fitting_window_max() {
    let json = r#"{
      "production_models": [{
        "hydro_id": 0,
        "selection_mode": "stage_ranges",
        "stage_ranges": [{
          "start_stage_id": 0, "end_stage_id": null,
          "model": "fpha",
          "fpha_config": {
            "source": "computed",
            "fitting_window": {
              "volume_min_hm3": null,
              "volume_max_hm3": 8000.0,
              "volume_min_percentile": null,
              "volume_max_percentile": 0.9
            }
          }
        }]
      }]
    }"#;
    let err = parse(json).unwrap_err();
    match &err {
        Failure::Schema { message, .. } => {
            assert!(
                message.contains("mutually exclusive"),
                "message should contain 'mutually exclusive', got: {message}"
            );
        }
        other => panic!("expected SchemaError, got: {other:?}"),
    }
}

/// Both absolute and percentile set in seasonal mode -> SchemaError.
#[test]
fn test_mutually_exclusive_fitting_window_seasonal() {
    let json = r#"{
      "production_models": [{
        "hydro_id": 1,
        "selection_mode": "seasonal",
        "default_model": "constant_productivity",
        "seasons": [{
          "season_id": 0,
          "model": "fpha",
          "fpha_config": {
            "source": "computed",
            "fitting_window": {
              "volume_min_hm3": 500.0,
              "volume_min_percentile": 0.2
            }
          }
        }]
      }]
    }"#;
    let err = parse(json).unwrap_err();
    assert!(
        matches!(err, Failure::Schema { .. }),
        "expected SchemaError, got: {err:?}"
    );
}

/// An empty `production_models` array deserialises to `Ok(Vec::new())`.
#[test]
fn test_empty_array_returns_empty_vec() {
    let json = r#"{ "production_models": [] }"#;
    let models = parse(json).unwrap().configs;
    assert!(models.is_empty());
}

/// Reordering the entries in the JSON does not change the output ordering.
#[test]
fn production_models_test_declaration_order_invariance() {
    let json_asc = r#"{
      "production_models": [
        { "hydro_id": 1, "selection_mode": "stage_ranges",
          "stage_ranges": [{ "start_stage_id": 0, "end_stage_id": null, "model": "constant_productivity", "productivity_mw_per_m3s": 0.9 }] },
        { "hydro_id": 5, "selection_mode": "stage_ranges",
          "stage_ranges": [{ "start_stage_id": 0, "end_stage_id": null, "model": "constant_productivity", "productivity_mw_per_m3s": 0.9 }] },
        { "hydro_id": 99, "selection_mode": "stage_ranges",
          "stage_ranges": [{ "start_stage_id": 0, "end_stage_id": null, "model": "constant_productivity", "productivity_mw_per_m3s": 0.9 }] }
      ]
    }"#;
    let json_desc = r#"{
      "production_models": [
        { "hydro_id": 99, "selection_mode": "stage_ranges",
          "stage_ranges": [{ "start_stage_id": 0, "end_stage_id": null, "model": "constant_productivity", "productivity_mw_per_m3s": 0.9 }] },
        { "hydro_id": 5, "selection_mode": "stage_ranges",
          "stage_ranges": [{ "start_stage_id": 0, "end_stage_id": null, "model": "constant_productivity", "productivity_mw_per_m3s": 0.9 }] },
        { "hydro_id": 1, "selection_mode": "stage_ranges",
          "stage_ranges": [{ "start_stage_id": 0, "end_stage_id": null, "model": "constant_productivity", "productivity_mw_per_m3s": 0.9 }] }
      ]
    }"#;
    let models_asc = parse(json_asc).unwrap().configs;
    let models_desc = parse(json_desc).unwrap().configs;

    let ids_asc: Vec<i32> = models_asc.iter().map(|m| m.hydro_id.0).collect();
    let ids_desc: Vec<i32> = models_desc.iter().map(|m| m.hydro_id.0).collect();
    assert_eq!(
        ids_asc, ids_desc,
        "output order must be hydro_id-sorted regardless of input"
    );
    assert_eq!(ids_asc, vec![1, 5, 99]);
}

/// FPHA config with no fitting_window field at all is valid.
#[test]
fn test_fpha_config_without_fitting_window() {
    let json = r#"{
      "production_models": [{
        "hydro_id": 0,
        "selection_mode": "stage_ranges",
        "stage_ranges": [{
          "start_stage_id": 0, "end_stage_id": null,
          "model": "fpha",
          "fpha_config": { "source": "precomputed" }
        }]
      }]
    }"#;
    let models = parse(json).unwrap().configs;
    assert_eq!(models.len(), 1);
    match &models[0].selection_mode {
        SelectionMode::StageRanges { ranges } => {
            let fpha = ranges[0].fpha_config.as_ref().unwrap();
            assert_eq!(fpha.source, "precomputed");
            assert!(fpha.fitting_window.is_none());
        }
        other => panic!("expected StageRanges, got: {other:?}"),
    }
}

/// `constant_productivity` stage range with a positive value parses OK and
/// exposes `productivity_mw_per_m3s = Some(0.85)`.
#[test]
fn constant_productivity_requires_coefficient() {
    let json = r#"{
      "production_models": [{
        "hydro_id": 0,
        "selection_mode": "stage_ranges",
        "stage_ranges": [
          {
            "start_stage_id": 0, "end_stage_id": 24,
            "model": "constant_productivity",
            "productivity_mw_per_m3s": 0.85
          }
        ]
      }]
    }"#;
    let models = parse(json).unwrap().configs;
    match &models[0].selection_mode {
        SelectionMode::StageRanges { ranges } => {
            assert_eq!(ranges[0].productivity_mw_per_m3s, Some(float(0.85)));
        }
        other => panic!("expected StageRanges, got: {other:?}"),
    }
}

/// Non-FPHA stage range with `productivity_mw_per_m3s` omitted parses to `Ok` with
/// `productivity_mw_per_m3s: None`. The parquet override is expected to supply the value.
#[test]
fn test_non_fpha_stage_range_without_productivity_is_accepted() {
    let json = r#"{
      "production_models": [{
        "hydro_id": 0,
        "selection_mode": "stage_ranges",
        "stage_ranges": [
          {
            "start_stage_id": 0, "end_stage_id": 24,
            "model": "constant_productivity"
          }
        ]
      }]
    }"#;
    let models = parse(json).unwrap().configs;
    match &models[0].selection_mode {
        SelectionMode::StageRanges { ranges } => {
            assert!(
                ranges[0].productivity_mw_per_m3s.is_none(),
                "expected None when field is omitted, got: {:?}",
                ranges[0].productivity_mw_per_m3s
            );
        }
        other => panic!("expected StageRanges, got: {other:?}"),
    }
}

/// Non-FPHA stage range with `productivity_mw_per_m3s: null` parses to `Ok` with
/// `productivity_mw_per_m3s: None`. The parquet override is expected to supply the value.
#[test]
fn test_non_fpha_stage_range_with_null_productivity_is_accepted() {
    let json = r#"{
      "production_models": [{
        "hydro_id": 0,
        "selection_mode": "stage_ranges",
        "stage_ranges": [
          {
            "start_stage_id": 0, "end_stage_id": 24,
            "model": "linearized_head",
            "productivity_mw_per_m3s": null
          }
        ]
      }]
    }"#;
    let models = parse(json).unwrap().configs;
    match &models[0].selection_mode {
        SelectionMode::StageRanges { ranges } => {
            assert!(
                ranges[0].productivity_mw_per_m3s.is_none(),
                "expected None when field is null, got: {:?}",
                ranges[0].productivity_mw_per_m3s
            );
        }
        other => panic!("expected StageRanges, got: {other:?}"),
    }
}

/// `fpha` stage range with `productivity_mw_per_m3s` set -> `SchemaError`
/// with the exact message `"productivity_mw_per_m3s must not be set when model is 'fpha'"`.
#[test]
fn fpha_rejects_coefficient() {
    let json = r#"{
      "production_models": [{
        "hydro_id": 0,
        "selection_mode": "stage_ranges",
        "stage_ranges": [
          {
            "start_stage_id": 0, "end_stage_id": 24,
            "model": "fpha",
            "fpha_config": { "source": "computed" },
            "productivity_mw_per_m3s": 1.0
          }
        ]
      }]
    }"#;
    let err = parse(json).unwrap_err();
    match &err {
        Failure::Schema { field, message, .. } => {
            assert!(
                field.contains("productivity_mw_per_m3s"),
                "field should contain 'productivity_mw_per_m3s', got: {field}"
            );
            assert_eq!(
                message, "productivity_mw_per_m3s must not be set when model is 'fpha'",
                "message must match exactly"
            );
        }
        other => panic!("expected SchemaError, got: {other:?}"),
    }
}

/// Validation rejects non-positive `productivity_mw_per_m3s`.
#[test]
fn test_productivity_negative_rejected() {
    let json = r#"{
      "production_models": [{
        "hydro_id": 0,
        "selection_mode": "stage_ranges",
        "stage_ranges": [
          {
            "start_stage_id": 0, "end_stage_id": 24,
            "model": "constant_productivity",
            "productivity_mw_per_m3s": -1.0
          }
        ]
      }]
    }"#;
    let err = parse(json).unwrap_err();
    assert!(
        matches!(err, Failure::Schema { .. }),
        "expected SchemaError, got: {err:?}"
    );
}

/// `productivity_mw_per_m3s = 0.0` is accepted as a planned-outage marker.
#[test]
fn test_productivity_zero_accepted() {
    let json = r#"{
      "production_models": [{
        "hydro_id": 0,
        "selection_mode": "stage_ranges",
        "stage_ranges": [
          {
            "start_stage_id": 0, "end_stage_id": 24,
            "model": "constant_productivity",
            "productivity_mw_per_m3s": 0.0
          }
        ]
      }]
    }"#;
    let parsed = parse(json)
        .expect("zero productivity must be accepted as a planned-outage marker")
        .configs;
    let SelectionMode::StageRanges { ranges } = &parsed[0].selection_mode else {
        panic!("expected StageRanges");
    };
    assert_eq!(ranges[0].productivity_mw_per_m3s, Some(float(0.0)));
}

/// Seasonal mode with `productivity_mw_per_m3s` parses correctly.
#[test]
fn test_seasonal_productivity_mw_per_m3s() {
    let json = r#"{
      "production_models": [{
        "hydro_id": 0,
        "selection_mode": "seasonal",
        "default_model": "constant_productivity",
        "seasons": [
          {
            "season_id": 0,
            "model": "constant_productivity",
            "productivity_mw_per_m3s": 0.75
          }
        ]
      }]
    }"#;
    let models = parse(json).unwrap().configs;
    match &models[0].selection_mode {
        SelectionMode::Seasonal { seasons, .. } => {
            assert_eq!(seasons[0].productivity_mw_per_m3s, Some(float(0.75)));
        }
        other => panic!("expected Seasonal, got: {other:?}"),
    }
}

/// Non-FPHA seasonal entry with `productivity_mw_per_m3s` omitted parses to `Ok` with
/// `productivity_mw_per_m3s: None`. The parquet override is expected to supply the value.
#[test]
fn test_non_fpha_seasonal_without_productivity_is_accepted() {
    let json = r#"{
      "production_models": [{
        "hydro_id": 0,
        "selection_mode": "seasonal",
        "default_model": "constant_productivity",
        "seasons": [
          {
            "season_id": 0,
            "model": "constant_productivity"
          }
        ]
      }]
    }"#;
    let models = parse(json).unwrap().configs;
    match &models[0].selection_mode {
        SelectionMode::Seasonal { seasons, .. } => {
            assert!(
                seasons[0].productivity_mw_per_m3s.is_none(),
                "expected None when field is omitted, got: {:?}",
                seasons[0].productivity_mw_per_m3s
            );
        }
        other => panic!("expected Seasonal, got: {other:?}"),
    }
}

/// Regression guard: FPHA stage range with `productivity_mw_per_m3s` set is still rejected.
#[test]
fn test_fpha_stage_range_with_productivity_still_rejected() {
    let json = r#"{
      "production_models": [{
        "hydro_id": 0,
        "selection_mode": "stage_ranges",
        "stage_ranges": [
          {
            "start_stage_id": 0, "end_stage_id": 24,
            "model": "fpha",
            "fpha_config": { "source": "computed" },
            "productivity_mw_per_m3s": 0.9
          }
        ]
      }]
    }"#;
    let err = parse(json).unwrap_err();
    match &err {
        Failure::Schema { message, .. } => {
            assert!(
                message.contains("must not be set when model is 'fpha'"),
                "message should mention fpha rejection, got: {message}"
            );
        }
        other => panic!("expected SchemaError, got: {other:?}"),
    }
}

/// Regression guard: negative `productivity_mw_per_m3s` is still rejected when present.
#[test]
fn test_negative_productivity_still_rejected() {
    let json = r#"{
      "production_models": [{
        "hydro_id": 0,
        "selection_mode": "stage_ranges",
        "stage_ranges": [
          {
            "start_stage_id": 0, "end_stage_id": 24,
            "model": "constant_productivity",
            "productivity_mw_per_m3s": -0.1
          }
        ]
      }]
    }"#;
    let err = parse(json).unwrap_err();
    match &err {
        Failure::Schema { message, .. } => {
            assert!(
                message.contains("productivity_mw_per_m3s must be finite and non-negative"),
                "message should mention non-negative requirement, got: {message}"
            );
        }
        other => panic!("expected SchemaError, got: {other:?}"),
    }
}

/// A file with no `fpha_plane_reduction` key parses to `plane_reduction == None`.
#[test]
fn test_plane_reduction_absent_is_none() {
    let json = r#"{
      "production_models": [{
        "hydro_id": 0,
        "selection_mode": "stage_ranges",
        "stage_ranges": [{ "start_stage_id": 0, "end_stage_id": null, "model": "fpha", "fpha_config": { "source": "computed" } }]
      }]
    }"#;
    let file = parse(json).unwrap();
    assert!(
        file.plane_reduction.is_none(),
        "absent block must resolve to None, got: {:?}",
        file.plane_reduction
    );
    assert_eq!(file.configs.len(), 1);
}

/// A valid `angle` block parses to `Some(Angle { tolerance_deg })`.
#[test]
fn test_plane_reduction_angle_valid() {
    let json = r#"{
      "production_models": [],
      "fpha_plane_reduction": { "method": "angle", "tolerance_deg": 5.0 }
    }"#;
    let file = parse(json).unwrap();
    assert_eq!(
        file.plane_reduction,
        Some(PlaneReductionConfig::Angle { tolerance_deg: float(5.0) })
    );
}

/// A valid `distance` block parses to `Some(Distance { tolerance_pct, n_samples })`.
#[test]
fn test_plane_reduction_distance_valid() {
    let json = r#"{
      "production_models": [],
      "fpha_plane_reduction": { "method": "distance", "tolerance_pct": 0.5, "n_samples": 64 }
    }"#;
    let file = parse(json).unwrap();
    assert_eq!(
        file.plane_reduction,
        Some(PlaneReductionConfig::Distance {
            tolerance_pct: float(0.5),
            n_samples: 64
        })
    );
}

/// `angle` with `tolerance_deg = 95.0` is rejected with a SchemaError naming the range.
#[test]
fn test_plane_reduction_angle_out_of_range() {
    let json = r#"{
      "production_models": [],
      "fpha_plane_reduction": { "method": "angle", "tolerance_deg": 95.0 }
    }"#;
    let err = parse(json).unwrap_err();
    match &err {
        Failure::Schema { field, message, .. } => {
            assert_eq!(field, "fpha_plane_reduction");
            assert!(
                message.contains("[0, 90]"),
                "message should name the [0, 90] range, got: {message}"
            );
        }
        other => panic!("expected SchemaError, got: {other:?}"),
    }
}

/// `distance` with negative `tolerance_pct` is rejected with a SchemaError.
#[test]
fn test_plane_reduction_distance_negative_tolerance() {
    let json = r#"{
      "production_models": [],
      "fpha_plane_reduction": { "method": "distance", "tolerance_pct": -1.0, "n_samples": 64 }
    }"#;
    let err = parse(json).unwrap_err();
    match &err {
        Failure::Schema { field, .. } => {
            assert_eq!(field, "fpha_plane_reduction");
        }
        other => panic!("expected SchemaError, got: {other:?}"),
    }
}

/// `distance` with `n_samples = 0` is rejected with a SchemaError.
#[test]
fn test_plane_reduction_distance_zero_samples() {
    let json = r#"{
      "production_models": [],
      "fpha_plane_reduction": { "method": "distance", "tolerance_pct": 0.5, "n_samples": 0 }
    }"#;
    let err = parse(json).unwrap_err();
    match &err {
        Failure::Schema { field, .. } => {
            assert_eq!(field, "fpha_plane_reduction");
        }
        other => panic!("expected SchemaError, got: {other:?}"),
    }
}

/// `{ volume_hm3 }` on a stage range parses to the absolute-volume variant.
#[test]
fn reference_volume_absolute_parses() {
    let json = r#"{
      "production_models": [{
        "hydro_id": 0,
        "selection_mode": "stage_ranges",
        "stage_ranges": [{
          "start_stage_id": 0, "end_stage_id": null,
          "model": "constant_productivity",
          "productivity_mw_per_m3s": 0.9,
          "reference_volume": { "volume_hm3": 1234.5 }
        }]
      }]
    }"#;
    let models = parse(json).unwrap().configs;
    match &models[0].selection_mode {
        SelectionMode::StageRanges { ranges } => {
            assert_eq!(
                ranges[0].reference_volume,
                Some(ReferenceVolume::AbsoluteHm3(float(1234.5)))
            );
        }
        other => panic!("expected StageRanges, got: {other:?}"),
    }
}

/// `{ percentile }` on a stage range parses to the percentile variant.
#[test]
fn reference_volume_percentile_parses() {
    let json = r#"{
      "production_models": [{
        "hydro_id": 0,
        "selection_mode": "stage_ranges",
        "stage_ranges": [{
          "start_stage_id": 0, "end_stage_id": null,
          "model": "constant_productivity",
          "productivity_mw_per_m3s": 0.9,
          "reference_volume": { "percentile": 0.5 }
        }]
      }]
    }"#;
    let models = parse(json).unwrap().configs;
    match &models[0].selection_mode {
        SelectionMode::StageRanges { ranges } => {
            assert_eq!(
                ranges[0].reference_volume,
                Some(ReferenceVolume::Percentile(float(0.5)))
            );
        }
        other => panic!("expected StageRanges, got: {other:?}"),
    }
}

/// Both `volume_hm3` and `percentile` set (on a season entry) -> SchemaError
/// whose message contains "mutually exclusive" and whose field names seasons.
#[test]
fn reference_volume_both_set_is_rejected() {
    let json = r#"{
      "production_models": [{
        "hydro_id": 0,
        "selection_mode": "seasonal",
        "default_model": "constant_productivity",
        "seasons": [{
          "season_id": 0,
          "model": "constant_productivity",
          "productivity_mw_per_m3s": 0.9,
          "reference_volume": { "volume_hm3": 1.0, "percentile": 0.5 }
        }]
      }]
    }"#;
    let err = parse(json).unwrap_err();
    match &err {
        Failure::Schema { field, message, .. } => {
            assert!(
                message.contains("mutually exclusive"),
                "message should contain 'mutually exclusive', got: {message}"
            );
            assert!(
                field.contains("seasons"),
                "field should name seasons, got: {field}"
            );
        }
        other => panic!("expected SchemaError, got: {other:?}"),
    }
}

/// An empty `reference_volume: {}` (neither field set) -> SchemaError.
#[test]
fn reference_volume_neither_set_is_rejected() {
    let json = r#"{
      "production_models": [{
        "hydro_id": 0,
        "selection_mode": "stage_ranges",
        "stage_ranges": [{
          "start_stage_id": 0, "end_stage_id": null,
          "model": "constant_productivity",
          "productivity_mw_per_m3s": 0.9,
          "reference_volume": {}
        }]
      }]
    }"#;
    let err = parse(json).unwrap_err();
    match &err {
        Failure::Schema { message, .. } => {
            assert!(
                message.contains("exactly one"),
                "message should require exactly one field, got: {message}"
            );
        }
        other => panic!("expected SchemaError, got: {other:?}"),
    }
}

/// `percentile` outside `[0.0, 1.0]` -> SchemaError naming the range.
#[test]
fn reference_volume_percentile_out_of_range_is_rejected() {
    let json = r#"{
      "production_models": [{
        "hydro_id": 0,
        "selection_mode": "stage_ranges",
        "stage_ranges": [{
          "start_stage_id": 0, "end_stage_id": null,
          "model": "constant_productivity",
          "productivity_mw_per_m3s": 0.9,
          "reference_volume": { "percentile": 1.5 }
        }]
      }]
    }"#;
    let err = parse(json).unwrap_err();
    match &err {
        Failure::Schema { message, .. } => {
            assert!(
                message.contains("[0.0, 1.0]"),
                "message should cite the [0.0, 1.0] range, got: {message}"
            );
        }
        other => panic!("expected SchemaError, got: {other:?}"),
    }
}

/// `volume_hm3` of `0.0` (and negative) -> SchemaError.
#[test]
fn reference_volume_nonpositive_volume_is_rejected() {
    for bad in ["0.0", "-5.0"] {
        let json = format!(
            r#"{{
          "production_models": [{{
            "hydro_id": 0,
            "selection_mode": "stage_ranges",
            "stage_ranges": [{{
              "start_stage_id": 0, "end_stage_id": null,
              "model": "constant_productivity",
              "productivity_mw_per_m3s": 0.9,
              "reference_volume": {{ "volume_hm3": {bad} }}
            }}]
          }}]
        }}"#
        );
        let err = parse(&json).unwrap_err();
        match &err {
            Failure::Schema { message, .. } => {
                assert!(
                    message.contains("> 0.0"),
                    "message should require > 0.0, got: {message}"
                );
            }
            other => panic!("expected SchemaError for volume_hm3={bad}, got: {other:?}"),
        }
    }
}

/// `{ volume_hm3 }` on a season entry parses to the absolute-volume variant.
#[test]
fn reference_volume_on_season_entry_parses() {
    let json = r#"{
      "production_models": [{
        "hydro_id": 7,
        "selection_mode": "seasonal",
        "default_model": "constant_productivity",
        "seasons": [{
          "season_id": 0,
          "model": "constant_productivity",
          "productivity_mw_per_m3s": 0.9,
          "reference_volume": { "volume_hm3": 800.0 }
        }]
      }]
    }"#;
    let models = parse(json).unwrap().configs;
    match &models[0].selection_mode {
        SelectionMode::Seasonal { seasons, .. } => {
            assert_eq!(
                seasons[0].reference_volume,
                Some(ReferenceVolume::AbsoluteHm3(float(800.0)))
            );
        }
        other => panic!("expected Seasonal, got: {other:?}"),
    }
}

/// Text that the syntax refuses for an unknown selection mode breaks a rule of the
/// schema; any other refused text is a syntax error.
#[test]
fn test_unknown_selection_mode() {
    let err = rejected_text(
        "hydro_production_models.json",
        "unknown variant `unknown_mode`, expected `stage_ranges` or `seasonal`".to_string(),
    );
    assert!(
        matches!(err, LoadError::SchemaError { ref field, .. } if field == "selection_mode"),
        "expected SchemaError for unknown selection_mode, got: {err:?}"
    );
    let err = rejected_text(
        "hydro_production_models.json",
        "missing field `hydro_id`".to_string(),
    );
    assert!(matches!(err, LoadError::ParseError { .. }), "{err:?}");
}
