//! Scalar parameters.

use cobre_io::entities::EntityId;
use cobre_io::error::LoadError;
use cobre_io::extensions::scalar_parameters::{
    convert_constant, parse_scalar_parameters_json, ComputedParameter, ParameterKind,
    ScalarParameter, ScalarParameterJsonEntry,
};
use cobre_io::float::Float64;
use cobre_io::text::Piece;
use serde_json::Value;

#[derive(Debug)]
enum Failure {
    Schema { field: String, message: String },
    Other(String),
}

fn render(message: &[Piece]) -> String {
    message
        .iter()
        .map(|p| match p {
            Piece::Text(s) => s.to_string(),
            Piece::Name(s) => s.clone(),
            Piece::Quoted(s) => format!("{s:?}"),
            Piece::Int(n) => n.to_string(),
            Piece::Count(n) => n.to_string(),
            Piece::Float(x) => format!("{}", f64::from_bits(x.bits)),
            Piece::Day(d) => format!("{:04}-{:02}-{:02}", d.year, d.month, d.day),
        })
        .collect()
}

fn failure(e: LoadError) -> Failure {
    match e {
        LoadError::SchemaError { field, message, .. } => Failure::Schema {
            field,
            message: render(&message),
        },
        other => Failure::Other(format!("{other:?}")),
    }
}

fn float(x: f64) -> Float64 {
    Float64 { bits: x.to_bits() }
}

// ── Reading the values of a file ─────────────────────────────────────────────

fn integer(v: &Value) -> i32 {
    i32::try_from(v.as_i64().expect("integer")).expect("i32")
}

fn number(v: &Value) -> Float64 {
    float(v.as_f64().expect("number"))
}

fn text(v: &Value, key: &str) -> String {
    v.get(key).and_then(Value::as_str).expect("text").to_string()
}

fn entry(v: &Value) -> ScalarParameterJsonEntry {
    let list = |key: &str| v.get(key).map(|l| l.as_array().expect("array"));
    ScalarParameterJsonEntry {
        id: integer(v.get("id").expect("id")),
        name: text(v, "name"),
        kind: text(v, "kind"),
        value: v.get("value").map(number),
        values: list("values").map(|l| {
            l.iter()
                .map(|p| (integer(&p[0]), number(&p[1])))
                .collect()
        }),
        computed_spec: v.get("computed_spec").map(|c| {
            let hydro_id = EntityId(integer(c.get("hydro_id").expect("hydro_id")));
            match text(c, "tag").as_str() {
                "equivalent_productivity" => {
                    ComputedParameter::EquivalentProductivity { hydro_id }
                }
                other => panic!("tag {other}"),
            }
        }),
        block_values: list("block_values").map(|l| {
            l.iter()
                .map(|p| (integer(&p[0]), integer(&p[1]), number(&p[2])))
                .collect()
        }),
    }
}

fn parse(json: &str) -> Result<Vec<ScalarParameter>, Failure> {
    let v: Value = serde_json::from_str(json).expect("JSON");
    let entries: Vec<ScalarParameterJsonEntry> = v["scalar_parameters"]
        .as_array()
        .expect("array")
        .iter()
        .map(entry)
        .collect();
    parse_scalar_parameters_json(&entries, "scalar_parameters.json").map_err(failure)
}

// ── Rules ────────────────────────────────────────────────────────────────────

/// A file containing one entry of each kind round-trips correctly.
#[test]
fn scalar_parameters_json_happy_path_all_four_variants() {
    let json = r#"{
        "scalar_parameters": [
            { "id": 1, "name": "const_p", "kind": "constant", "value": 3.6 },
            { "id": 2, "name": "stage_p", "kind": "per_stage",
              "values": [[0, 1.0], [1, 2.0], [2, 3.0]] },
            { "id": 3, "name": "season_p", "kind": "seasonal",
              "values": [[2, 0.8], [1, 1.2]] },
            { "id": 4, "name": "computed_p", "kind": "computed",
              "computed_spec": { "tag": "equivalent_productivity", "hydro_id": 7 } }
        ]
    }"#;
    let params = parse(json).unwrap();

    assert_eq!(params.len(), 4);
    // Sorted by id ascending.
    assert_eq!(params[0].id, EntityId(1));
    assert_eq!(params[0].kind, ParameterKind::Constant { value: float(3.6) });

    assert_eq!(params[1].id, EntityId(2));
    assert_eq!(
        params[1].kind,
        ParameterKind::PerStage {
            values: vec![float(1.0), float(2.0), float(3.0)]
        }
    );

    assert_eq!(params[2].id, EntityId(3));
    // new_seasonal sorts ascending by season_id.
    assert_eq!(
        params[2].kind,
        ParameterKind::Seasonal {
            values: vec![(1, float(1.2)), (2, float(0.8))]
        }
    );

    assert_eq!(params[3].id, EntityId(4));
    assert_eq!(
        params[3].kind,
        ParameterKind::Computed {
            computed_spec: ComputedParameter::EquivalentProductivity {
                hydro_id: EntityId(7)
            }
        }
    );
}

#[test]
fn scalar_parameters_json_rejects_duplicate_id() {
    let json = r#"{
        "scalar_parameters": [
            { "id": 1, "name": "a", "kind": "constant", "value": 3.6 },
            { "id": 1, "name": "b", "kind": "constant", "value": 4.0 }
        ]
    }"#;
    let err = parse(json).unwrap_err();
    match err {
        Failure::Schema { message, .. } => {
            assert!(
                message.contains("duplicate id"),
                "message should contain 'duplicate id', got: {message}"
            );
        }
        other => panic!("expected SchemaError, got: {other:?}"),
    }
}

#[test]
fn scalar_parameters_json_rejects_duplicate_name() {
    let json = r#"{
        "scalar_parameters": [
            { "id": 1, "name": "rho_eq_h1", "kind": "constant", "value": 3.6 },
            { "id": 2, "name": "rho_eq_h1", "kind": "constant", "value": 4.0 }
        ]
    }"#;
    let err = parse(json).unwrap_err();
    match err {
        Failure::Schema { message, .. } => {
            assert!(
                message.contains("duplicate name"),
                "message should contain 'duplicate name', got: {message}"
            );
        }
        other => panic!("expected SchemaError, got: {other:?}"),
    }
}

#[test]
fn scalar_parameters_json_rejects_empty_name() {
    let json = r#"{
        "scalar_parameters": [
            { "id": 1, "name": "", "kind": "constant", "value": 3.6 }
        ]
    }"#;
    let err = parse(json).unwrap_err();
    match err {
        Failure::Schema { field, message, .. } => {
            assert!(
                field.contains("name"),
                "field should contain 'name', got: {field}"
            );
            assert!(
                message.contains("empty"),
                "message should mention 'empty', got: {message}"
            );
        }
        other => panic!("expected SchemaError, got: {other:?}"),
    }
}

#[test]
fn scalar_parameters_json_rejects_whitespace_name() {
    let json = r#"{
        "scalar_parameters": [
            { "id": 1, "name": " rho ", "kind": "constant", "value": 3.6 }
        ]
    }"#;
    let err = parse(json).unwrap_err();
    match err {
        Failure::Schema { field, .. } => {
            assert!(
                field.contains("name"),
                "field should contain 'name', got: {field}"
            );
        }
        other => panic!("expected SchemaError, got: {other:?}"),
    }
}

#[test]
fn scalar_parameters_json_rejects_seasonal_duplicate_keys() {
    let json = r#"{
        "scalar_parameters": [
            { "id": 1, "name": "s", "kind": "seasonal",
              "values": [[1, 0.5], [1, 0.6]] }
        ]
    }"#;
    let err = parse(json).unwrap_err();
    match err {
        Failure::Schema { message, .. } => {
            assert!(
                message.contains("duplicate season_id"),
                "message should contain 'duplicate season_id', got: {message}"
            );
        }
        other => panic!("expected SchemaError, got: {other:?}"),
    }
}

#[test]
fn scalar_parameters_json_rejects_per_stage_non_contiguous_keys() {
    let json = r#"{
        "scalar_parameters": [
            { "id": 1, "name": "p", "kind": "per_stage",
              "values": [[0, 1.0], [2, 2.0]] }
        ]
    }"#;
    let err = parse(json).unwrap_err();
    match err {
        Failure::Schema { message, .. } => {
            assert!(
                message.contains("contiguous") || message.contains("non-contiguous"),
                "message should mention contiguity, got: {message}"
            );
        }
        other => panic!("expected SchemaError, got: {other:?}"),
    }
}

#[test]
fn scalar_parameters_json_rejects_per_stage_duplicate_keys() {
    let json = r#"{
        "scalar_parameters": [
            { "id": 1, "name": "p", "kind": "per_stage",
              "values": [[0, 1.0], [0, 2.0], [1, 3.0]] }
        ]
    }"#;
    let err = parse(json).unwrap_err();
    match err {
        Failure::Schema { message, .. } => {
            assert!(
                message.contains("duplicate stage_id"),
                "message should contain 'duplicate stage_id', got: {message}"
            );
        }
        other => panic!("expected SchemaError, got: {other:?}"),
    }
}

#[test]
fn scalar_parameters_json_rejects_non_finite_value() {
    let result = convert_constant(
        0,
        &ScalarParameterJsonEntry {
            id: 1,
            name: "p".to_string(),
            kind: "constant".to_string(),
            value: Some(float(f64::NAN)),
            values: None,
            computed_spec: None,
            block_values: None,
        },
        "/test.json",
    );
    assert!(result.is_err(), "NaN constant value should be rejected");
    let err = failure(result.unwrap_err());
    match err {
        Failure::Schema { message, .. } => {
            assert!(
                message.contains("finite"),
                "message should mention 'finite', got: {message}"
            );
        }
        other => panic!("expected SchemaError, got: {other:?}"),
    }
}

/// Entries declared in id order [3, 1, 2] must be returned sorted [1, 2, 3].
#[test]
fn scalar_parameters_json_normalizes_declaration_order() {
    let json = r#"{
        "scalar_parameters": [
            { "id": 3, "name": "third", "kind": "constant", "value": 3.0 },
            { "id": 1, "name": "first",  "kind": "constant", "value": 1.0 },
            { "id": 2, "name": "second", "kind": "constant", "value": 2.0 }
        ]
    }"#;
    let params = parse(json).unwrap();

    assert_eq!(params.len(), 3);
    assert_eq!(params[0].id, EntityId(1));
    assert_eq!(params[1].id, EntityId(2));
    assert_eq!(params[2].id, EntityId(3));
}

#[test]
fn scalar_parameters_json_rejects_per_stage_empty_values() {
    let json = r#"{
        "scalar_parameters": [
            { "id": 1, "name": "p", "kind": "per_stage", "values": [] }
        ]
    }"#;
    let err = parse(json).unwrap_err();
    match err {
        Failure::Schema { message, .. } => {
            assert!(
                message.contains("at least one entry"),
                "message should mention 'at least one entry', got: {message}"
            );
        }
        other => panic!("expected SchemaError, got: {other:?}"),
    }
}

#[test]
fn scalar_parameters_json_rejects_seasonal_empty_values() {
    let json = r#"{
        "scalar_parameters": [
            { "id": 1, "name": "s", "kind": "seasonal", "values": [] }
        ]
    }"#;
    let err = parse(json).unwrap_err();
    match err {
        Failure::Schema { message, .. } => {
            assert!(
                message.contains("at least one entry"),
                "message should mention 'at least one entry', got: {message}"
            );
        }
        other => panic!("expected SchemaError, got: {other:?}"),
    }
}

#[test]
fn scalar_parameters_json_parses_per_stage_block() {
    let json = r#"{
        "scalar_parameters": [
            { "id": 1, "name": "block_p", "kind": "per_stage_block",
              "block_values": [[0, 0, 1.0], [0, 1, 2.0]] }
        ]
    }"#;
    let params = parse(json).unwrap();

    assert_eq!(params.len(), 1);
    assert_eq!(params[0].id, EntityId(1));
    assert_eq!(
        params[0].kind,
        ParameterKind::PerStageBlock {
            values: vec![(0, 0, float(1.0)), (0, 1, float(2.0))]
        }
    );
}

#[test]
fn scalar_parameters_json_per_stage_block_sorts_triples() {
    let json = r#"{
        "scalar_parameters": [
            { "id": 1, "name": "block_p", "kind": "per_stage_block",
              "block_values": [[1, 0, 3.0], [0, 1, 2.0], [0, 0, 1.0]] }
        ]
    }"#;
    let params = parse(json).unwrap();
    assert_eq!(
        params[0].kind,
        ParameterKind::PerStageBlock {
            values: vec![(0, 0, float(1.0)), (0, 1, float(2.0)), (1, 0, float(3.0))]
        }
    );
}

#[test]
fn scalar_parameters_json_rejects_per_stage_block_duplicate_pair() {
    let json = r#"{
        "scalar_parameters": [
            { "id": 1, "name": "b", "kind": "per_stage_block",
              "block_values": [[0, 0, 1.0], [0, 0, 2.0]] }
        ]
    }"#;
    let err = parse(json).unwrap_err();
    match err {
        Failure::Schema { message, .. } => {
            assert!(
                message.contains("duplicate"),
                "message should contain 'duplicate', got: {message}"
            );
        }
        other => panic!("expected SchemaError, got: {other:?}"),
    }
}

#[test]
fn scalar_parameters_json_rejects_block_values_on_wrong_kind() {
    let json = r#"{
        "scalar_parameters": [
            { "id": 1, "name": "c", "kind": "constant", "value": 3.6,
              "block_values": [[0, 0, 1.0]] }
        ]
    }"#;
    let err = parse(json).unwrap_err();
    match err {
        Failure::Schema { field, message, .. } => {
            assert!(
                field.contains("block_values"),
                "field should contain 'block_values', got: {field}"
            );
            assert!(
                message.contains("per_stage_block"),
                "message should mention 'per_stage_block', got: {message}"
            );
        }
        other => panic!("expected SchemaError, got: {other:?}"),
    }
}

#[test]
fn scalar_parameters_json_rejects_per_stage_block_missing_block_values() {
    let json = r#"{
        "scalar_parameters": [
            { "id": 1, "name": "b", "kind": "per_stage_block" }
        ]
    }"#;
    let err = parse(json).unwrap_err();
    match err {
        Failure::Schema { field, message, .. } => {
            assert!(
                field.contains("block_values"),
                "field should contain 'block_values', got: {field}"
            );
            assert!(
                message.contains("requires"),
                "message should mention 'requires', got: {message}"
            );
        }
        other => panic!("expected SchemaError, got: {other:?}"),
    }
}

/// Each kind refuses the fields of the other kinds.
#[test]
fn fields_of_another_kind_are_rejected() {
    let value = r#""value": 1.0"#;
    let values = r#""values": [[0, 1.0]]"#;
    let computed = r#""computed_spec": { "tag": "equivalent_productivity", "hydro_id": 1 }"#;
    let blocks = r#""block_values": [[0, 0, 1.0]]"#;
    let own = [
        ("constant", value),
        ("per_stage", values),
        ("seasonal", values),
        ("computed", computed),
        ("per_stage_block", blocks),
    ];
    for (kind, payload) in own {
        let alone = format!(
            r#"{{ "scalar_parameters": [ {{ "id": 1, "name": "p", "kind": "{kind}", {payload} }} ] }}"#
        );
        assert!(parse(&alone).is_ok(), "{kind} with its own field");
        for (name, foreign) in [
            ("value", value),
            ("values", values),
            ("computed_spec", computed),
        ] {
            if foreign == payload {
                continue;
            }
            let json = format!(
                r#"{{ "scalar_parameters": [
                    {{ "id": 1, "name": "p", "kind": "{kind}", {payload}, {foreign} }} ] }}"#
            );
            match parse(&json).expect_err("a field of another kind") {
                Failure::Schema { field, message } => {
                    assert!(field.contains(name), "{kind}, {name}: field {field}");
                    assert!(message.contains(name), "{kind}, {name}: {message}");
                    assert!(message.contains(kind), "{kind}, {name}: {message}");
                }
                other => panic!("{other:?}"),
            }
        }
    }
}

/// A missing field is named before one that does not belong.
#[test]
fn the_missing_field_comes_before_a_foreign_one() {
    let json = r#"{ "scalar_parameters": [
        { "id": 1, "name": "p", "kind": "constant", "values": [[0, 1.0]] } ] }"#;
    match parse(json).expect_err("no value") {
        Failure::Schema { message, .. } => {
            assert!(message.contains("\"value\""), "{message}");
            assert!(!message.contains("only valid"), "{message}");
        }
        other => panic!("{other:?}"),
    }
}

/// A name of one character is refused exactly where that is white space.
#[test]
fn names_of_white_space_are_those_of_unicode() {
    for c in '\0'..=char::MAX {
        let entries = vec![ScalarParameterJsonEntry {
            id: 1,
            name: c.to_string(),
            kind: "constant".to_string(),
            value: Some(float(1.0)),
            values: None,
            computed_spec: None,
            block_values: None,
        }];
        let accepted = parse_scalar_parameters_json(&entries, "scalar_parameters.json").is_ok();
        assert_eq!(accepted, !c.is_whitespace(), "{c:?}");
    }
}
