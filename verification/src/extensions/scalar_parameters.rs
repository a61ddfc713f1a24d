//! Named scalar parameters.
//!
//! A parameter is a constant, a value per stage, per season or per block of a
//! stage, or a quantity computed from a plant. [`parse_scalar_parameters_json`]
//! checks the entries of an input file and sorts them by id.

use vstd::prelude::*;
use vstd::string::StrSliceExecFns;

use crate::entities::EntityId;
use crate::error;
use crate::error::{Finding, LoadError};
use crate::float::Float64;
use crate::sorting;
use crate::sorting::{HasKey, Key, Keyed};
use crate::text;
use crate::text::{Piece, PieceView};
use crate::validation;

verus! {

// ── Parameters ───────────────────────────────────────────────────────────────

/// A quantity that is computed from a hydro plant.
#[derive(Clone, Copy, Debug, PartialEq, Eq, Structural)]
pub enum ComputedParameter {
    /// The equivalent productivity.
    EquivalentProductivity {
        /// The plant.
        hydro_id: EntityId,
    },
    /// The productivity accumulated downstream.
    AccumulatedProductivity {
        /// The plant.
        hydro_id: EntityId,
    },
    /// The reference volume.
    ReferenceVolume {
        /// The plant.
        hydro_id: EntityId,
    },
    /// The reference turbined flow.
    ReferenceTurbine {
        /// The plant.
        hydro_id: EntityId,
    },
    /// The least storage.
    MinStorage {
        /// The plant.
        hydro_id: EntityId,
    },
    /// The greatest storage.
    MaxStorage {
        /// The plant.
        hydro_id: EntityId,
    },
    /// The specific productivity.
    SpecificProductivity {
        /// The plant.
        hydro_id: EntityId,
    },
}

/// The value of a parameter.
#[derive(Clone, Debug, PartialEq)]
pub enum ParameterKind {
    /// One value for all stages.
    Constant {
        /// The value.
        value: Float64,
    },
    /// One value per stage, from stage 0.
    PerStage {
        /// The values.
        values: Vec<Float64>,
    },
    /// One value per season, by ascending season.
    Seasonal {
        /// The seasons and their values.
        values: Vec<(i32, Float64)>,
    },
    /// A computed quantity.
    Computed {
        /// Which.
        computed_spec: ComputedParameter,
    },
    /// One value per block of a stage, by ascending stage and block.
    PerStageBlock {
        /// The stages, blocks and values.
        values: Vec<(i32, i32, Float64)>,
    },
}

/// A named parameter.
#[derive(Clone, Debug, PartialEq)]
pub struct ScalarParameter {
    /// The id.
    pub id: EntityId,
    /// The name.
    pub name: String,
    /// The value.
    pub kind: ParameterKind,
}

/// What a [`ParameterKind`] holds.
#[verifier::ext_equal]
pub enum KindView {
    /// One value for all stages.
    Constant(Float64),
    /// One value per stage.
    PerStage(Seq<Float64>),
    /// One value per season.
    Seasonal(Seq<(i32, Float64)>),
    /// A computed quantity.
    Computed(ComputedParameter),
    /// One value per block of a stage.
    PerStageBlock(Seq<(i32, i32, Float64)>),
}

impl View for ParameterKind {
    type V = KindView;

    open spec fn view(&self) -> KindView {
        match self {
            ParameterKind::Constant { value } => KindView::Constant(*value),
            ParameterKind::PerStage { values } => KindView::PerStage(values@),
            ParameterKind::Seasonal { values } => KindView::Seasonal(values@),
            ParameterKind::Computed { computed_spec } => KindView::Computed(*computed_spec),
            ParameterKind::PerStageBlock { values } => KindView::PerStageBlock(values@),
        }
    }
}

/// What a [`ScalarParameter`] holds.
#[verifier::ext_equal]
pub struct ParameterView {
    /// The id.
    pub id: EntityId,
    /// The name.
    pub name: Seq<char>,
    /// The value.
    pub kind: KindView,
}

impl View for ScalarParameter {
    type V = ParameterView;

    open spec fn view(&self) -> ParameterView {
        ParameterView { id: self.id, name: self.name@, kind: self.kind@ }
    }
}

impl HasKey for ParameterView {
    open spec fn key(&self) -> Key {
        (self.id.0 as int, 0, 0)
    }
}

impl HasKey for ScalarParameter {
    open spec fn key(&self) -> Key {
        (self.id.0 as int, 0, 0)
    }
}

impl Keyed for ScalarParameter {
    fn sort_key(&self) -> (r: (i64, i64, i64)) {
        (self.id.0 as i64, 0, 0)
    }
}

impl HasKey for (i32, Float64) {
    open spec fn key(&self) -> Key {
        (self.0 as int, 0, 0)
    }
}

impl Keyed for (i32, Float64) {
    fn sort_key(&self) -> (r: (i64, i64, i64)) {
        (self.0 as i64, 0, 0)
    }
}

impl HasKey for (i32, i32, Float64) {
    open spec fn key(&self) -> Key {
        (self.0 as int, self.1 as int, 0)
    }
}

impl Keyed for (i32, i32, Float64) {
    fn sort_key(&self) -> (r: (i64, i64, i64)) {
        (self.0 as i64, self.1 as i64, 0)
    }
}

// ── Entries ──────────────────────────────────────────────────────────────────

/// An entry of an input file.
#[derive(Clone, Debug)]
pub struct ScalarParameterJsonEntry {
    /// The id.
    pub id: i32,
    /// The name.
    pub name: String,
    /// Which of the other fields hold the value.
    pub kind: String,
    /// The value of a constant.
    pub value: Option<Float64>,
    /// The stages or seasons with their values.
    pub values: Option<Vec<(i32, Float64)>>,
    /// A computed quantity.
    pub computed_spec: Option<ComputedParameter>,
    /// The stages and blocks with their values.
    pub block_values: Option<Vec<(i32, i32, Float64)>>,
}

/// What an entry holds.
#[verifier::ext_equal]
pub struct EntryView {
    /// The id.
    pub id: i32,
    /// The name.
    pub name: Seq<char>,
    /// Which of the other fields hold the value.
    pub kind: Seq<char>,
    /// The value of a constant.
    pub value: Option<Float64>,
    /// The stages or seasons with their values.
    pub values: Option<Seq<(i32, Float64)>>,
    /// A computed quantity.
    pub computed_spec: Option<ComputedParameter>,
    /// The stages and blocks with their values.
    pub block_values: Option<Seq<(i32, i32, Float64)>>,
}

impl View for ScalarParameterJsonEntry {
    type V = EntryView;

    open spec fn view(&self) -> EntryView {
        EntryView {
            id: self.id,
            name: self.name@,
            kind: self.kind@,
            value: self.value,
            values: match self.values {
                Some(v) => Some(v@),
                None => None,
            },
            computed_spec: self.computed_spec,
            block_values: match self.block_values {
                Some(v) => Some(v@),
                None => None,
            },
        }
    }
}

/// The views of entries.
pub open spec fn entry_views(entries: Seq<ScalarParameterJsonEntry>) -> Seq<EntryView> {
    entries.map_values(|e: ScalarParameterJsonEntry| e@)
}

// ── Messages ─────────────────────────────────────────────────────────────────

/// The field of the entry at position `i`.
pub open spec fn entry_field(i: int, field: &str) -> Seq<char> {
    text::element_path("scalar_parameters"@, i, field@)
}

/// A finding with a fixed message.
pub open spec fn fixed_finding(i: int, field: &str, message: &str) -> Finding {
    Finding { field: entry_field(i, field), message: seq![text::text(message)] }
}

fn fixed_error(i: usize, field: &str, message: &'static str, path: &str) -> (r: LoadError)
    ensures
        r.says(
            path@,
            fixed_finding(i as int, field, message).field,
            fixed_finding(i as int, field, message).message,
        ),
{
    let pieces: Vec<Piece> = vec![Piece::Text(message)];
    proof {
        assert(text::pieces(pieces@) =~= seq![text::text(message)]);
    }
    LoadError::schema(path, text::element_path_text("scalar_parameters", i, field), pieces)
}

/// A parameter's value, or what is wrong with it.
pub type Conversion = Result<KindView, Finding>;

/// An executable result is that conversion.
pub open spec fn converts(
    result: Result<ParameterKind, LoadError>,
    path: Seq<char>,
    conversion: Conversion,
) -> bool {
    match (result, conversion) {
        (Ok(kind), Ok(view)) => kind@ == view,
        (Err(e), Err(f)) => e.says(path, f.field, f.message),
        _ => false,
    }
}

// ── Constants ────────────────────────────────────────────────────────────────

/// The value of a constant.
pub open spec fn constant_of(i: int, entry: EntryView) -> Conversion {
    match entry.value {
        None => Err(fixed_finding(i, "value", "\"constant\" kind requires a \"value\" field")),
        Some(value) => if value.finite() {
            Ok(KindView::Constant(value))
        } else {
            Err(
                Finding {
                    field: entry_field(i, "value"),
                    message: seq![
                        text::text("value must be finite, got "),
                        PieceView::Float(value),
                    ],
                },
            )
        },
    }
}

/// Takes the value of a constant.
pub fn convert_constant(i: usize, entry: &ScalarParameterJsonEntry, path: &str) -> (r: Result<
    ParameterKind,
    LoadError,
>)
    ensures
        converts(r, path@, constant_of(i as int, entry@)),
{
    match entry.value {
        None => Err(
            fixed_error(i, "value", "\"constant\" kind requires a \"value\" field", path),
        ),
        Some(value) => {
            if value.is_finite() {
                Ok(ParameterKind::Constant { value })
            } else {
                let message: Vec<Piece> = vec![
                    Piece::Text("value must be finite, got "),
                    Piece::Float(value),
                ];
                proof {
                    assert(text::pieces(message@) =~= constant_of(
                        i as int,
                        entry@,
                    )->Err_0.message);
                }
                Err(
                    LoadError::schema(
                        path,
                        text::element_path_text("scalar_parameters", i, "value"),
                        message,
                    ),
                )
            }
        },
    }
}

// ── Values per stage ─────────────────────────────────────────────────────────

/// The values of pairs.
pub open spec fn second_parts(pairs: Seq<(i32, Float64)>) -> Seq<Float64> {
    pairs.map_values(|p: (i32, Float64)| p.1)
}

/// What is wrong with each stage: it occurs before.
pub open spec fn stage_twice_check(i: int, sorted: Seq<(i32, Float64)>) -> spec_fn(int) -> Option<
    Finding,
> {
    |k: int|
        if k > 0 && sorted[k - 1].0 == sorted[k].0 {
            Some(
                Finding {
                    field: entry_field(i, "values"),
                    message: seq![
                        text::text("duplicate stage_id "),
                        PieceView::Int(sorted[k - 1].0 as int),
                        text::text(" in per_stage values"),
                    ],
                },
            )
        } else {
            None
        }
}

/// The stage at place `k`.
pub open spec fn stage_at(k: int) -> int {
    if k <= i32::MAX {
        k
    } else {
        i32::MAX as int
    }
}

/// What is wrong with each stage: it leaves a gap.
pub open spec fn stage_gap_check(i: int, sorted: Seq<(i32, Float64)>) -> spec_fn(int) -> Option<
    Finding,
> {
    |k: int|
        if sorted[k].0 != stage_at(k) {
            Some(
                Finding {
                    field: entry_field(i, "values"),
                    message: seq![
                        text::text(
                            "per_stage values must have contiguous stage_ids starting at 0; expected stage_id ",
                        ),
                        PieceView::Int(stage_at(k)),
                        text::text(" but got "),
                        PieceView::Int(sorted[k].0 as int),
                    ],
                },
            )
        } else {
            None
        }
}

/// What is wrong with each stage: its value is not finite.
pub open spec fn stage_value_check(i: int, sorted: Seq<(i32, Float64)>) -> spec_fn(int) -> Option<
    Finding,
> {
    |k: int|
        if !sorted[k].1.finite() {
            Some(
                Finding {
                    field: entry_field(i, "values"),
                    message: seq![
                        text::text("value for stage_id "),
                        PieceView::Int(sorted[k].0 as int),
                        text::text(" must be finite, got "),
                        PieceView::Float(sorted[k].1),
                    ],
                },
            )
        } else {
            None
        }
}

/// What is wrong with sorted values per stage.
pub open spec fn stages_finding(i: int, sorted: Seq<(i32, Float64)>) -> Option<Finding> {
    let n = sorted.len() as int;
    validation::either(
        validation::first(n, stage_twice_check(i, sorted)),
        validation::either(
            validation::first(n, stage_gap_check(i, sorted)),
            validation::first(n, stage_value_check(i, sorted)),
        ),
    )
}

/// The values per stage.
pub open spec fn per_stage_of(i: int, entry: EntryView) -> Conversion {
    match entry.values {
        None => Err(fixed_finding(i, "values", "\"per_stage\" kind requires a \"values\" field")),
        Some(pairs) => if pairs.len() == 0 {
            Err(fixed_finding(i, "values", "\"per_stage\" kind requires at least one entry"))
        } else {
            let sorted = sorting::sorted(pairs);
            match stages_finding(i, sorted) {
                Some(finding) => Err(finding),
                None => Ok(KindView::PerStage(second_parts(sorted))),
            }
        },
    }
}

fn copy_pairs(pairs: &Vec<(i32, Float64)>) -> (r: Vec<(i32, Float64)>)
    ensures
        r@ == pairs@,
{
    let mut r: Vec<(i32, Float64)> = Vec::new();
    for k in 0..pairs.len()
        invariant
            r@ == pairs@.take(k as int),
    {
        r.push(pairs[k]);
        proof {
            assert(r@ =~= pairs@.take(k + 1));
        }
    }
    proof {
        assert(r@ =~= pairs@);
    }
    r
}

fn check_stages_twice(i: usize, sorted: &Vec<(i32, Float64)>, path: &str) -> (r: Result<
    (),
    LoadError,
>)
    ensures
        error::reports(
            r,
            path@,
            validation::first(sorted@.len() as int, stage_twice_check(i as int, sorted@)),
        ),
{
    let ghost check = stage_twice_check(i as int, sorted@);
    for k in 0..sorted.len()
        invariant
            check == stage_twice_check(i as int, sorted@),
            forall|j: int| 0 <= j < k ==> (#[trigger] check(j)) is None,
    {
        if k > 0 && sorted[k - 1].0 == sorted[k].0 {
            let message: Vec<Piece> = vec![
                Piece::Text("duplicate stage_id "),
                Piece::Int(sorted[k - 1].0 as i64),
                Piece::Text(" in per_stage values"),
            ];
            proof {
                assert(text::pieces(message@) =~= check(k as int)->0.message);
                validation::first_is_at(sorted@.len() as int, check, k as int);
            }
            return Err(
                LoadError::schema(
                    path,
                    text::element_path_text("scalar_parameters", i, "values"),
                    message,
                ),
            );
        }
        assert(check(k as int) is None);
    }
    proof {
        validation::first_is_none(sorted@.len() as int, check);
    }
    Ok(())
}

fn check_stage_gaps(i: usize, sorted: &Vec<(i32, Float64)>, path: &str) -> (r: Result<
    (),
    LoadError,
>)
    ensures
        error::reports(
            r,
            path@,
            validation::first(sorted@.len() as int, stage_gap_check(i as int, sorted@)),
        ),
{
    let ghost check = stage_gap_check(i as int, sorted@);
    for k in 0..sorted.len()
        invariant
            check == stage_gap_check(i as int, sorted@),
            forall|j: int| 0 <= j < k ==> (#[trigger] check(j)) is None,
    {
        let expected: i32 = if k <= 0x7fff_ffff {
            k as i32
        } else {
            i32::MAX
        };
        let actual: i32 = sorted[k].0;
        if actual != expected {
            let message: Vec<Piece> = vec![
                Piece::Text(
                    "per_stage values must have contiguous stage_ids starting at 0; expected stage_id ",
                ),
                Piece::Int(expected as i64),
                Piece::Text(" but got "),
                Piece::Int(actual as i64),
            ];
            proof {
                assert(text::pieces(message@) =~= check(k as int)->0.message);
                validation::first_is_at(sorted@.len() as int, check, k as int);
            }
            return Err(
                LoadError::schema(
                    path,
                    text::element_path_text("scalar_parameters", i, "values"),
                    message,
                ),
            );
        }
        assert(check(k as int) is None);
    }
    proof {
        validation::first_is_none(sorted@.len() as int, check);
    }
    Ok(())
}

fn check_stage_values(i: usize, sorted: &Vec<(i32, Float64)>, path: &str) -> (r: Result<
    (),
    LoadError,
>)
    ensures
        error::reports(
            r,
            path@,
            validation::first(sorted@.len() as int, stage_value_check(i as int, sorted@)),
        ),
{
    let ghost check = stage_value_check(i as int, sorted@);
    for k in 0..sorted.len()
        invariant
            check == stage_value_check(i as int, sorted@),
            forall|j: int| 0 <= j < k ==> (#[trigger] check(j)) is None,
    {
        let pair: (i32, Float64) = sorted[k];
        if !pair.1.is_finite() {
            let message: Vec<Piece> = vec![
                Piece::Text("value for stage_id "),
                Piece::Int(pair.0 as i64),
                Piece::Text(" must be finite, got "),
                Piece::Float(pair.1),
            ];
            proof {
                assert(text::pieces(message@) =~= check(k as int)->0.message);
                validation::first_is_at(sorted@.len() as int, check, k as int);
            }
            return Err(
                LoadError::schema(
                    path,
                    text::element_path_text("scalar_parameters", i, "values"),
                    message,
                ),
            );
        }
        assert(check(k as int) is None);
    }
    proof {
        validation::first_is_none(sorted@.len() as int, check);
    }
    Ok(())
}

/// Takes the values per stage.
fn convert_per_stage(i: usize, entry: &ScalarParameterJsonEntry, path: &str) -> (r: Result<
    ParameterKind,
    LoadError,
>)
    ensures
        converts(r, path@, per_stage_of(i as int, entry@)),
{
    let pairs: &Vec<(i32, Float64)> = match &entry.values {
        Some(pairs) => pairs,
        None => {
            return Err(
                fixed_error(i, "values", "\"per_stage\" kind requires a \"values\" field", path),
            );
        },
    };
    if pairs.len() == 0 {
        return Err(
            fixed_error(i, "values", "\"per_stage\" kind requires at least one entry", path),
        );
    }
    let sorted: Vec<(i32, Float64)> = sorting::sort_by_key(copy_pairs(pairs));
    match check_stages_twice(i, &sorted, path) {
        Ok(_) => {},
        Err(e) => return Err(e),
    }
    match check_stage_gaps(i, &sorted, path) {
        Ok(_) => {},
        Err(e) => return Err(e),
    }
    match check_stage_values(i, &sorted, path) {
        Ok(_) => {},
        Err(e) => return Err(e),
    }
    let mut values: Vec<Float64> = Vec::new();
    for k in 0..sorted.len()
        invariant
            values@ == second_parts(sorted@).take(k as int),
    {
        values.push(sorted[k].1);
        proof {
            assert(values@ =~= second_parts(sorted@).take(k + 1));
        }
    }
    proof {
        assert(values@ =~= second_parts(sorted@));
    }
    Ok(ParameterKind::PerStage { values })
}

// ── Values per season ────────────────────────────────────────────────────────

/// The seasons of pairs.
pub open spec fn first_parts(pairs: Seq<(i32, Float64)>) -> Seq<i32> {
    pairs.map_values(|p: (i32, Float64)| p.0)
}

/// What is wrong with each season: it occurs before, or its value is not finite.
pub open spec fn season_check(i: int, pairs: Seq<(i32, Float64)>) -> spec_fn(int) -> Option<
    Finding,
> {
    |k: int|
        if validation::repeated(first_parts(pairs), k) {
            Some(
                Finding {
                    field: entry_field(i, "values"),
                    message: seq![
                        text::text("duplicate season_id "),
                        PieceView::Int(pairs[k].0 as int),
                        text::text(" in seasonal values"),
                    ],
                },
            )
        } else if !pairs[k].1.finite() {
            Some(
                Finding {
                    field: entry_field(i, "values"),
                    message: seq![
                        text::text("value for season_id "),
                        PieceView::Int(pairs[k].0 as int),
                        text::text(" must be finite, got "),
                        PieceView::Float(pairs[k].1),
                    ],
                },
            )
        } else {
            None
        }
}

/// The values per season.
pub open spec fn seasonal_of(i: int, entry: EntryView) -> Conversion {
    match entry.values {
        None => Err(fixed_finding(i, "values", "\"seasonal\" kind requires a \"values\" field")),
        Some(pairs) => if pairs.len() == 0 {
            Err(fixed_finding(i, "values", "\"seasonal\" kind requires at least one entry"))
        } else {
            match validation::first(pairs.len() as int, season_check(i, pairs)) {
                Some(finding) => Err(finding),
                None => Ok(KindView::Seasonal(sorting::sorted(pairs))),
            }
        },
    }
}

/// Which seasons occur before.
fn repeated_seasons(pairs: &Vec<(i32, Float64)>) -> (r: Vec<bool>)
    ensures
        r@.len() == pairs@.len(),
        forall|k: int|
            0 <= k < pairs@.len() ==> #[trigger] r@[k] == validation::repeated(
                first_parts(pairs@),
                k,
            ),
{
    let mut seasons: Vec<i32> = Vec::new();
    for k in 0..pairs.len()
        invariant
            seasons@ == first_parts(pairs@).take(k as int),
    {
        seasons.push(pairs[k].0);
        assert(seasons@ =~= first_parts(pairs@).take(k + 1));
    }
    assert(seasons@ =~= first_parts(pairs@));
    validation::repeats(&seasons)
}

/// Takes the values per season.
fn convert_seasonal(i: usize, entry: &ScalarParameterJsonEntry, path: &str) -> (r: Result<
    ParameterKind,
    LoadError,
>)
    ensures
        converts(r, path@, seasonal_of(i as int, entry@)),
{
    let pairs: &Vec<(i32, Float64)> = match &entry.values {
        Some(pairs) => pairs,
        None => {
            return Err(
                fixed_error(i, "values", "\"seasonal\" kind requires a \"values\" field", path),
            );
        },
    };
    if pairs.len() == 0 {
        return Err(
            fixed_error(i, "values", "\"seasonal\" kind requires at least one entry", path),
        );
    }
    let ghost check = season_check(i as int, pairs@);
    let repeated: Vec<bool> = repeated_seasons(pairs);
    for k in 0..pairs.len()
        invariant
            repeated@.len() == pairs@.len(),
            forall|j: int|
                0 <= j < pairs@.len() ==> #[trigger] repeated@[j] == validation::repeated(
                    first_parts(pairs@),
                    j,
                ),
            entry@.values == Some(pairs@),
            pairs@.len() > 0,
            check == season_check(i as int, pairs@),
            forall|j: int| 0 <= j < k ==> (#[trigger] check(j)) is None,
    {
        let pair: (i32, Float64) = pairs[k];
        if repeated[k] {
            let message: Vec<Piece> = vec![
                Piece::Text("duplicate season_id "),
                Piece::Int(pair.0 as i64),
                Piece::Text(" in seasonal values"),
            ];
            proof {
                assert(text::pieces(message@) =~= check(k as int)->0.message);
                validation::first_is_at(pairs@.len() as int, check, k as int);
            }
            return Err(
                LoadError::schema(
                    path,
                    text::element_path_text("scalar_parameters", i, "values"),
                    message,
                ),
            );
        }
        if !pair.1.is_finite() {
            let message: Vec<Piece> = vec![
                Piece::Text("value for season_id "),
                Piece::Int(pair.0 as i64),
                Piece::Text(" must be finite, got "),
                Piece::Float(pair.1),
            ];
            proof {
                assert(text::pieces(message@) =~= check(k as int)->0.message);
                validation::first_is_at(pairs@.len() as int, check, k as int);
            }
            return Err(
                LoadError::schema(
                    path,
                    text::element_path_text("scalar_parameters", i, "values"),
                    message,
                ),
            );
        }
        assert(check(k as int) is None);
    }
    proof {
        validation::first_is_none(pairs@.len() as int, check);
    }
    Ok(ParameterKind::Seasonal { values: sorting::sort_by_key(copy_pairs(pairs)) })
}

// ── Computed quantities ──────────────────────────────────────────────────────

/// The computed quantity.
pub open spec fn computed_of(i: int, entry: EntryView) -> Conversion {
    match entry.computed_spec {
        None => Err(
            fixed_finding(
                i,
                "computed_spec",
                "\"computed\" kind requires a \"computed_spec\" field",
            ),
        ),
        Some(computed_spec) => Ok(KindView::Computed(computed_spec)),
    }
}

/// Takes the computed quantity.
fn convert_computed(i: usize, entry: &ScalarParameterJsonEntry, path: &str) -> (r: Result<
    ParameterKind,
    LoadError,
>)
    ensures
        converts(r, path@, computed_of(i as int, entry@)),
{
    match entry.computed_spec {
        None => Err(
            fixed_error(
                i,
                "computed_spec",
                "\"computed\" kind requires a \"computed_spec\" field",
                path,
            ),
        ),
        Some(computed_spec) => Ok(ParameterKind::Computed { computed_spec }),
    }
}

// ── Values per block ─────────────────────────────────────────────────────────

/// What is wrong with each block: it occurs before.
pub open spec fn block_twice_check(i: int, sorted: Seq<(i32, i32, Float64)>) -> spec_fn(
    int,
) -> Option<Finding> {
    |k: int|
        if k > 0 && sorted[k - 1].0 == sorted[k].0 && sorted[k - 1].1 == sorted[k].1 {
            Some(
                Finding {
                    field: entry_field(i, "block_values"),
                    message: seq![
                        text::text("duplicate (stage_id, block_id) pair ("),
                        PieceView::Int(sorted[k - 1].0 as int),
                        text::text(", "),
                        PieceView::Int(sorted[k - 1].1 as int),
                        text::text(") in per_stage_block values"),
                    ],
                },
            )
        } else {
            None
        }
}

/// What is wrong with each block: its value is not finite.
pub open spec fn block_value_check(i: int, sorted: Seq<(i32, i32, Float64)>) -> spec_fn(
    int,
) -> Option<Finding> {
    |k: int|
        if !sorted[k].2.finite() {
            Some(
                Finding {
                    field: entry_field(i, "block_values"),
                    message: seq![
                        text::text("value for (stage_id "),
                        PieceView::Int(sorted[k].0 as int),
                        text::text(", block_id "),
                        PieceView::Int(sorted[k].1 as int),
                        text::text(") must be finite, got "),
                        PieceView::Float(sorted[k].2),
                    ],
                },
            )
        } else {
            None
        }
}

/// What is wrong with sorted values per block.
pub open spec fn blocks_finding(i: int, sorted: Seq<(i32, i32, Float64)>) -> Option<Finding> {
    let n = sorted.len() as int;
    validation::either(
        validation::first(n, block_twice_check(i, sorted)),
        validation::first(n, block_value_check(i, sorted)),
    )
}

/// The values per block.
pub open spec fn per_stage_block_of(i: int, entry: EntryView) -> Conversion {
    match entry.block_values {
        None => Err(
            fixed_finding(
                i,
                "block_values",
                "\"per_stage_block\" kind requires a \"block_values\" field",
            ),
        ),
        Some(triples) => if triples.len() == 0 {
            Err(
                fixed_finding(
                    i,
                    "block_values",
                    "\"per_stage_block\" kind requires at least one entry",
                ),
            )
        } else {
            let sorted = sorting::sorted(triples);
            match blocks_finding(i, sorted) {
                Some(finding) => Err(finding),
                None => Ok(KindView::PerStageBlock(sorted)),
            }
        },
    }
}

fn copy_triples(triples: &Vec<(i32, i32, Float64)>) -> (r: Vec<(i32, i32, Float64)>)
    ensures
        r@ == triples@,
{
    let mut r: Vec<(i32, i32, Float64)> = Vec::new();
    for k in 0..triples.len()
        invariant
            r@ == triples@.take(k as int),
    {
        r.push(triples[k]);
        proof {
            assert(r@ =~= triples@.take(k + 1));
        }
    }
    proof {
        assert(r@ =~= triples@);
    }
    r
}

fn check_blocks_twice(i: usize, sorted: &Vec<(i32, i32, Float64)>, path: &str) -> (r: Result<
    (),
    LoadError,
>)
    ensures
        error::reports(
            r,
            path@,
            validation::first(sorted@.len() as int, block_twice_check(i as int, sorted@)),
        ),
{
    let ghost check = block_twice_check(i as int, sorted@);
    for k in 0..sorted.len()
        invariant
            check == block_twice_check(i as int, sorted@),
            forall|j: int| 0 <= j < k ==> (#[trigger] check(j)) is None,
    {
        if k > 0 && sorted[k - 1].0 == sorted[k].0 && sorted[k - 1].1 == sorted[k].1 {
            let message: Vec<Piece> = vec![
                Piece::Text("duplicate (stage_id, block_id) pair ("),
                Piece::Int(sorted[k - 1].0 as i64),
                Piece::Text(", "),
                Piece::Int(sorted[k - 1].1 as i64),
                Piece::Text(") in per_stage_block values"),
            ];
            proof {
                assert(text::pieces(message@) =~= check(k as int)->0.message);
                validation::first_is_at(sorted@.len() as int, check, k as int);
            }
            return Err(
                LoadError::schema(
                    path,
                    text::element_path_text("scalar_parameters", i, "block_values"),
                    message,
                ),
            );
        }
        assert(check(k as int) is None);
    }
    proof {
        validation::first_is_none(sorted@.len() as int, check);
    }
    Ok(())
}

fn check_block_values(i: usize, sorted: &Vec<(i32, i32, Float64)>, path: &str) -> (r: Result<
    (),
    LoadError,
>)
    ensures
        error::reports(
            r,
            path@,
            validation::first(sorted@.len() as int, block_value_check(i as int, sorted@)),
        ),
{
    let ghost check = block_value_check(i as int, sorted@);
    for k in 0..sorted.len()
        invariant
            check == block_value_check(i as int, sorted@),
            forall|j: int| 0 <= j < k ==> (#[trigger] check(j)) is None,
    {
        let triple: (i32, i32, Float64) = sorted[k];
        if !triple.2.is_finite() {
            let message: Vec<Piece> = vec![
                Piece::Text("value for (stage_id "),
                Piece::Int(triple.0 as i64),
                Piece::Text(", block_id "),
                Piece::Int(triple.1 as i64),
                Piece::Text(") must be finite, got "),
                Piece::Float(triple.2),
            ];
            proof {
                assert(text::pieces(message@) =~= check(k as int)->0.message);
                validation::first_is_at(sorted@.len() as int, check, k as int);
            }
            return Err(
                LoadError::schema(
                    path,
                    text::element_path_text("scalar_parameters", i, "block_values"),
                    message,
                ),
            );
        }
        assert(check(k as int) is None);
    }
    proof {
        validation::first_is_none(sorted@.len() as int, check);
    }
    Ok(())
}

/// Takes the values per block.
fn convert_per_stage_block(i: usize, entry: &ScalarParameterJsonEntry, path: &str) -> (r: Result<
    ParameterKind,
    LoadError,
>)
    ensures
        converts(r, path@, per_stage_block_of(i as int, entry@)),
{
    let triples: &Vec<(i32, i32, Float64)> = match &entry.block_values {
        Some(triples) => triples,
        None => {
            return Err(
                fixed_error(
                    i,
                    "block_values",
                    "\"per_stage_block\" kind requires a \"block_values\" field",
                    path,
                ),
            );
        },
    };
    if triples.len() == 0 {
        return Err(
            fixed_error(
                i,
                "block_values",
                "\"per_stage_block\" kind requires at least one entry",
                path,
            ),
        );
    }
    let sorted: Vec<(i32, i32, Float64)> = sorting::sort_by_key(copy_triples(triples));
    match check_blocks_twice(i, &sorted, path) {
        Ok(_) => {},
        Err(e) => return Err(e),
    }
    match check_block_values(i, &sorted, path) {
        Ok(_) => {},
        Err(e) => return Err(e),
    }
    Ok(ParameterKind::PerStageBlock { values: sorted })
}

// ── Whole entries ────────────────────────────────────────────────────────────

/// A finding that a field is for other kinds of parameters only.
pub open spec fn foreign_field(i: int, field: &str, rule: &str, kind: Seq<char>) -> Finding {
    Finding {
        field: entry_field(i, field),
        message: seq![text::text(rule), PieceView::Quoted(kind)],
    }
}

fn foreign_field_error(
    i: usize,
    field: &str,
    rule: &'static str,
    kind: &String,
    path: &str,
) -> (r: LoadError)
    ensures
        r.says(
            path@,
            foreign_field(i as int, field, rule, kind@).field,
            foreign_field(i as int, field, rule, kind@).message,
        ),
{
    let message: Vec<Piece> = vec![Piece::Text(rule), Piece::Quoted(kind.clone())];
    proof {
        assert(text::pieces(message@) =~= seq![text::text(rule), PieceView::Quoted(kind@)]);
    }
    LoadError::schema(path, text::element_path_text("scalar_parameters", i, field), message)
}

/// What is wrong with the fields that an entry's kind does not use: a value is for
/// constants, a list of values for stages and seasons, and a specification for
/// computed quantities.
pub open spec fn foreign_finding(i: int, entry: EntryView) -> Option<Finding> {
    if entry.kind != "constant"@ && entry.value is Some {
        Some(
            foreign_field(i, "value", "\"value\" is only valid for kind \"constant\", not ", entry.kind),
        )
    } else if entry.kind != "per_stage"@ && entry.kind != "seasonal"@ && entry.values is Some {
        Some(
            foreign_field(
                i,
                "values",
                "\"values\" is only valid for kinds \"per_stage\" and \"seasonal\", not ",
                entry.kind,
            ),
        )
    } else if entry.kind != "computed"@ && entry.computed_spec is Some {
        Some(
            foreign_field(
                i,
                "computed_spec",
                "\"computed_spec\" is only valid for kind \"computed\", not ",
                entry.kind,
            ),
        )
    } else {
        None
    }
}

fn check_foreign_fields(i: usize, entry: &ScalarParameterJsonEntry, path: &str) -> (r: Result<
    (),
    LoadError,
>)
    ensures
        error::reports(r, path@, foreign_finding(i as int, entry@)),
{
    if !text::same_text(&entry.kind, "constant") && entry.value.is_some() {
        return Err(
            foreign_field_error(
                i,
                "value",
                "\"value\" is only valid for kind \"constant\", not ",
                &entry.kind,
                path,
            ),
        );
    }
    if !text::same_text(&entry.kind, "per_stage") && !text::same_text(&entry.kind, "seasonal")
        && entry.values.is_some() {
        return Err(
            foreign_field_error(
                i,
                "values",
                "\"values\" is only valid for kinds \"per_stage\" and \"seasonal\", not ",
                &entry.kind,
                path,
            ),
        );
    }
    if !text::same_text(&entry.kind, "computed") && entry.computed_spec.is_some() {
        return Err(
            foreign_field_error(
                i,
                "computed_spec",
                "\"computed_spec\" is only valid for kind \"computed\", not ",
                &entry.kind,
                path,
            ),
        );
    }
    Ok(())
}

/// The value in the field that an entry's kind uses.
pub open spec fn payload_of(i: int, entry: EntryView) -> Conversion {
    if entry.kind == "constant"@ {
        constant_of(i, entry)
    } else if entry.kind == "per_stage"@ {
        per_stage_of(i, entry)
    } else if entry.kind == "seasonal"@ {
        seasonal_of(i, entry)
    } else if entry.kind == "computed"@ {
        computed_of(i, entry)
    } else if entry.kind == "per_stage_block"@ {
        per_stage_block_of(i, entry)
    } else {
        Err(
            Finding {
                field: entry_field(i, "kind"),
                message: seq![
                    text::text("unknown kind "),
                    PieceView::Quoted(entry.kind),
                    text::text(
                        "; legal values are: constant, per_stage, seasonal, computed, per_stage_block",
                    ),
                ],
            },
        )
    }
}

/// A parameter's value: that of the field that its kind uses, where the fields of
/// other kinds are absent.
pub open spec fn kind_of(i: int, entry: EntryView) -> Conversion {
    if entry.kind != "per_stage_block"@ && entry.block_values is Some {
        Err(
            foreign_field(
                i,
                "block_values",
                "\"block_values\" is only valid for kind \"per_stage_block\", not ",
                entry.kind,
            ),
        )
    } else {
        match payload_of(i, entry) {
            Err(finding) => Err(finding),
            Ok(kind) => match foreign_finding(i, entry) {
                Some(finding) => Err(finding),
                None => Ok(kind),
            },
        }
    }
}

fn convert_payload(i: usize, entry: &ScalarParameterJsonEntry, path: &str) -> (r: Result<
    ParameterKind,
    LoadError,
>)
    ensures
        converts(r, path@, payload_of(i as int, entry@)),
{
    if text::same_text(&entry.kind, "constant") {
        convert_constant(i, entry, path)
    } else if text::same_text(&entry.kind, "per_stage") {
        convert_per_stage(i, entry, path)
    } else if text::same_text(&entry.kind, "seasonal") {
        convert_seasonal(i, entry, path)
    } else if text::same_text(&entry.kind, "computed") {
        convert_computed(i, entry, path)
    } else if text::same_text(&entry.kind, "per_stage_block") {
        convert_per_stage_block(i, entry, path)
    } else {
        let message: Vec<Piece> = vec![
            Piece::Text("unknown kind "),
            Piece::Quoted(entry.kind.clone()),
            Piece::Text(
                "; legal values are: constant, per_stage, seasonal, computed, per_stage_block",
            ),
        ];
        proof {
            assert(text::pieces(message@) =~= payload_of(i as int, entry@)->Err_0.message);
        }
        Err(
            LoadError::schema(
                path,
                text::element_path_text("scalar_parameters", i, "kind"),
                message,
            ),
        )
    }
}

/// Takes a parameter's value.
fn convert_entry_to_kind(i: usize, entry: &ScalarParameterJsonEntry, path: &str) -> (r: Result<
    ParameterKind,
    LoadError,
>)
    ensures
        converts(r, path@, kind_of(i as int, entry@)),
{
    if !text::same_text(&entry.kind, "per_stage_block") && entry.block_values.is_some() {
        return Err(
            foreign_field_error(
                i,
                "block_values",
                "\"block_values\" is only valid for kind \"per_stage_block\", not ",
                &entry.kind,
                path,
            ),
        );
    }
    let kind: ParameterKind = match convert_payload(i, entry, path) {
        Ok(kind) => kind,
        Err(e) => return Err(e),
    };
    match check_foreign_fields(i, entry, path) {
        Ok(_) => Ok(kind),
        Err(e) => Err(e),
    }
}

/// Whether a character has the Unicode property `White_Space`.
pub open spec fn white_space(c: char) -> bool {
    let code = c as u32;
    ||| 0x9 <= code <= 0xd
    ||| code == 0x20
    ||| code == 0x85
    ||| code == 0xa0
    ||| code == 0x1680
    ||| 0x2000 <= code <= 0x200a
    ||| code == 0x2028
    ||| code == 0x2029
    ||| code == 0x202f
    ||| code == 0x205f
    ||| code == 0x3000
}

fn is_white_space(c: char) -> (r: bool)
    ensures
        r == white_space(c),
{
    let code: u32 = c as u32;
    (0x9 <= code && code <= 0xd) || code == 0x20 || code == 0x85 || code == 0xa0 || code == 0x1680
        || (0x2000 <= code && code <= 0x200a) || code == 0x2028 || code == 0x2029 || code == 0x202f
        || code == 0x205f || code == 0x3000
}

/// A name begins or ends with white space.
pub open spec fn padded(name: Seq<char>) -> bool {
    name.len() > 0 && (white_space(name[0]) || white_space(name.last()))
}

fn is_padded(name: &str) -> (r: bool)
    ensures
        r == padded(name@),
{
    if name.is_empty() {
        return false;
    }
    let n: usize = name.unicode_len();
    is_white_space(name.get_char(0)) || is_white_space(name.get_char(n - 1))
}

/// The ids of entries.
pub open spec fn ids_of(entries: Seq<EntryView>) -> Seq<i32> {
    entries.map_values(|e: EntryView| e.id)
}

/// The names of entries.
pub open spec fn names_of(entries: Seq<EntryView>) -> Seq<Seq<char>> {
    entries.map_values(|e: EntryView| e.name)
}

/// What is wrong with the id and the name of the entry at position `i`.
pub open spec fn label_finding(entries: Seq<EntryView>, i: int) -> Option<Finding> {
    if validation::repeated(ids_of(entries), i) {
        Some(
            Finding {
                field: entry_field(i, "id"),
                message: seq![
                    text::text("duplicate id "),
                    PieceView::Int(entries[i].id as int),
                ],
            },
        )
    } else if entries[i].name.len() == 0 {
        Some(fixed_finding(i, "name", "name must not be empty"))
    } else if padded(entries[i].name) {
        Some(
            Finding {
                field: entry_field(i, "name"),
                message: seq![
                    text::text("name must not have leading or trailing whitespace, got "),
                    PieceView::Quoted(entries[i].name),
                ],
            },
        )
    } else if validation::repeated(names_of(entries), i) {
        Some(
            Finding {
                field: entry_field(i, "name"),
                message: seq![
                    text::text("duplicate name "),
                    PieceView::Quoted(entries[i].name),
                ],
            },
        )
    } else {
        None
    }
}

/// What is wrong with an entry.
pub open spec fn entry_finding(entries: Seq<EntryView>, i: int) -> Option<Finding> {
    validation::either(
        label_finding(entries, i),
        match kind_of(i, entries[i]) {
            Ok(_) => None,
            Err(finding) => Some(finding),
        },
    )
}

/// What is wrong with each entry.
pub open spec fn entries_check(entries: Seq<EntryView>) -> spec_fn(int) -> Option<Finding> {
    |i: int| entry_finding(entries, i)
}

/// What is wrong with a file.
pub open spec fn file_finding(entries: Seq<EntryView>) -> Option<Finding> {
    validation::first(entries.len() as int, entries_check(entries))
}

/// The parameter of the entry at position `i`.
pub open spec fn parameter_of(entries: Seq<EntryView>, i: int) -> ParameterView {
    ParameterView {
        id: EntityId(entries[i].id),
        name: entries[i].name,
        kind: kind_of(i, entries[i])->Ok_0,
    }
}

/// The parameters of a file, in its order.
pub open spec fn parameters_of(entries: Seq<EntryView>) -> Seq<ParameterView> {
    Seq::new(entries.len(), |i: int| parameter_of(entries, i))
}

/// The views of parameters.
pub open spec fn parameter_views(parameters: Seq<ScalarParameter>) -> Seq<ParameterView> {
    parameters.map_values(|p: ScalarParameter| p@)
}

/// Which ids occur before.
fn repeated_ids(entries: &Vec<ScalarParameterJsonEntry>) -> (r: Vec<bool>)
    ensures
        r@.len() == entries@.len(),
        forall|i: int|
            0 <= i < entries@.len() ==> #[trigger] r@[i] == validation::repeated(
                ids_of(entry_views(entries@)),
                i,
            ),
{
    let mut ids: Vec<i32> = Vec::new();
    for i in 0..entries.len()
        invariant
            ids@ == ids_of(entry_views(entries@)).take(i as int),
    {
        ids.push(entries[i].id);
        assert(ids@ =~= ids_of(entry_views(entries@)).take(i + 1));
    }
    assert(ids@ =~= ids_of(entry_views(entries@)));
    validation::repeats(&ids)
}

fn name_listed(entries: &Vec<ScalarParameterJsonEntry>, i: usize) -> (r: bool)
    requires
        i < entries@.len(),
    ensures
        r == validation::repeated(names_of(entry_views(entries@)), i as int),
{
    let ghost names = names_of(entry_views(entries@));
    for j in 0..i
        invariant
            i < entries@.len(),
            names == names_of(entry_views(entries@)),
            forall|m: int| 0 <= m < j ==> #[trigger] names[m] != names[i as int],
    {
        assert(names[j as int] == entries@[j as int].name@);
        assert(names[i as int] == entries@[i as int].name@);
        if entries[j].name == entries[i].name {
            return true;
        }
    }
    false
}

fn check_label(
    entries: &Vec<ScalarParameterJsonEntry>,
    i: usize,
    id_repeated: bool,
    path: &str,
) -> (r: Result<(), LoadError>)
    requires
        i < entries@.len(),
        id_repeated == validation::repeated(ids_of(entry_views(entries@)), i as int),
    ensures
        error::reports(r, path@, label_finding(entry_views(entries@), i as int)),
{
    let ghost finding = label_finding(entry_views(entries@), i as int);
    let entry: &ScalarParameterJsonEntry = &entries[i];
    assert(entry_views(entries@)[i as int] == entry@);
    if id_repeated {
        let message: Vec<Piece> = vec![Piece::Text("duplicate id "), Piece::Int(entry.id as i64)];
        proof {
            assert(text::pieces(message@) =~= finding->0.message);
        }
        return Err(
            LoadError::schema(
                path,
                text::element_path_text("scalar_parameters", i, "id"),
                message,
            ),
        );
    }
    if entry.name.as_str().is_empty() {
        return Err(fixed_error(i, "name", "name must not be empty", path));
    }
    if is_padded(entry.name.as_str()) {
        let message: Vec<Piece> = vec![
            Piece::Text("name must not have leading or trailing whitespace, got "),
            Piece::Quoted(entry.name.clone()),
        ];
        proof {
            assert(text::pieces(message@) =~= finding->0.message);
        }
        return Err(
            LoadError::schema(
                path,
                text::element_path_text("scalar_parameters", i, "name"),
                message,
            ),
        );
    }
    if name_listed(entries, i) {
        let message: Vec<Piece> = vec![
            Piece::Text("duplicate name "),
            Piece::Quoted(entry.name.clone()),
        ];
        proof {
            assert(text::pieces(message@) =~= finding->0.message);
        }
        return Err(
            LoadError::schema(
                path,
                text::element_path_text("scalar_parameters", i, "name"),
                message,
            ),
        );
    }
    Ok(())
}

/// Checks the entries of a file and gives its parameters, sorted by id.
pub fn parse_scalar_parameters_json(entries: &Vec<ScalarParameterJsonEntry>, path: &str) -> (r:
    Result<Vec<ScalarParameter>, LoadError>)
    ensures
        error::reports(r, path@, file_finding(entry_views(entries@))),
        r matches Ok(parameters) ==> parameter_views(parameters@) == sorting::sorted(
            parameters_of(entry_views(entries@)),
        ),
{
    let ghost views = entry_views(entries@);
    let ghost check = entries_check(views);
    let repeated: Vec<bool> = repeated_ids(entries);
    let mut result: Vec<ScalarParameter> = Vec::new();
    for i in 0..entries.len()
        invariant
            views == entry_views(entries@),
            repeated@.len() == entries@.len(),
            forall|j: int|
                0 <= j < entries@.len() ==> #[trigger] repeated@[j] == validation::repeated(
                    ids_of(views),
                    j,
                ),
            check == entries_check(views),
            forall|j: int| 0 <= j < i ==> (#[trigger] check(j)) is None,
            parameter_views(result@) == parameters_of(views).take(i as int),
    {
        assert(views[i as int] == entries@[i as int]@);
        match check_label(entries, i, repeated[i], path) {
            Ok(_) => {},
            Err(e) => {
                proof {
                    assert(check(i as int) is Some);
                    validation::first_is_at(views.len() as int, check, i as int);
                }
                return Err(e);
            },
        }
        let entry: &ScalarParameterJsonEntry = &entries[i];
        match convert_entry_to_kind(i, entry, path) {
            Ok(kind) => {
                let ghost before = result@;
                let parameter = ScalarParameter {
                    id: EntityId(entry.id),
                    name: entry.name.clone(),
                    kind,
                };
                result.push(parameter);
                proof {
                    assert(check(i as int) is None);
                    assert(parameter_views(result@) =~= parameter_views(before).push(parameter@));
                    assert(parameter_views(result@) =~= parameters_of(views).take(i + 1));
                }
            },
            Err(e) => {
                proof {
                    assert(check(i as int) is Some);
                    validation::first_is_at(views.len() as int, check, i as int);
                }
                return Err(e);
            },
        }
    }
    proof {
        validation::first_is_none(views.len() as int, check);
        assert(parameter_views(result@) =~= parameters_of(views));
        sorting::images_sort_alike(result@, |p: ScalarParameter| p@);
    }
    Ok(sorting::sort_by_key(result))
}

// ── What is accepted ─────────────────────────────────────────────────────────

/// Accepted parameters have distinct ids and distinct, unpadded names.
pub proof fn accepted_labels(entries: Seq<EntryView>)
    requires
        file_finding(entries) is None,
    ensures
        ids_of(entries).no_duplicates(),
        names_of(entries).no_duplicates(),
        forall|i: int|
            0 <= i < entries.len() ==> (#[trigger] entries[i]).name.len() > 0 && !padded(
                entries[i].name,
            ),
{
    let check = entries_check(entries);
    validation::first_is_none(entries.len() as int, check);
    validation::no_repeats_are_distinct(ids_of(entries));
    validation::no_repeats_are_distinct(names_of(entries));
    assert forall|i: int| 0 <= i < entries.len() implies !#[trigger] validation::repeated(
        ids_of(entries),
        i,
    ) by {
        assert(check(i) is None);
    }
    assert forall|i: int| 0 <= i < entries.len() implies !#[trigger] validation::repeated(
        names_of(entries),
        i,
    ) by {
        assert(check(i) is None);
    }
    assert forall|i: int| 0 <= i < entries.len() implies (#[trigger] entries[i]).name.len() > 0
        && !padded(entries[i].name) by {
        assert(check(i) is None);
    }
}

/// Values per stage are accepted exactly where there are some, their stages are 0,
/// 1, 2 and so on in some order, and all are finite. The value at place `k` is then
/// that of stage `k`.
pub proof fn accepted_stages(i: int, entry: EntryView)
    requires
        entry.values matches Some(pairs) ==> pairs.len() <= i32::MAX,
    ensures
        per_stage_of(i, entry) is Ok <==> {
            &&& entry.values matches Some(pairs)
            &&& pairs.len() > 0
            &&& forall|k: int|
                0 <= k < pairs.len() ==> (#[trigger] sorting::sorted(pairs)[k]).0 == k
            &&& forall|k: int| 0 <= k < pairs.len() ==> (#[trigger] pairs[k]).1.finite()
        },
        per_stage_of(i, entry) matches Ok(kind) ==> {
            &&& kind is PerStage
            &&& kind->PerStage_0.len() == entry.values->0.len()
            &&& forall|k: int|
                0 <= k < entry.values->0.len() ==> 0 <= (#[trigger] entry.values->0[k]).0
                    < kind->PerStage_0.len() && kind->PerStage_0[entry.values->0[k].0 as int]
                    == entry.values->0[k].1
        },
{
    if entry.values is Some && entry.values->0.len() > 0 {
        let pairs = entry.values->0;
        let sorted = sorting::sorted(pairs);
        let n = pairs.len() as int;
        sorting::sorted_is(pairs);
        sorting::sorting_keeps_records(pairs, sorted);
        let twice = stage_twice_check(i, sorted);
        let gaps = stage_gap_check(i, sorted);
        let values = stage_value_check(i, sorted);
        validation::first_is_none(n, twice);
        validation::first_is_none(n, gaps);
        validation::first_is_none(n, values);
        sorted_finite(pairs);
        if stages_finding(i, sorted) is None {
            assert forall|k: int| 0 <= k < n implies (#[trigger] sorted[k]).0 == k by {
                assert(gaps(k) is None);
            }
            assert forall|k: int| 0 <= k < n implies (#[trigger] sorted[k]).1.finite() by {
                assert(values(k) is None);
            }
            assert forall|k: int| 0 <= k < n implies 0 <= (#[trigger] pairs[k]).0 < n
                && second_parts(sorted)[pairs[k].0 as int] == pairs[k].1 by {
                pair_is_sorted(pairs, k);
                let p = sorted.index_of(pairs[k]);
                assert(sorted[p].0 == p);
            }
        }
        if (forall|k: int| 0 <= k < n ==> (#[trigger] sorted[k]).0 == k) && (forall|k: int|
            0 <= k < n ==> (#[trigger] pairs[k]).1.finite()) {
            assert forall|k: int| 0 <= k < n implies (#[trigger] twice(k)) is None by {
                if k > 0 {
                    assert(sorted[k - 1].0 == k - 1);
                    assert(sorted[k].0 == k);
                }
            }
            assert forall|k: int| 0 <= k < n implies (#[trigger] gaps(k)) is None by {
                assert(sorted[k].0 == k);
            }
            assert forall|k: int| 0 <= k < n implies (#[trigger] values(k)) is None by {
                assert(sorted[k].1.finite());
            }
        }
    }
}

proof fn pair_is_sorted(pairs: Seq<(i32, Float64)>, k: int)
    requires
        0 <= k < pairs.len(),
    ensures
        sorting::sorted(pairs).contains(pairs[k]),
{
    broadcast use vstd::seq_lib::group_to_multiset_ensures;

    sorting::sorted_is(pairs);
    sorting::sorting_keeps_records(pairs, sorting::sorted(pairs));
    assert(pairs.contains(pairs[k]));
    assert(pairs.to_multiset().count(pairs[k]) > 0);
}

proof fn sorted_finite(pairs: Seq<(i32, Float64)>)
    ensures
        (forall|k: int| 0 <= k < pairs.len() ==> (#[trigger] pairs[k]).1.finite()) <==> (forall|
            k: int,
        |
            0 <= k < sorting::sorted(pairs).len() ==> (
            #[trigger] sorting::sorted(pairs)[k]).1.finite()),
{
    broadcast use vstd::seq_lib::group_to_multiset_ensures;

    let sorted = sorting::sorted(pairs);
    sorting::sorted_is(pairs);
    sorting::sorting_keeps_records(pairs, sorted);
    assert forall|k: int| 0 <= k < sorted.len() implies pairs.contains(#[trigger] sorted[k]) by {
        assert(sorted.contains(sorted[k]));
        assert(sorted.to_multiset().count(sorted[k]) > 0);
    }
    assert forall|k: int| 0 <= k < pairs.len() implies sorted.contains(#[trigger] pairs[k]) by {
        pair_is_sorted(pairs, k);
    }
    if forall|k: int| 0 <= k < pairs.len() ==> (#[trigger] pairs[k]).1.finite() {
        assert forall|k: int| 0 <= k < sorted.len() implies (#[trigger] sorted[k]).1.finite() by {
            let j = pairs.index_of(sorted[k]);
            assert(pairs[j].1.finite());
        }
    }
    if forall|k: int| 0 <= k < sorted.len() ==> (#[trigger] sorted[k]).1.finite() {
        assert forall|k: int| 0 <= k < pairs.len() implies (#[trigger] pairs[k]).1.finite() by {
            let j = sorted.index_of(pairs[k]);
            assert(sorted[j].1.finite());
        }
    }
}

/// Where an entry stands decides only where its error is reported.
proof fn kind_ignores_place(i: int, j: int, entry: EntryView)
    ensures
        kind_of(i, entry) is Ok <==> kind_of(j, entry) is Ok,
        kind_of(i, entry) is Ok ==> kind_of(i, entry) == kind_of(j, entry),
{
    if entry.values is Some {
        let pairs = entry.values->0;
        let n = pairs.len() as int;
        let sorted = sorting::sorted(pairs);
        let m = sorted.len() as int;
        same_findings(n, season_check(i, pairs), season_check(j, pairs));
        same_findings(m, stage_twice_check(i, sorted), stage_twice_check(j, sorted));
        same_findings(m, stage_gap_check(i, sorted), stage_gap_check(j, sorted));
        same_findings(m, stage_value_check(i, sorted), stage_value_check(j, sorted));
    }
    if entry.block_values is Some {
        let sorted = sorting::sorted(entry.block_values->0);
        let m = sorted.len() as int;
        same_findings(m, block_twice_check(i, sorted), block_twice_check(j, sorted));
        same_findings(m, block_value_check(i, sorted), block_value_check(j, sorted));
    }
}

proof fn same_findings(
    n: int,
    f: spec_fn(int) -> Option<Finding>,
    g: spec_fn(int) -> Option<Finding>,
)
    requires
        forall|k: int| #![trigger f(k)] #![trigger g(k)] f(k) is None <==> g(k) is None,
    ensures
        validation::first(n, f) is None <==> validation::first(n, g) is None,
{
    validation::first_is_none(n, f);
    validation::first_is_none(n, g);
    if validation::first(n, f) is None {
        assert forall|k: int| 0 <= k < n implies (#[trigger] g(k)) is None by {
            assert(f(k) is None);
        }
    }
    if validation::first(n, g) is None {
        assert forall|k: int| 0 <= k < n implies (#[trigger] f(k)) is None by {
            assert(g(k) is None);
        }
    }
}

/// The order in which an accepted file lists its parameters does not matter.
pub proof fn declaration_order_does_not_matter(a: Seq<EntryView>, b: Seq<EntryView>)
    requires
        file_finding(a) is None,
        a.to_multiset() == b.to_multiset(),
    ensures
        sorting::sorted(parameters_of(a)) == sorting::sorted(parameters_of(b)),
{
    accepted_labels(a);
    let f = |e: EntryView|
        ParameterView { id: EntityId(e.id), name: e.name, kind: kind_of(0, e)->Ok_0 };
    let check = entries_check(a);
    validation::first_is_none(a.len() as int, check);
    assert forall|i: int| 0 <= i < a.len() implies (#[trigger] parameters_of(a)[i]) == f(a[i]) by {
        assert(check(i) is None);
        kind_ignores_place(i, 0, a[i]);
    }
    assert(parameters_of(a) =~= a.map_values(f));
    accepted_elsewhere(a, b);
    assert forall|i: int| 0 <= i < b.len() implies (#[trigger] parameters_of(b)[i]) == f(b[i]) by {
        kind_ignores_place(i, 0, b[i]);
        assert(kind_of(0, b[i]) is Ok);
    }
    assert(parameters_of(b) =~= b.map_values(f));
    sorting::images_keep_items(a, b, f);
    let items = parameters_of(a);
    assert forall|i: int, j: int| 0 <= i < j < items.len() implies (#[trigger] items[i]).key() != (
    #[trigger] items[j]).key() by {
        assert(ids_of(a)[i] != ids_of(a)[j]);
    }
    sorting::sorted_ignores_order(items, parameters_of(b));
}

proof fn accepted_elsewhere(a: Seq<EntryView>, b: Seq<EntryView>)
    requires
        file_finding(a) is None,
        a.to_multiset() == b.to_multiset(),
    ensures
        forall|i: int| 0 <= i < b.len() ==> kind_of(0, #[trigger] b[i]) is Ok,
{
    broadcast use vstd::seq_lib::group_to_multiset_ensures;

    let check = entries_check(a);
    validation::first_is_none(a.len() as int, check);
    assert forall|i: int| 0 <= i < b.len() implies kind_of(0, #[trigger] b[i]) is Ok by {
        assert(b.contains(b[i]));
        assert(b.to_multiset().count(b[i]) > 0);
        assert(a.contains(b[i]));
        let j = a.index_of(b[i]);
        assert(check(j) is None);
        kind_ignores_place(j, 0, b[i]);
    }
}

// ── What is kept ─────────────────────────────────────────────────────────────

/// The names of the kinds are told apart.
proof fn kinds_are_apart()
    ensures
        "constant"@ != "per_stage"@,
        "constant"@ != "seasonal"@,
        "constant"@ != "computed"@,
        "constant"@ != "per_stage_block"@,
        "per_stage"@ != "seasonal"@,
        "per_stage"@ != "computed"@,
        "per_stage"@ != "per_stage_block"@,
        "seasonal"@ != "computed"@,
        "seasonal"@ != "per_stage_block"@,
        "computed"@ != "per_stage_block"@,
{
    reveal_strlit("constant");
    reveal_strlit("per_stage");
    reveal_strlit("seasonal");
    reveal_strlit("computed");
    reveal_strlit("per_stage_block");
    assert("constant"@[0] == 'c' && "constant"@[2] == 'n');
    assert("computed"@[0] == 'c' && "computed"@[2] == 'm');
    assert("seasonal"@[0] == 's');
    assert("per_stage"@.len() == 9);
    assert("per_stage_block"@.len() == 15);
}

/// The parameter of an accepted entry has the value that the field of its kind gives:
/// the value of a constant; the value of each stage at the place of that stage; the
/// values of the seasons, or of the blocks, by ascending season, or stage and block; or
/// the very quantity that is to be computed. An entry of another kind is not accepted.
pub proof fn kinds_keep_their_values(i: int, entry: ScalarParameterJsonEntry, kind: ParameterKind)
    requires
        kind_of(i, entry@) == Ok::<KindView, Finding>(kind@),
    ensures
        entry.kind@ == "constant"@ ==> match kind {
            ParameterKind::Constant { value } => entry.value == Some(value) && value.finite(),
            _ => false,
        },
        entry.kind@ == "per_stage"@ ==> match (kind, entry.values) {
            (ParameterKind::PerStage { values }, Some(pairs)) => {
                &&& values@.len() == pairs@.len() > 0
                &&& forall|k: int|
                    0 <= k < pairs@.len() ==> {
                        let (stage, value) = #[trigger] pairs@[k];
                        &&& 0 <= stage < values@.len()
                        &&& values@[stage as int] == value
                        &&& value.finite()
                    }
            },
            _ => false,
        },
        entry.kind@ == "seasonal"@ ==> match (kind, entry.values) {
            (ParameterKind::Seasonal { values }, Some(pairs)) => {
                &&& values@.len() == pairs@.len() > 0
                &&& values@.to_multiset() == pairs@.to_multiset()
                &&& forall|a: int, b: int|
                    0 <= a < b < values@.len() ==> (#[trigger] values@[a]).0 < (
                    #[trigger] values@[b]).0
                &&& forall|a: int| 0 <= a < values@.len() ==> (#[trigger] values@[a]).1.finite()
            },
            _ => false,
        },
        entry.kind@ == "computed"@ ==> match kind {
            ParameterKind::Computed { computed_spec } => entry.computed_spec == Some(computed_spec),
            _ => false,
        },
        entry.kind@ == "per_stage_block"@ ==> match (kind, entry.block_values) {
            (ParameterKind::PerStageBlock { values }, Some(triples)) => {
                &&& values@.len() == triples@.len() > 0
                &&& values@.to_multiset() == triples@.to_multiset()
                &&& forall|a: int, b: int|
                    0 <= a < b < values@.len() ==> {
                        let x = #[trigger] values@[a];
                        let y = #[trigger] values@[b];
                        x.0 < y.0 || (x.0 == y.0 && x.1 < y.1)
                    }
                &&& forall|a: int| 0 <= a < values@.len() ==> (#[trigger] values@[a]).2.finite()
            },
            _ => false,
        },
        entry.kind@ == "constant"@ || entry.kind@ == "per_stage"@ || entry.kind@ == "seasonal"@
            || entry.kind@ == "computed"@ || entry.kind@ == "per_stage_block"@,
        entry.value is Some <==> entry.kind@ == "constant"@,
        entry.values is Some <==> entry.kind@ == "per_stage"@ || entry.kind@ == "seasonal"@,
        entry.computed_spec is Some <==> entry.kind@ == "computed"@,
        entry.block_values is Some <==> entry.kind@ == "per_stage_block"@,
{
    kinds_are_apart();
    if entry.kind@ == "per_stage"@ {
        stages_keep_their_values(i, entry, kind);
    } else if entry.kind@ == "seasonal"@ {
        seasons_keep_their_values(i, entry, kind);
    } else if entry.kind@ == "per_stage_block"@ {
        blocks_keep_their_values(i, entry, kind);
    }
}

proof fn stages_keep_their_values(i: int, entry: ScalarParameterJsonEntry, kind: ParameterKind)
    requires
        per_stage_of(i, entry@) == Ok::<KindView, Finding>(kind@),
    ensures
        match (kind, entry.values) {
            (ParameterKind::PerStage { values }, Some(pairs)) => {
                &&& values@.len() == pairs@.len() > 0
                &&& forall|k: int|
                    0 <= k < pairs@.len() ==> {
                        let (stage, value) = #[trigger] pairs@[k];
                        &&& 0 <= stage < values@.len()
                        &&& values@[stage as int] == value
                        &&& value.finite()
                    }
            },
            _ => false,
        },
{
    let pairs = entry.values->0@;
    let sorted = sorting::sorted(pairs);
    let n = pairs.len() as int;
    sorting::sorted_is(pairs);
    sorting::sorting_keeps_records(pairs, sorted);
    let twice = stage_twice_check(i, sorted);
    let gaps = stage_gap_check(i, sorted);
    let finite = stage_value_check(i, sorted);
    validation::first_is_none(n, twice);
    validation::first_is_none(n, gaps);
    validation::first_is_none(n, finite);
    assert forall|k: int| 0 <= k < n implies {
        let (stage, value) = #[trigger] pairs[k];
        &&& 0 <= stage < n
        &&& second_parts(sorted)[stage as int] == value
        &&& value.finite()
    } by {
        let p = sorting::sorted_has(pairs, k);
        assert(gaps(p) is None);
        assert(finite(p) is None);
        if p > i32::MAX {
            assert(gaps(p - 1) is None);
            assert(twice(p) is None);
        }
    }
}

proof fn seasons_keep_their_values(i: int, entry: ScalarParameterJsonEntry, kind: ParameterKind)
    requires
        seasonal_of(i, entry@) == Ok::<KindView, Finding>(kind@),
    ensures
        match (kind, entry.values) {
            (ParameterKind::Seasonal { values }, Some(pairs)) => {
                &&& values@.len() == pairs@.len() > 0
                &&& values@.to_multiset() == pairs@.to_multiset()
                &&& forall|a: int, b: int|
                    0 <= a < b < values@.len() ==> (#[trigger] values@[a]).0 < (
                    #[trigger] values@[b]).0
                &&& forall|a: int| 0 <= a < values@.len() ==> (#[trigger] values@[a]).1.finite()
            },
            _ => false,
        },
{
    let pairs = entry.values->0@;
    let sorted = sorting::sorted(pairs);
    let n = pairs.len() as int;
    sorting::sorted_is(pairs);
    sorting::sorting_keeps_records(pairs, sorted);
    let check = season_check(i, pairs);
    validation::first_is_none(n, check);
    assert forall|k: int| 0 <= k < n implies !#[trigger] validation::repeated(
        first_parts(pairs),
        k,
    ) by {
        assert(check(k) is None);
    }
    validation::no_repeats_are_distinct(first_parts(pairs));
    assert forall|a: int, b: int| 0 <= a < b < n implies (#[trigger] pairs[a]).key() != (
    #[trigger] pairs[b]).key() by {
        assert(first_parts(pairs)[a] != first_parts(pairs)[b]);
    }
    sorting::sorted_keeps_distinct_keys(pairs);
    assert forall|a: int| 0 <= a < n implies (#[trigger] sorted[a]).1.finite() by {
        let e = sorting::sorted_comes_from(pairs, a);
        assert(check(e) is None);
    }
    assert forall|a: int, b: int| 0 <= a < b < n implies (#[trigger] sorted[a]).0 < (
    #[trigger] sorted[b]).0 by {
        assert(sorting::at_most(sorted[a].key(), sorted[b].key()));
        assert(sorted[a].key() != sorted[b].key());
    }
}

proof fn blocks_keep_their_values(i: int, entry: ScalarParameterJsonEntry, kind: ParameterKind)
    requires
        per_stage_block_of(i, entry@) == Ok::<KindView, Finding>(kind@),
    ensures
        match (kind, entry.block_values) {
            (ParameterKind::PerStageBlock { values }, Some(triples)) => {
                &&& values@.len() == triples@.len() > 0
                &&& values@.to_multiset() == triples@.to_multiset()
                &&& forall|a: int, b: int|
                    0 <= a < b < values@.len() ==> {
                        let x = #[trigger] values@[a];
                        let y = #[trigger] values@[b];
                        x.0 < y.0 || (x.0 == y.0 && x.1 < y.1)
                    }
                &&& forall|a: int| 0 <= a < values@.len() ==> (#[trigger] values@[a]).2.finite()
            },
            _ => false,
        },
{
    let triples = entry.block_values->0@;
    let sorted = sorting::sorted(triples);
    let n = triples.len() as int;
    sorting::sorted_is(triples);
    sorting::sorting_keeps_records(triples, sorted);
    let twice = block_twice_check(i, sorted);
    let finite = block_value_check(i, sorted);
    validation::first_is_none(n, twice);
    validation::first_is_none(n, finite);
    assert forall|a: int| 0 <= a < n implies (#[trigger] sorted[a]).2.finite() by {
        assert(finite(a) is None);
    }
    assert forall|a: int, b: int| 0 <= a < b < n implies {
        let x = #[trigger] sorted[a];
        let y = #[trigger] sorted[b];
        x.0 < y.0 || (x.0 == y.0 && x.1 < y.1)
    } by {
        assert(sorting::at_most(sorted[a].key(), sorted[b - 1].key()) || a == b - 1);
        assert(sorting::at_most(sorted[b - 1].key(), sorted[b].key()));
        assert(twice(b) is None);
    }
}

/// Each entry of an accepted file is a parameter, at the place that is given back, with
/// the entry's id and name and with the value of its kind.
pub proof fn entries_are_kept(
    entries: Seq<ScalarParameterJsonEntry>,
    parameters: Seq<ScalarParameter>,
    e: int,
) -> (i: int)
    requires
        0 <= e < entries.len(),
        file_finding(entry_views(entries)) is None,
        parameter_views(parameters) == sorting::sorted(parameters_of(entry_views(entries))),
    ensures
        parameters.len() == entries.len(),
        0 <= i < parameters.len(),
        parameters[i].id.0 == entries[e].id,
        parameters[i].name@ == entries[e].name@,
        kind_of(e, entries[e]@) == Ok::<KindView, Finding>(parameters[i].kind@),
        entries[e].kind@ == "constant"@ ==> match parameters[i].kind {
            ParameterKind::Constant { value } => entries[e].value == Some(value),
            _ => false,
        },
        entries[e].kind@ == "computed"@ ==> match parameters[i].kind {
            ParameterKind::Computed { computed_spec } => entries[e].computed_spec == Some(
                computed_spec,
            ),
            _ => false,
        },
{
    let views = entry_views(entries);
    let check = entries_check(views);
    validation::first_is_none(views.len() as int, check);
    assert(check(e) is None);
    let i = sorting::sorted_has(parameters_of(views), e);
    assert(parameter_views(parameters)[i] == parameters[i]@);
    assert(views[e] == entries[e]@);
    kinds_keep_their_values(e, entries[e], parameters[i].kind);
    i
}

/// Each parameter is an entry of the file, and the parameters come by ascending id.
pub proof fn parameters_are_entries(
    entries: Seq<ScalarParameterJsonEntry>,
    parameters: Seq<ScalarParameter>,
    i: int,
) -> (e: int)
    requires
        0 <= i < parameters.len(),
        parameter_views(parameters) == sorting::sorted(parameters_of(entry_views(entries))),
    ensures
        parameters.len() == entries.len(),
        0 <= e < entries.len(),
        parameters[i].id.0 == entries[e].id,
        parameters[i].name@ == entries[e].name@,
        i > 0 ==> parameters[i - 1].id.0 <= parameters[i].id.0,
{
    let all = parameters_of(entry_views(entries));
    sorting::sorted_is(all);
    let views = parameter_views(parameters);
    assert(views[i] == parameters[i]@);
    if i > 0 {
        assert(views[i - 1] == parameters[i - 1]@);
        assert(sorting::at_most(views[i - 1].key(), views[i].key()));
    }
    sorting::sorted_comes_from(all, i)
}

/// Ascending numbers of which there are as many as places stand at their own places.
proof fn places_are_filled(sorted: Seq<(i32, Float64)>, k: int)
    requires
        0 <= k < sorted.len(),
        forall|a: int, b: int|
            0 <= a < b < sorted.len() ==> (#[trigger] sorted[a]).0 < (#[trigger] sorted[b]).0,
        forall|a: int| 0 <= a < sorted.len() ==> 0 <= (#[trigger] sorted[a]).0 < sorted.len(),
    ensures
        sorted[k].0 == k,
{
    at_least_its_place(sorted, k);
    at_most_its_place(sorted, k);
}

proof fn at_least_its_place(sorted: Seq<(i32, Float64)>, k: int)
    requires
        0 <= k < sorted.len(),
        forall|a: int, b: int|
            0 <= a < b < sorted.len() ==> (#[trigger] sorted[a]).0 < (#[trigger] sorted[b]).0,
        forall|a: int| 0 <= a < sorted.len() ==> 0 <= (#[trigger] sorted[a]).0 < sorted.len(),
    ensures
        sorted[k].0 >= k,
    decreases k,
{
    if k > 0 {
        at_least_its_place(sorted, k - 1);
        assert(sorted[k - 1].0 < sorted[k].0);
    }
}

proof fn at_most_its_place(sorted: Seq<(i32, Float64)>, k: int)
    requires
        0 <= k < sorted.len(),
        forall|a: int, b: int|
            0 <= a < b < sorted.len() ==> (#[trigger] sorted[a]).0 < (#[trigger] sorted[b]).0,
        forall|a: int| 0 <= a < sorted.len() ==> 0 <= (#[trigger] sorted[a]).0 < sorted.len(),
    ensures
        sorted[k].0 <= k,
    decreases sorted.len() - k,
{
    if k < sorted.len() - 1 {
        at_most_its_place(sorted, k + 1);
        assert(sorted[k].0 < sorted[k + 1].0);
    }
}

proof fn stages_are_checked(i: int, pairs: Seq<(i32, Float64)>)
    ensures
        stages_finding(i, sorting::sorted(pairs)) is None <==> {
            &&& forall|k: int| 0 <= k < pairs.len() ==> (#[trigger] pairs[k]).1.finite()
            &&& forall|j: int, k: int|
                0 <= j < k < pairs.len() ==> (#[trigger] pairs[j]).0 != (#[trigger] pairs[k]).0
            &&& forall|k: int| 0 <= k < pairs.len() ==> 0 <= (#[trigger] pairs[k]).0 < pairs.len()
        },
{
    let sorted = sorting::sorted(pairs);
    let n = pairs.len() as int;
    sorting::sorted_is(pairs);
    sorting::sorting_keeps_records(pairs, sorted);
    sorting::sorted_keeps_distinct_keys(pairs);
    sorted_finite(pairs);
    let twice = stage_twice_check(i, sorted);
    let gaps = stage_gap_check(i, sorted);
    let finite = stage_value_check(i, sorted);
    validation::first_is_none(n, twice);
    validation::first_is_none(n, gaps);
    validation::first_is_none(n, finite);
    if stages_finding(i, sorted) is None {
        assert forall|k: int| 0 <= k < n implies (#[trigger] sorted[k]).0 == k by {
            assert(gaps(k) is None);
            if k > i32::MAX {
                assert(gaps(k - 1) is None);
                assert(twice(k) is None);
            }
        }
        assert forall|k: int| 0 <= k < n implies (#[trigger] sorted[k]).1.finite() by {
            assert(finite(k) is None);
        }
        assert(sorting::distinct_keys(sorted));
        assert forall|j: int, k: int| 0 <= j < k < n implies (#[trigger] pairs[j]).0 != (
        #[trigger] pairs[k]).0 by {
            assert(pairs[j].key() != pairs[k].key());
        }
        assert forall|k: int| 0 <= k < n implies 0 <= (#[trigger] pairs[k]).0 < n by {
            let p = sorting::sorted_has(pairs, k);
            assert(sorted[p].0 == p);
        }
    }
    if (forall|k: int| 0 <= k < n ==> (#[trigger] pairs[k]).1.finite()) && (forall|j: int, k: int|
        0 <= j < k < n ==> (#[trigger] pairs[j]).0 != (#[trigger] pairs[k]).0) && (forall|k: int|
        0 <= k < n ==> 0 <= (#[trigger] pairs[k]).0 < n) {
        assert(sorting::distinct_keys(pairs));
        assert forall|a: int, b: int| 0 <= a < b < sorted.len() implies (#[trigger] sorted[a]).0
            < (#[trigger] sorted[b]).0 by {
            assert(sorting::at_most(sorted[a].key(), sorted[b].key()));
            assert(sorted[a].key() != sorted[b].key());
        }
        assert forall|a: int| 0 <= a < sorted.len() implies 0 <= (#[trigger] sorted[a]).0
            < sorted.len() by {
            let e = sorting::sorted_comes_from(pairs, a);
            assert(0 <= pairs[e].0 < n);
        }
        assert forall|k: int| 0 <= k < n implies (#[trigger] gaps(k)) is None && twice(k) is None
            && finite(k) is None by {
            places_are_filled(sorted, k);
            if k > 0 {
                places_are_filled(sorted, k - 1);
            }
            assert(sorted[k].1.finite());
        }
        assert forall|k: int| 0 <= k < n implies (#[trigger] twice(k)) is None by {
            assert(gaps(k) is None);
        }
        assert forall|k: int| 0 <= k < n implies (#[trigger] finite(k)) is None by {
            assert(gaps(k) is None);
        }
    }
}

proof fn seasons_are_checked(i: int, pairs: Seq<(i32, Float64)>)
    ensures
        validation::first(pairs.len() as int, season_check(i, pairs)) is None <==> {
            &&& forall|k: int| 0 <= k < pairs.len() ==> (#[trigger] pairs[k]).1.finite()
            &&& forall|j: int, k: int|
                0 <= j < k < pairs.len() ==> (#[trigger] pairs[j]).0 != (#[trigger] pairs[k]).0
        },
{
    let n = pairs.len() as int;
    let seasons = first_parts(pairs);
    let check = season_check(i, pairs);
    validation::first_is_none(n, check);
    validation::no_repeats_are_distinct(seasons);
    if validation::first(n, check) is None {
        assert forall|k: int| 0 <= k < n implies !#[trigger] validation::repeated(seasons, k) by {
            assert(check(k) is None);
        }
        assert forall|k: int| 0 <= k < n implies (#[trigger] pairs[k]).1.finite() by {
            assert(check(k) is None);
        }
        assert forall|j: int, k: int| 0 <= j < k < n implies (#[trigger] pairs[j]).0 != (
        #[trigger] pairs[k]).0 by {
            assert(seasons[j] != seasons[k]);
        }
    }
    if (forall|k: int| 0 <= k < n ==> (#[trigger] pairs[k]).1.finite()) && (forall|j: int, k: int|
        0 <= j < k < n ==> (#[trigger] pairs[j]).0 != (#[trigger] pairs[k]).0) {
        assert forall|j: int, k: int| 0 <= j < seasons.len() && 0 <= k < seasons.len() && j
            != k implies seasons[j] != seasons[k] by {
            if j < k {
                assert(pairs[j].0 != pairs[k].0);
            } else {
                assert(pairs[k].0 != pairs[j].0);
            }
        }
        assert(seasons.no_duplicates());
        assert forall|k: int| 0 <= k < n implies (#[trigger] check(k)) is None by {
            assert(pairs[k].1.finite());
            assert(!validation::repeated(seasons, k));
        }
    }
}

proof fn blocks_are_checked(i: int, triples: Seq<(i32, i32, Float64)>)
    ensures
        blocks_finding(i, sorting::sorted(triples)) is None <==> {
            &&& forall|k: int| 0 <= k < triples.len() ==> (#[trigger] triples[k]).2.finite()
            &&& forall|j: int, k: int|
                0 <= j < k < triples.len() ==> (#[trigger] triples[j]).0 != (
                #[trigger] triples[k]).0 || triples[j].1 != triples[k].1
        },
{
    let sorted = sorting::sorted(triples);
    let n = triples.len() as int;
    sorting::sorted_is(triples);
    sorting::sorting_keeps_records(triples, sorted);
    sorting::sorted_keeps_distinct_keys(triples);
    let twice = block_twice_check(i, sorted);
    let finite = block_value_check(i, sorted);
    validation::first_is_none(n, twice);
    validation::first_is_none(n, finite);
    if blocks_finding(i, sorted) is None {
        assert forall|k: int| 0 <= k < n implies (#[trigger] triples[k]).2.finite() by {
            let p = sorting::sorted_has(triples, k);
            assert(finite(p) is None);
        }
        assert forall|a: int, b: int| 0 <= a < b < n implies (#[trigger] sorted[a]).key() != (
        #[trigger] sorted[b]).key() by {
            assert(sorting::at_most(sorted[a].key(), sorted[b - 1].key()) || a == b - 1);
            assert(sorting::at_most(sorted[b - 1].key(), sorted[b].key()));
            assert(twice(b) is None);
        }
        assert(sorting::distinct_keys(sorted));
        assert forall|j: int, k: int| 0 <= j < k < n implies (#[trigger] triples[j]).0 != (
        #[trigger] triples[k]).0 || triples[j].1 != triples[k].1 by {
            assert(triples[j].key() != triples[k].key());
        }
    }
    if (forall|k: int| 0 <= k < n ==> (#[trigger] triples[k]).2.finite()) && (forall|
        j: int,
        k: int,
    |
        0 <= j < k < n ==> (#[trigger] triples[j]).0 != (#[trigger] triples[k]).0 || triples[j].1
            != triples[k].1) {
        assert forall|a: int, b: int| 0 <= a < b < n implies (#[trigger] triples[a]).key() != (
        #[trigger] triples[b]).key() by {
            assert(triples[a].0 != triples[b].0 || triples[a].1 != triples[b].1);
        }
        assert forall|k: int| 0 <= k < n implies (#[trigger] twice(k)) is None by {
            if k > 0 {
                assert(sorted[k - 1].key() != sorted[k].key());
            }
        }
        assert forall|k: int| 0 <= k < n implies (#[trigger] finite(k)) is None by {
            let e = sorting::sorted_comes_from(triples, k);
            assert(triples[e].2.finite());
        }
    }
}

/// An entry is accepted exactly where its kind is known, the field of that kind and no
/// other holds a value, and that value keeps the rules of its kind.
pub proof fn accepted_kinds(i: int, entry: ScalarParameterJsonEntry)
    ensures
        kind_of(i, entry@) is Ok <==> {
            let block = entry.kind@ == "per_stage_block"@;
            let listed = entry.kind@ == "per_stage"@ || entry.kind@ == "seasonal"@;
            &&& entry.value is Some <==> entry.kind@ == "constant"@
            &&& entry.values is Some <==> listed
            &&& entry.computed_spec is Some <==> entry.kind@ == "computed"@
            &&& entry.block_values is Some <==> block
            &&& entry.kind@ == "constant"@ || listed || entry.kind@ == "computed"@ || block
            &&& entry.value matches Some(value) ==> value.finite()
            &&& entry.values matches Some(pairs) ==> {
                &&& pairs@.len() > 0
                &&& forall|k: int| 0 <= k < pairs@.len() ==> (#[trigger] pairs@[k]).1.finite()
                &&& forall|j: int, k: int|
                    0 <= j < k < pairs@.len() ==> (#[trigger] pairs@[j]).0 != (
                    #[trigger] pairs@[k]).0
                &&& entry.kind@ == "per_stage"@ ==> forall|k: int|
                    0 <= k < pairs@.len() ==> 0 <= (#[trigger] pairs@[k]).0 < pairs@.len()
            }
            &&& entry.block_values matches Some(triples) ==> {
                &&& triples@.len() > 0
                &&& forall|k: int| 0 <= k < triples@.len() ==> (#[trigger] triples@[k]).2.finite()
                &&& forall|j: int, k: int|
                    0 <= j < k < triples@.len() ==> (#[trigger] triples@[j]).0 != (
                    #[trigger] triples@[k]).0 || triples@[j].1 != triples@[k].1
            }
        },
{
    kinds_are_apart();
    if entry.values is Some {
        stages_are_checked(i, entry.values->0@);
        seasons_are_checked(i, entry.values->0@);
    }
    if entry.block_values is Some {
        blocks_are_checked(i, entry.block_values->0@);
    }
}

/// White space is a tab, a line feed, a vertical tab, a form feed, a carriage return, a
/// space, a next line, a space that does not break, an Ogham space, one of the eleven
/// spaces from the en quad on, a line or a paragraph separator, a narrow space that does
/// not break, a mathematical space or an ideographic space.
pub proof fn white_space_has_its_codes(c: char)
    ensures
        white_space(c) <==> (c == '\u{9}' || c == '\u{a}' || c == '\u{b}' || c == '\u{c}' || c
            == '\u{d}' || c == ' ' || c == '\u{85}' || c == '\u{a0}' || c == '\u{1680}' || c
            == '\u{2000}' || c == '\u{2001}' || c == '\u{2002}' || c == '\u{2003}' || c
            == '\u{2004}' || c == '\u{2005}' || c == '\u{2006}' || c == '\u{2007}' || c
            == '\u{2008}' || c == '\u{2009}' || c == '\u{200a}' || c == '\u{2028}' || c
            == '\u{2029}' || c == '\u{202f}' || c == '\u{205f}' || c == '\u{3000}'),
{
}

/// A file is accepted exactly where no two parameters have the same id or the same name,
/// every name begins and ends with a character that is not white space, and the kind of
/// every entry is accepted.
pub proof fn accepted_files(entries: Seq<ScalarParameterJsonEntry>)
    ensures
        file_finding(entry_views(entries)) is None <==> {
            &&& forall|i: int, j: int|
                0 <= i < j < entries.len() ==> (#[trigger] entries[i]).id != (
                #[trigger] entries[j]).id && entries[i].name@ != entries[j].name@
            &&& forall|i: int|
                0 <= i < entries.len() ==> {
                    let name = (#[trigger] entries[i]).name@;
                    &&& name.len() > 0
                    &&& !white_space(name[0])
                    &&& !white_space(name[name.len() - 1])
                    &&& kind_of(i, entries[i]@) is Ok
                }
        },
{
    let views = entry_views(entries);
    let check = entries_check(views);
    let ids = ids_of(views);
    let names = names_of(views);
    let n = entries.len() as int;
    validation::first_is_none(n, check);
    assert(forall|i: int|
        0 <= i < n ==> #[trigger] views[i] == entries[i]@ && ids[i] == entries[i].id && names[i]
            == entries[i].name@);
    if file_finding(views) is None {
        assert forall|i: int, j: int| 0 <= i < j < n implies (#[trigger] entries[i]).id != (
        #[trigger] entries[j]).id && entries[i].name@ != entries[j].name@ by {
            assert(check(j) is None);
            assert(views[i] == entries[i]@ && views[j] == entries[j]@);
            assert(!validation::repeated(ids, j));
            assert(!validation::repeated(names, j));
            assert(ids[i] != ids[j]);
            assert(names[i] != names[j]);
        }
        assert forall|i: int| 0 <= i < n implies {
            let name = (#[trigger] entries[i]).name@;
            &&& name.len() > 0
            &&& !white_space(name[0])
            &&& !white_space(name[name.len() - 1])
            &&& kind_of(i, entries[i]@) is Ok
        } by {
            assert(check(i) is None);
            assert(views[i] == entries[i]@);
        }
    } else {
        let i = choose|i: int| 0 <= i < n && (#[trigger] check(i)) is Some;
        assert(views[i] == entries[i]@);
        if validation::repeated(ids, i) {
            let j = choose|j: int| 0 <= j < i && #[trigger] ids[j] == ids[i];
            assert(views[j] == entries[j]@);
            assert(entries[j].id == entries[i].id);
        } else if validation::repeated(names, i) {
            let j = choose|j: int| 0 <= j < i && #[trigger] names[j] == names[i];
            assert(views[j] == entries[j]@);
            assert(entries[j].name@ == entries[i].name@);
        }
    }
}

/// What is reported of an entry is the path of a field that is wrong: the kind, where it is
/// unknown; a field that the kind does not take, where it is given; or the field that the
/// kind takes, where it is missing or its numbers are refused.
pub proof fn the_wrong_field_is_reported(i: int, entry: ScalarParameterJsonEntry)
    ensures
        kind_of(i, entry@) matches Err(f) ==> {
            let front = "scalar_parameters"@ + "["@ + text::decimal(i as nat) + "]."@;
            let listed = entry.kind@ == "per_stage"@ || entry.kind@ == "seasonal"@;
            ||| f.field == front + "kind"@ && !listed && entry.kind@ != "constant"@ && entry.kind@
                != "computed"@ && entry.kind@ != "per_stage_block"@
            ||| f.field == front + "value"@ && (entry.kind@ == "constant"@ ==> (
            entry.value matches Some(x) ==> !x.finite())) && (entry.kind@ != "constant"@
                ==> entry.value is Some)
            ||| f.field == front + "values"@ && (listed || entry.values is Some)
            ||| f.field == front + "computed_spec"@ && (entry.computed_spec is Some <==> entry.kind@
                != "computed"@)
            ||| f.field == front + "block_values"@ && (entry.kind@ == "per_stage_block"@
                || entry.block_values is Some)
        },
{
    kinds_are_apart();
    if kind_of(i, entry@) is Err {
        if entry.kind@ == "per_stage"@ && entry.values is Some {
            let sorted = sorting::sorted(entry.values->0@);
            let n = sorted.len() as int;
            if validation::first(n, stage_twice_check(i, sorted)) is Some {
                let k = validation::the_first_bad_entry_is_reported(
                    n,
                    stage_twice_check(i, sorted),
                );
            } else if validation::first(n, stage_gap_check(i, sorted)) is Some {
                let k = validation::the_first_bad_entry_is_reported(n, stage_gap_check(i, sorted));
            } else if validation::first(n, stage_value_check(i, sorted)) is Some {
                let k = validation::the_first_bad_entry_is_reported(
                    n,
                    stage_value_check(i, sorted),
                );
            }
        }
        if entry.kind@ == "seasonal"@ && entry.values is Some {
            let pairs = entry.values->0@;
            if validation::first(pairs.len() as int, season_check(i, pairs)) is Some {
                let k = validation::the_first_bad_entry_is_reported(
                    pairs.len() as int,
                    season_check(i, pairs),
                );
            }
        }
        if entry.kind@ == "per_stage_block"@ && entry.block_values is Some {
            let sorted = sorting::sorted(entry.block_values->0@);
            let n = sorted.len() as int;
            if validation::first(n, block_twice_check(i, sorted)) is Some {
                let k = validation::the_first_bad_entry_is_reported(
                    n,
                    block_twice_check(i, sorted),
                );
            } else if validation::first(n, block_value_check(i, sorted)) is Some {
                let k = validation::the_first_bad_entry_is_reported(
                    n,
                    block_value_check(i, sorted),
                );
            }
        }
    }
}

/// What is reported of a file is what is wrong with an entry, the one that is given back,
/// and no entry before it is wrong: its id or its name was given before, its name is empty
/// or padded, or its kind is refused.
pub proof fn the_wrong_parameter_is_reported(entries: Seq<ScalarParameterJsonEntry>) -> (i: int)
    requires
        file_finding(entry_views(entries)) is Some,
    ensures
        0 <= i < entries.len(),
        ({
            let f = file_finding(entry_views(entries))->0;
            let front = "scalar_parameters"@ + "["@ + text::decimal(i as nat) + "]."@;
            ||| f.field == front + "id"@ && exists|j: int|
                0 <= j < i && (#[trigger] entries[j]).id == entries[i].id
            ||| f.field == front + "name"@ && (entries[i].name@.len() == 0 || white_space(
                entries[i].name@[0],
            ) || white_space(entries[i].name@[entries[i].name@.len() - 1]) || exists|j: int|
                0 <= j < i && (#[trigger] entries[j]).name@ == entries[i].name@)
            ||| kind_of(i, entries[i]@) == Err::<KindView, Finding>(f)
        }),
{
    let views = entry_views(entries);
    let ids = ids_of(views);
    let names = names_of(views);
    let i = validation::the_first_bad_entry_is_reported(
        entries.len() as int,
        entries_check(views),
    );
    assert(forall|j: int|
        0 <= j < entries.len() ==> #[trigger] views[j] == entries[j]@ && ids[j] == entries[j].id
            && names[j] == entries[j].name@);
    assert(views[i] == entries[i]@);
    if validation::repeated(ids, i) {
        let j = choose|j: int| 0 <= j < i && #[trigger] ids[j] == ids[i];
        assert(views[j] == entries[j]@);
        assert(entries[j].id == entries[i].id);
    } else if validation::repeated(names, i) {
        let j = choose|j: int| 0 <= j < i && #[trigger] names[j] == names[i];
        assert(views[j] == entries[j]@);
        assert(entries[j].name@ == entries[i].name@);
    }
    i
}

} // verus!
