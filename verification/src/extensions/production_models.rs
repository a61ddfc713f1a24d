//! Which production model each hydro plant uses at each stage.
//!
//! A plant selects its models by ranges of stages or by season.
//! [`parse_production_models`] checks the entries of an input file and sorts them
//! by plant.
//!
//! That a model of name `fpha` comes with an `fpha_config` is not checked here: it
//! is left to the checks that see the whole case.

use vstd::prelude::*;
use vstd::string::StringExecFns;

use crate::entities::EntityId;
use crate::error;
use crate::error::{Finding, LoadError};
use crate::float;
use crate::float::Float64;
use crate::sorting;
use crate::sorting::{HasKey, Key, Keyed};
use crate::text;
use crate::text::{Piece, PieceView};
use crate::validation;

verus! {

// ── Configurations ───────────────────────────────────────────────────────────

/// The volumes that a fit uses. A bound is given in hm³ or as a percentile, not
/// both.
#[derive(Clone, Copy, Debug, PartialEq, Eq)]
pub struct FittingWindow {
    /// The least volume, in hm³.
    pub volume_min_hm3: Option<Float64>,
    /// The greatest volume, in hm³.
    pub volume_max_hm3: Option<Float64>,
    /// The least volume, as a percentile of the operating range.
    pub volume_min_percentile: Option<Float64>,
    /// The greatest volume, as a percentile of the operating range.
    pub volume_max_percentile: Option<Float64>,
}

/// How the hyperplanes of a production function are made.
#[derive(Clone, Debug, PartialEq)]
pub struct FphaColumnLayout {
    /// Where the hyperplanes come from.
    pub source: String,
    /// How many volumes are sampled.
    pub volume_discretization_points: Option<i32>,
    /// How many turbined flows are sampled.
    pub turbine_discretization_points: Option<i32>,
    /// How many spillages are sampled.
    pub spillage_discretization_points: Option<i32>,
    /// The greatest number of planes.
    pub max_planes_per_hydro: Option<i32>,
    /// The volumes that the fit uses.
    pub fitting_window: Option<FittingWindow>,
}

/// What a [`FphaColumnLayout`] holds.
#[verifier::ext_equal]
pub struct LayoutView {
    /// Where the hyperplanes come from.
    pub source: Seq<char>,
    /// How many volumes are sampled.
    pub volume_discretization_points: Option<i32>,
    /// How many turbined flows are sampled.
    pub turbine_discretization_points: Option<i32>,
    /// How many spillages are sampled.
    pub spillage_discretization_points: Option<i32>,
    /// The greatest number of planes.
    pub max_planes_per_hydro: Option<i32>,
    /// The volumes that the fit uses.
    pub fitting_window: Option<FittingWindow>,
}

impl View for FphaColumnLayout {
    type V = LayoutView;

    open spec fn view(&self) -> LayoutView {
        LayoutView {
            source: self.source@,
            volume_discretization_points: self.volume_discretization_points,
            turbine_discretization_points: self.turbine_discretization_points,
            spillage_discretization_points: self.spillage_discretization_points,
            max_planes_per_hydro: self.max_planes_per_hydro,
            fitting_window: self.fitting_window,
        }
    }
}

/// The view of a layout that may be missing.
pub open spec fn layout_view(layout: Option<FphaColumnLayout>) -> Option<LayoutView> {
    match layout {
        Some(l) => Some(l@),
        None => None,
    }
}

/// How similar hyperplanes are merged.
#[derive(Clone, Copy, Debug, PartialEq, Eq)]
pub enum PlaneReductionConfig {
    /// Planes whose normals are within an angle.
    Angle {
        /// The angle, in degrees, from 0 to 90.
        tolerance_deg: Float64,
    },
    /// Planes whose mean squared distance is within a bound.
    Distance {
        /// The bound, as a fraction.
        tolerance_pct: Float64,
        /// How many points are sampled, at least one.
        n_samples: u32,
    },
}

/// A reference operating volume.
#[derive(Clone, Copy, Debug, PartialEq, Eq)]
pub enum ReferenceVolume {
    /// In hm³: finite and positive.
    AbsoluteHm3(Float64),
    /// As a fraction of the operating range, from 0 to 1.
    Percentile(Float64),
}

/// The model of a range of stages.
#[derive(Clone, Debug, PartialEq)]
pub struct StageRange {
    /// The first stage.
    pub start_stage_id: i32,
    /// The last stage, or none for all that follow.
    pub end_stage_id: Option<i32>,
    /// The model's name.
    pub model: String,
    /// How hyperplanes are made.
    pub fpha_config: Option<FphaColumnLayout>,
    /// The reference operating volume.
    pub reference_volume: Option<ReferenceVolume>,
    /// The productivity, in MW/(m³/s).
    pub productivity_mw_per_m3s: Option<Float64>,
}

/// The model of a season.
#[derive(Clone, Debug, PartialEq)]
pub struct SeasonConfig {
    /// The season.
    pub season_id: i32,
    /// The model's name.
    pub model: String,
    /// How hyperplanes are made.
    pub fpha_config: Option<FphaColumnLayout>,
    /// The reference operating volume.
    pub reference_volume: Option<ReferenceVolume>,
    /// The productivity, in MW/(m³/s).
    pub productivity_mw_per_m3s: Option<Float64>,
}

/// How a plant selects its models.
#[derive(Clone, Debug, PartialEq)]
pub enum SelectionMode {
    /// By ranges of stages.
    StageRanges {
        /// The ranges.
        ranges: Vec<StageRange>,
    },
    /// By season.
    Seasonal {
        /// The model of seasons that are not listed.
        default_model: String,
        /// The seasons.
        seasons: Vec<SeasonConfig>,
    },
}

/// The models of one plant.
#[derive(Clone, Debug, PartialEq)]
pub struct ProductionModelConfig {
    /// The plant.
    pub hydro_id: EntityId,
    /// How it selects its models.
    pub selection_mode: SelectionMode,
}

/// The models of all plants.
#[derive(Clone, Debug, PartialEq)]
pub struct ProductionModelFile {
    /// The plants, by ascending id.
    pub configs: Vec<ProductionModelConfig>,
    /// How similar hyperplanes are merged, if they are.
    pub plane_reduction: Option<PlaneReductionConfig>,
}

impl Default for ProductionModelFile {
    /// No plants, and nothing is merged.
    fn default() -> (r: ProductionModelFile)
        ensures
            r.configs@.len() == 0,
            r.plane_reduction is None,
    {
        ProductionModelFile { configs: Vec::new(), plane_reduction: None }
    }
}

// ── What a file holds ────────────────────────────────────────────────────────

/// A reference operating volume, as a file gives it: exactly one field is set.
#[derive(Clone, Copy, Debug, PartialEq, Eq)]
pub struct RawReferenceVolume {
    /// In hm³.
    pub volume_hm3: Option<Float64>,
    /// As a fraction of the operating range.
    pub percentile: Option<Float64>,
}

/// The model of a range of stages, as a file gives it.
#[derive(Clone, Debug)]
pub struct RawStageRange {
    /// The first stage.
    pub start_stage_id: i32,
    /// The last stage, or none for all that follow.
    pub end_stage_id: Option<i32>,
    /// The model's name.
    pub model: String,
    /// How hyperplanes are made.
    pub fpha_config: Option<FphaColumnLayout>,
    /// The reference operating volume.
    pub reference_volume: Option<RawReferenceVolume>,
    /// The productivity, in MW/(m³/s).
    pub productivity_mw_per_m3s: Option<Float64>,
}

/// The model of a season, as a file gives it.
#[derive(Clone, Debug)]
pub struct RawSeasonConfig {
    /// The season.
    pub season_id: i32,
    /// The model's name.
    pub model: String,
    /// How hyperplanes are made.
    pub fpha_config: Option<FphaColumnLayout>,
    /// The reference operating volume.
    pub reference_volume: Option<RawReferenceVolume>,
    /// The productivity, in MW/(m³/s).
    pub productivity_mw_per_m3s: Option<Float64>,
}

/// How a plant selects its models, as a file gives it.
#[derive(Clone, Debug)]
pub enum RawSelectionMode {
    /// By ranges of stages.
    StageRanges {
        /// The ranges.
        stage_ranges: Vec<RawStageRange>,
    },
    /// By season.
    Seasonal {
        /// The model of seasons that are not listed.
        default_model: String,
        /// The seasons.
        seasons: Vec<RawSeasonConfig>,
    },
}

/// The models of one plant, as a file gives them.
#[derive(Clone, Debug)]
pub struct RawProductionModel {
    /// The plant.
    pub hydro_id: i32,
    /// How it selects its models.
    pub selection: RawSelectionMode,
}

/// An input file.
#[derive(Clone, Debug)]
pub struct RawProductionModelFile {
    /// The plants.
    pub production_models: Vec<RawProductionModel>,
    /// How similar hyperplanes are merged, if they are.
    pub fpha_plane_reduction: Option<PlaneReductionConfig>,
}

/// What is chosen for a range or a season. `R` is the form of the reference volume.
#[verifier::ext_equal]
pub struct ChoiceView<R> {
    /// The model's name.
    pub model: Seq<char>,
    /// How hyperplanes are made.
    pub fpha_config: Option<LayoutView>,
    /// The reference operating volume.
    pub reference_volume: Option<R>,
    /// The productivity.
    pub productivity_mw_per_m3s: Option<Float64>,
}

/// What is chosen for a range of stages.
#[verifier::ext_equal]
pub struct RangeView<R> {
    /// The first stage.
    pub start_stage_id: i32,
    /// The last stage.
    pub end_stage_id: Option<i32>,
    /// The choice.
    pub choice: ChoiceView<R>,
}

/// What is chosen for a season.
#[verifier::ext_equal]
pub struct SeasonChoiceView<R> {
    /// The season.
    pub season_id: i32,
    /// The choice.
    pub choice: ChoiceView<R>,
}

/// How a plant selects its models.
#[verifier::ext_equal]
pub enum SelectionView<R> {
    /// By ranges of stages.
    StageRanges(Seq<RangeView<R>>),
    /// By season, with the model of those that are not listed.
    Seasonal(Seq<char>, Seq<SeasonChoiceView<R>>),
}

/// The models of one plant.
#[verifier::ext_equal]
pub struct ModelView<R> {
    /// The plant.
    pub hydro_id: i32,
    /// How it selects its models.
    pub selection: SelectionView<R>,
}

impl View for RawStageRange {
    type V = RangeView<RawReferenceVolume>;

    open spec fn view(&self) -> RangeView<RawReferenceVolume> {
        RangeView {
            start_stage_id: self.start_stage_id,
            end_stage_id: self.end_stage_id,
            choice: ChoiceView {
                model: self.model@,
                fpha_config: layout_view(self.fpha_config),
                reference_volume: self.reference_volume,
                productivity_mw_per_m3s: self.productivity_mw_per_m3s,
            },
        }
    }
}

impl View for RawSeasonConfig {
    type V = SeasonChoiceView<RawReferenceVolume>;

    open spec fn view(&self) -> SeasonChoiceView<RawReferenceVolume> {
        SeasonChoiceView {
            season_id: self.season_id,
            choice: ChoiceView {
                model: self.model@,
                fpha_config: layout_view(self.fpha_config),
                reference_volume: self.reference_volume,
                productivity_mw_per_m3s: self.productivity_mw_per_m3s,
            },
        }
    }
}

impl View for RawProductionModel {
    type V = ModelView<RawReferenceVolume>;

    open spec fn view(&self) -> ModelView<RawReferenceVolume> {
        ModelView {
            hydro_id: self.hydro_id,
            selection: match self.selection {
                RawSelectionMode::StageRanges { stage_ranges } => SelectionView::StageRanges(
                    stage_ranges@.map_values(|r: RawStageRange| r@),
                ),
                RawSelectionMode::Seasonal {
                    default_model,
                    seasons,
                } => SelectionView::Seasonal(
                    default_model@,
                    seasons@.map_values(|s: RawSeasonConfig| s@),
                ),
            },
        }
    }
}

impl View for StageRange {
    type V = RangeView<ReferenceVolume>;

    open spec fn view(&self) -> RangeView<ReferenceVolume> {
        RangeView {
            start_stage_id: self.start_stage_id,
            end_stage_id: self.end_stage_id,
            choice: ChoiceView {
                model: self.model@,
                fpha_config: layout_view(self.fpha_config),
                reference_volume: self.reference_volume,
                productivity_mw_per_m3s: self.productivity_mw_per_m3s,
            },
        }
    }
}

impl View for SeasonConfig {
    type V = SeasonChoiceView<ReferenceVolume>;

    open spec fn view(&self) -> SeasonChoiceView<ReferenceVolume> {
        SeasonChoiceView {
            season_id: self.season_id,
            choice: ChoiceView {
                model: self.model@,
                fpha_config: layout_view(self.fpha_config),
                reference_volume: self.reference_volume,
                productivity_mw_per_m3s: self.productivity_mw_per_m3s,
            },
        }
    }
}

impl View for ProductionModelConfig {
    type V = ModelView<ReferenceVolume>;

    open spec fn view(&self) -> ModelView<ReferenceVolume> {
        ModelView {
            hydro_id: self.hydro_id.0,
            selection: match self.selection_mode {
                SelectionMode::StageRanges { ranges } => SelectionView::StageRanges(
                    ranges@.map_values(|r: StageRange| r@),
                ),
                SelectionMode::Seasonal { default_model, seasons } => SelectionView::Seasonal(
                    default_model@,
                    seasons@.map_values(|s: SeasonConfig| s@),
                ),
            },
        }
    }
}

impl HasKey for ModelView<ReferenceVolume> {
    open spec fn key(&self) -> Key {
        (self.hydro_id as int, 0, 0)
    }
}

impl HasKey for ProductionModelConfig {
    open spec fn key(&self) -> Key {
        (self.hydro_id.0 as int, 0, 0)
    }
}

impl Keyed for ProductionModelConfig {
    fn sort_key(&self) -> (r: (i64, i64, i64)) {
        (self.hydro_id.0 as i64, 0, 0)
    }
}

/// The views of the plants of a file.
pub open spec fn raw_views(models: Seq<RawProductionModel>) -> Seq<ModelView<RawReferenceVolume>> {
    models.map_values(|m: RawProductionModel| m@)
}

/// The views of plants.
pub open spec fn config_views(configs: Seq<ProductionModelConfig>) -> Seq<
    ModelView<ReferenceVolume>,
> {
    configs.map_values(|c: ProductionModelConfig| c@)
}

// ── Rules for one choice ─────────────────────────────────────────────────────

/// A finding with a fixed message.
pub open spec fn fixed_finding(field: Seq<char>, message: &str) -> Option<Finding> {
    Some(Finding { field, message: seq![text::text(message)] })
}

/// A finding that gives a number.
pub open spec fn value_finding(field: Seq<char>, rule: &str, value: Float64) -> Option<Finding> {
    Some(Finding { field, message: seq![text::text(rule), PieceView::Float(value)] })
}

fn fixed_error(field: String, message: &'static str, path: &str) -> (r: LoadError)
    ensures
        r.says(path@, field@, seq![text::text(message)]),
{
    let pieces: Vec<Piece> = vec![Piece::Text(message)];
    proof {
        assert(text::pieces(pieces@) =~= seq![text::text(message)]);
    }
    LoadError::schema(path, field, pieces)
}

fn value_error(field: String, rule: &'static str, value: Float64, path: &str) -> (r: LoadError)
    ensures
        r.says(path@, field@, seq![text::text(rule), PieceView::Float(value)]),
{
    let pieces: Vec<Piece> = vec![Piece::Text(rule), Piece::Float(value)];
    proof {
        assert(text::pieces(pieces@) =~= seq![text::text(rule), PieceView::Float(value)]);
    }
    LoadError::schema(path, field, pieces)
}

/// What is wrong with a productivity: hyperplanes give their own, and other models
/// take a finite number that is not negative.
pub open spec fn productivity_finding(
    field: Seq<char>,
    model: Seq<char>,
    productivity: Option<Float64>,
) -> Option<Finding> {
    match productivity {
        None => None,
        Some(value) => if model == "fpha"@ {
            fixed_finding(
                field,
                "productivity_mw_per_m3s must not be set when model is 'fpha'",
            )
        } else if validation::non_negative(value) {
            None
        } else {
            value_finding(
                field,
                "productivity_mw_per_m3s must be finite and non-negative, got ",
                value,
            )
        },
    }
}

fn validate_productivity(
    field: String,
    model: &String,
    productivity: Option<Float64>,
    path: &str,
) -> (r: Result<(), LoadError>)
    ensures
        error::reports(r, path@, productivity_finding(field@, model@, productivity)),
{
    match productivity {
        None => Ok(()),
        Some(value) => {
            if text::same_text(model, "fpha") {
                Err(
                    fixed_error(
                        field,
                        "productivity_mw_per_m3s must not be set when model is 'fpha'",
                        path,
                    ),
                )
            } else if validation::is_non_negative(value) {
                Ok(())
            } else {
                Err(
                    value_error(
                        field,
                        "productivity_mw_per_m3s must be finite and non-negative, got ",
                        value,
                        path,
                    ),
                )
            }
        },
    }
}

/// What is wrong with a fitting window: a bound is given twice.
pub open spec fn fitting_window_finding(field: Seq<char>, layout: Option<LayoutView>) -> Option<
    Finding,
> {
    match layout {
        None => None,
        Some(l) => match l.fitting_window {
            None => None,
            Some(fw) => if fw.volume_min_hm3 is Some && fw.volume_min_percentile is Some {
                fixed_finding(
                    field,
                    "mutually exclusive bounds: volume_min_hm3 and volume_min_percentile cannot both be set; use absolute bounds OR percentiles, not both",
                )
            } else if fw.volume_max_hm3 is Some && fw.volume_max_percentile is Some {
                fixed_finding(
                    field,
                    "mutually exclusive bounds: volume_max_hm3 and volume_max_percentile cannot both be set; use absolute bounds OR percentiles, not both",
                )
            } else {
                None
            },
        },
    }
}

fn validate_fitting_window(field: String, cfg: &Option<FphaColumnLayout>, path: &str) -> (r: Result<
    (),
    LoadError,
>)
    ensures
        error::reports(r, path@, fitting_window_finding(field@, layout_view(*cfg))),
{
    let window: FittingWindow = match cfg {
        Some(layout) => match layout.fitting_window {
            Some(window) => window,
            None => return Ok(()),
        },
        None => return Ok(()),
    };
    if window.volume_min_hm3.is_some() && window.volume_min_percentile.is_some() {
        return Err(
            fixed_error(
                field,
                "mutually exclusive bounds: volume_min_hm3 and volume_min_percentile cannot both be set; use absolute bounds OR percentiles, not both",
                path,
            ),
        );
    }
    if window.volume_max_hm3.is_some() && window.volume_max_percentile.is_some() {
        return Err(
            fixed_error(
                field,
                "mutually exclusive bounds: volume_max_hm3 and volume_max_percentile cannot both be set; use absolute bounds OR percentiles, not both",
                path,
            ),
        );
    }
    Ok(())
}

/// One.
pub open spec fn one() -> Float64 {
    Float64 { bits: float::ONE_BITS }
}

/// Ninety.
pub open spec fn ninety() -> Float64 {
    Float64 { bits: float::NINETY_BITS }
}

/// A finite number from 0 to 1.
pub open spec fn fraction(value: Float64) -> bool {
    validation::non_negative(value) && !one().below(value)
}

/// A finite number from 0 to 90.
pub open spec fn right_angle(value: Float64) -> bool {
    validation::non_negative(value) && !ninety().below(value)
}

/// What is wrong with a reference volume: exactly one form is given, and its number
/// is in range.
pub open spec fn reference_volume_finding(field: Seq<char>, rv: Option<RawReferenceVolume>) -> Option<
    Finding,
> {
    match rv {
        None => None,
        Some(v) => match (v.volume_hm3, v.percentile) {
            (Some(_), Some(_)) => fixed_finding(
                field,
                "mutually exclusive fields: volume_hm3 and percentile cannot both be set; use an absolute volume OR a percentile, not both",
            ),
            (None, None) => fixed_finding(
                field,
                "reference_volume must set exactly one of volume_hm3 or percentile",
            ),
            (Some(volume), None) => if validation::positive(volume) {
                None
            } else {
                value_finding(field, "volume_hm3 must be finite and > 0.0, got ", volume)
            },
            (None, Some(percentile)) => if fraction(percentile) {
                None
            } else {
                value_finding(
                    field,
                    "percentile must be finite and in [0.0, 1.0], got ",
                    percentile,
                )
            },
        },
    }
}

fn validate_reference_volume(field: String, rv: Option<RawReferenceVolume>, path: &str) -> (r:
    Result<(), LoadError>)
    ensures
        error::reports(r, path@, reference_volume_finding(field@, rv)),
{
    let volume: RawReferenceVolume = match rv {
        Some(volume) => volume,
        None => return Ok(()),
    };
    match (volume.volume_hm3, volume.percentile) {
        (Some(_), Some(_)) => Err(
            fixed_error(
                field,
                "mutually exclusive fields: volume_hm3 and percentile cannot both be set; use an absolute volume OR a percentile, not both",
                path,
            ),
        ),
        (None, None) => Err(
            fixed_error(
                field,
                "reference_volume must set exactly one of volume_hm3 or percentile",
                path,
            ),
        ),
        (Some(value), None) => {
            if validation::is_positive(value) {
                Ok(())
            } else {
                Err(value_error(field, "volume_hm3 must be finite and > 0.0, got ", value, path))
            }
        },
        (None, Some(value)) => {
            if validation::is_non_negative(value) && !(Float64 {
                bits: float::ONE_BITS,
            }).less_than(value) {
                Ok(())
            } else {
                Err(
                    value_error(
                        field,
                        "percentile must be finite and in [0.0, 1.0], got ",
                        value,
                        path,
                    ),
                )
            }
        },
    }
}

/// The path of an entry of a plant's list: `production_models[e].list[k]`.
pub open spec fn nested_path(e: int, list: Seq<char>, k: int) -> Seq<char> {
    text::element_path("production_models"@, e, list) + "["@ + text::decimal(k as nat) + "]"@
}

fn nested_path_text(e: usize, list: &str, k: usize) -> (r: String)
    ensures
        r@ == nested_path(e as int, list@, k as int),
{
    let mut r: String = text::element_path_text("production_models", e, list);
    r.append("[");
    r.append(text::decimal_text(k as u64).as_str());
    r.append("]");
    r
}

/// What is wrong with what is chosen for a range or a season.
pub open spec fn choice_finding(place: Seq<char>, choice: ChoiceView<RawReferenceVolume>) -> Option<
    Finding,
> {
    validation::either(
        productivity_finding(
            place + ".productivity_mw_per_m3s"@,
            choice.model,
            choice.productivity_mw_per_m3s,
        ),
        validation::either(
            fitting_window_finding(place + ".fpha_config.fitting_window"@, choice.fpha_config),
            reference_volume_finding(place + ".reference_volume"@, choice.reference_volume),
        ),
    )
}

fn validate_choice(
    place: &str,
    model: &String,
    fpha_config: &Option<FphaColumnLayout>,
    reference_volume: Option<RawReferenceVolume>,
    productivity: Option<Float64>,
    path: &str,
) -> (r: Result<(), LoadError>)
    ensures
        error::reports(
            r,
            path@,
            choice_finding(
                place@,
                ChoiceView {
                    model: model@,
                    fpha_config: layout_view(*fpha_config),
                    reference_volume,
                    productivity_mw_per_m3s: productivity,
                },
            ),
        ),
{
    let field: String = text::join2(place, ".productivity_mw_per_m3s");
    match validate_productivity(field, model, productivity, path) {
        Ok(_) => {},
        Err(e) => return Err(e),
    }
    let field: String = text::join2(place, ".fpha_config.fitting_window");
    match validate_fitting_window(field, fpha_config, path) {
        Ok(_) => {},
        Err(e) => return Err(e),
    }
    let field: String = text::join2(place, ".reference_volume");
    validate_reference_volume(field, reference_volume, path)
}

// ── Rules for ranges and seasons ─────────────────────────────────────────────

/// What is wrong with the stages of a range.
pub open spec fn stages_finding(e: int, k: int, range: RangeView<RawReferenceVolume>) -> Option<
    Finding,
> {
    match range.end_stage_id {
        Some(end) => if range.start_stage_id > end {
            Some(
                Finding {
                    field: nested_path(e, "stage_ranges"@, k) + ".start_stage_id"@,
                    message: seq![
                        text::text("stage_ranges entry has start_stage_id ("),
                        PieceView::Int(range.start_stage_id as int),
                        text::text(") > end_stage_id ("),
                        PieceView::Int(end as int),
                        text::text("); start_stage_id must be <= end_stage_id"),
                    ],
                },
            )
        } else {
            None
        },
        None => None,
    }
}

/// What is wrong with a range.
pub open spec fn range_finding(e: int, k: int, range: RangeView<RawReferenceVolume>) -> Option<
    Finding,
> {
    validation::either(
        stages_finding(e, k, range),
        choice_finding(nested_path(e, "stage_ranges"@, k), range.choice),
    )
}

/// What is wrong with each range of a plant.
pub open spec fn ranges_check(e: int, ranges: Seq<RangeView<RawReferenceVolume>>) -> spec_fn(
    int,
) -> Option<Finding> {
    |k: int| range_finding(e, k, ranges[k])
}

/// What is wrong with each season of a plant.
pub open spec fn seasons_check(
    e: int,
    seasons: Seq<SeasonChoiceView<RawReferenceVolume>>,
) -> spec_fn(int) -> Option<Finding> {
    |k: int| choice_finding(nested_path(e, "seasons"@, k), seasons[k].choice)
}

/// What is wrong with how a plant selects its models.
pub open spec fn selection_finding(e: int, selection: SelectionView<RawReferenceVolume>) -> Option<
    Finding,
> {
    match selection {
        SelectionView::StageRanges(ranges) => validation::first(
            ranges.len() as int,
            ranges_check(e, ranges),
        ),
        SelectionView::Seasonal(_, seasons) => validation::first(
            seasons.len() as int,
            seasons_check(e, seasons),
        ),
    }
}

fn validate_stage_range(range: &RawStageRange, entry_idx: usize, range_idx: usize, path: &str) -> (r:
    Result<(), LoadError>)
    ensures
        error::reports(r, path@, range_finding(entry_idx as int, range_idx as int, range@)),
{
    let place: String = nested_path_text(entry_idx, "stage_ranges", range_idx);
    match range.end_stage_id {
        Some(end) => {
            if range.start_stage_id > end {
                let message: Vec<Piece> = vec![
                    Piece::Text("stage_ranges entry has start_stage_id ("),
                    Piece::Int(range.start_stage_id as i64),
                    Piece::Text(") > end_stage_id ("),
                    Piece::Int(end as i64),
                    Piece::Text("); start_stage_id must be <= end_stage_id"),
                ];
                proof {
                    assert(text::pieces(message@) =~= stages_finding(
                        entry_idx as int,
                        range_idx as int,
                        range@,
                    )->0.message);
                }
                return Err(
                    LoadError::schema(
                        path,
                        text::join2(place.as_str(), ".start_stage_id"),
                        message,
                    ),
                );
            }
        },
        None => {},
    }
    validate_choice(
        place.as_str(),
        &range.model,
        &range.fpha_config,
        range.reference_volume,
        range.productivity_mw_per_m3s,
        path,
    )
}

fn validate_ranges(ranges: &Vec<RawStageRange>, entry_idx: usize, path: &str) -> (r: Result<
    (),
    LoadError,
>)
    ensures
        error::reports(
            r,
            path@,
            validation::first(
                ranges@.len() as int,
                ranges_check(entry_idx as int, ranges@.map_values(|r: RawStageRange| r@)),
            ),
        ),
{
    let ghost views = ranges@.map_values(|r: RawStageRange| r@);
    let ghost check = ranges_check(entry_idx as int, views);
    for k in 0..ranges.len()
        invariant
            views == ranges@.map_values(|r: RawStageRange| r@),
            check == ranges_check(entry_idx as int, views),
            forall|j: int| 0 <= j < k ==> (#[trigger] check(j)) is None,
    {
        let outcome = validate_stage_range(&ranges[k], entry_idx, k, path);
        assert(error::reports(outcome, path@, check(k as int)));
        match outcome {
            Ok(_) => {},
            Err(e) => {
                proof {
                    validation::first_is_at(ranges@.len() as int, check, k as int);
                }
                return Err(e);
            },
        }
    }
    proof {
        validation::first_is_none(ranges@.len() as int, check);
    }
    Ok(())
}

fn validate_seasons(seasons: &Vec<RawSeasonConfig>, entry_idx: usize, path: &str) -> (r: Result<
    (),
    LoadError,
>)
    ensures
        error::reports(
            r,
            path@,
            validation::first(
                seasons@.len() as int,
                seasons_check(entry_idx as int, seasons@.map_values(|s: RawSeasonConfig| s@)),
            ),
        ),
{
    let ghost views = seasons@.map_values(|s: RawSeasonConfig| s@);
    let ghost check = seasons_check(entry_idx as int, views);
    for k in 0..seasons.len()
        invariant
            views == seasons@.map_values(|s: RawSeasonConfig| s@),
            check == seasons_check(entry_idx as int, views),
            forall|j: int| 0 <= j < k ==> (#[trigger] check(j)) is None,
    {
        let season: &RawSeasonConfig = &seasons[k];
        let place: String = nested_path_text(entry_idx, "seasons", k);
        let outcome = validate_choice(
            place.as_str(),
            &season.model,
            &season.fpha_config,
            season.reference_volume,
            season.productivity_mw_per_m3s,
            path,
        );
        assert(error::reports(outcome, path@, check(k as int)));
        match outcome {
            Ok(_) => {},
            Err(e) => {
                proof {
                    validation::first_is_at(seasons@.len() as int, check, k as int);
                }
                return Err(e);
            },
        }
    }
    proof {
        validation::first_is_none(seasons@.len() as int, check);
    }
    Ok(())
}

// ── Rules for the file ───────────────────────────────────────────────────────

/// The plants of a file.
pub open spec fn plants<R>(models: Seq<ModelView<R>>) -> Seq<i32> {
    models.map_values(|m: ModelView<R>| m.hydro_id)
}

/// What is wrong with the plant at position `e`: it is listed before.
pub open spec fn plant_finding(models: Seq<ModelView<RawReferenceVolume>>, e: int) -> Option<
    Finding,
> {
    if validation::repeated(plants(models), e) {
        Some(
            Finding {
                field: text::element_path("production_models"@, e, "hydro_id"@),
                message: seq![
                    text::text("duplicate hydro_id "),
                    PieceView::Int(models[e].hydro_id as int),
                    text::text(" — each hydro may appear at most once"),
                ],
            },
        )
    } else {
        None
    }
}

/// What is wrong with each plant.
pub open spec fn models_check(models: Seq<ModelView<RawReferenceVolume>>) -> spec_fn(int) -> Option<
    Finding,
> {
    |e: int|
        validation::either(plant_finding(models, e), selection_finding(e, models[e].selection))
}

/// What is wrong with how hyperplanes are merged.
pub open spec fn reduction_finding(reduction: Option<PlaneReductionConfig>) -> Option<Finding> {
    let field = "fpha_plane_reduction"@;
    match reduction {
        None => None,
        Some(PlaneReductionConfig::Angle { tolerance_deg }) => if right_angle(tolerance_deg) {
            None
        } else {
            value_finding(
                field,
                "angle tolerance_deg must be finite and in [0, 90], got ",
                tolerance_deg,
            )
        },
        Some(PlaneReductionConfig::Distance { tolerance_pct, n_samples }) => if !(
        validation::non_negative(tolerance_pct)) {
            value_finding(
                field,
                "distance tolerance_pct must be finite and >= 0, got ",
                tolerance_pct,
            )
        } else if n_samples < 1 {
            Some(
                Finding {
                    field,
                    message: seq![
                        text::text("distance n_samples must be >= 1, got "),
                        PieceView::Int(n_samples as int),
                    ],
                },
            )
        } else {
            None
        },
    }
}

/// What is wrong with a file.
pub open spec fn file_finding(
    models: Seq<ModelView<RawReferenceVolume>>,
    reduction: Option<PlaneReductionConfig>,
) -> Option<Finding> {
    validation::either(
        validation::first(models.len() as int, models_check(models)),
        reduction_finding(reduction),
    )
}

fn validate_plane_reduction(reduction: &PlaneReductionConfig, path: &str) -> (r: Result<
    (),
    LoadError,
>)
    ensures
        error::reports(r, path@, reduction_finding(Some(*reduction))),
{
    match reduction {
        PlaneReductionConfig::Angle { tolerance_deg } => {
            let tolerance: Float64 = *tolerance_deg;
            if validation::is_non_negative(tolerance) && !(Float64 {
                bits: float::NINETY_BITS,
            }).less_than(tolerance) {
                Ok(())
            } else {
                Err(
                    value_error(
                        "fpha_plane_reduction".to_owned(),
                        "angle tolerance_deg must be finite and in [0, 90], got ",
                        tolerance,
                        path,
                    ),
                )
            }
        },
        PlaneReductionConfig::Distance { tolerance_pct, n_samples } => {
            let tolerance: Float64 = *tolerance_pct;
            if !validation::is_non_negative(tolerance) {
                return Err(
                    value_error(
                        "fpha_plane_reduction".to_owned(),
                        "distance tolerance_pct must be finite and >= 0, got ",
                        tolerance,
                        path,
                    ),
                );
            }
            if *n_samples < 1 {
                let message: Vec<Piece> = vec![
                    Piece::Text("distance n_samples must be >= 1, got "),
                    Piece::Int(*n_samples as i64),
                ];
                proof {
                    assert(text::pieces(message@) =~= reduction_finding(
                        Some(*reduction),
                    )->0.message);
                }
                return Err(
                    LoadError::schema(path, "fpha_plane_reduction".to_owned(), message),
                );
            }
            Ok(())
        },
    }
}

/// Which plants are listed before.
fn repeated_plants(models: &Vec<RawProductionModel>) -> (r: Vec<bool>)
    ensures
        r@.len() == models@.len(),
        forall|e: int|
            0 <= e < models@.len() ==> #[trigger] r@[e] == validation::repeated(
                plants(raw_views(models@)),
                e,
            ),
{
    let mut ids: Vec<i32> = Vec::new();
    for e in 0..models.len()
        invariant
            ids@ == plants(raw_views(models@)).take(e as int),
    {
        ids.push(models[e].hydro_id);
        assert(ids@ =~= plants(raw_views(models@)).take(e + 1));
    }
    assert(ids@ =~= plants(raw_views(models@)));
    validation::repeats(&ids)
}

fn validate_model(
    models: &Vec<RawProductionModel>,
    e: usize,
    plant_repeated: bool,
    path: &str,
) -> (r: Result<(), LoadError>)
    requires
        e < models@.len(),
        plant_repeated == validation::repeated(plants(raw_views(models@)), e as int),
    ensures
        error::reports(r, path@, models_check(raw_views(models@))(e as int)),
{
    let ghost views = raw_views(models@);
    let model: &RawProductionModel = &models[e];
    assert(views[e as int] == model@);
    if plant_repeated {
        let message: Vec<Piece> = vec![
            Piece::Text("duplicate hydro_id "),
            Piece::Int(model.hydro_id as i64),
            Piece::Text(" — each hydro may appear at most once"),
        ];
        proof {
            assert(text::pieces(message@) =~= plant_finding(views, e as int)->0.message);
        }
        return Err(
            LoadError::schema(
                path,
                text::element_path_text("production_models", e, "hydro_id"),
                message,
            ),
        );
    }
    match &model.selection {
        RawSelectionMode::StageRanges { stage_ranges } => validate_ranges(stage_ranges, e, path),
        RawSelectionMode::Seasonal { default_model: _, seasons } => validate_seasons(
            seasons,
            e,
            path,
        ),
    }
}

/// Checks the plants of a file and how hyperplanes are merged.
fn validate_production_models(
    models: &Vec<RawProductionModel>,
    plane_reduction: &Option<PlaneReductionConfig>,
    path: &str,
) -> (r: Result<(), LoadError>)
    ensures
        error::reports(r, path@, file_finding(raw_views(models@), *plane_reduction)),
{
    let ghost views = raw_views(models@);
    let ghost check = models_check(views);
    let repeated: Vec<bool> = repeated_plants(models);
    for e in 0..models.len()
        invariant
            views == raw_views(models@),
            repeated@.len() == models@.len(),
            forall|j: int|
                0 <= j < models@.len() ==> #[trigger] repeated@[j] == validation::repeated(
                    plants(views),
                    j,
                ),
            check == models_check(views),
            forall|j: int| 0 <= j < e ==> (#[trigger] check(j)) is None,
    {
        let outcome = validate_model(models, e, repeated[e], path);
        assert(error::reports(outcome, path@, check(e as int)));
        match outcome {
            Ok(_) => {},
            Err(error) => {
                proof {
                    validation::first_is_at(models@.len() as int, check, e as int);
                }
                return Err(error);
            },
        }
    }
    proof {
        validation::first_is_none(models@.len() as int, check);
    }
    match plane_reduction {
        Some(reduction) => validate_plane_reduction(reduction, path),
        None => Ok(()),
    }
}

// ── Conversion ───────────────────────────────────────────────────────────────

/// The form of a reference volume that is given. The absolute form is taken first.
pub open spec fn volume_of(raw: RawReferenceVolume) -> ReferenceVolume {
    match raw.volume_hm3 {
        Some(volume) => ReferenceVolume::AbsoluteHm3(volume),
        None => ReferenceVolume::Percentile(
            match raw.percentile {
                Some(percentile) => percentile,
                None => validation::zero(),
            },
        ),
    }
}

/// A choice with the form of its reference volume.
pub open spec fn choice_of(raw: ChoiceView<RawReferenceVolume>) -> ChoiceView<ReferenceVolume> {
    ChoiceView {
        model: raw.model,
        fpha_config: raw.fpha_config,
        reference_volume: match raw.reference_volume {
            Some(volume) => Some(volume_of(volume)),
            None => None,
        },
        productivity_mw_per_m3s: raw.productivity_mw_per_m3s,
    }
}

/// A range with the form of its reference volume.
pub open spec fn range_of(raw: RangeView<RawReferenceVolume>) -> RangeView<ReferenceVolume> {
    RangeView {
        start_stage_id: raw.start_stage_id,
        end_stage_id: raw.end_stage_id,
        choice: choice_of(raw.choice),
    }
}

/// A season with the form of its reference volume.
pub open spec fn season_of(raw: SeasonChoiceView<RawReferenceVolume>) -> SeasonChoiceView<
    ReferenceVolume,
> {
    SeasonChoiceView { season_id: raw.season_id, choice: choice_of(raw.choice) }
}

/// A plant with the forms of its reference volumes.
pub open spec fn model_of(raw: ModelView<RawReferenceVolume>) -> ModelView<ReferenceVolume> {
    ModelView {
        hydro_id: raw.hydro_id,
        selection: match raw.selection {
            SelectionView::StageRanges(ranges) => SelectionView::StageRanges(
                ranges.map_values(|r: RangeView<RawReferenceVolume>| range_of(r)),
            ),
            SelectionView::Seasonal(default_model, seasons) => SelectionView::Seasonal(
                default_model,
                seasons.map_values(|s: SeasonChoiceView<RawReferenceVolume>| season_of(s)),
            ),
        },
    }
}

/// The plants of a file, in its order.
pub open spec fn models_of(models: Seq<ModelView<RawReferenceVolume>>) -> Seq<
    ModelView<ReferenceVolume>,
> {
    models.map_values(|m: ModelView<RawReferenceVolume>| model_of(m))
}

fn convert_reference_volume(raw: &Option<RawReferenceVolume>) -> (r: Option<ReferenceVolume>)
    ensures
        r == (match *raw {
            Some(volume) => Some(volume_of(volume)),
            None => None,
        }),
{
    match raw {
        Some(volume) => match volume.volume_hm3 {
            Some(value) => Some(ReferenceVolume::AbsoluteHm3(value)),
            None => match volume.percentile {
                Some(value) => Some(ReferenceVolume::Percentile(value)),
                None => Some(ReferenceVolume::Percentile(Float64 { bits: 0 })),
            },
        },
        None => None,
    }
}

fn convert_fpha_column_layout(raw: &Option<FphaColumnLayout>) -> (r: Option<FphaColumnLayout>)
    ensures
        layout_view(r) == layout_view(*raw),
{
    match raw {
        Some(layout) => Some(
            FphaColumnLayout {
                source: layout.source.clone(),
                volume_discretization_points: layout.volume_discretization_points,
                turbine_discretization_points: layout.turbine_discretization_points,
                spillage_discretization_points: layout.spillage_discretization_points,
                max_planes_per_hydro: layout.max_planes_per_hydro,
                fitting_window: layout.fitting_window,
            },
        ),
        None => None,
    }
}

fn convert_stage_range(raw: &RawStageRange) -> (r: StageRange)
    ensures
        r@ == range_of(raw@),
{
    StageRange {
        start_stage_id: raw.start_stage_id,
        end_stage_id: raw.end_stage_id,
        model: raw.model.clone(),
        fpha_config: convert_fpha_column_layout(&raw.fpha_config),
        reference_volume: convert_reference_volume(&raw.reference_volume),
        productivity_mw_per_m3s: raw.productivity_mw_per_m3s,
    }
}

fn convert_season_config(raw: &RawSeasonConfig) -> (r: SeasonConfig)
    ensures
        r@ == season_of(raw@),
{
    SeasonConfig {
        season_id: raw.season_id,
        model: raw.model.clone(),
        fpha_config: convert_fpha_column_layout(&raw.fpha_config),
        reference_volume: convert_reference_volume(&raw.reference_volume),
        productivity_mw_per_m3s: raw.productivity_mw_per_m3s,
    }
}

fn convert_ranges(raw: &Vec<RawStageRange>) -> (r: Vec<StageRange>)
    ensures
        r@.map_values(|x: StageRange| x@) == raw@.map_values(
            |x: RawStageRange| x@,
        ).map_values(|x: RangeView<RawReferenceVolume>| range_of(x)),
{
    let mut r: Vec<StageRange> = Vec::new();
    for k in 0..raw.len()
        invariant
            r@.len() == k,
            forall|j: int| 0 <= j < k ==> (#[trigger] r@[j])@ == range_of(raw@[j]@),
    {
        r.push(convert_stage_range(&raw[k]));
    }
    proof {
        assert(r@.map_values(|x: StageRange| x@) =~= raw@.map_values(
            |x: RawStageRange| x@,
        ).map_values(|x: RangeView<RawReferenceVolume>| range_of(x)));
    }
    r
}

fn convert_seasons(raw: &Vec<RawSeasonConfig>) -> (r: Vec<SeasonConfig>)
    ensures
        r@.map_values(|x: SeasonConfig| x@) == raw@.map_values(
            |x: RawSeasonConfig| x@,
        ).map_values(|x: SeasonChoiceView<RawReferenceVolume>| season_of(x)),
{
    let mut r: Vec<SeasonConfig> = Vec::new();
    for k in 0..raw.len()
        invariant
            r@.len() == k,
            forall|j: int| 0 <= j < k ==> (#[trigger] r@[j])@ == season_of(raw@[j]@),
    {
        r.push(convert_season_config(&raw[k]));
    }
    proof {
        assert(r@.map_values(|x: SeasonConfig| x@) =~= raw@.map_values(
            |x: RawSeasonConfig| x@,
        ).map_values(|x: SeasonChoiceView<RawReferenceVolume>| season_of(x)));
    }
    r
}

fn convert_production_model(raw: &RawProductionModel) -> (r: ProductionModelConfig)
    ensures
        r@ == model_of(raw@),
{
    let selection_mode: SelectionMode = match &raw.selection {
        RawSelectionMode::StageRanges { stage_ranges } => SelectionMode::StageRanges {
            ranges: convert_ranges(stage_ranges),
        },
        RawSelectionMode::Seasonal { default_model, seasons } => SelectionMode::Seasonal {
            default_model: default_model.clone(),
            seasons: convert_seasons(seasons),
        },
    };
    ProductionModelConfig { hydro_id: EntityId(raw.hydro_id), selection_mode }
}

/// Checks an input file and gives its plants, sorted by id.
pub fn parse_production_models(raw: &RawProductionModelFile, path: &str) -> (r: Result<
    ProductionModelFile,
    LoadError,
>)
    ensures
        error::reports(
            r,
            path@,
            file_finding(raw_views(raw.production_models@), raw.fpha_plane_reduction),
        ),
        r matches Ok(file) ==> {
            &&& config_views(file.configs@) == sorting::sorted(
                models_of(raw_views(raw.production_models@)),
            )
            &&& file.plane_reduction == raw.fpha_plane_reduction
        },
{
    match validate_production_models(&raw.production_models, &raw.fpha_plane_reduction, path) {
        Ok(_) => {},
        Err(e) => return Err(e),
    }
    let mut configs: Vec<ProductionModelConfig> = Vec::new();
    for e in 0..raw.production_models.len()
        invariant
            configs@.len() == e,
            forall|j: int|
                0 <= j < e ==> (#[trigger] configs@[j])@ == model_of(raw.production_models@[j]@),
    {
        configs.push(convert_production_model(&raw.production_models[e]));
    }
    proof {
        assert(config_views(configs@) =~= models_of(raw_views(raw.production_models@)));
        sorting::images_sort_alike(configs@, |c: ProductionModelConfig| c@);
    }
    Ok(
        ProductionModelFile {
            configs: sorting::sort_by_key(configs),
            plane_reduction: raw.fpha_plane_reduction,
        },
    )
}

/// The error for a text that is no input file, by the message of the JSON parser: an
/// unknown variant is an unknown way to select models.
pub open spec fn rejected_as(e: LoadError, path: Seq<char>, message: Seq<char>) -> bool {
    if text::occurs_in(message, "unknown variant"@) {
        e.says(path, "selection_mode"@, seq![PieceView::Text(message)])
    } else {
        match e {
            LoadError::ParseError { path: p, message: m } => p@ == path && m@ == message,
            _ => false,
        }
    }
}

/// The error for a text that is no input file.
pub fn rejected_text(path: &str, message: String) -> (r: LoadError)
    ensures
        rejected_as(r, path@, message@),
{
    if text::contains_text(message.as_str(), "unknown variant") {
        let pieces: Vec<Piece> = vec![Piece::Name(message)];
        proof {
            assert(text::pieces(pieces@) =~= seq![PieceView::Text(message@)]);
        }
        LoadError::schema(path, "selection_mode".to_owned(), pieces)
    } else {
        LoadError::ParseError { path: path.to_owned(), message }
    }
}

/// A text that the parser refuses for an unknown variant is refused for its selection
/// mode, with the parser's message; any other is refused as no such file, with that
/// message too.
pub proof fn unknown_variants_are_refused(
    e: LoadError,
    path: Seq<char>,
    message: Seq<char>,
    front: Seq<char>,
    back: Seq<char>,
)
    requires
        rejected_as(e, path, message),
    ensures
        message == front + "unknown variant"@ + back ==> match e {
            LoadError::SchemaError { path: p, field, message: m } => {
                &&& p@ == path
                &&& field@ == "selection_mode"@
                &&& m@.len() == 1
                &&& m@[0]@ == PieceView::Text(message)
            },
            _ => false,
        },
        match e {
            LoadError::SchemaError { .. } => text::occurs_in(message, "unknown variant"@),
            LoadError::ParseError { path: p, message: m } => p@ == path && m@ == message,
            _ => false,
        },
{
    text::texts_are_found_between_others(front, "unknown variant"@, back);
    if let LoadError::SchemaError { path: p, field, message: m } = e {
        assert(text::pieces(m@).len() == m@.len());
        assert(text::pieces(m@) == seq![PieceView::Text(message)]);
        assert(text::pieces(m@)[0] == m@[0]@);
    }
}

// ── What is accepted ─────────────────────────────────────────────────────────

/// A choice keeps all rules.
pub open spec fn good_choice(choice: ChoiceView<RawReferenceVolume>) -> bool {
    &&& choice.productivity_mw_per_m3s matches Some(value) ==> choice.model != "fpha"@
        && validation::non_negative(value)
    &&& choice.fpha_config matches Some(layout) ==> (layout.fitting_window matches Some(fw) ==> !(
    fw.volume_min_hm3 is Some && fw.volume_min_percentile is Some) && !(fw.volume_max_hm3 is Some
        && fw.volume_max_percentile is Some))
    &&& choice.reference_volume matches Some(rv) ==> {
        ||| rv.percentile is None && rv.volume_hm3 is Some && validation::positive(rv.volume_hm3->0)
        ||| rv.volume_hm3 is None && rv.percentile is Some && fraction(rv.percentile->0)
    }
}

/// How a plant selects its models keeps all rules.
pub open spec fn good_selection(selection: SelectionView<RawReferenceVolume>) -> bool {
    match selection {
        SelectionView::StageRanges(ranges) => forall|k: int|
            0 <= k < ranges.len() ==> good_choice((#[trigger] ranges[k]).choice) && (
            ranges[k].end_stage_id matches Some(end) ==> ranges[k].start_stage_id <= end),
        SelectionView::Seasonal(_, seasons) => forall|k: int|
            0 <= k < seasons.len() ==> good_choice((#[trigger] seasons[k]).choice),
    }
}

/// How hyperplanes are merged keeps all rules.
pub open spec fn good_reduction(reduction: Option<PlaneReductionConfig>) -> bool {
    match reduction {
        None => true,
        Some(PlaneReductionConfig::Angle { tolerance_deg }) => right_angle(tolerance_deg),
        Some(PlaneReductionConfig::Distance { tolerance_pct, n_samples }) => {
            validation::non_negative(tolerance_pct) && n_samples >= 1
        },
    }
}

proof fn choices_are_checked(place: Seq<char>, choice: ChoiceView<RawReferenceVolume>)
    ensures
        choice_finding(place, choice) is None <==> good_choice(choice),
{
}

proof fn selections_are_checked(e: int, selection: SelectionView<RawReferenceVolume>)
    ensures
        selection_finding(e, selection) is None <==> good_selection(selection),
{
    match selection {
        SelectionView::StageRanges(ranges) => {
            let check = ranges_check(e, ranges);
            validation::first_is_none(ranges.len() as int, check);
            assert forall|k: int| 0 <= k < ranges.len() implies ((#[trigger] check(k)) is None <==>
                good_choice(ranges[k].choice) && (ranges[k].end_stage_id matches Some(end) ==>
                ranges[k].start_stage_id <= end)) by {
                choices_are_checked(nested_path(e, "stage_ranges"@, k), ranges[k].choice);
            }
            if selection_finding(e, selection) is None {
                assert forall|k: int| 0 <= k < ranges.len() implies good_choice(
                    (#[trigger] ranges[k]).choice,
                ) && (ranges[k].end_stage_id matches Some(end) ==> ranges[k].start_stage_id
                    <= end) by {
                    assert(check(k) is None);
                }
            }
        },
        SelectionView::Seasonal(_, seasons) => {
            let check = seasons_check(e, seasons);
            validation::first_is_none(seasons.len() as int, check);
            assert forall|k: int| 0 <= k < seasons.len() implies ((#[trigger] check(k)) is None
                <==> good_choice(seasons[k].choice)) by {
                choices_are_checked(nested_path(e, "seasons"@, k), seasons[k].choice);
            }
            if selection_finding(e, selection) is None {
                assert forall|k: int| 0 <= k < seasons.len() implies good_choice(
                    (#[trigger] seasons[k]).choice,
                ) by {
                    assert(check(k) is None);
                }
            }
        },
    }
}

/// A file is accepted exactly where no plant is listed twice and all choices keep
/// the rules.
pub proof fn accepted_files(
    models: Seq<ModelView<RawReferenceVolume>>,
    reduction: Option<PlaneReductionConfig>,
)
    ensures
        file_finding(models, reduction) is None <==> {
            &&& plants(models).no_duplicates()
            &&& forall|e: int|
                0 <= e < models.len() ==> good_selection((#[trigger] models[e]).selection)
            &&& good_reduction(reduction)
        },
{
    let n = models.len() as int;
    let check = models_check(models);
    validation::first_is_none(n, check);
    validation::no_repeats_are_distinct(plants(models));
    assert forall|e: int| 0 <= e < n implies ((#[trigger] check(e)) is None <==>
        !validation::repeated(plants(models), e) && good_selection(models[e].selection)) by {
        selections_are_checked(e, models[e].selection);
    }
    if validation::first(n, check) is None {
        assert forall|e: int| 0 <= e < n implies !#[trigger] validation::repeated(
            plants(models),
            e,
        ) by {
            assert(check(e) is None);
        }
        assert forall|e: int| 0 <= e < n implies good_selection(
            (#[trigger] models[e]).selection,
        ) by {
            assert(check(e) is None);
        }
    } else {
        let e = choose|e: int| 0 <= e < n && (#[trigger] check(e)) is Some;
        assert(validation::repeated(plants(models), e) || !good_selection(models[e].selection));
    }
}

/// The order in which an accepted file lists its plants does not matter.
pub proof fn declaration_order_does_not_matter(
    a: Seq<ModelView<RawReferenceVolume>>,
    b: Seq<ModelView<RawReferenceVolume>>,
)
    requires
        plants(a).no_duplicates(),
        a.to_multiset() == b.to_multiset(),
    ensures
        sorting::sorted(models_of(a)) == sorting::sorted(models_of(b)),
{
    sorting::images_keep_items(a, b, |m: ModelView<RawReferenceVolume>| model_of(m));
    let items = models_of(a);
    assert forall|i: int, j: int| 0 <= i < j < items.len() implies (#[trigger] items[i]).key() != (
    #[trigger] items[j]).key() by {
        assert(plants(a)[i] != plants(a)[j]);
    }
    sorting::sorted_ignores_order(items, models_of(b));
}

// ── What is kept ─────────────────────────────────────────────────────────────

/// A parsed range has each field that the file gives it: its stages, its model, its
/// productivity, each setting of its hyperplanes, each of the four bounds of its fitting
/// window, and its reference volume in the unit in which the file gives it.
pub proof fn ranges_keep_their_fields(raw: RawStageRange, range: StageRange)
    requires
        range@ == range_of(raw@),
    ensures
        ({
            &&& range.start_stage_id == raw.start_stage_id
            &&& range.end_stage_id == raw.end_stage_id
            &&& range.model@ == raw.model@
            &&& range.productivity_mw_per_m3s == raw.productivity_mw_per_m3s
            &&& (range.fpha_config is Some <==> raw.fpha_config is Some)
            &&& (raw.fpha_config matches Some(l) ==> range.fpha_config matches Some(m)
                && m.source@ == l.source@
                && m.volume_discretization_points == l.volume_discretization_points
                && m.turbine_discretization_points == l.turbine_discretization_points
                && m.spillage_discretization_points == l.spillage_discretization_points
                && m.max_planes_per_hydro == l.max_planes_per_hydro
                && m.fitting_window == l.fitting_window)
            &&& (range.reference_volume is Some <==> raw.reference_volume is Some)
            &&& (raw.reference_volume matches Some(v) ==> match range.reference_volume {
                Some(ReferenceVolume::AbsoluteHm3(x)) => v.volume_hm3 == Some(x),
                Some(ReferenceVolume::Percentile(x)) => v.volume_hm3 is None && (v.percentile is Some
                    ==> v.percentile == Some(x)),
                None => false,
            })
        }),
{
    assert(range@.choice == choice_of(raw@.choice));
    assert(layout_view(range.fpha_config) == layout_view(raw.fpha_config));
}

/// A parsed season has each field that the file gives it, as a range does.
pub proof fn seasons_keep_their_fields(raw: RawSeasonConfig, season: SeasonConfig)
    requires
        season@ == season_of(raw@),
    ensures
        ({
            &&& season.season_id == raw.season_id
            &&& season.model@ == raw.model@
            &&& season.productivity_mw_per_m3s == raw.productivity_mw_per_m3s
            &&& (season.fpha_config is Some <==> raw.fpha_config is Some)
            &&& (raw.fpha_config matches Some(l) ==> season.fpha_config matches Some(m)
                && m.source@ == l.source@
                && m.volume_discretization_points == l.volume_discretization_points
                && m.turbine_discretization_points == l.turbine_discretization_points
                && m.spillage_discretization_points == l.spillage_discretization_points
                && m.max_planes_per_hydro == l.max_planes_per_hydro
                && m.fitting_window == l.fitting_window)
            &&& (season.reference_volume is Some <==> raw.reference_volume is Some)
            &&& (raw.reference_volume matches Some(v) ==> match season.reference_volume {
                Some(ReferenceVolume::AbsoluteHm3(x)) => v.volume_hm3 == Some(x),
                Some(ReferenceVolume::Percentile(x)) => v.volume_hm3 is None && (v.percentile is Some
                    ==> v.percentile == Some(x)),
                None => false,
            })
        }),
{
    assert(season@.choice == choice_of(raw@.choice));
    assert(layout_view(season.fpha_config) == layout_view(raw.fpha_config));
}

/// Each plant of an accepted file is among the parsed plants, at the place that is given
/// back, with the ranges or seasons of the file, in its order, each with its own fields.
pub proof fn plants_keep_their_models(
    raw: RawProductionModelFile,
    file: ProductionModelFile,
    e: int,
) -> (i: int)
    requires
        0 <= e < raw.production_models@.len(),
        config_views(file.configs@) == sorting::sorted(
            models_of(raw_views(raw.production_models@)),
        ),
    ensures
        file.configs@.len() == raw.production_models@.len(),
        0 <= i < file.configs@.len(),
        file.configs@[i].hydro_id.0 == raw.production_models@[e].hydro_id,
        match (raw.production_models@[e].selection, file.configs@[i].selection_mode) {
            (
                RawSelectionMode::StageRanges { stage_ranges },
                SelectionMode::StageRanges { ranges },
            ) => {
                &&& ranges@.len() == stage_ranges@.len()
                &&& forall|k: int|
                    0 <= k < ranges@.len() ==> {
                        let a = stage_ranges@[k];
                        let b = #[trigger] ranges@[k];
                        &&& b.start_stage_id == a.start_stage_id
                        &&& b.end_stage_id == a.end_stage_id
                        &&& b.model@ == a.model@
                        &&& b.productivity_mw_per_m3s == a.productivity_mw_per_m3s
                        &&& (b.fpha_config is Some <==> a.fpha_config is Some)
                        &&& (a.fpha_config matches Some(l) ==> b.fpha_config matches Some(m)
                            && m.source@ == l.source@
                            && m.volume_discretization_points == l.volume_discretization_points
                            && m.turbine_discretization_points == l.turbine_discretization_points
                            && m.spillage_discretization_points == l.spillage_discretization_points
                            && m.max_planes_per_hydro == l.max_planes_per_hydro
                            && m.fitting_window == l.fitting_window)
                        &&& (b.reference_volume is Some <==> a.reference_volume is Some)
                        &&& (a.reference_volume matches Some(v) ==> match b.reference_volume {
                            Some(ReferenceVolume::AbsoluteHm3(x)) => v.volume_hm3 == Some(x),
                            Some(ReferenceVolume::Percentile(x)) => v.volume_hm3 is None && (v.percentile is Some
                                ==> v.percentile == Some(x)),
                            None => false,
                        })
                    }
            },
            (
                RawSelectionMode::Seasonal { default_model: d, seasons: raw_seasons },
                SelectionMode::Seasonal { default_model, seasons },
            ) => {
                &&& default_model@ == d@
                &&& seasons@.len() == raw_seasons@.len()
                &&& forall|k: int|
                    0 <= k < seasons@.len() ==> {
                        let a = raw_seasons@[k];
                        let b = #[trigger] seasons@[k];
                        &&& b.season_id == a.season_id
                        &&& b.model@ == a.model@
                        &&& b.productivity_mw_per_m3s == a.productivity_mw_per_m3s
                        &&& (b.fpha_config is Some <==> a.fpha_config is Some)
                        &&& (a.fpha_config matches Some(l) ==> b.fpha_config matches Some(m)
                            && m.source@ == l.source@
                            && m.volume_discretization_points == l.volume_discretization_points
                            && m.turbine_discretization_points == l.turbine_discretization_points
                            && m.spillage_discretization_points == l.spillage_discretization_points
                            && m.max_planes_per_hydro == l.max_planes_per_hydro
                            && m.fitting_window == l.fitting_window)
                        &&& (b.reference_volume is Some <==> a.reference_volume is Some)
                        &&& (a.reference_volume matches Some(v) ==> match b.reference_volume {
                            Some(ReferenceVolume::AbsoluteHm3(x)) => v.volume_hm3 == Some(x),
                            Some(ReferenceVolume::Percentile(x)) => v.volume_hm3 is None && (v.percentile is Some
                                ==> v.percentile == Some(x)),
                            None => false,
                        })
                    }
            },
            _ => false,
        },
{
    let models = models_of(raw_views(raw.production_models@));
    let i = sorting::sorted_has(models, e);
    let config = file.configs@[i];
    let model = raw.production_models@[e];
    assert(config_views(file.configs@)[i] == config@);
    assert(config@ == model_of(model@));
    match (model.selection, config.selection_mode) {
        (
            RawSelectionMode::StageRanges { stage_ranges },
            SelectionMode::StageRanges { ranges },
        ) => {
            let from = stage_ranges@.map_values(|r: RawStageRange| r@);
            let to = ranges@.map_values(|r: StageRange| r@);
            assert(to == from.map_values(|r: RangeView<RawReferenceVolume>| range_of(r)));
            assert(to.len() == from.len());
            assert forall|k: int| 0 <= k < ranges@.len() implies {
                let a = stage_ranges@[k];
                let b = #[trigger] ranges@[k];
                &&& b.start_stage_id == a.start_stage_id
                &&& b.end_stage_id == a.end_stage_id
                &&& b.model@ == a.model@
                &&& b.productivity_mw_per_m3s == a.productivity_mw_per_m3s
                &&& (b.fpha_config is Some <==> a.fpha_config is Some)
                &&& (a.fpha_config matches Some(l) ==> b.fpha_config matches Some(m)
                    && m.source@ == l.source@
                    && m.volume_discretization_points == l.volume_discretization_points
                    && m.turbine_discretization_points == l.turbine_discretization_points
                    && m.spillage_discretization_points == l.spillage_discretization_points
                    && m.max_planes_per_hydro == l.max_planes_per_hydro
                    && m.fitting_window == l.fitting_window)
                &&& (b.reference_volume is Some <==> a.reference_volume is Some)
                &&& (a.reference_volume matches Some(v) ==> match b.reference_volume {
                    Some(ReferenceVolume::AbsoluteHm3(x)) => v.volume_hm3 == Some(x),
                    Some(ReferenceVolume::Percentile(x)) => v.volume_hm3 is None && (v.percentile is Some
                        ==> v.percentile == Some(x)),
                    None => false,
                })
            } by {
                assert(to[k] == ranges@[k]@);
                assert(to[k] == range_of(from[k]));
                ranges_keep_their_fields(stage_ranges@[k], ranges@[k]);
            }
        },
        (
            RawSelectionMode::Seasonal { default_model: _, seasons: raw_seasons },
            SelectionMode::Seasonal { default_model: _, seasons },
        ) => {
            let from = raw_seasons@.map_values(|s: RawSeasonConfig| s@);
            let to = seasons@.map_values(|s: SeasonConfig| s@);
            assert(to == from.map_values(|s: SeasonChoiceView<RawReferenceVolume>| season_of(s)));
            assert(to.len() == from.len());
            assert forall|k: int| 0 <= k < seasons@.len() implies {
                let a = raw_seasons@[k];
                let b = #[trigger] seasons@[k];
                &&& b.season_id == a.season_id
                &&& b.model@ == a.model@
                &&& b.productivity_mw_per_m3s == a.productivity_mw_per_m3s
                &&& (b.fpha_config is Some <==> a.fpha_config is Some)
                &&& (a.fpha_config matches Some(l) ==> b.fpha_config matches Some(m)
                    && m.source@ == l.source@
                    && m.volume_discretization_points == l.volume_discretization_points
                    && m.turbine_discretization_points == l.turbine_discretization_points
                    && m.spillage_discretization_points == l.spillage_discretization_points
                    && m.max_planes_per_hydro == l.max_planes_per_hydro
                    && m.fitting_window == l.fitting_window)
                &&& (b.reference_volume is Some <==> a.reference_volume is Some)
                &&& (a.reference_volume matches Some(v) ==> match b.reference_volume {
                    Some(ReferenceVolume::AbsoluteHm3(x)) => v.volume_hm3 == Some(x),
                    Some(ReferenceVolume::Percentile(x)) => v.volume_hm3 is None && (v.percentile is Some
                        ==> v.percentile == Some(x)),
                    None => false,
                })
            } by {
                assert(to[k] == seasons@[k]@);
                assert(to[k] == season_of(from[k]));
                seasons_keep_their_fields(raw_seasons@[k], seasons@[k]);
            }
        },
        _ => {},
    }
    i
}

/// Each parsed plant is one of the file, and the plants come by ascending id.
pub proof fn plants_come_from_the_file(
    raw: RawProductionModelFile,
    file: ProductionModelFile,
    i: int,
) -> (e: int)
    requires
        0 <= i < file.configs@.len(),
        config_views(file.configs@) == sorting::sorted(
            models_of(raw_views(raw.production_models@)),
        ),
    ensures
        file.configs@.len() == raw.production_models@.len(),
        0 <= e < raw.production_models@.len(),
        raw.production_models@[e].hydro_id == file.configs@[i].hydro_id.0,
        i > 0 ==> file.configs@[i - 1].hydro_id.0 <= file.configs@[i].hydro_id.0,
{
    let models = models_of(raw_views(raw.production_models@));
    sorting::sorted_is(models);
    let views = config_views(file.configs@);
    assert(views[i] == file.configs@[i]@);
    if i > 0 {
        assert(views[i - 1] == file.configs@[i - 1]@);
        assert(sorting::at_most(views[i - 1].key(), views[i].key()));
    }
    sorting::sorted_comes_from(models, i)
}

/// A range is accepted exactly where it does not end before it starts and its choice keeps
/// the rules: a productivity is finite and not negative and goes with no hyperplanes, each
/// bound of the fitting window is given in one form, and so is the reference volume, as a
/// positive volume or as a fraction of 1.
pub proof fn accepted_ranges(e: int, k: int, raw: RawStageRange)
    ensures
        range_finding(e, k, raw@) is None <==> {
            &&& raw.end_stage_id matches Some(end) ==> raw.start_stage_id <= end
            &&& raw.productivity_mw_per_m3s matches Some(x) ==> raw.model@ != "fpha"@ && (x.bits
                < 0x7ff0_0000_0000_0000 || x.bits == 0x8000_0000_0000_0000)
            &&& raw.fpha_config matches Some(l) ==> (l.fitting_window matches Some(w) ==> (
            w.volume_min_hm3 is None || w.volume_min_percentile is None) && (w.volume_max_hm3 is None
                || w.volume_max_percentile is None))
            &&& raw.reference_volume matches Some(v) ==> {
                ||| v.percentile is None && v.volume_hm3 is Some && 0 < v.volume_hm3->0.bits
                    < 0x7ff0_0000_0000_0000
                ||| v.volume_hm3 is None && v.percentile is Some && (v.percentile->0.bits
                    <= 0x3ff0_0000_0000_0000 || v.percentile->0.bits == 0x8000_0000_0000_0000)
            }
        },
{
}

/// A season is accepted exactly where its choice keeps the rules that hold for a range.
pub proof fn accepted_seasons(place: Seq<char>, raw: RawSeasonConfig)
    ensures
        choice_finding(place, raw@.choice) is None <==> {
            &&& raw.productivity_mw_per_m3s matches Some(x) ==> raw.model@ != "fpha"@ && (x.bits
                < 0x7ff0_0000_0000_0000 || x.bits == 0x8000_0000_0000_0000)
            &&& raw.fpha_config matches Some(l) ==> (l.fitting_window matches Some(w) ==> (
            w.volume_min_hm3 is None || w.volume_min_percentile is None) && (w.volume_max_hm3 is None
                || w.volume_max_percentile is None))
            &&& raw.reference_volume matches Some(v) ==> {
                ||| v.percentile is None && v.volume_hm3 is Some && 0 < v.volume_hm3->0.bits
                    < 0x7ff0_0000_0000_0000
                ||| v.volume_hm3 is None && v.percentile is Some && (v.percentile->0.bits
                    <= 0x3ff0_0000_0000_0000 || v.percentile->0.bits == 0x8000_0000_0000_0000)
            }
        },
{
}

/// How planes are merged is accepted exactly where the angle is from 0 to 90 degrees, or
/// the distance is finite and not negative and there is at least one sample.
pub proof fn accepted_reductions(reduction: Option<PlaneReductionConfig>)
    ensures
        reduction_finding(reduction) is None <==> match reduction {
            None => true,
            Some(PlaneReductionConfig::Angle { tolerance_deg }) => tolerance_deg.bits
                <= 0x4056_8000_0000_0000 || tolerance_deg.bits == 0x8000_0000_0000_0000,
            Some(PlaneReductionConfig::Distance { tolerance_pct, n_samples }) => (
            tolerance_pct.bits < 0x7ff0_0000_0000_0000 || tolerance_pct.bits
                == 0x8000_0000_0000_0000) && n_samples >= 1,
        },
{
}

/// A file is accepted exactly where no two plants have the same id, every range and every
/// season is accepted, and so is how planes are merged.
pub proof fn accepted_plants(raw: RawProductionModelFile)
    ensures
        file_finding(raw_views(raw.production_models@), raw.fpha_plane_reduction) is None <==> {
            let plants = raw.production_models@;
            &&& forall|a: int, b: int|
                0 <= a < b < plants.len() ==> (#[trigger] plants[a]).hydro_id != (
                #[trigger] plants[b]).hydro_id
            &&& forall|e: int|
                0 <= e < plants.len() ==> match (#[trigger] plants[e]).selection {
                    RawSelectionMode::StageRanges { stage_ranges } => forall|k: int|
                        0 <= k < stage_ranges@.len() ==> range_finding(
                            e,
                            k,
                            (#[trigger] stage_ranges@[k])@,
                        ) is None,
                    RawSelectionMode::Seasonal { default_model, seasons } => forall|k: int|
                        0 <= k < seasons@.len() ==> choice_finding(
                            nested_path(e, "seasons"@, k),
                            (#[trigger] seasons@[k])@.choice,
                        ) is None,
                }
            &&& reduction_finding(raw.fpha_plane_reduction) is None
        },
{
    let given = raw.production_models@;
    let models = raw_views(given);
    let n = models.len() as int;
    let check = models_check(models);
    validation::first_is_none(n, check);
    validation::no_repeats_are_distinct(plants(models));
    let good = |e: int|
        match given[e].selection {
            RawSelectionMode::StageRanges { stage_ranges } => forall|k: int|
                0 <= k < stage_ranges@.len() ==> range_finding(
                    e,
                    k,
                    (#[trigger] stage_ranges@[k])@,
                ) is None,
            RawSelectionMode::Seasonal { default_model, seasons } => forall|k: int|
                0 <= k < seasons@.len() ==> choice_finding(
                            nested_path(e, "seasons"@, k),
                            (#[trigger] seasons@[k])@.choice,
                        ) is None,
        };
    assert forall|e: int| 0 <= e < n implies ((#[trigger] check(e)) is None <==>
        !validation::repeated(plants(models), e) && good(e)) by {
        match given[e].selection {
            RawSelectionMode::StageRanges { stage_ranges } => {
                let views = stage_ranges@.map_values(|r: RawStageRange| r@);
                let ranges = ranges_check(e, views);
                validation::first_is_none(views.len() as int, ranges);
                assert forall|k: int| 0 <= k < views.len() implies ((#[trigger] ranges(k)) is None
                    <==> range_finding(e, k, stage_ranges@[k]@) is None) by {}
                if validation::first(views.len() as int, ranges) is None {
                    assert forall|k: int| 0 <= k < views.len() implies range_finding(
                        e,
                        k,
                        (#[trigger] stage_ranges@[k])@,
                    ) is None by {
                        assert(ranges(k) is None);
                    }
                }
            },
            RawSelectionMode::Seasonal { default_model, seasons } => {
                let views = seasons@.map_values(|s: RawSeasonConfig| s@);
                let chosen = seasons_check(e, views);
                validation::first_is_none(views.len() as int, chosen);
                assert forall|k: int| 0 <= k < views.len() implies ((#[trigger] chosen(k)) is None
                    <==> choice_finding(
                    nested_path(e, "seasons"@, k),
                    seasons@[k]@.choice,
                ) is None) by {}
                if validation::first(views.len() as int, chosen) is None {
                    assert forall|k: int| 0 <= k < views.len() implies choice_finding(
                        nested_path(e, "seasons"@, k),
                        (#[trigger] seasons@[k])@.choice,
                    ) is None by {
                        assert(chosen(k) is None);
                    }
                }
            },
        }
    }
    assert(forall|e: int| 0 <= e < n ==> #[trigger] plants(models)[e] == given[e].hydro_id);
    if validation::first(n, check) is None {
        assert forall|e: int| 0 <= e < n implies !#[trigger] validation::repeated(
            plants(models),
            e,
        ) by {
            assert(check(e) is None);
        }
        assert forall|e: int| 0 <= e < given.len() implies #[trigger] good(e) by {
            assert(check(e) is None);
        }
        assert forall|a: int, b: int| 0 <= a < b < given.len() implies (
        #[trigger] given[a]).hydro_id != (#[trigger] given[b]).hydro_id by {
            assert(plants(models)[a] != plants(models)[b]);
        }
        assert forall|e: int| 0 <= e < given.len() implies match (#[trigger] given[e]).selection {
            RawSelectionMode::StageRanges { stage_ranges } => forall|k: int|
                0 <= k < stage_ranges@.len() ==> range_finding(
                    e,
                    k,
                    (#[trigger] stage_ranges@[k])@,
                ) is None,
            RawSelectionMode::Seasonal { default_model, seasons } => forall|k: int|
                0 <= k < seasons@.len() ==> choice_finding(
                            nested_path(e, "seasons"@, k),
                            (#[trigger] seasons@[k])@.choice,
                        ) is None,
        } by {
            assert(good(e));
        }
    } else {
        let e = choose|e: int| 0 <= e < n && (#[trigger] check(e)) is Some;
        if good(e) {
            let j = choose|j: int| 0 <= j < e && #[trigger] plants(models)[j] == plants(models)[e];
            assert(given[j].hydro_id == given[e].hydro_id);
        } else {
            let wrong = given[e];
            assert(!good(e));
        }
    }
}

/// What is reported of the plants is the path of a plant that is wrong, the one that is
/// given back: its id was given before, or one of its ranges or seasons is refused.
pub proof fn the_wrong_plant_is_reported(raw: RawProductionModelFile) -> (e: int)
    requires
        file_finding(raw_views(raw.production_models@), raw.fpha_plane_reduction) is Some,
        reduction_finding(raw.fpha_plane_reduction) is None,
    ensures
        0 <= e < raw.production_models@.len(),
        ({
            let field = file_finding(
                raw_views(raw.production_models@),
                raw.fpha_plane_reduction,
            )->0.field;
            let front = "production_models"@ + "["@ + text::decimal(e as nat) + "]."@;
            field.len() >= front.len() && field.take(front.len() as int) == front
        }),
        (exists|j: int|
            0 <= j < e && (#[trigger] raw.production_models@[j]).hydro_id
                == raw.production_models@[e].hydro_id) || selection_finding(
            e,
            raw.production_models@[e]@.selection,
        ) is Some,
{
    let models = raw_views(raw.production_models@);
    let check = models_check(models);
    let e = validation::the_first_bad_entry_is_reported(models.len() as int, check);
    let front = "production_models"@ + "["@ + text::decimal(e as nat) + "]."@;
    let field = check(e)->0.field;
    assert(models[e] == raw.production_models@[e]@);
    if plant_finding(models, e) is Some {
        let j = choose|j: int| 0 <= j < e && #[trigger] plants(models)[j] == plants(models)[e];
        assert(raw.production_models@[j].hydro_id == raw.production_models@[e].hydro_id);
        assert(field.take(front.len() as int) =~= front);
    } else {
        match models[e].selection {
            SelectionView::StageRanges(ranges) => {
                let k = validation::the_first_bad_entry_is_reported(
                    ranges.len() as int,
                    ranges_check(e, ranges),
                );
            },
            SelectionView::Seasonal(_, seasons) => {
                let k = validation::the_first_bad_entry_is_reported(
                    seasons.len() as int,
                    seasons_check(e, seasons),
                );
            },
        }
        assert(field.take(front.len() as int) =~= front);
    }
    e
}

} // verus!
