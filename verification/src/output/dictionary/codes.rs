//! The codes that stand for categories in the output files, with their labels.

use vstd::prelude::*;

verus! {

/// A hydro plant.
pub const ENTITY_TYPE_HYDRO: i8 = 0;

/// A thermal plant.
pub const ENTITY_TYPE_THERMAL: i8 = 1;

/// A bus.
pub const ENTITY_TYPE_BUS: i8 = 2;

/// A transmission line.
pub const ENTITY_TYPE_LINE: i8 = 3;

/// A pumping station.
pub const ENTITY_TYPE_PUMPING_STATION: i8 = 4;

/// An energy contract.
pub const ENTITY_TYPE_CONTRACT: i8 = 5;

/// A non-controllable source.
pub const ENTITY_TYPE_NON_CONTROLLABLE: i8 = 7;

/// The least storage.
pub const BOUND_STORAGE_MIN: i8 = 0;

/// The greatest storage.
pub const BOUND_STORAGE_MAX: i8 = 1;

/// The least turbined flow.
pub const BOUND_TURBINED_MIN: i8 = 2;

/// The greatest turbined flow.
pub const BOUND_TURBINED_MAX: i8 = 3;

/// The least outflow.
pub const BOUND_OUTFLOW_MIN: i8 = 4;

/// The greatest outflow.
pub const BOUND_OUTFLOW_MAX: i8 = 5;

/// The least generation.
pub const BOUND_GENERATION_MIN: i8 = 6;

/// The greatest generation.
pub const BOUND_GENERATION_MAX: i8 = 7;

/// The least flow.
pub const BOUND_FLOW_MIN: i8 = 8;

/// The greatest flow.
pub const BOUND_FLOW_MAX: i8 = 9;

/// A code and what it stands for.
#[derive(Clone, Copy, Debug, PartialEq)]
pub struct CodeEntry {
    /// The code.
    pub code: i8,
    /// The label.
    pub label: &'static str,
}

/// The codes of one kind of category.
#[derive(Clone, Debug, PartialEq)]
pub struct CodeGroup {
    /// The kind of category.
    pub name: &'static str,
    /// Its codes, in ascending order.
    pub entries: Vec<CodeEntry>,
}

/// The entries of a group, as codes and labels.
pub open spec fn entry_views(entries: Seq<CodeEntry>) -> Seq<(i8, Seq<char>)> {
    entries.map_values(|e: CodeEntry| (e.code, e.label@))
}

impl View for CodeGroup {
    type V = (Seq<char>, Seq<(i8, Seq<char>)>);

    open spec fn view(&self) -> (Seq<char>, Seq<(i8, Seq<char>)>) {
        (self.name@, entry_views(self.entries@))
    }
}

/// How a plant or line operates.
pub open spec fn operative_state_codes() -> Seq<(i8, Seq<char>)> {
    seq![
        (0i8, "deactivated"@),
        (1i8, "maintenance"@),
        (2i8, "operating"@),
        (3i8, "saturated"@),
    ]
}

/// Which storage bound binds.
pub open spec fn storage_binding_codes() -> Seq<(i8, Seq<char>)> {
    seq![
        (0i8, "none"@),
        (1i8, "below_minimum"@),
        (2i8, "above_maximum"@),
        (3i8, "both"@),
    ]
}

/// Which way a contract goes.
pub open spec fn contract_type_codes() -> Seq<(i8, Seq<char>)> {
    seq![
        (0i8, "import"@),
        (1i8, "export"@),
    ]
}

/// What an entity is.
pub open spec fn entity_type_codes() -> Seq<(i8, Seq<char>)> {
    seq![
        (ENTITY_TYPE_HYDRO, "hydro"@),
        (ENTITY_TYPE_THERMAL, "thermal"@),
        (ENTITY_TYPE_BUS, "bus"@),
        (ENTITY_TYPE_LINE, "line"@),
        (ENTITY_TYPE_PUMPING_STATION, "pumping_station"@),
        (ENTITY_TYPE_CONTRACT, "contract"@),
        (ENTITY_TYPE_NON_CONTROLLABLE, "non_controllable"@),
    ]
}

/// What a bound bounds.
pub open spec fn bound_type_codes() -> Seq<(i8, Seq<char>)> {
    seq![
        (BOUND_STORAGE_MIN, "storage_min"@),
        (BOUND_STORAGE_MAX, "storage_max"@),
        (BOUND_TURBINED_MIN, "turbined_min"@),
        (BOUND_TURBINED_MAX, "turbined_max"@),
        (BOUND_OUTFLOW_MIN, "outflow_min"@),
        (BOUND_OUTFLOW_MAX, "outflow_max"@),
        (BOUND_GENERATION_MIN, "generation_min"@),
        (BOUND_GENERATION_MAX, "generation_max"@),
        (BOUND_FLOW_MIN, "flow_min"@),
        (BOUND_FLOW_MAX, "flow_max"@),
    ]
}

/// All codes with their labels, by the kind of category.
pub open spec fn all_codes() -> Seq<(Seq<char>, Seq<(i8, Seq<char>)>)> {
    seq![
        ("operative_state"@, operative_state_codes()),
        ("storage_binding"@, storage_binding_codes()),
        ("contract_type"@, contract_type_codes()),
        ("entity_type"@, entity_type_codes()),
        ("bound_type"@, bound_type_codes()),
    ]
}

fn entry(code: i8, label: &'static str) -> (r: CodeEntry)
    ensures
        r.code == code,
        r.label@ == label@,
{
    CodeEntry { code, label }
}

fn operative_state_entries() -> (r: Vec<CodeEntry>)
    ensures
        entry_views(r@) == operative_state_codes(),
{
    let r: Vec<CodeEntry> = vec![
        entry(0, "deactivated"),
        entry(1, "maintenance"),
        entry(2, "operating"),
        entry(3, "saturated"),
    ];
    proof {
        assert(entry_views(r@) =~= operative_state_codes());
    }
    r
}

fn storage_binding_entries() -> (r: Vec<CodeEntry>)
    ensures
        entry_views(r@) == storage_binding_codes(),
{
    let r: Vec<CodeEntry> = vec![
        entry(0, "none"),
        entry(1, "below_minimum"),
        entry(2, "above_maximum"),
        entry(3, "both"),
    ];
    proof {
        assert(entry_views(r@) =~= storage_binding_codes());
    }
    r
}

fn contract_type_entries() -> (r: Vec<CodeEntry>)
    ensures
        entry_views(r@) == contract_type_codes(),
{
    let r: Vec<CodeEntry> = vec![
        entry(0, "import"),
        entry(1, "export"),
    ];
    proof {
        assert(entry_views(r@) =~= contract_type_codes());
    }
    r
}

fn entity_type_entries() -> (r: Vec<CodeEntry>)
    ensures
        entry_views(r@) == entity_type_codes(),
{
    let r: Vec<CodeEntry> = vec![
        entry(ENTITY_TYPE_HYDRO, "hydro"),
        entry(ENTITY_TYPE_THERMAL, "thermal"),
        entry(ENTITY_TYPE_BUS, "bus"),
        entry(ENTITY_TYPE_LINE, "line"),
        entry(ENTITY_TYPE_PUMPING_STATION, "pumping_station"),
        entry(ENTITY_TYPE_CONTRACT, "contract"),
        entry(ENTITY_TYPE_NON_CONTROLLABLE, "non_controllable"),
    ];
    proof {
        assert(entry_views(r@) =~= entity_type_codes());
    }
    r
}

fn bound_type_entries() -> (r: Vec<CodeEntry>)
    ensures
        entry_views(r@) == bound_type_codes(),
{
    let r: Vec<CodeEntry> = vec![
        entry(BOUND_STORAGE_MIN, "storage_min"),
        entry(BOUND_STORAGE_MAX, "storage_max"),
        entry(BOUND_TURBINED_MIN, "turbined_min"),
        entry(BOUND_TURBINED_MAX, "turbined_max"),
        entry(BOUND_OUTFLOW_MIN, "outflow_min"),
        entry(BOUND_OUTFLOW_MAX, "outflow_max"),
        entry(BOUND_GENERATION_MIN, "generation_min"),
        entry(BOUND_GENERATION_MAX, "generation_max"),
        entry(BOUND_FLOW_MIN, "flow_min"),
        entry(BOUND_FLOW_MAX, "flow_max"),
    ];
    proof {
        assert(entry_views(r@) =~= bound_type_codes());
    }
    r
}

/// All codes with their labels, by the kind of category.
pub fn code_groups() -> (r: Vec<CodeGroup>)
    ensures
        r@.map_values(|g: CodeGroup| g@) == all_codes(),
{
    let r: Vec<CodeGroup> = vec![
        CodeGroup { name: "operative_state", entries: operative_state_entries() },
        CodeGroup { name: "storage_binding", entries: storage_binding_entries() },
        CodeGroup { name: "contract_type", entries: contract_type_entries() },
        CodeGroup { name: "entity_type", entries: entity_type_entries() },
        CodeGroup { name: "bound_type", entries: bound_type_entries() },
    ];
    proof {
        assert(r@.map_values(|g: CodeGroup| g@) =~= all_codes());
    }
    r
}

/// A code has a label.
pub open spec fn labelled(codes: Seq<(i8, Seq<char>)>, code: i8) -> bool {
    exists|i: int| 0 <= i < codes.len() && (#[trigger] codes[i]).0 == code
}

/// Codes ascend: no code has two labels.
pub open spec fn ascending(codes: Seq<(i8, Seq<char>)>) -> bool {
    forall|i: int, j: int|
        0 <= i < j < codes.len() ==> (#[trigger] codes[i]).0 < (#[trigger] codes[j]).0
}

/// Within a kind of category no code has two labels.
pub proof fn codes_ascend(k: int)
    requires
        0 <= k < all_codes().len(),
    ensures
        ascending(all_codes()[k].1),
{
    assert(ascending(operative_state_codes()));
    assert(ascending(storage_binding_codes()));
    assert(ascending(contract_type_codes()));
    assert(ascending(entity_type_codes()));
    assert(ascending(bound_type_codes()));
}

/// The kinds of category and their codes, as readers of the output files know them.
pub proof fn codes_mean_their_labels(groups: Seq<CodeGroup>)
    requires
        groups.map_values(|g: CodeGroup| g@) == all_codes(),
    ensures
        groups.len() == 5,
        groups[0].name@ == "operative_state"@ && groups[0].entries@.len() == 4,
        groups[0].entries@[0].code == 0 && groups[0].entries@[0].label@ == "deactivated"@,
        groups[0].entries@[1].code == 1 && groups[0].entries@[1].label@ == "maintenance"@,
        groups[0].entries@[2].code == 2 && groups[0].entries@[2].label@ == "operating"@,
        groups[0].entries@[3].code == 3 && groups[0].entries@[3].label@ == "saturated"@,
        groups[1].name@ == "storage_binding"@ && groups[1].entries@.len() == 4,
        groups[1].entries@[0].code == 0 && groups[1].entries@[0].label@ == "none"@,
        groups[1].entries@[1].code == 1 && groups[1].entries@[1].label@ == "below_minimum"@,
        groups[1].entries@[2].code == 2 && groups[1].entries@[2].label@ == "above_maximum"@,
        groups[1].entries@[3].code == 3 && groups[1].entries@[3].label@ == "both"@,
        groups[2].name@ == "contract_type"@ && groups[2].entries@.len() == 2,
        groups[2].entries@[0].code == 0 && groups[2].entries@[0].label@ == "import"@,
        groups[2].entries@[1].code == 1 && groups[2].entries@[1].label@ == "export"@,
        groups[3].name@ == "entity_type"@ && groups[3].entries@.len() == 7,
        groups[3].entries@[0].code == 0 && groups[3].entries@[0].label@ == "hydro"@,
        groups[3].entries@[1].code == 1 && groups[3].entries@[1].label@ == "thermal"@,
        groups[3].entries@[2].code == 2 && groups[3].entries@[2].label@ == "bus"@,
        groups[3].entries@[3].code == 3 && groups[3].entries@[3].label@ == "line"@,
        groups[3].entries@[4].code == 4 && groups[3].entries@[4].label@ == "pumping_station"@,
        groups[3].entries@[5].code == 5 && groups[3].entries@[5].label@ == "contract"@,
        groups[3].entries@[6].code == 7 && groups[3].entries@[6].label@ == "non_controllable"@,
        groups[4].name@ == "bound_type"@ && groups[4].entries@.len() == 10,
        groups[4].entries@[0].code == 0 && groups[4].entries@[0].label@ == "storage_min"@,
        groups[4].entries@[1].code == 1 && groups[4].entries@[1].label@ == "storage_max"@,
        groups[4].entries@[2].code == 2 && groups[4].entries@[2].label@ == "turbined_min"@,
        groups[4].entries@[3].code == 3 && groups[4].entries@[3].label@ == "turbined_max"@,
        groups[4].entries@[4].code == 4 && groups[4].entries@[4].label@ == "outflow_min"@,
        groups[4].entries@[5].code == 5 && groups[4].entries@[5].label@ == "outflow_max"@,
        groups[4].entries@[6].code == 6 && groups[4].entries@[6].label@ == "generation_min"@,
        groups[4].entries@[7].code == 7 && groups[4].entries@[7].label@ == "generation_max"@,
        groups[4].entries@[8].code == 8 && groups[4].entries@[8].label@ == "flow_min"@,
        groups[4].entries@[9].code == 9 && groups[4].entries@[9].label@ == "flow_max"@,
{
    let views = groups.map_values(|g: CodeGroup| g@);
    assert(views.len() == groups.len());
    assert(views[0] == groups[0]@);
    assert(entry_views(groups[0].entries@) == operative_state_codes());
    assert(entry_views(groups[0].entries@).len() == 4);
    assert(entry_views(groups[0].entries@)[0] == (groups[0].entries@[0].code, groups[0].entries@[0].label@));
    assert(entry_views(groups[0].entries@)[1] == (groups[0].entries@[1].code, groups[0].entries@[1].label@));
    assert(entry_views(groups[0].entries@)[2] == (groups[0].entries@[2].code, groups[0].entries@[2].label@));
    assert(entry_views(groups[0].entries@)[3] == (groups[0].entries@[3].code, groups[0].entries@[3].label@));
    assert(views[1] == groups[1]@);
    assert(entry_views(groups[1].entries@) == storage_binding_codes());
    assert(entry_views(groups[1].entries@).len() == 4);
    assert(entry_views(groups[1].entries@)[0] == (groups[1].entries@[0].code, groups[1].entries@[0].label@));
    assert(entry_views(groups[1].entries@)[1] == (groups[1].entries@[1].code, groups[1].entries@[1].label@));
    assert(entry_views(groups[1].entries@)[2] == (groups[1].entries@[2].code, groups[1].entries@[2].label@));
    assert(entry_views(groups[1].entries@)[3] == (groups[1].entries@[3].code, groups[1].entries@[3].label@));
    assert(views[2] == groups[2]@);
    assert(entry_views(groups[2].entries@) == contract_type_codes());
    assert(entry_views(groups[2].entries@).len() == 2);
    assert(entry_views(groups[2].entries@)[0] == (groups[2].entries@[0].code, groups[2].entries@[0].label@));
    assert(entry_views(groups[2].entries@)[1] == (groups[2].entries@[1].code, groups[2].entries@[1].label@));
    assert(views[3] == groups[3]@);
    assert(entry_views(groups[3].entries@) == entity_type_codes());
    assert(entry_views(groups[3].entries@).len() == 7);
    assert(entry_views(groups[3].entries@)[0] == (groups[3].entries@[0].code, groups[3].entries@[0].label@));
    assert(entry_views(groups[3].entries@)[1] == (groups[3].entries@[1].code, groups[3].entries@[1].label@));
    assert(entry_views(groups[3].entries@)[2] == (groups[3].entries@[2].code, groups[3].entries@[2].label@));
    assert(entry_views(groups[3].entries@)[3] == (groups[3].entries@[3].code, groups[3].entries@[3].label@));
    assert(entry_views(groups[3].entries@)[4] == (groups[3].entries@[4].code, groups[3].entries@[4].label@));
    assert(entry_views(groups[3].entries@)[5] == (groups[3].entries@[5].code, groups[3].entries@[5].label@));
    assert(entry_views(groups[3].entries@)[6] == (groups[3].entries@[6].code, groups[3].entries@[6].label@));
    assert(views[4] == groups[4]@);
    assert(entry_views(groups[4].entries@) == bound_type_codes());
    assert(entry_views(groups[4].entries@).len() == 10);
    assert(entry_views(groups[4].entries@)[0] == (groups[4].entries@[0].code, groups[4].entries@[0].label@));
    assert(entry_views(groups[4].entries@)[1] == (groups[4].entries@[1].code, groups[4].entries@[1].label@));
    assert(entry_views(groups[4].entries@)[2] == (groups[4].entries@[2].code, groups[4].entries@[2].label@));
    assert(entry_views(groups[4].entries@)[3] == (groups[4].entries@[3].code, groups[4].entries@[3].label@));
    assert(entry_views(groups[4].entries@)[4] == (groups[4].entries@[4].code, groups[4].entries@[4].label@));
    assert(entry_views(groups[4].entries@)[5] == (groups[4].entries@[5].code, groups[4].entries@[5].label@));
    assert(entry_views(groups[4].entries@)[6] == (groups[4].entries@[6].code, groups[4].entries@[6].label@));
    assert(entry_views(groups[4].entries@)[7] == (groups[4].entries@[7].code, groups[4].entries@[7].label@));
    assert(entry_views(groups[4].entries@)[8] == (groups[4].entries@[8].code, groups[4].entries@[8].label@));
    assert(entry_views(groups[4].entries@)[9] == (groups[4].entries@[9].code, groups[4].entries@[9].label@));
}

/// The greatest of a quantity has the code after that of its least: the label of the
/// one ends in `_max` where that of the other ends in `_min`.
pub proof fn bounds_come_in_pairs(k: int)
    requires
        0 <= k < 5,
    ensures
        bound_type_codes()[2 * k + 1].0 == bound_type_codes()[2 * k].0 + 1,
        ({
            let least = bound_type_codes()[2 * k].1;
            let greatest = bound_type_codes()[2 * k + 1].1;
            let n = least.len() - 3;
            &&& n > 0
            &&& greatest.len() == least.len()
            &&& greatest.take(n) == least.take(n)
            &&& least.skip(n) == "min"@
            &&& greatest.skip(n) == "max"@
        }),
{
    reveal_strlit("min");
    reveal_strlit("max");
    reveal_strlit("storage_min");
    reveal_strlit("storage_max");
    reveal_strlit("turbined_min");
    reveal_strlit("turbined_max");
    reveal_strlit("outflow_min");
    reveal_strlit("outflow_max");
    reveal_strlit("generation_min");
    reveal_strlit("generation_max");
    reveal_strlit("flow_min");
    reveal_strlit("flow_max");
    let least = bound_type_codes()[2 * k].1;
    let greatest = bound_type_codes()[2 * k + 1].1;
    let n = least.len() - 3;
    assert(greatest.take(n) =~= least.take(n));
    assert(least.skip(n) =~= "min"@);
    assert(greatest.skip(n) =~= "max"@);
}

} // verus!
