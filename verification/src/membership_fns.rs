//! Fuzzy sets for pedestrian and vehicle counts, and the rule base.
//!
//! A membership degree is an exact fraction of `DEGREE_SCALE`: the value `d`
//! stands for the degree `d / DEGREE_SCALE`. The scale is the least common
//! multiple of the slopes' denominators, so every degree is represented
//! without rounding.

use vstd::prelude::*;

verus! {

/// Degree of full membership.
pub const DEGREE_SCALE: u32 = 300;

/// Pedestrian "low": 1 on (0, 30], falling to 0 on (30, 50), else 0.
pub open spec fn ped_low_spec(x: int) -> int {
    if x <= 0 {
        0
    } else if x <= 30 {
        300
    } else if x < 50 {
        15 * (50 - x)
    } else {
        0
    }
}

/// Pedestrian "medium": rising on (30, 50], 1 on (50, 100], falling on (100, 150).
pub open spec fn ped_mid_spec(x: int) -> int {
    if x <= 30 {
        0
    } else if x <= 50 {
        15 * (x - 30)
    } else if x <= 100 {
        300
    } else if x < 150 {
        6 * (150 - x)
    } else {
        0
    }
}

/// Pedestrian "high": rising on (100, 150], 1 above 150.
pub open spec fn ped_high_spec(x: int) -> int {
    if x <= 100 {
        0
    } else if x <= 150 {
        6 * (x - 100)
    } else {
        300
    }
}

/// Vehicle "low": 1 on (0, 3], falling to 0 on (3, 5), else 0.
pub open spec fn veh_low_spec(y: int) -> int {
    if y <= 0 {
        0
    } else if y <= 3 {
        300
    } else if y < 5 {
        150 * (5 - y)
    } else {
        0
    }
}

/// Vehicle "medium": rising on (3, 5], 1 on (5, 7], falling on (7, 10).
pub open spec fn veh_mid_spec(y: int) -> int {
    if y <= 3 {
        0
    } else if y <= 5 {
        150 * (y - 3)
    } else if y <= 7 {
        300
    } else if y < 10 {
        100 * (10 - y)
    } else {
        0
    }
}

/// Vehicle "high": rising on (7, 10], 1 above 10.
pub open spec fn veh_high_spec(y: int) -> int {
    if y <= 7 {
        0
    } else if y <= 10 {
        100 * (y - 7)
    } else {
        300
    }
}

/// Membership of a pedestrian count in "low".
pub fn ped_low(x: i32) -> (d: u32)
    ensures
        d == ped_low_spec(x as int),
{
    if x <= 0 {
        0
    } else if x <= 30 {
        300
    } else if x < 50 {
        15 * (50 - x) as u32
    } else {
        0
    }
}


/// Membership of a pedestrian count in "medium".
pub fn ped_mid(x: i32) -> (d: u32)
    ensures
        d == ped_mid_spec(x as int),
{
    if x <= 30 {
        0
    } else if x <= 50 {
        15 * (x - 30) as u32
    } else if x <= 100 {
        300
    } else if x < 150 {
        6 * (150 - x) as u32
    } else {
        0
    }
}

/// Membership of a pedestrian count in "high".
pub fn ped_high(x: i32) -> (d: u32)
    ensures
        d == ped_high_spec(x as int),
{
    if x <= 100 {
        0
    } else if x <= 150 {
        6 * (x - 100) as u32
    } else {
        300
    }
}

/// Membership of a vehicle count in "low".
pub fn veh_low(y: i32) -> (d: u32)
    ensures
        d == veh_low_spec(y as int),
{
    if y <= 0 {
        0
    } else if y <= 3 {
        300
    } else if y < 5 {
        150 * (5 - y) as u32
    } else {
        0
    }
}

/// Membership of a vehicle count in "medium".
pub fn veh_mid(y: i32) -> (d: u32)
    ensures
        d == veh_mid_spec(y as int),
{
    if y <= 3 {
        0
    } else if y <= 5 {
        150 * (y - 3) as u32
    } else if y <= 7 {
        300
    } else if y < 10 {
        100 * (10 - y) as u32
    } else {
        0
    }
}

/// Membership of a vehicle count in "high".
pub fn veh_high(y: i32) -> (d: u32)
    ensures
        d == veh_high_spec(y as int),
{
    if y <= 7 {
        0
    } else if y <= 10 {
        100 * (y - 7) as u32
    } else {
        300
    }
}

/// Linguistic labels of a count.
#[derive(Copy, Clone, PartialEq, Eq, Hash, Debug, Structural)]
pub enum FuzzyLabels {
    Low,
    Medium,
    High,
}

/// Outcomes of the rule base, from no extension to a long one.
#[derive(Copy, Clone, PartialEq, Eq, Hash, Debug, Structural)]
pub enum FuzzyAction {
    NoExtension,
    ShortExtension,
    MediumExtension,
    LongExtension,
}

/// Position of a label on the low-to-high scale.
pub open spec fn label_rank(l: FuzzyLabels) -> int {
    match l {
        FuzzyLabels::Low => 0,
        FuzzyLabels::Medium => 1,
        FuzzyLabels::High => 2,
    }
}

/// Position of an action on the no-to-long scale.
pub open spec fn action_rank(a: FuzzyAction) -> int {
    match a {
        FuzzyAction::NoExtension => 0,
        FuzzyAction::ShortExtension => 1,
        FuzzyAction::MediumExtension => 2,
        FuzzyAction::LongExtension => 3,
    }
}

/// Every action, in ascending order of extension.
pub open spec fn all_actions() -> Seq<FuzzyAction> {
    seq![
        FuzzyAction::NoExtension,
        FuzzyAction::ShortExtension,
        FuzzyAction::MediumExtension,
        FuzzyAction::LongExtension,
    ]
}

impl FuzzyAction {
    /// Every action, in ascending order of extension.
    pub fn all() -> (res: &'static [FuzzyAction])
        ensures
            res@ == all_actions(),
    {
        let res: &'static [FuzzyAction] = &[
            FuzzyAction::NoExtension,
            FuzzyAction::ShortExtension,
            FuzzyAction::MediumExtension,
            FuzzyAction::LongExtension,
        ];
        res
    }
}

/// The rule table, indexed by vehicle label (rows) and pedestrian label.
pub open spec fn rule(ped: FuzzyLabels, veh: FuzzyLabels) -> FuzzyAction {
    match (veh, ped) {
        (FuzzyLabels::Low, FuzzyLabels::Low) => FuzzyAction::NoExtension,
        (FuzzyLabels::Low, FuzzyLabels::Medium) => FuzzyAction::MediumExtension,
        (FuzzyLabels::Low, FuzzyLabels::High) => FuzzyAction::LongExtension,
        (FuzzyLabels::Medium, FuzzyLabels::Low) => FuzzyAction::NoExtension,
        (FuzzyLabels::Medium, FuzzyLabels::Medium) => FuzzyAction::ShortExtension,
        (FuzzyLabels::Medium, FuzzyLabels::High) => FuzzyAction::MediumExtension,
        (FuzzyLabels::High, FuzzyLabels::Low) => FuzzyAction::NoExtension,
        (FuzzyLabels::High, FuzzyLabels::Medium) => FuzzyAction::NoExtension,
        (FuzzyLabels::High, FuzzyLabels::High) => FuzzyAction::ShortExtension,
    }
}

/// The action that the rule base prescribes for a pair of labels.
pub fn knowledge_base(ped: FuzzyLabels, veh: FuzzyLabels) -> (a: FuzzyAction)
    ensures
        a == rule(ped, veh),
{
    match (veh, ped) {
        (FuzzyLabels::Low, FuzzyLabels::Low) => FuzzyAction::NoExtension,
        (FuzzyLabels::Low, FuzzyLabels::Medium) => FuzzyAction::MediumExtension,
        (FuzzyLabels::Low, FuzzyLabels::High) => FuzzyAction::LongExtension,
        (FuzzyLabels::Medium, FuzzyLabels::Low) => FuzzyAction::NoExtension,
        (FuzzyLabels::Medium, FuzzyLabels::Medium) => FuzzyAction::ShortExtension,
        (FuzzyLabels::Medium, FuzzyLabels::High) => FuzzyAction::MediumExtension,
        (FuzzyLabels::High, FuzzyLabels::Low) => FuzzyAction::NoExtension,
        (FuzzyLabels::High, FuzzyLabels::Medium) => FuzzyAction::NoExtension,
        (FuzzyLabels::High, FuzzyLabels::High) => FuzzyAction::ShortExtension,
    }
}

/// Every membership degree lies between no and full membership.
pub proof fn lemma_degrees_bounded(x: int)
    ensures
        0 <= ped_low_spec(x) <= DEGREE_SCALE,
        0 <= ped_mid_spec(x) <= DEGREE_SCALE,
        0 <= ped_high_spec(x) <= DEGREE_SCALE,
        0 <= veh_low_spec(x) <= DEGREE_SCALE,
        0 <= veh_mid_spec(x) <= DEGREE_SCALE,
        0 <= veh_high_spec(x) <= DEGREE_SCALE,
{
}

/// The pedestrian sets partition every positive count: the three degrees add
/// up to full membership.
pub proof fn lemma_ped_partition(x: int)
    requires
        x > 0,
    ensures
        ped_low_spec(x) + ped_mid_spec(x) + ped_high_spec(x) == DEGREE_SCALE,
{
}

/// The vehicle sets partition every positive count.
pub proof fn lemma_veh_partition(y: int)
    requires
        y > 0,
    ensures
        veh_low_spec(y) + veh_mid_spec(y) + veh_high_spec(y) == DEGREE_SCALE,
{
}

/// A count of zero or less belongs to no set at all.
pub proof fn lemma_nonpositive_count_has_no_membership(x: int)
    requires
        x <= 0,
    ensures
        ped_low_spec(x) == 0,
        ped_mid_spec(x) == 0,
        ped_high_spec(x) == 0,
        veh_low_spec(x) == 0,
        veh_mid_spec(x) == 0,
        veh_high_spec(x) == 0,
{
}

/// "High" grows and, among positive counts, "low" shrinks as the count grows.
pub proof fn lemma_membership_monotone(x: int, y: int)
    requires
        x <= y,
    ensures
        ped_high_spec(x) <= ped_high_spec(y),
        veh_high_spec(x) <= veh_high_spec(y),
        x > 0 ==> ped_low_spec(y) <= ped_low_spec(x),
        x > 0 ==> veh_low_spec(y) <= veh_low_spec(x),
{
}

/// More pedestrians never shorten the prescribed extension, more vehicles
/// never lengthen it, and few pedestrians never earn one.
pub proof fn lemma_rule_base_monotone(p1: FuzzyLabels, p2: FuzzyLabels, v1: FuzzyLabels, v2: FuzzyLabels)
    ensures
        label_rank(p1) <= label_rank(p2) ==> action_rank(rule(p1, v1)) <= action_rank(rule(p2, v1)),
        label_rank(v1) <= label_rank(v2) ==> action_rank(rule(p1, v2)) <= action_rank(rule(p1, v1)),
        rule(FuzzyLabels::Low, v1) == FuzzyAction::NoExtension,
{
}

} // verus!
