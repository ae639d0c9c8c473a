//! Mamdani-style inference from pedestrian and vehicle counts to the firing
//! strength of each extension action.
//!
//! Degrees are exact multiples of `1 / DEGREE_SCALE` (see `membership_fns`).

use vstd::prelude::*;
use crate::membership_fns::{
    action_rank, all_actions, knowledge_base, lemma_degrees_bounded, DEGREE_SCALE, ped_high, ped_high_spec, ped_low,
    ped_low_spec, ped_mid, ped_mid_spec, rule, veh_high, veh_high_spec, veh_low, veh_low_spec, veh_mid,
    veh_mid_spec, FuzzyAction, FuzzyLabels,
};

verus! {

/// The six membership functions, by name.
#[derive(Copy, Clone, PartialEq, Eq, Debug, Structural)]
pub enum MembershipFn {
    PedLow,
    PedMid,
    PedHigh,
    VehLow,
    VehMid,
    VehHigh,
}

/// The degree that a membership function gives a count.
pub open spec fn membership_spec(f: MembershipFn, x: int) -> int {
    match f {
        MembershipFn::PedLow => ped_low_spec(x),
        MembershipFn::PedMid => ped_mid_spec(x),
        MembershipFn::PedHigh => ped_high_spec(x),
        MembershipFn::VehLow => veh_low_spec(x),
        MembershipFn::VehMid => veh_mid_spec(x),
        MembershipFn::VehHigh => veh_high_spec(x),
    }
}

impl MembershipFn {
    /// Applies the membership function to a count.
    pub fn eval(self, x: i32) -> (d: u32)
        ensures
            d == membership_spec(self, x as int),
    {
        match self {
            MembershipFn::PedLow => ped_low(x),
            MembershipFn::PedMid => ped_mid(x),
            MembershipFn::PedHigh => ped_high(x),
            MembershipFn::VehLow => veh_low(x),
            MembershipFn::VehMid => veh_mid(x),
            MembershipFn::VehHigh => veh_high(x),
        }
    }
}

/// The labelled membership functions for pedestrian counts.
pub open spec fn ped_fn_list() -> Seq<(FuzzyLabels, MembershipFn)> {
    seq![
        (FuzzyLabels::Low, MembershipFn::PedLow),
        (FuzzyLabels::Medium, MembershipFn::PedMid),
        (FuzzyLabels::High, MembershipFn::PedHigh),
    ]
}

/// The labelled membership functions for vehicle counts.
pub open spec fn veh_fn_list() -> Seq<(FuzzyLabels, MembershipFn)> {
    seq![
        (FuzzyLabels::Low, MembershipFn::VehLow),
        (FuzzyLabels::Medium, MembershipFn::VehMid),
        (FuzzyLabels::High, MembershipFn::VehHigh),
    ]
}

/// The labelled membership functions for pedestrian counts.
pub fn pedestrian_membership_fns() -> (res: Vec<(FuzzyLabels, MembershipFn)>)
    ensures
        res@ == ped_fn_list(),
{
    vec![
        (FuzzyLabels::Low, MembershipFn::PedLow),
        (FuzzyLabels::Medium, MembershipFn::PedMid),
        (FuzzyLabels::High, MembershipFn::PedHigh),
    ]
}

/// The labelled membership functions for vehicle counts.
pub fn vehicle_membership_fns() -> (res: Vec<(FuzzyLabels, MembershipFn)>)
    ensures
        res@ == veh_fn_list(),
{
    vec![
        (FuzzyLabels::Low, MembershipFn::VehLow),
        (FuzzyLabels::Medium, MembershipFn::VehMid),
        (FuzzyLabels::High, MembershipFn::VehHigh),
    ]
}

/// Degree of a count in each labelled set, in the order of the list.
pub open spec fn element_degrees(x: int, fns: Seq<(FuzzyLabels, MembershipFn)>) -> Seq<(FuzzyLabels, u32)> {
    Seq::new(fns.len(), |i: int| (fns[i].0, membership_spec(fns[i].1, x) as u32))
}

/// Fuzzifies a count: its degree in each labelled set, in the order given.
pub fn get_element_membership_degree(
    exact_value: i32,
    membership_fn_list: Vec<(FuzzyLabels, MembershipFn)>,
) -> (res: Vec<(FuzzyLabels, u32)>)
    ensures
        res@ == element_degrees(exact_value as int, membership_fn_list@),
{
    let mut elem_mb_degrees: Vec<(FuzzyLabels, u32)> = Vec::new();
    let n = membership_fn_list.len();
    for i in 0..n
        invariant
            n == membership_fn_list@.len(),
            elem_mb_degrees@ =~= element_degrees(exact_value as int, membership_fn_list@.take(i as int)),
    {
        let (fz_label, func) = membership_fn_list[i];
        let d = func.eval(exact_value);
        proof {
            lemma_degrees_bounded(exact_value as int);
        }
        elem_mb_degrees.push((fz_label, d));
        assert(membership_fn_list@.take(i + 1) =~= membership_fn_list@.take(i as int).push(membership_fn_list@[i as int]));
    }
    assert(membership_fn_list@.take(n as int) =~= membership_fn_list@);
    elem_mb_degrees
}

/// The action at a position of `FuzzyAction::all()`.
pub open spec fn action_at(k: int) -> FuzzyAction {
    all_actions()[k]
}

/// Position of an action in `FuzzyAction::all()`.
pub fn action_index(a: FuzzyAction) -> (k: usize)
    ensures
        k == action_rank(a),
        k < 4,
        action_at(k as int) == a,
{
    match a {
        FuzzyAction::NoExtension => 0,
        FuzzyAction::ShortExtension => 1,
        FuzzyAction::MediumExtension => 2,
        FuzzyAction::LongExtension => 3,
    }
}

pub open spec fn min_degree(a: u32, b: u32) -> u32 {
    if a <= b { a } else { b }
}

/// Degrees of the rules that fire action `a` for one pedestrian degree,
/// taking the vehicle degrees in order.
pub open spec fn row_degrees(p: (FuzzyLabels, u32), veh: Seq<(FuzzyLabels, u32)>, a: FuzzyAction) -> Seq<u32>
    decreases veh.len(),
{
    if veh.len() == 0 {
        Seq::empty()
    } else {
        let v = veh.last();
        let rest = row_degrees(p, veh.drop_last(), a);
        if rule(p.0, v.0) == a {
            rest.push(min_degree(p.1, v.1))
        } else {
            rest
        }
    }
}

/// Degrees of all rules that fire action `a`, pedestrian-major.
pub open spec fn rule_degrees(ped: Seq<(FuzzyLabels, u32)>, veh: Seq<(FuzzyLabels, u32)>, a: FuzzyAction) -> Seq<u32>
    decreases ped.len(),
{
    if ped.len() == 0 {
        Seq::empty()
    } else {
        rule_degrees(ped.drop_last(), veh, a) + row_degrees(ped.last(), veh, a)
    }
}

/// Evaluates every rule: for each action, the degrees (minimum of the two
/// premises) of the rules that prescribe it. Entry `k` belongs to
/// `FuzzyAction::all()[k]`.
pub fn get_rule_membership_degree(
    ped_element_membership_degrees: Vec<(FuzzyLabels, u32)>,
    veh_element_membership_degrees: Vec<(FuzzyLabels, u32)>,
) -> (res: Vec<Vec<u32>>)
    ensures
        res@.len() == 4,
        forall|k: int|
            0 <= k < 4 ==> (#[trigger] res@[k])@ == rule_degrees(
                ped_element_membership_degrees@,
                veh_element_membership_degrees@,
                action_at(k),
            ),
{
    let ghost ped = ped_element_membership_degrees@;
    let ghost veh = veh_element_membership_degrees@;
    let mut no_ext: Vec<u32> = Vec::new();
    let mut short_ext: Vec<u32> = Vec::new();
    let mut medium_ext: Vec<u32> = Vec::new();
    let mut long_ext: Vec<u32> = Vec::new();
    let np = ped_element_membership_degrees.len();
    let nv = veh_element_membership_degrees.len();
    for i in 0..np
        invariant
            np == ped.len(),
            nv == veh.len(),
            ped == ped_element_membership_degrees@,
            veh == veh_element_membership_degrees@,
            no_ext@ == rule_degrees(ped.take(i as int), veh, FuzzyAction::NoExtension),
            short_ext@ == rule_degrees(ped.take(i as int), veh, FuzzyAction::ShortExtension),
            medium_ext@ == rule_degrees(ped.take(i as int), veh, FuzzyAction::MediumExtension),
            long_ext@ == rule_degrees(ped.take(i as int), veh, FuzzyAction::LongExtension),
    {
        let (ped_label, ped_degree) = ped_element_membership_degrees[i];
        let ghost p = ped[i as int];
        let ghost base_no = no_ext@;
        let ghost base_short = short_ext@;
        let ghost base_medium = medium_ext@;
        let ghost base_long = long_ext@;
        for j in 0..nv
            invariant
                np == ped.len(),
                nv == veh.len(),
                i < np,
                p == ped[i as int],
                p == (ped_label, ped_degree),
                veh == veh_element_membership_degrees@,
                no_ext@ == base_no + row_degrees(p, veh.take(j as int), FuzzyAction::NoExtension),
                short_ext@ == base_short + row_degrees(p, veh.take(j as int), FuzzyAction::ShortExtension),
                medium_ext@ == base_medium + row_degrees(p, veh.take(j as int), FuzzyAction::MediumExtension),
                long_ext@ == base_long + row_degrees(p, veh.take(j as int), FuzzyAction::LongExtension),
        {
            let (veh_label, veh_degree) = veh_element_membership_degrees[j];
            let action = knowledge_base(ped_label, veh_label);
            let degree = if ped_degree <= veh_degree { ped_degree } else { veh_degree };
            assert(veh.take(j + 1).drop_last() =~= veh.take(j as int));
            assert(veh.take(j + 1).last() == veh[j as int]);
            match action {
                FuzzyAction::NoExtension => no_ext.push(degree),
                FuzzyAction::ShortExtension => short_ext.push(degree),
                FuzzyAction::MediumExtension => medium_ext.push(degree),
                FuzzyAction::LongExtension => long_ext.push(degree),
            }
        }
        assert(veh.take(nv as int) =~= veh);
        assert(ped.take(i + 1).drop_last() =~= ped.take(i as int));
        assert(ped.take(i + 1).last() == ped[i as int]);
    }
    assert(ped.take(np as int) =~= ped);
    let res = vec![no_ext, short_ext, medium_ext, long_ext];
    assert forall|k: int| 0 <= k < 4 implies (#[trigger] res@[k])@ == rule_degrees(ped, veh, action_at(k)) by {
        if k == 0 {
        } else if k == 1 {
        } else if k == 2 {
        } else {
        }
    }
    res
}

/// Largest degree of a list, or 0 for an empty list.
pub open spec fn max_degree(s: Seq<u32>) -> u32
    decreases s.len(),
{
    if s.len() == 0 {
        0
    } else {
        let m = max_degree(s.drop_last());
        if m >= s.last() { m } else { s.last() }
    }
}

/// Aggregates each action's rule degrees by their maximum; an action with no
/// entry (or no firing rule) gets 0. Entry `k` belongs to `FuzzyAction::all()[k]`.
pub fn get_operation_membership_degree(rule_membership_degrees: Vec<Vec<u32>>) -> (res: Vec<u32>)
    ensures
        res@.len() == 4,
        forall|k: int|
            0 <= k < 4 ==> #[trigger] res@[k] == (if k < rule_membership_degrees@.len() {
                max_degree(rule_membership_degrees@[k]@)
            } else {
                0
            }),
{
    let mut res: Vec<u32> = vec![0, 0, 0, 0];
    let n = rule_membership_degrees.len();
    let mut k: usize = 0;
    while k < n && k < 4
        invariant
            n == rule_membership_degrees@.len(),
            k <= 4,
            k <= n,
            res@.len() == 4,
            forall|j: int| 0 <= j < k && j < n ==> #[trigger] res@[j] == max_degree(rule_membership_degrees@[j]@),
            forall|j: int| k <= j < 4 ==> #[trigger] res@[j] == 0,
        decreases 4 - k,
    {
        let degrees = &rule_membership_degrees[k];
        let mut m: u32 = 0;
        let len = degrees.len();
        for i in 0..len
            invariant
                len == degrees@.len(),
                m == max_degree(degrees@.take(i as int)),
        {
            assert(degrees@.take(i + 1).drop_last() =~= degrees@.take(i as int));
            if degrees[i] > m {
                m = degrees[i];
            }
        }
        assert(degrees@.take(len as int) =~= degrees@);
        res.set(k, m);
        k = k + 1;
    }
    res
}


/// Degree of a pedestrian count in a labelled set.
pub open spec fn ped_degree(l: FuzzyLabels, x: int) -> int {
    match l {
        FuzzyLabels::Low => ped_low_spec(x),
        FuzzyLabels::Medium => ped_mid_spec(x),
        FuzzyLabels::High => ped_high_spec(x),
    }
}

/// Degree of a vehicle count in a labelled set.
pub open spec fn veh_degree(l: FuzzyLabels, y: int) -> int {
    match l {
        FuzzyLabels::Low => veh_low_spec(y),
        FuzzyLabels::Medium => veh_mid_spec(y),
        FuzzyLabels::High => veh_high_spec(y),
    }
}

pub open spec fn max2(a: int, b: int) -> int {
    if a >= b { a } else { b }
}

pub open spec fn max3(a: int, b: int, c: int) -> int {
    max2(max2(a, b), c)
}

/// How strongly the rule for (`p`, `v`) fires action `a`: the smaller of its
/// two premises when it prescribes `a`, else 0.
pub open spec fn rule_strength(p: FuzzyLabels, v: FuzzyLabels, x: int, y: int, a: FuzzyAction) -> int {
    if rule(p, v) == a {
        let dp = ped_degree(p, x);
        let dv = veh_degree(v, y);
        if dp <= dv { dp } else { dv }
    } else {
        0
    }
}

/// Strongest firing of action `a` among the rules of one pedestrian label.
pub open spec fn label_strength(p: FuzzyLabels, x: int, y: int, a: FuzzyAction) -> int {
    max3(
        rule_strength(p, FuzzyLabels::Low, x, y, a),
        rule_strength(p, FuzzyLabels::Medium, x, y, a),
        rule_strength(p, FuzzyLabels::High, x, y, a),
    )
}

/// Firing strength of action `a` for `x` pedestrians and `y` vehicles: the
/// strongest of the nine rules that prescribe it (max of mins), 0 if none fires.
pub open spec fn action_strength(x: int, y: int, a: FuzzyAction) -> int {
    max3(
        label_strength(FuzzyLabels::Low, x, y, a),
        label_strength(FuzzyLabels::Medium, x, y, a),
        label_strength(FuzzyLabels::High, x, y, a),
    )
}

proof fn lemma_max_degree_concat(s: Seq<u32>, t: Seq<u32>)
    ensures
        max_degree(s + t) == max2(max_degree(s) as int, max_degree(t) as int),
    decreases t.len(),
{
    if t.len() == 0 {
        assert(s + t =~= s);
    } else {
        assert((s + t).drop_last() =~= s + t.drop_last());
        assert((s + t).last() == t.last());
        lemma_max_degree_concat(s, t.drop_last());
    }
}

proof fn lemma_row_max(p: FuzzyLabels, dp: u32, veh: Seq<(FuzzyLabels, u32)>, x: int, y: int, a: FuzzyAction)
    requires
        dp == ped_degree(p, x),
        veh =~= element_degrees(y, veh_fn_list()),
    ensures
        max_degree(row_degrees((p, dp), veh, a)) == label_strength(p, x, y, a),
{
    lemma_degrees_bounded(x);
    lemma_degrees_bounded(y);
    reveal_with_fuel(row_degrees, 4);
    reveal_with_fuel(max_degree, 4);
    assert(veh.drop_last().drop_last().drop_last() =~= Seq::<(FuzzyLabels, u32)>::empty());
    let r0 = row_degrees((p, dp), veh.drop_last().drop_last(), a);
    let r1 = row_degrees((p, dp), veh.drop_last(), a);
    let r2 = row_degrees((p, dp), veh, a);
    assert(max_degree(r0) == max2(0, rule_strength(p, FuzzyLabels::Low, x, y, a)));
    assert(max_degree(r1) == max2(max_degree(r0) as int, rule_strength(p, FuzzyLabels::Medium, x, y, a)));
    assert(max_degree(r2) == max2(max_degree(r1) as int, rule_strength(p, FuzzyLabels::High, x, y, a)));
}

/// The aggregated degree of every action for a pedestrian and a vehicle
/// count, i.e. everything the inference does before defuzzification. Entry
/// `k` belongs to `FuzzyAction::all()[k]`.
pub fn aggregate_action_degrees(ped_count: i32, veh_count: i32) -> (res: Vec<u32>)
    ensures
        res@.len() == 4,
        forall|k: int| 0 <= k < 4 ==> #[trigger] res@[k] == action_strength(ped_count as int, veh_count as int, action_at(k)),
{
    let ped_degrees = get_element_membership_degree(ped_count, pedestrian_membership_fns());
    let veh_degrees = get_element_membership_degree(veh_count, vehicle_membership_fns());
    let ghost pd = ped_degrees@;
    let ghost vd = veh_degrees@;
    let rule_degrees_per_action = get_rule_membership_degree(ped_degrees, veh_degrees);
    let res = get_operation_membership_degree(rule_degrees_per_action);
    proof {
        let x = ped_count as int;
        let y = veh_count as int;
        lemma_degrees_bounded(x);
        lemma_degrees_bounded(y);
        assert forall|k: int| 0 <= k < 4 implies #[trigger] res@[k] == action_strength(x, y, action_at(k)) by {
            let a = action_at(k);
            reveal_with_fuel(rule_degrees, 4);
            assert(pd.drop_last().drop_last().drop_last() =~= Seq::<(FuzzyLabels, u32)>::empty());
            let q0 = rule_degrees(pd.drop_last().drop_last(), vd, a);
            let q1 = rule_degrees(pd.drop_last(), vd, a);
            let q2 = rule_degrees(pd, vd, a);
            assert(q0 =~= Seq::<u32>::empty() + row_degrees(pd[0], vd, a));
            lemma_max_degree_concat(Seq::<u32>::empty(), row_degrees(pd[0], vd, a));
            lemma_max_degree_concat(q0, row_degrees(pd[1], vd, a));
            lemma_max_degree_concat(q1, row_degrees(pd[2], vd, a));
            lemma_row_max(FuzzyLabels::Low, pd[0].1, vd, x, y, a);
            lemma_row_max(FuzzyLabels::Medium, pd[1].1, vd, x, y, a);
            lemma_row_max(FuzzyLabels::High, pd[2].1, vd, x, y, a);
        }
    }
    res
}

/// Every aggregated degree lies between no and full firing.
pub proof fn lemma_action_strength_bounded(x: int, y: int, a: FuzzyAction)
    ensures
        0 <= action_strength(x, y, a) <= DEGREE_SCALE,
{
    lemma_degrees_bounded(x);
    lemma_degrees_bounded(y);
}

/// Without pedestrians, or without vehicles, no rule fires at all.
pub proof fn lemma_no_count_no_firing(x: int, y: int, a: FuzzyAction)
    requires
        x <= 0 || y <= 0,
    ensures
        action_strength(x, y, a) == 0,
{
    lemma_degrees_bounded(x);
    lemma_degrees_bounded(y);
}

/// With at most 30 pedestrians only "no extension" can fire.
pub proof fn lemma_few_pedestrians_fire_no_extension_only(x: int, y: int, a: FuzzyAction)
    requires
        x <= 30,
        a != FuzzyAction::NoExtension,
    ensures
        action_strength(x, y, a) == 0,
{
    lemma_degrees_bounded(x);
    lemma_degrees_bounded(y);
}

} // verus!
