use traffic_light_control::fuzzy_inference::{
    aggregate_action_degrees, get_element_membership_degree, get_operation_membership_degree,
    get_rule_membership_degree, pedestrian_membership_fns, vehicle_membership_fns, MembershipFn,
};
use traffic_light_control::membership_fns::{
    knowledge_base, ped_high, ped_low, ped_mid, veh_high, veh_low, veh_mid, FuzzyAction, FuzzyLabels,
    DEGREE_SCALE,
};
use traffic_light_control::membership_fns::FuzzyAction::{
    LongExtension, MediumExtension, NoExtension, ShortExtension,
};
use traffic_light_control::membership_fns::FuzzyLabels::{High, Low, Medium};

fn as_fraction(d: u32) -> f64 {
    d as f64 / DEGREE_SCALE as f64
}

fn close(a: f64, b: f64) -> bool {
    (a - b).abs() < 1e-12
}

// The piecewise-linear sets as written in the documentation of each function.
fn doc_ped_low(x: f64) -> f64 {
    if x <= 0.0 { 0.0 } else if x <= 30.0 { 1.0 } else if x < 50.0 { (50.0 - x) / 20.0 } else { 0.0 }
}
fn doc_ped_mid(x: f64) -> f64 {
    if x <= 30.0 { 0.0 } else if x <= 50.0 { (x - 30.0) / 20.0 } else if x <= 100.0 { 1.0 } else if x < 150.0 { (150.0 - x) / 50.0 } else { 0.0 }
}
fn doc_ped_high(x: f64) -> f64 {
    if x <= 100.0 { 0.0 } else if x <= 150.0 { (x - 100.0) / 50.0 } else { 1.0 }
}
fn doc_veh_low(y: f64) -> f64 {
    if y <= 0.0 { 0.0 } else if y <= 3.0 { 1.0 } else if y < 5.0 { (5.0 - y) / 2.0 } else { 0.0 }
}
fn doc_veh_mid(y: f64) -> f64 {
    if y <= 3.0 { 0.0 } else if y <= 5.0 { (y - 3.0) / 2.0 } else if y <= 7.0 { 1.0 } else if y < 10.0 { (10.0 - y) / 3.0 } else { 0.0 }
}
fn doc_veh_high(y: f64) -> f64 {
    if y <= 7.0 { 0.0 } else if y <= 10.0 { (y - 7.0) / 3.0 } else { 1.0 }
}

#[test]
fn membership_degrees_match_documented_formulas() {
    for x in -5..=320 {
        let xf = x as f64;
        assert!(close(as_fraction(ped_low(x)), doc_ped_low(xf)), "ped_low({})", x);
        assert!(close(as_fraction(ped_mid(x)), doc_ped_mid(xf)), "ped_mid({})", x);
        assert!(close(as_fraction(ped_high(x)), doc_ped_high(xf)), "ped_high({})", x);
        assert!(close(as_fraction(veh_low(x)), doc_veh_low(xf)), "veh_low({})", x);
        assert!(close(as_fraction(veh_mid(x)), doc_veh_mid(xf)), "veh_mid({})", x);
        assert!(close(as_fraction(veh_high(x)), doc_veh_high(xf)), "veh_high({})", x);
    }
}

#[test]
fn membership_exact_values() {
    assert_eq!(ped_low(40), 150);
    assert_eq!(ped_mid(40), 150);
    assert_eq!(ped_mid(125), 150);
    assert_eq!(ped_high(125), 150);
    assert_eq!(veh_low(4), 150);
    assert_eq!(veh_mid(4), 150);
    assert_eq!(veh_mid(8), 200);
    assert_eq!(veh_high(8), 100);
    assert_eq!(ped_low(i32::MIN), 0);
    assert_eq!(ped_high(i32::MAX), DEGREE_SCALE);
    assert_eq!(veh_high(i32::MAX), DEGREE_SCALE);
}

#[test]
fn membership_sets_partition_positive_counts() {
    for x in 1..=400 {
        assert_eq!(ped_low(x) + ped_mid(x) + ped_high(x), DEGREE_SCALE);
        assert_eq!(veh_low(x) + veh_mid(x) + veh_high(x), DEGREE_SCALE);
    }
    assert_eq!(ped_low(0) + ped_mid(0) + ped_high(0), 0);
    assert_eq!(veh_low(-7) + veh_mid(-7) + veh_high(-7), 0);
}

#[test]
fn rule_base_table() {
    assert_eq!(knowledge_base(Low, Low), NoExtension);
    assert_eq!(knowledge_base(Medium, Low), MediumExtension);
    assert_eq!(knowledge_base(High, Low), LongExtension);
    assert_eq!(knowledge_base(Low, Medium), NoExtension);
    assert_eq!(knowledge_base(Medium, Medium), ShortExtension);
    assert_eq!(knowledge_base(High, Medium), MediumExtension);
    assert_eq!(knowledge_base(Low, High), NoExtension);
    assert_eq!(knowledge_base(Medium, High), NoExtension);
    assert_eq!(knowledge_base(High, High), ShortExtension);
}

#[test]
fn rule_base_is_monotone() {
    let labels = [Low, Medium, High];
    let rank = |a: FuzzyAction| FuzzyAction::all().iter().position(|b| *b == a).unwrap();
    for (i, p1) in labels.iter().enumerate() {
        for p2 in &labels[i..] {
            for v in &labels {
                assert!(rank(knowledge_base(*p1, *v)) <= rank(knowledge_base(*p2, *v)));
            }
        }
    }
    for (i, v1) in labels.iter().enumerate() {
        for v2 in &labels[i..] {
            for p in &labels {
                assert!(rank(knowledge_base(*p, *v2)) <= rank(knowledge_base(*p, *v1)));
            }
        }
    }
}

#[test]
fn all_actions_in_order() {
    assert_eq!(
        FuzzyAction::all(),
        &[
            FuzzyAction::NoExtension,
            FuzzyAction::ShortExtension,
            FuzzyAction::MediumExtension,
            FuzzyAction::LongExtension
        ]
    );
}

#[test]
fn element_degrees_follow_the_list() {
    let ped = get_element_membership_degree(40, pedestrian_membership_fns());
    assert_eq!(ped, vec![(FuzzyLabels::Low, 150), (FuzzyLabels::Medium, 150), (FuzzyLabels::High, 0)]);
    let custom = get_element_membership_degree(8, vec![(FuzzyLabels::High, MembershipFn::VehHigh), (FuzzyLabels::Low, MembershipFn::PedLow)]);
    assert_eq!(custom, vec![(FuzzyLabels::High, 100), (FuzzyLabels::Low, 300)]);
    assert!(get_element_membership_degree(8, vec![]).is_empty());
    assert_eq!(MembershipFn::VehMid.eval(4), 150);
}

#[test]
fn rule_degrees_grouped_by_action() {
    let ped = get_element_membership_degree(40, pedestrian_membership_fns());
    let veh = get_element_membership_degree(4, vehicle_membership_fns());
    let rules = get_rule_membership_degree(ped, veh);
    assert_eq!(rules.len(), 4);
    assert_eq!(rules[0], vec![150, 150, 0, 0]);
    assert_eq!(rules[1], vec![150, 0]);
    assert_eq!(rules[2], vec![150, 0]);
    assert_eq!(rules[3], vec![0]);
    let ops = get_operation_membership_degree(rules);
    assert_eq!(ops, vec![150, 150, 150, 0]);
}

#[test]
fn operation_degree_of_missing_or_empty_entries_is_zero() {
    assert_eq!(get_operation_membership_degree(vec![]), vec![0, 0, 0, 0]);
    assert_eq!(get_operation_membership_degree(vec![vec![5, 9, 2], vec![]]), vec![9, 0, 0, 0]);
}

#[test]
fn aggregate_degrees() {
    assert_eq!(aggregate_action_degrees(40, 4), vec![150, 150, 150, 0]);
    assert_eq!(aggregate_action_degrees(200, 1), vec![0, 0, 0, 300]);
    assert_eq!(aggregate_action_degrees(75, 6), vec![0, 300, 0, 0]);
    assert_eq!(aggregate_action_degrees(0, 5), vec![0, 0, 0, 0]);
    assert_eq!(aggregate_action_degrees(60, 0), vec![0, 0, 0, 0]);
    assert_eq!(aggregate_action_degrees(20, 2), vec![300, 0, 0, 0]);
}

#[test]
fn few_pedestrians_only_fire_no_extension() {
    for x in -3..=30 {
        for y in -3..=25 {
            let d = aggregate_action_degrees(x, y);
            assert_eq!(&d[1..], &[0, 0, 0]);
        }
    }
}
