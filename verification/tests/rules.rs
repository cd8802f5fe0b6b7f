use mithaq::bytes::bytes_equal;
use mithaq::events::Imprint;
use mithaq::party::Party;
use mithaq::rules::{
    checked_next_reputation, checked_percent_of, checked_utilization, max_ltv_percent, penalty_terms,
    platform_fee_percent, split_forfeiture,
};
use mithaq::tag::Tag;

#[test]
fn platform_fee_by_reputation_and_liquidity() {
    assert_eq!(platform_fee_percent(0, 5000), 4);
    assert_eq!(platform_fee_percent(19, 5000), 4);
    assert_eq!(platform_fee_percent(20, 5000), 2);
    assert_eq!(platform_fee_percent(99, 5000), 2);
    assert_eq!(platform_fee_percent(100, 5000), 1);
    assert_eq!(platform_fee_percent(0, 1999), 9);
    assert_eq!(platform_fee_percent(100, 1000), 6);
    assert_eq!(platform_fee_percent(0, 2000), 4);
    assert_eq!(platform_fee_percent(0, 8000), 4);
    assert_eq!(platform_fee_percent(0, 8001), 0);
    assert_eq!(platform_fee_percent(100, 9000), 0);
}

#[test]
fn loan_to_value_tiers() {
    assert_eq!(max_ltv_percent(79), None);
    assert_eq!(max_ltv_percent(80), Some(50));
    assert_eq!(max_ltv_percent(89), Some(50));
    assert_eq!(max_ltv_percent(90), Some(75));
    assert_eq!(max_ltv_percent(95), Some(95));
    assert_eq!(max_ltv_percent(1000), Some(95));
}

#[test]
fn forfeiture_split_50_40_10() {
    assert_eq!(split_forfeiture(1000), (500, 400, 100));
    assert_eq!(split_forfeiture(1), (0, 0, 1));
    assert_eq!(split_forfeiture(7), (3, 2, 2));
    let (p, r, d) = split_forfeiture(123_457);
    assert_eq!(p + r + d, 123_457);
    assert!(d >= 123_457 / 10);
}

#[test]
fn percentages_round_toward_zero() {
    assert_eq!(checked_percent_of(600, 4), Some(24));
    assert_eq!(checked_percent_of(99, 4), Some(3));
    assert_eq!(checked_percent_of(-7, 50), Some(-3));
    assert_eq!(checked_percent_of(i128::MAX, 2), None);
}

#[test]
fn utilization_in_basis_points() {
    assert_eq!(checked_utilization(300, 1000), Some(3000));
    assert_eq!(checked_utilization(300, 0), Some(0));
    assert_eq!(checked_utilization(300, -5), Some(0));
    assert_eq!(checked_utilization(i128::MAX, 1), None);
    assert_eq!(checked_utilization(i128::MAX, 0), Some(0));
}

#[test]
fn reputation_is_floored_at_zero() {
    assert_eq!(checked_next_reputation(5, -10), Some(0));
    assert_eq!(checked_next_reputation(5, 2), Some(7));
    assert_eq!(checked_next_reputation(i128::MAX, 2), None);
}

#[test]
fn penalty_terms_by_tag() {
    assert_eq!(penalty_terms(&Tag::new(b"FRAU".to_vec())), (-10, 50));
    assert_eq!(penalty_terms(&Tag::new(b"BREA".to_vec())), (-5, 20));
    assert_eq!(penalty_terms(&Tag::new(b"NEGL".to_vec())), (-2, 0));
    assert_eq!(penalty_terms(&Tag::new(b"OTHER".to_vec())), (-2, 0));
}

#[test]
fn texts_compare_by_content() {
    assert!(bytes_equal(&b"abc".to_vec(), &b"abc".to_vec()));
    assert!(!bytes_equal(&b"abc".to_vec(), &b"abd".to_vec()));
    assert!(!bytes_equal(&b"abc".to_vec(), &b"ab".to_vec()));
    assert!(Party::new(b"G1".to_vec()).same_as(&Party::new(b"G1".to_vec())));
    assert!(!Party::new(b"G1".to_vec()).same_as(&Party::new(b"G2".to_vec())));
    assert_eq!(Tag::construction().text, b"CONS".to_vec());
    assert_eq!(Tag::tuition().text, b"TUIT".to_vec());
    assert_eq!(Tag::reputation_lending().text, b"REPL".to_vec());
    assert_eq!(Tag::force_majeure().text, b"FORCE_MAJ".to_vec());
    assert_eq!(Tag::mutual().text, b"MUTUAL".to_vec());
    assert_eq!(Imprint::AutoVerified.text(), "Mithaq Auto-Verified");
}
