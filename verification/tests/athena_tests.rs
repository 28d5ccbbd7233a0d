use athena::bits::to_bits;
use athena::client::{Attributes, TargetRange};
use athena::common_reference::{
    check_comparator, comparator_assignments, comparator_inputs, COMPARATOR_TRIALS,
};
use athena::field::{collect_bits_as_field, Z251};
use athena::zero_lib;
use athena::zero_lib::IntoInnerField as Infallible;
use athena::zero_orb;
use athena::zero_orb::IntoInnerField as Fallible;

fn z(values: &[u8]) -> Vec<Z251> {
    values.iter().map(|&v| Z251 { inner: v }).collect()
}

fn recompose(bits: &[u8]) -> u32 {
    bits.iter().enumerate().map(|(i, &b)| (b as u32) << i).sum()
}

#[test]
fn to_bits_examples() {
    assert_eq!(to_bits(0), [0; 8]);
    assert_eq!(to_bits(1), [1, 0, 0, 0, 0, 0, 0, 0]);
    assert_eq!(to_bits(2), [0, 1, 0, 0, 0, 0, 0, 0]);
    assert_eq!(to_bits(10), [0, 1, 0, 1, 0, 0, 0, 0]);
    assert_eq!(to_bits(128), [0, 0, 0, 0, 0, 0, 0, 1]);
    assert_eq!(to_bits(255), [1; 8]);
}

#[test]
fn to_bits_of_clients() {
    assert_eq!(TargetRange::to_bits(5), [1, 0, 1, 0, 0, 0, 0, 0]);
    assert_eq!(Attributes::to_bits(15), [1, 1, 1, 1, 0, 0, 0, 0]);
    assert_eq!(TargetRange::to_bits(200), Attributes::to_bits(200));
}

#[test]
fn to_bits_round_trip_every_byte() {
    for n in 0..=255u8 {
        let bits = to_bits(n);
        assert!(bits.iter().all(|&b| b <= 1));
        assert_eq!(recompose(&bits), n as u32);
    }
}

#[test]
fn target_range_new_keeps_bounds() {
    let r = TargetRange::new(18, 65);
    assert_eq!(r.lower, 18);
    assert_eq!(r.upper, 65);
}

#[test]
fn attributes_new_keeps_fields() {
    let a = Attributes::new(30, 80, 110);
    assert_eq!(a.age, 30);
    assert_eq!(a.health_rating, 80);
    assert_eq!(a.credit_score, 110);
}

#[test]
fn target_range_new_random_within_bounds() {
    for _ in 0..200 {
        let r = TargetRange::new_random([10, 20], [100, 101]);
        assert!(10 <= r.lower && r.lower < 20);
        assert_eq!(r.upper, 100);
    }
}

#[test]
fn attributes_new_random_within_bounds() {
    for _ in 0..200 {
        let a = Attributes::new_random();
        assert!(18 <= a.age && a.age < 85);
        assert!(30 <= a.health_rating && a.health_rating < 100);
        assert!(30 <= a.credit_score && a.credit_score < 120);
    }
}

#[test]
fn collect_as_field_spreads_bits() {
    assert_eq!(Infallible::collect_as_field(vec![10u8]), z(&[0, 1, 0, 1, 0, 0, 0, 0]));
    assert_eq!(
        Infallible::collect_as_field(vec![1u8, 2]),
        z(&[1, 0, 0, 0, 0, 0, 0, 0, 0, 1, 0, 0, 0, 0, 0, 0])
    );
    assert_eq!(Infallible::collect_as_field(Vec::<u8>::new()), Vec::<Z251>::new());
    assert_eq!(collect_bits_as_field(&vec![255u8]), z(&[1; 8]));
}

#[test]
fn collect_as_field_recovers_bytes() {
    let bytes: Vec<u8> = (0..=255u8).collect();
    let field = Infallible::collect_as_field(bytes.clone());
    assert_eq!(field.len(), 8 * bytes.len());
    for (i, chunk) in field.chunks(8).enumerate() {
        let bits: Vec<u8> = chunk.iter().map(|f| f.inner).collect();
        assert!(chunk.iter().all(|f| f.inner < 251));
        assert_eq!(recompose(&bits), bytes[i] as u32);
    }
}

#[test]
fn fallible_collect_as_field() {
    assert_eq!(Fallible::collect_as_field(vec![10u8]), Ok(z(&[0, 1, 0, 1, 0, 0, 0, 0])));
    assert_eq!(Fallible::collect_as_field(Some(vec![10u8])), Ok(z(&[0, 1, 0, 1, 0, 0, 0, 0])));
    assert_eq!(Fallible::collect_as_field(Some(Vec::<u8>::new())), Ok(Vec::new()));
    assert_eq!(Fallible::collect_as_field(None::<Vec<u8>>), Err(()));
}

#[test]
fn prover_assignments_concatenate() {
    let a = zero_lib::prover_assignments(vec![10], vec![5, 15]);
    assert_eq!(a, Infallible::collect_as_field(vec![10u8, 5, 15]));
    let b = zero_orb::prover_assignments(vec![10], vec![5, 15]);
    assert_eq!(a, b);
    assert_eq!(a.len(), 24);
}

#[test]
fn verifier_inputs_numbers_then_bits() {
    let mut expected = z(&[1, 0]);
    expected.extend(z(&[1, 0, 1, 0, 0, 0, 0, 0, 1, 1, 1, 1, 0, 0, 0, 0]));
    assert_eq!(zero_lib::verifier_inputs(vec![1, 0], vec![5, 15]), expected);
    assert_eq!(zero_orb::verifier_inputs(vec![1, 0], vec![5, 15]), expected);
    assert_eq!(zero_lib::verifier_inputs(vec![250], vec![]), z(&[250]));
}

#[test]
fn comparator_trial_values() {
    assert_eq!(
        comparator_assignments(),
        z(&[1, 0, 0, 0, 0, 0, 0, 0, 0, 1, 0, 0, 0, 0, 0, 0])
    );
    assert_eq!(comparator_inputs(), z(&[1, 0, 1, 0, 0, 0, 0, 0, 0]));
}

#[test]
fn check_comparator_needs_every_trial_rejected() {
    let all_rejected = vec![false; COMPARATOR_TRIALS];
    assert_eq!(check_comparator(&all_rejected), Ok(true));
    let mut one_accepted = vec![false; COMPARATOR_TRIALS];
    one_accepted[500] = true;
    assert_eq!(check_comparator(&one_accepted), Ok(false));
    assert_eq!(check_comparator(&vec![false; 10]), Ok(false));
    assert_eq!(check_comparator(&Vec::new()), Ok(false));
}

#[test]
fn from_usize_keeps_value() {
    assert_eq!(Z251::from_usize(0).inner, 0);
    assert_eq!(Z251::from_usize(250).inner, 250);
}
