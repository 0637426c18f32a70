use linspace::generator::fits_check;
use linspace::generator::linspace;
use linspace::generator::LinspaceError;
use linspace::rational::Rational;

fn rat(num: i64, den: i64) -> Rational {
    Rational::new(num, den)
}

#[test]
fn unit_interval_two_points() {
    let v = linspace(rat(0, 1), rat(1, 1), 2).unwrap();
    assert_eq!(v.len(), 2);
    assert!(v[0].same_value(&rat(0, 1)));
    assert!(v[1].same_value(&rat(1, 1)));
}

#[test]
fn symmetric_interval_three_points() {
    let v = linspace(rat(-5, 1), rat(5, 1), 3).unwrap();
    assert_eq!(v.len(), 3);
    assert!(v[0].same_value(&rat(-5, 1)));
    assert!(v[1].same_value(&rat(0, 1)));
    assert!(v[2].same_value(&rat(5, 1)));
}

#[test]
fn degenerate_equal_endpoints() {
    let v = linspace(rat(2, 1), rat(2, 1), 5).unwrap();
    assert_eq!(v.len(), 5);
    for s in &v {
        assert!(s.same_value(&rat(2, 1)));
    }
}

#[test]
fn negative_count_is_invalid() {
    let r = linspace(rat(0, 1), rat(1, 1), -1);
    assert!(matches!(r, Err(LinspaceError::InvalidArgument)));
}

#[test]
fn zero_and_one_counts_are_invalid() {
    let r0 = linspace(rat(0, 1), rat(1, 1), 0);
    assert!(matches!(r0, Err(LinspaceError::InvalidArgument)));
    let r1 = linspace(rat(0, 1), rat(1, 1), 1);
    assert!(matches!(r1, Err(LinspaceError::InvalidArgument)));
}

#[test]
fn length_matches_count() {
    let v = linspace(rat(1, 3), rat(7, 2), 9).unwrap();
    assert_eq!(v.len(), 9);
}

#[test]
fn endpoints_exact_for_fractions() {
    let v = linspace(rat(1, 3), rat(7, 2), 9).unwrap();
    assert!(v[0].same_value(&rat(1, 3)));
    assert!(v[8].same_value(&rat(7, 2)));
}

#[test]
fn monotone_non_decreasing_and_non_increasing() {
    let up = linspace(rat(0, 1), rat(1, 1), 7).unwrap();
    for i in 0..up.len() - 1 {
        assert!(up[i].le_value(&up[i + 1]));
    }
    let down = linspace(rat(5, 1), rat(-5, 1), 7).unwrap();
    for i in 0..down.len() - 1 {
        assert!(down[i + 1].le_value(&down[i]));
    }
}

#[test]
fn constant_step_quarters() {
    let v = linspace(rat(0, 1), rat(1, 1), 5).unwrap();
    let step = rat(1, 4);
    for i in 0..v.len() - 1 {
        assert_eq!(v[i + 1].denom(), v[i].denom());
        let diff = Rational::new(v[i + 1].numer() - v[i].numer(), v[i].denom());
        assert!(diff.same_value(&step));
    }
}

#[test]
fn repeated_calls_agree() {
    let v1 = linspace(rat(-3, 2), rat(9, 4), 11).unwrap();
    let v2 = linspace(rat(-3, 2), rat(9, 4), 11).unwrap();
    assert_eq!(v1.len(), v2.len());
    for i in 0..v1.len() {
        assert_eq!(v1[i].numer(), v2[i].numer());
        assert_eq!(v1[i].denom(), v2[i].denom());
    }
}

#[test]
fn midpoint_as_float() {
    let v = linspace(rat(0, 1), rat(1, 1), 3).unwrap();
    let mid = v[1].numer() as f64 / v[1].denom() as f64;
    assert_eq!(mid, 0.5);
}

#[test]
fn fits_check_agrees_with_success() {
    assert!(fits_check(&rat(0, 1), &rat(1, 1), 2));
    assert!(!fits_check(&rat(0, 1), &rat(1, 1), 1));
    assert!(!fits_check(&rat(0, 1), &rat(1, 1), -1));
    assert!(!fits_check(&rat(0, i64::MAX), &rat(1, i64::MAX), 3));
    assert!(!fits_check(&rat(i64::MAX, 1), &rat(i64::MIN, 1), 3));
    assert!(fits_check(&rat(-5, 1), &rat(5, 1), 1000));
}

#[test]
fn rational_values_compare_by_cross_multiplication() {
    let half = rat(1, 2);
    assert!(half.same_value(&rat(2, 4)));
    assert!(!half.same_value(&rat(3, 4)));
    assert!(half.le_value(&rat(3, 4)));
    assert!(!rat(3, 4).le_value(&half));
    assert_eq!(Rational::from_int(7).numer(), 7);
    assert_eq!(Rational::from_int(7).denom(), 1);
}
