use canvas_shell::rat::{
    frac_diff, frac_eq_value, frac_is_pos, frac_of_i64, frac_opp, frac_prod, frac_recip, frac_sum,
    Frac,
};

fn fr(num: i128, den: i128) -> Frac {
    Frac { num, den }
}

#[test]
fn exact_sum_diff_prod() {
    assert_eq!(frac_sum(&fr(1, 2), &fr(1, 3)), Some(fr(5, 6)));
    assert_eq!(frac_diff(&fr(1, 2), &fr(1, 3)), Some(fr(1, 6)));
    assert_eq!(frac_prod(&fr(2, 3), &fr(9, 4)), Some(fr(18, 12)));
    assert_eq!(frac_eq_value(&fr(18, 12), &fr(3, 2)), Some(true));
}

#[test]
fn sum_overflow_is_reported() {
    assert_eq!(frac_sum(&fr(i128::MAX, 1), &fr(i128::MAX, 1)), None);
    assert_eq!(frac_prod(&fr(i128::MAX, 1), &fr(2, 1)), None);
    assert_eq!(frac_prod(&fr(1, i128::MAX), &fr(1, 2)), None);
}

#[test]
fn recip_keeps_denominator_positive() {
    assert_eq!(frac_recip(&fr(3, 4)), fr(4, 3));
    assert_eq!(frac_recip(&fr(-3, 4)), fr(-4, 3));
}

#[test]
fn opp_and_sign() {
    assert_eq!(frac_opp(&fr(5, 7)), fr(-5, 7));
    assert!(frac_is_pos(&fr(1, 100)));
    assert!(!frac_is_pos(&fr(0, 1)));
    assert!(!frac_is_pos(&fr(-1, 100)));
}

#[test]
fn value_equality_ignores_representation() {
    assert_eq!(frac_eq_value(&fr(1, 2), &fr(2, 4)), Some(true));
    assert_eq!(frac_eq_value(&fr(1, 2), &fr(2, 3)), Some(false));
    assert_eq!(frac_of_i64(5), fr(5, 1));
    assert_eq!(frac_of_i64(-5), fr(-5, 1));
}
