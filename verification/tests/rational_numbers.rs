use web_spec::rational::{ratio_cmp, Rational};

#[test]
fn ratio_cmp_is_exact_without_overflow() {
    assert_eq!(ratio_cmp(1, 3, 1, 3), 0);
    assert_eq!(ratio_cmp(1, 3, 1, 2), -1);
    assert_eq!(ratio_cmp(2, 3, 1, 2), 1);
    // equal products that no machine multiplication could form
    let big = u128::MAX;
    assert_eq!(ratio_cmp(big, big, 1, 1), 0);
    assert_eq!(ratio_cmp(big, 1, big, 1), 0);
    assert_eq!(ratio_cmp(big - 1, big, big, big), -1);
    assert_eq!(ratio_cmp(big, big - 1, 1, 1), 1);
}

#[test]
fn signed_comparison_handles_sign_cases() {
    let pos = Rational { neg: false, num: 1, den: 2 };
    let negv = Rational { neg: true, num: 1, den: 2 };
    let zero = Rational { neg: false, num: 0, den: 1 };
    let neg_zero = Rational { neg: true, num: 0, den: 5 };
    assert_eq!(negv.cmp(&pos), -1);
    assert_eq!(pos.cmp(&negv), 1);
    assert_eq!(zero.cmp(&neg_zero), 0);
    assert!(negv.lt(&zero));
    assert!(pos.eq(&Rational { neg: false, num: 2, den: 4 }));
}

#[test]
fn from_milli_scales_thousandths() {
    let v = Rational::from_milli(false, 256500);
    assert!(v.eq(&Rational { neg: false, num: 513, den: 2 }));
}
