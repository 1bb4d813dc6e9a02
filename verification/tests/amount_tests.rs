use folio_bank::amount::Amount;

fn shown(s: &str) -> String {
    Amount::from_text(s).unwrap().to_display_string()
}

#[test]
fn overflow_follows_float_rounding() {
    for s in [
        "2e308",
        "1.7976931348623159e308",
        "179769313486231580793728971405303415079934132710037826936173778980444968292764750946649017977587207096330286416692887910946555547851940402630657488671505820681908902000708383676273854845817711531764475730270069855571366959622842914819860834936475292719074168444365510704342711559699508093042880177904174497792",
        "-1e400",
    ] {
        let a = Amount::from_text(s).unwrap();
        assert!(!a.is_finite(), "{}", s);
        assert_eq!(shown(s).parse::<f64>().unwrap(), s.parse::<f64>().unwrap());
    }
    for s in [
        "1.7976931348623157e308",
        "179769313486231580793728971405303415079934132710037826936173778980444968292764750946649017977587207096330286416692887910946555547851940402630657488671505820681908902000708383676273854845817711531764475730270069855571366959622842914819860834936475292719074168444365510704342711559699508093042880177904174497791",
    ] {
        let a = Amount::from_text(s).unwrap();
        assert!(a.is_finite(), "{}", s);
        assert!(shown(s).parse::<f64>().unwrap().is_finite());
    }
}

#[test]
fn underflow_follows_float_rounding() {
    for s in ["1e-324", "2.4703282292062327e-324", "-2e-400"] {
        let a = Amount::from_text(s).unwrap();
        assert!(a.is_zero(), "{}", s);
        assert_eq!(s.parse::<f64>().unwrap(), 0.0);
    }
    for s in ["2.4703282292062328e-324", "5e-324", "1e-323"] {
        let a = Amount::from_text(s).unwrap();
        assert!(!a.is_zero(), "{}", s);
        assert!(s.parse::<f64>().unwrap() != 0.0);
    }
}

#[test]
fn two_decimals_match_float_for_values_a_float_holds() {
    for x in [0.125f64, 0.375, 0.625, 0.875, 1.125, -2.375, 12.5, 1234.56, -42.5, 0.0] {
        let a = Amount::from_text(&format!("{:.800e}", x)).unwrap();
        assert_eq!(a.to_fixed2_string(), format!("{:.2}", x), "{}", x);
    }
}

#[test]
fn two_decimals_of_the_exact_decimal() {
    assert_eq!(Amount::from_text("1.015").unwrap().to_fixed2_string(), "1.02");
    assert_eq!(Amount::from_text("1.025").unwrap().to_fixed2_string(), "1.02");
    assert_eq!(Amount::from_text("-0.005").unwrap().to_fixed2_string(), "-0.00");
}
