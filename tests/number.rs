use wind_shadow_launcher::number::{check_number, check_positive, decimal_string, Decimal};

#[test]
fn numbers_accepted() {
    for s in ["0", "10", "-1.5", "+3", "1.", ".5", "1e5", "1E+5", "2.5e-3", "500100.25"] {
        assert!(check_number(s), "{}", s);
    }
}

#[test]
fn numbers_refused() {
    for s in ["", ".", "-", "abc", "1e", "1e+", "inf", "NaN", " 1", "1 ", "1,5", "1.2.3", "--1", "e5"] {
        assert!(!check_number(s), "{}", s);
    }
}

#[test]
fn decimal_keeps_text() {
    let d = Decimal::parse("-12.50").unwrap();
    assert_eq!(d.text(), "-12.50");
    assert!(Decimal::parse("x").is_none());
}

#[test]
fn positive_numbers() {
    for s in ["1", "0.5", "+2", "10", "1e-3", "0001"] {
        assert!(check_positive(s), "{}", s);
    }
    for s in ["0", "-1", "0.0", "0e5", "-0.5", "00", "x", ""] {
        assert!(!check_positive(s), "{}", s);
    }
}

#[test]
fn decimal_strings() {
    assert_eq!(decimal_string(0), "0");
    assert_eq!(decimal_string(7), "7");
    assert_eq!(decimal_string(10), "10");
    assert_eq!(decimal_string(4096), "4096");
    assert_eq!(decimal_string(usize::MAX), usize::MAX.to_string());
}
