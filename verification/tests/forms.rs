use route_handlers::forms::AdultAge;
use route_handlers::forms::Person;
use route_handlers::forms::ADULT_MIN;

#[test]
fn adult_age_accepts_twenty_one_and_up() {
    match AdultAge::from_form_value("21") {
        Ok(a) => assert_eq!(a.0, 21),
        Err(_) => panic!("21 must be accepted"),
    }
    match AdultAge::from_form_value("99") {
        Ok(a) => assert_eq!(a.0, 99),
        Err(_) => panic!("99 must be accepted"),
    }
    match AdultAge::from_form_value("+30") {
        Ok(a) => assert_eq!(a.0, 30),
        Err(_) => panic!("+30 must be accepted"),
    }
}

#[test]
fn adult_age_rejects_minors_with_input_unchanged() {
    match AdultAge::from_form_value("20") {
        Ok(_) => panic!("20 must be rejected"),
        Err(e) => assert_eq!(e, "20"),
    }
    match AdultAge::from_form_value("0") {
        Ok(_) => panic!("0 must be rejected"),
        Err(e) => assert_eq!(e, "0"),
    }
}

#[test]
fn adult_age_rejects_non_numbers_with_input_unchanged() {
    for s in ["", "abc", "-21", "2 1", "21.0", "twenty-one"] {
        match AdultAge::from_form_value(s) {
            Ok(_) => panic!("{:?} must be rejected", s),
            Err(e) => assert_eq!(e, s),
        }
    }
}

#[test]
fn adult_age_rejects_overflowing_numbers() {
    match AdultAge::from_form_value("18446744073709551616") {
        Ok(_) => panic!("an overflowing value must be rejected"),
        Err(e) => assert_eq!(e, "18446744073709551616"),
    }
}

#[test]
fn adult_age_threshold_matches_constant() {
    assert_eq!(ADULT_MIN, 21);
    assert!(AdultAge::from_form_value("21").is_ok());
    assert!(AdultAge::from_form_value("20").is_err());
}

#[test]
fn person_holds_checked_age() {
    let age = AdultAge::from_form_value("34").unwrap_or(AdultAge(21));
    let p = Person { age };
    assert_eq!(p.age.0, 34);
}
