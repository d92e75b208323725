use bombuscv_display::numeral::Numeral;

#[test]
fn numeral_is_shown_as_it_was_written() {
    for text in [
        "54.8", "21.3", "21.0", "0", "100", "-12.05", "+007.50", "-.5", "5.", "-0", "0.000",
        "1e3", "1E3", "2.5e-3", "+1.e+10", ".5E0", "inf", "-inf", "+Infinity", "INFINITY", "nan",
        "NaN", "-NAN",
    ] {
        assert_eq!(Numeral::parse(text).unwrap().to_text(), text);
    }
}

#[test]
fn numeral_of_any_length_is_kept() {
    let long = "123456789012345678901234567890.000000000000000000000000000001";
    assert_eq!(Numeral::parse(long).unwrap().to_text(), long);
}

#[test]
fn numeral_rejects_what_is_no_number() {
    for text in [
        "", ".", "-", "+", "-.", "1.2.3", "1,2", " 1", "1 ", "abc", "+-1", "1-", "e5", "1e",
        "1e+", "1e5e5", "1e5.5", ".e5", "in", "infinit", "infinityy", "na", "nane", "i nf",
        "1\u{660}", "\u{130}nf", "0x10", "1_000", "1f32",
    ] {
        assert!(Numeral::parse(text).is_none(), "{:?}", text);
    }
}

#[test]
fn numeral_is_what_parses_as_a_float() {
    for text in [
        "", "0", "-0", "+0", "1", "1.", ".1", ".", "1.5", "-1.5", "+1.5", "1e5", "1E5", "1e+5",
        "1e-5", "1e", "e1", "1.e1", ".1e1", ".e1", "1e1.5", "1e1e1", "--1", "+-1", "1+", "inf",
        "Inf", "iNf", "-inf", "+inf", "infinity", "INFINITY", "infinit", "nan", "NaN", "-nan",
        "+NAN", "nan ", " nan", "1,5", "1 5", "0x1p3", "1_0", "12abc", "abc", "1d", "1f",
        "1e999999999999999999999", "0.000000000000000000000000000000000000000000000001",
        "99999999999999999999999999999999999999999999999999", "٣", "１", "e", "E", "+", "-", "+.",
        "+.e1", "5.e", "infinityinf", "naninf", "1.2.3", "..1", "1..", "+e1", "1e+-1",
    ] {
        assert_eq!(
            Numeral::parse(text).is_some(),
            text.parse::<f32>().is_ok(),
            "{:?}",
            text
        );
    }
}

#[test]
fn numeral_zero_is_shown_with_one_decimal() {
    assert_eq!(Numeral::zero().to_text(), "0.0");
    assert_eq!(Numeral::zero(), Numeral::parse("0.0").unwrap());
    assert_eq!(Numeral::zero().clone(), Numeral::zero());
}
