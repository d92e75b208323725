use bombuscv_display::numeral::Numeral;
use bombuscv_display::{ErrorKind, Input, Measure};

fn number(text: &str) -> Numeral {
    Numeral::parse(text).unwrap()
}

#[test]
fn measure_from_well_formed_line() {
    let measure = Measure::from_csv("55.2,21.0").unwrap();
    assert_eq!(measure, Measure::new(number("55.2"), number("21.0")));
    assert_eq!(measure.to_text(), "H: 55.2% T: 21.0C");
    let measure = Measure::from_csv("54.8,21.3").unwrap();
    assert_eq!(measure, Measure::new(number("54.8"), number("21.3")));
    assert_eq!(measure.to_text(), "H: 54.8% T: 21.3C");
}

#[test]
fn measure_components_are_the_written_numbers() {
    let fields = [
        ("0", "0"),
        ("100", "-40.5"),
        ("+33.3", ".5"),
        ("7.", "-0"),
        ("007.50", "21.00"),
        ("5.52e1", "2.1E+1"),
        ("nan", "-inf"),
    ];
    for (humidity, temperature) in fields {
        let line = format!("{},{}", humidity, temperature);
        let measure = Measure::from_csv(&line).unwrap();
        assert_eq!(measure, Measure::new(number(humidity), number(temperature)));
        assert_eq!(measure.to_text(), format!("H: {}% T: {}C", humidity, temperature));
    }
}

#[test]
fn measure_shows_one_decimal_as_written() {
    assert_eq!(Measure::from_csv("45.6,19.9").unwrap().to_text(), "H: 45.6% T: 19.9C");
    assert_eq!(Measure::from_csv("99.9,-5.1").unwrap().to_text(), "H: 99.9% T: -5.1C");
    assert_eq!(Measure::from_csv("60.0,20.0").unwrap().to_text(), "H: 60.0% T: 20.0C");
    assert_eq!(Measure::from_csv("0.0,-0.0").unwrap().to_text(), "H: 0.0% T: -0.0C");
    for tenths in 0..1000 {
        let humidity = format!("{}.{}", tenths / 10, tenths % 10);
        let temperature = format!("-{}.{}", (999 - tenths) / 10, (999 - tenths) % 10);
        let line = format!("{},{}", humidity, temperature);
        assert_eq!(
            Measure::from_csv(&line).unwrap().to_text(),
            format!("H: {}% T: {}C", humidity, temperature)
        );
    }
}

#[test]
fn measure_built_from_two_numbers_shows_both_with_their_decimal() {
    let measure = Measure::new(number("55.2"), number("21.0"));
    assert_eq!(measure.to_text(), "H: 55.2% T: 21.0C");
}

#[test]
fn measure_line_is_what_parses_as_two_floats() {
    for line in [
        "55.2,21.0", "1e3,2", "nan,21.0", "inf,-inf", "1,2,3", "1", "", ",", "1,", ",1", "a,1",
        "1, 2", "1e,2", "1.5.5,2", "+1,-2", "1;2", "1,2\n", "Infinity,NaN",
    ] {
        let fields: Vec<&str> = line.split(',').collect();
        let floats = fields.len() == 2 && fields.iter().all(|field| field.parse::<f32>().is_ok());
        assert_eq!(Measure::from_csv(line).is_ok(), floats, "{:?}", line);
    }
}

#[test]
fn measure_rejects_wrong_field_count() {
    assert_eq!(Measure::from_csv("55.2"), Err(ErrorKind::InvalidInputFormat));
    assert_eq!(Measure::from_csv("55.2,21.0,1"), Err(ErrorKind::InvalidInputFormat));
    assert_eq!(Measure::from_csv("55.2,21.0,"), Err(ErrorKind::InvalidInputFormat));
    assert_eq!(Measure::from_csv(","), Err(ErrorKind::InvalidInputFormat));
    assert_eq!(Measure::from_csv("55.2,"), Err(ErrorKind::InvalidInputFormat));
    assert_eq!(Measure::from_csv(",21.0"), Err(ErrorKind::InvalidInputFormat));
}

#[test]
fn measure_rejects_non_numeric_field() {
    assert_eq!(Measure::from_csv("abc,21.0"), Err(ErrorKind::InvalidInputFormat));
    assert_eq!(Measure::from_csv("55.2,abc"), Err(ErrorKind::InvalidInputFormat));
    assert_eq!(Measure::from_csv("55.2, 21.0"), Err(ErrorKind::InvalidInputFormat));
    assert_eq!(Measure::from_csv("55,2;21,0"), Err(ErrorKind::InvalidInputFormat));
    assert_eq!(Measure::from_csv("55.2,21.0\n"), Err(ErrorKind::InvalidInputFormat));
    assert_eq!(Measure::from_csv("5\u{b0},21.0"), Err(ErrorKind::InvalidInputFormat));
}

#[test]
fn measure_rejects_empty_line() {
    assert_eq!(Measure::from_csv(""), Err(ErrorKind::InvalidInputFormat));
}

#[test]
fn measure_default_is_zero() {
    assert_eq!(Measure::default(), Measure::new(Numeral::zero(), Numeral::zero()));
    assert_eq!(Measure::default().to_text(), "H: 0.0% T: 0.0C");
}

#[test]
fn measure_from_array_takes_humidity_first() {
    let measure = Measure::from_array([number("55.2"), number("21.3")]);
    assert_eq!(measure, Measure::new(number("55.2"), number("21.3")));
    assert_eq!(measure.to_text(), "H: 55.2% T: 21.3C");
}

#[test]
fn input_from_well_formed_line() {
    let input = Input::from_csv("55.2,21.3,true").unwrap();
    assert_eq!(input, Input::new(Measure::new(number("55.2"), number("21.3")), true));
    assert!(input.csv);
    let input = Input::from_csv("55.2,21.3,false").unwrap();
    assert_eq!(input.measure.to_text(), "H: 55.2% T: 21.3C");
    assert!(!input.csv);
}

#[test]
fn input_rejects_malformed_line() {
    assert_eq!(Input::from_csv(""), Err(ErrorKind::InvalidInputFormat));
    assert_eq!(Input::from_csv("55.2,21.3"), Err(ErrorKind::InvalidInputFormat));
    assert_eq!(Input::from_csv("55.2,21.3,"), Err(ErrorKind::InvalidInputFormat));
    assert_eq!(Input::from_csv("55.2,21.3,yes"), Err(ErrorKind::InvalidInputFormat));
    assert_eq!(Input::from_csv("55.2,21.3,True"), Err(ErrorKind::InvalidInputFormat));
    assert_eq!(Input::from_csv("55.2,21.3,true,"), Err(ErrorKind::InvalidInputFormat));
    assert_eq!(Input::from_csv("55.2,x,true"), Err(ErrorKind::InvalidInputFormat));
    assert_eq!(Input::from_csv("x,21.3,false"), Err(ErrorKind::InvalidInputFormat));
}
