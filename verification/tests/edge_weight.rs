use managers_template::EdgeWeight;

#[test]
fn parse_takes_decimal_numbers() {
    for text in [
        "0",
        "2",
        "10",
        "007",
        "2.5",
        "0.1",
        "10.25",
        "-1",
        "-0",
        "-0.125",
        "340282350000000000000000000000000000000",
        "0.000000000000000000000000000000000000000000001",
    ] {
        let weight = EdgeWeight::parse(text);
        assert_eq!(weight.as_ref().map(|w| w.as_str()), Some(text));
        assert_eq!(weight.unwrap().clone().as_str(), text);
    }
}

#[test]
fn parse_refuses_what_is_no_decimal_number() {
    for text in [
        "", "-", ".", ".5", "2.", "-.5", "-2.", "2..5", "2.5.1", "1e3", "1E3", "+1", "--1", "1-",
        " 1", "1 ", "1,5", "NaN", "inf", "-inf", "0x10", "2.5f", "２", "1\n", "1\"", "1, color=red",
    ] {
        assert!(EdgeWeight::parse(text).is_none(), "{:?}", text);
    }
}

#[test]
fn parse_takes_every_finite_float_as_rust_prints_it() {
    for value in [0.0f32, 1.0, 2.5, -0.5, 0.1, 1e-7, 3.4e38, f32::MIN_POSITIVE, f32::MAX, f32::MIN] {
        let text = value.to_string();
        let weight = EdgeWeight::parse(&text).unwrap();
        assert_eq!(weight.as_str(), text);
        assert_eq!(weight.as_str().parse::<f32>().unwrap(), value);
    }
    assert!(EdgeWeight::parse(&f32::NAN.to_string()).is_none());
    assert!(EdgeWeight::parse(&f32::INFINITY.to_string()).is_none());
    assert!(EdgeWeight::parse(&f32::NEG_INFINITY.to_string()).is_none());
}

#[test]
fn whole_numbers() {
    for n in [0u32, 1, 9, 10, 99, 100, 12345, u32::MAX] {
        assert_eq!(EdgeWeight::whole(n).as_str(), n.to_string());
    }
}
