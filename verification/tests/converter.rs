use wlaunch::convert::Converter;
use wlaunch::rat::Rat;

fn f(r: Rat) -> f64 {
    r.num as f64 / r.den as f64
}

#[test]
fn test_length_conversion() {
    let conv = Converter::new();
    let result = conv.convert(Rat { num: 1, den: 1 }, "km", "m");
    assert_eq!(result.map(f), Some(1000.0));
}

#[test]
fn test_temperature_conversion() {
    let conv = Converter::new();
    let result = conv.convert(Rat { num: 100, den: 1 }, "c", "f");
    assert!((result.map(f).unwrap() - 212.0).abs() < 0.001);
}

#[test]
fn test_resolve_length() {
    let conv = Converter::new();
    let (v, from, to, r) = conv.resolve("1 km to m").unwrap();
    assert_eq!(f(v), 1.0);
    assert_eq!(from, "km");
    assert_eq!(to, "m");
    assert_eq!(f(r), 1000.0);
}

#[test]
fn test_resolve_temperature() {
    let conv = Converter::new();
    let (_, _, _, r) = conv.resolve("100 c to f").unwrap();
    assert!((f(r) - 212.0).abs() < 1e-6);
}

#[test]
fn test_cross_dimension_rejected() {
    let conv = Converter::new();
    assert_eq!(conv.resolve("1 km to g"), None);
    assert_eq!(conv.convert(Rat { num: 1, den: 1 }, "km", "g"), None);
    assert_eq!(conv.convert(Rat { num: 1, den: 1 }, "s", "byte"), None);
}

#[test]
fn test_unknown_units() {
    let conv = Converter::new();
    assert_eq!(conv.resolve("3 foo to bar"), None);
    assert_eq!(conv.convert(Rat { num: 3, den: 1 }, "foo", "bar"), None);
}

#[test]
fn test_weight_time_data() {
    let conv = Converter::new();
    let lb = conv.convert(Rat { num: 1, den: 1 }, "lb", "g").map(f).unwrap();
    assert!((lb - 453.592).abs() < 1e-9);
    assert_eq!(conv.convert(Rat { num: 2, den: 1 }, "h", "min").map(f), Some(120.0));
    assert_eq!(conv.convert(Rat { num: 1, den: 1 }, "kb", "b").map(f), Some(1024.0));
    assert_eq!(conv.convert(Rat { num: 1, den: 1 }, "mb", "kb").map(f), Some(1024.0));
    assert_eq!(conv.convert(Rat { num: 1, den: 1 }, "week", "day").map(f), Some(7.0));
}

#[test]
fn test_parse_variants() {
    let conv = Converter::new();
    assert!(conv.resolve("100km in miles").is_some());
    assert!(conv.resolve("2.5m to cm").is_some());
    let (v, from, to, r) = conv.resolve("please 3 kg in g now").unwrap();
    assert_eq!(f(v), 3.0);
    assert_eq!(from, "kg");
    assert_eq!(to, "g");
    assert_eq!(f(r), 3000.0);
    assert_eq!(conv.resolve("km to m"), None);
    assert_eq!(conv.resolve("5 km to 10 m"), None);
}

#[test]
fn test_kelvin() {
    let conv = Converter::new();
    let k = conv.convert(Rat { num: 0, den: 1 }, "c", "kelvin").map(f).unwrap();
    assert!((k - 273.15).abs() < 1e-9);
    let c = conv.convert(Rat { num: 27315, den: 100 }, "k", "c").map(f).unwrap();
    assert!(c.abs() < 1e-9);
}

#[test]
fn test_converter_items() {
    let conv = Converter::new();
    let items = conv.get_items("1 km to m");
    assert_eq!(items.len(), 1);
    assert_eq!(items[0].name, "1 km = 1000 m");
    assert_eq!(items[0].metadata.content.as_deref(), Some("1000"));
    assert!(conv.get_items("no conversion here").is_empty());
}
