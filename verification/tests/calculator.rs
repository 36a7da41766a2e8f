use wlaunch::calc::Calculator;
use wlaunch::format::format_rat;
use wlaunch::rat::Rat;

fn ev(calc: &Calculator, expr: &str) -> Option<f64> {
    calc.evaluate(expr).map(|r| r.num as f64 / r.den as f64)
}

#[test]
fn test_basic_operations() {
    let calc = Calculator::new();
    assert_eq!(ev(&calc, "2 + 2"), Some(4.0));
    assert_eq!(ev(&calc, "10 - 3"), Some(7.0));
    assert_eq!(ev(&calc, "4 * 5"), Some(20.0));
    assert_eq!(ev(&calc, "20 / 4"), Some(5.0));
}

#[test]
fn test_order_of_operations() {
    let calc = Calculator::new();
    assert_eq!(ev(&calc, "2 + 3 * 4"), Some(14.0));
    assert_eq!(ev(&calc, "(2 + 3) * 4"), Some(20.0));
}

#[test]
fn test_power() {
    let calc = Calculator::new();
    assert_eq!(ev(&calc, "2 ** 3"), Some(8.0));
    assert_eq!(ev(&calc, "2^3"), Some(8.0));
}

#[test]
fn test_power_right_associative() {
    let calc = Calculator::new();
    assert_eq!(ev(&calc, "2**3**2"), Some(512.0));
}

#[test]
fn test_division_by_zero() {
    let calc = Calculator::new();
    assert_eq!(calc.evaluate("5/0"), None);
    assert_eq!(calc.evaluate("5%0"), None);
}

#[test]
fn test_modulo() {
    let calc = Calculator::new();
    assert_eq!(ev(&calc, "10 % 3"), Some(1.0));
    assert_eq!(ev(&calc, "-7 % 2"), Some(-1.0));
}

#[test]
fn test_unary_signs() {
    let calc = Calculator::new();
    assert_eq!(ev(&calc, "-5"), Some(-5.0));
    assert_eq!(ev(&calc, "--5"), Some(5.0));
    assert_eq!(ev(&calc, "---5"), Some(-5.0));
    assert_eq!(ev(&calc, "+5"), Some(5.0));
    assert_eq!(ev(&calc, "3+-2"), Some(1.0));
}

#[test]
fn test_fractions() {
    let calc = Calculator::new();
    assert_eq!(calc.evaluate("1/2"), Some(Rat { num: 1, den: 2 }));
    assert_eq!(calc.evaluate("0.25 + 0.25"), Some(Rat { num: 1, den: 2 }));
    assert_eq!(ev(&calc, "1/4 + 1/4"), Some(0.5));
}

#[test]
fn test_functions() {
    let calc = Calculator::new();
    assert_eq!(ev(&calc, "sqrt(16)"), Some(4.0));
    assert_eq!(ev(&calc, "sqrt(2.25)"), Some(1.5));
    assert_eq!(ev(&calc, "abs(-3)"), Some(3.0));
    assert_eq!(ev(&calc, "floor(2.7)"), Some(2.0));
    assert_eq!(ev(&calc, "floor(-2.5)"), Some(-3.0));
    assert_eq!(ev(&calc, "ceil(2.1)"), Some(3.0));
    assert_eq!(ev(&calc, "round(2.5)"), Some(3.0));
    assert_eq!(ev(&calc, "round(-2.5)"), Some(-3.0));
    assert_eq!(ev(&calc, "log(1000)"), Some(3.0));
    assert_eq!(ev(&calc, "log(0.01)"), Some(-2.0));
    assert_eq!(ev(&calc, "ln(1)"), Some(0.0));
    assert_eq!(ev(&calc, "sin(0)"), Some(0.0));
    assert_eq!(ev(&calc, "cos(0)"), Some(1.0));
    assert_eq!(ev(&calc, "tan(0)"), Some(0.0));
    assert_eq!(ev(&calc, "SQRT(9)"), Some(3.0));
    assert_eq!(ev(&calc, "sin(2+3-5)"), Some(0.0));
}

#[test]
fn test_constants() {
    let calc = Calculator::new();
    let pi = ev(&calc, "pi").unwrap();
    assert!((pi - std::f64::consts::PI).abs() < 1e-9);
    let e = ev(&calc, "e").unwrap();
    assert!((e - std::f64::consts::E).abs() < 1e-9);
    let tau = ev(&calc, "2*pi").unwrap();
    assert!((tau - 2.0 * std::f64::consts::PI).abs() < 1e-9);
}

#[test]
fn test_glyphs() {
    let calc = Calculator::new();
    assert_eq!(ev(&calc, "6x7"), Some(42.0));
    assert_eq!(ev(&calc, "6×7"), Some(42.0));
    assert_eq!(ev(&calc, "8÷2"), Some(4.0));
}

#[test]
fn test_malformed() {
    let calc = Calculator::new();
    assert_eq!(calc.evaluate(""), None);
    assert_eq!(calc.evaluate("("), None);
    assert_eq!(calc.evaluate("2+"), None);
    assert_eq!(calc.evaluate("abc"), None);
    assert_eq!(calc.evaluate("2+3)"), None);
    assert_eq!(calc.evaluate("(2+3"), None);
    assert_eq!(calc.evaluate("sqrt("), None);
    assert_eq!(calc.evaluate("1..2"), None);
}

#[test]
fn test_format_rat() {
    assert_eq!(format_rat(Rat { num: 42, den: 1 }, 6), "42");
    assert_eq!(format_rat(Rat { num: -42, den: 1 }, 6), "-42");
    assert_eq!(format_rat(Rat { num: 1, den: 2 }, 6), "0.5");
    assert_eq!(format_rat(Rat { num: -7, den: 2 }, 6), "-3.5");
    assert_eq!(format_rat(Rat { num: 1, den: 3 }, 6), "0.333333");
    assert_eq!(format_rat(Rat { num: 1, den: 3 }, 4), "0.3333");
    assert_eq!(format_rat(Rat { num: 2, den: 3 }, 6), "0.666667");
}

#[test]
fn test_format_evaluate_round_trip() {
    let calc = Calculator::new();
    for expr in ["2+2", "10*10-1", "-(2+3)", "7%3", "1/2", "3/4+1/4", "0.125*8"] {
        let v = calc.evaluate(expr).unwrap();
        let rendered = format_rat(v, 6);
        assert_eq!(calc.evaluate(&rendered), Some(v), "round trip failed for {expr}");
    }
}

#[test]
fn test_get_items() {
    let calc = Calculator::new();
    let items = calc.get_items("2+2");
    assert_eq!(items.len(), 1);
    assert_eq!(items[0].name, "2+2 = 4");
    assert_eq!(items[0].id, "calc:4");
    assert_eq!(items[0].metadata.content.as_deref(), Some("4"));
    assert!(calc.get_items("").is_empty());
    assert!(calc.get_items("nonsense").is_empty());
}
