use plotly::common::Dim;
use plotly::encode::Encode;
use serde_json::{Number, Value};

#[test]
fn whole_numbers_keep_their_value() {
    assert_eq!((-7i32).to_value(), Value::from(-7));
    assert_eq!(i32::MIN.to_value(), Value::from(-2147483648i64));
    assert_eq!(i64::MIN.to_value(), Value::from(i64::MIN));
    assert_eq!(i64::MAX.to_value(), Value::from(i64::MAX));
    assert_eq!(u32::MAX.to_value(), Value::from(4294967295u64));
    assert_eq!(u64::MAX.to_value(), Value::from(u64::MAX));
    assert_eq!(0usize.to_value(), Value::from(0));
    assert_eq!(usize::MAX.to_value(), Value::from(usize::MAX));
    assert_eq!(5i64.to_value(), 5u64.to_value());
}

#[test]
fn truth_values_keep_their_value() {
    assert_eq!(true.to_value(), Value::Bool(true));
    assert_eq!(false.to_value(), Value::Bool(false));
}

#[test]
fn strings_keep_their_text() {
    assert_eq!("bar".to_value(), Value::String("bar".to_string()));
    assert_eq!(String::from("").to_value(), Value::String(String::new()));
    assert_eq!("1".to_value().as_str(), Some("1"));
}

#[test]
fn numbers_are_carried_through() {
    let half = Number::from_f64(0.5).unwrap();
    assert_eq!(half.to_value(), Value::Number(half.clone()));
    assert_eq!(half.to_value().to_string(), "0.5");
    assert_eq!(Number::from(3).to_value().to_string(), "3");
}

#[test]
fn lists_keep_their_order() {
    assert_eq!(vec![3, 1, 2].to_value().to_string(), "[3,1,2]");
    assert_eq!(Vec::<i32>::new().to_value(), Value::Array(vec![]));
    assert_eq!(vec![vec!["a"], vec![]].to_value().to_string(), "[[\"a\"],[]]");
}

#[test]
fn a_dimension_is_bare_or_an_array() {
    assert_eq!(Dim::Scalar(4u64).to_value(), Value::from(4));
    assert_eq!(Dim::Vector(vec![4u64]).to_value().to_string(), "[4]");
    assert_eq!(Dim::Vector(Vec::<u64>::new()).to_value().to_string(), "[]");
}
