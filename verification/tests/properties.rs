use plotly::common::{Font, Label, Marker, TextPosition, Visible};
use plotly::encode::Encode;
use plotly::trace::{text_or_error, to_json};
use plotly::{Bar, Trace};
use serde_json::{Number, Value};

fn object(members: Vec<(&str, Value)>) -> Value {
    let mut map = serde_json::Map::new();
    for (key, value) in members {
        map.insert(key.to_string(), value);
    }
    Value::Object(map)
}

fn text(value: &str) -> Value {
    Value::String(value.to_string())
}

fn ints(values: Vec<i64>) -> Value {
    Value::Array(values.into_iter().map(Value::from).collect())
}

fn keys(document: &Value) -> Vec<String> {
    document.as_object().unwrap().keys().cloned().collect()
}

#[test]
fn new_holds_the_kind_and_the_data_only() {
    let bar = Bar::new(vec![1, 2], vec![3, 4]);
    let expected =
        object(vec![("type", text("bar")), ("x", ints(vec![1, 2])), ("y", ints(vec![3, 4]))]);
    assert_eq!(bar.to_value(), expected);
    assert_eq!(keys(&bar.to_value()), vec!["type", "x", "y"]);
    assert_eq!(bar.to_json().unwrap(), "{\"type\":\"bar\",\"x\":[1,2],\"y\":[3,4]}");
}

#[test]
fn new_with_no_points_holds_empty_lists() {
    let bar: Box<Bar<i32, i32>> = Bar::new(vec![], vec![]);
    assert_eq!(bar.to_json().unwrap(), "{\"type\":\"bar\",\"x\":[],\"y\":[]}");
}

#[test]
fn default_holds_the_kind_only() {
    let bar: Bar<String, u64> = Bar::default();
    assert_eq!(bar.to_value(), object(vec![("type", text("bar"))]));
}

#[test]
fn a_setter_adds_its_own_key_and_no_other() {
    let before: Bar<i32, i32> = Bar::default();
    let after = before.clone().show_legend(true);
    assert_eq!(keys(&before.to_value()), vec!["type"]);
    assert_eq!(keys(&after.to_value()), vec!["showlegend", "type"]);
    assert_eq!(after.to_value()["showlegend"], Value::Bool(true));
    assert_eq!(after.to_value()["type"], text("bar"));
}

#[test]
fn keys_are_renamed_as_the_renderer_reads_them() {
    let bar: Bar<i32, i32> = Bar::default();
    let document = bar
        .legend_group("group")
        .hover_text("hover")
        .x_axis("x2")
        .y_axis("y2")
        .clip_on_axis(false)
        .to_value();
    let expected = object(vec![
        ("type", text("bar")),
        ("legendgroup", text("group")),
        ("hovertext", text("hover")),
        ("xaxis", text("x2")),
        ("yaxis", text("y2")),
        ("cliponaxis", Value::Bool(false)),
    ]);
    assert_eq!(document, expected);
}

#[test]
fn numbers_are_written_as_numbers() {
    let bar: Bar<i32, i32> = Bar::default();
    let document = bar
        .width(999)
        .offset(7)
        .opacity(Number::from_f64(0.25).unwrap())
        .text_angle(Number::from(-45))
        .to_value();
    assert_eq!(document["width"], Value::from(999u64));
    assert_eq!(document["offset"], Value::from(7u64));
    assert_eq!(document["opacity"], Value::from(0.25));
    assert_eq!(document["textangle"], Value::from(-45));
    assert_ne!(document["width"], text("999"));
}

#[test]
fn the_same_trace_gives_the_same_document_twice() {
    let bar = Bar::new(vec!["a", "b"], vec![10u64, 20]).name("twice").marker(Marker::new());
    assert_eq!(bar.to_value(), bar.to_value());
    assert_eq!(bar.to_json().unwrap(), bar.to_json().unwrap());
    let copy = bar.clone();
    assert_eq!(bar.to_json().unwrap(), copy.to_json().unwrap());
}

#[test]
fn a_single_value_is_written_bare() {
    let bar: Bar<i32, i32> = Bar::default();
    let document = bar.text("one").offset(3).text_position(TextPosition::Inside).to_value();
    assert_eq!(document["text"], text("one"));
    assert_eq!(document["offset"], Value::from(3));
    assert_eq!(document["textposition"], text("inside"));
}

#[test]
fn a_list_is_written_as_an_array() {
    let bar: Bar<i32, i32> = Bar::default();
    let document = bar
        .text_array(vec!["one", "two"])
        .offset_array(vec![3, 4])
        .text_position_array(vec![TextPosition::Inside, TextPosition::Auto])
        .to_value();
    assert_eq!(document["text"], Value::Array(vec![text("one"), text("two")]));
    assert_eq!(document["offset"], ints(vec![3, 4]));
    assert_eq!(document["textposition"], Value::Array(vec![text("inside"), text("auto")]));
}

#[test]
fn an_empty_list_is_written_as_an_empty_array() {
    let bar: Bar<i32, i32> = Bar::default();
    let document = bar.ids(vec![]).hover_text_array(vec![]).to_value();
    assert_eq!(document["ids"], Value::Array(vec![]));
    assert_eq!(document["hovertext"], Value::Array(vec![]));
}

#[test]
fn the_later_of_single_value_and_list_wins() {
    let bar: Bar<i32, i32> = Bar::default();
    let list_last = bar.clone().hover_template("one").hover_template_array(vec!["a", "b"]);
    assert_eq!(list_last.to_value()["hovertemplate"], Value::Array(vec![text("a"), text("b")]));
    let single_last = bar.hover_template_array(vec!["a", "b"]).hover_template("one");
    assert_eq!(single_last.to_value()["hovertemplate"], text("one"));
}

#[test]
fn the_later_of_two_values_wins() {
    let bar: Bar<i32, i32> = Bar::default();
    let document = bar.name("first").width(1).name("second").width(2).to_value();
    assert_eq!(
        document,
        object(vec![("type", text("bar")), ("name", text("second")), ("width", Value::from(2))])
    );
}

#[test]
fn an_empty_configuration_is_an_empty_object() {
    let bare: Bar<i32, i32> = Bar::default();
    let with_marker = bare.clone().marker(Marker::new());
    let empty = Value::Object(serde_json::Map::new());
    assert!(bare.to_value().get("marker").is_none());
    assert_eq!(with_marker.to_value().get("marker"), Some(&empty));
    assert_eq!(with_marker.to_json().unwrap(), "{\"marker\":{},\"type\":\"bar\"}");
    let document = bare.text_font(Font::new()).hover_label(Label::new()).to_value();
    assert_eq!(document["textfont"], empty);
    assert_eq!(document["hoverlabel"], empty);
}

#[test]
fn a_trace_with_legend_only_and_an_empty_marker() {
    let bar = Bar::new(vec![1, 2], vec![3, 4])
        .visible(Visible::LegendOnly)
        .show_legend(false)
        .marker(Marker::new());
    let expected = object(vec![
        ("type", text("bar")),
        ("x", ints(vec![1, 2])),
        ("y", ints(vec![3, 4])),
        ("visible", text("legendonly")),
        ("showlegend", Value::Bool(false)),
        ("marker", Value::Object(serde_json::Map::new())),
    ]);
    assert_eq!(bar.to_value(), expected);
    let written: Value = serde_json::from_str(&bar.to_json().unwrap()).unwrap();
    assert_eq!(written, expected);
    assert_eq!(
        bar.to_json().unwrap(),
        "{\"marker\":{},\"showlegend\":false,\"type\":\"bar\",\"visible\":\"legendonly\",\"x\":[1,2],\"y\":[3,4]}"
    );
}

#[test]
fn text_is_escaped_by_the_writer() {
    let bar: Bar<i32, i32> = Bar::default();
    let bar = bar.name("a \"quoted\"\nname");
    assert_eq!(bar.to_json().unwrap(), "{\"name\":\"a \\\"quoted\\\"\\nname\",\"type\":\"bar\"}");
}

#[test]
fn to_json_writes_any_encodable_value() {
    assert_eq!(to_json(&vec![1, 2, 3]).unwrap(), "[1,2,3]");
    assert_eq!(to_json(&Font::new().size(12)).unwrap(), "{\"size\":12}");
    assert_eq!(to_json(&Visible::True).unwrap(), "true");
}

#[test]
fn the_writer_s_text_is_handed_on() {
    let outcome = text_or_error(Ok("{}".to_string()));
    assert_eq!(outcome.unwrap(), "{}");
}

#[test]
fn the_writer_s_error_becomes_an_encode_error() {
    let failure = serde_json::from_str::<Value>("{").unwrap_err();
    let message = failure.to_string();
    let outcome = text_or_error(Err(failure));
    assert_eq!(outcome.unwrap_err().message, message);
}
