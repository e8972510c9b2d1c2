use plotly::common::{
    Calendar, ConstrainText, ErrorData, ErrorType, Font, HoverInfo, Label, Marker, Orientation,
    TextAnchor, TextPosition, Visible,
};
use plotly::encode::Encode;
use plotly::{Bar, Trace};
use serde_json::{Number, Value};

fn object(members: Vec<(&str, Value)>) -> Value {
    let mut map = serde_json::Map::new();
    for (key, value) in members {
        map.insert(key.to_string(), value);
    }
    Value::Object(map)
}

fn number(value: f64) -> Number {
    Number::from_f64(value).unwrap()
}

fn text(value: &str) -> Value {
    Value::String(value.to_string())
}

fn empty() -> Value {
    Value::Object(serde_json::Map::new())
}

#[test]
fn test_default_bar() {
    let trace: Bar<i32, i32> = Bar::default();
    let expected = object(vec![("type", text("bar"))]).to_string();

    assert_eq!(trace.to_json().unwrap(), expected);
}

#[test]
fn test_serialize_bar() {
    let bar = Bar::new(vec![1, 2], vec![3, 4])
        .alignment_group("alignment_group")
        .clip_on_axis(true)
        .constrain_text(ConstrainText::Both)
        .error_x(ErrorData::new(ErrorType::Constant))
        .error_y(ErrorData::new(ErrorType::Percent))
        .hover_info(HoverInfo::All)
        .hover_label(Label::new())
        .hover_template("tmpl")
        .hover_template_array(vec!["tmpl1", "tmpl2"])
        .hover_text("hover_text")
        .hover_text_array(vec!["hover_text"])
        .ids(vec!["1"])
        .inside_text_anchor(TextAnchor::End)
        .inside_text_font(Font::new())
        .legend_group("legend-group")
        .marker(Marker::new())
        .name("Bar")
        .offset(5)
        .offset_array(vec![5, 5])
        .offset_group("offset_group")
        .opacity(number(0.5))
        .orientation(Orientation::Vertical)
        .outside_text_font(Font::new())
        .show_legend(false)
        .text("text")
        .text_angle(number(0.05))
        .text_array(vec!["text"])
        .text_font(Font::new())
        .text_position(TextPosition::Nothing)
        .text_position_array(vec![TextPosition::Nothing])
        .text_template("text_template")
        .text_template_array(vec!["text_template"])
        .visible(Visible::LegendOnly)
        .width(999)
        .x_axis("xaxis")
        .x_calendar(Calendar::Nanakshahi)
        .y_axis("yaxis")
        .y_calendar(Calendar::Ummalqura);

    let expected = object(vec![
        ("type", text("bar")),
        ("hoverinfo", text("all")),
        ("hovertemplate", Value::Array(vec![text("tmpl1"), text("tmpl2")])),
        ("x", Value::Array(vec![Value::from(1), Value::from(2)])),
        ("y", Value::Array(vec![Value::from(3), Value::from(4)])),
        ("name", text("Bar")),
        ("visible", text("legendonly")),
        ("showlegend", Value::Bool(false)),
        ("legendgroup", text("legend-group")),
        ("opacity", Value::from(0.5)),
        ("ids", Value::Array(vec![text("1")])),
        ("width", Value::from(999)),
        ("offset", Value::Array(vec![Value::from(5), Value::from(5)])),
        ("text", Value::Array(vec![text("text")])),
        ("textposition", Value::Array(vec![text("none")])),
        ("texttemplate", Value::Array(vec![text("text_template")])),
        ("hovertext", Value::Array(vec![text("hover_text")])),
        ("xaxis", text("xaxis")),
        ("yaxis", text("yaxis")),
        ("orientation", text("v")),
        ("alignmentgroup", text("alignment_group")),
        ("offsetgroup", text("offset_group")),
        ("marker", empty()),
        ("textangle", Value::from(0.05)),
        ("textfont", empty()),
        ("error_x", object(vec![("type", text("constant"))])),
        ("error_y", object(vec![("type", text("percent"))])),
        ("cliponaxis", Value::Bool(true)),
        ("constraintext", text("both")),
        ("hoverlabel", empty()),
        ("insidetextanchor", text("end")),
        ("insidetextfont", empty()),
        ("outsidetextfont", empty()),
        ("xcalendar", text("nanakshahi")),
        ("ycalendar", text("ummalqura")),
    ]);

    assert_eq!(bar.to_value(), expected);
}
