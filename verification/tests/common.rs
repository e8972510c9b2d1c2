use plotly::common::{
    Calendar, ConstrainText, ErrorData, ErrorType, Font, HoverInfo, Label, Marker, Orientation,
    PlotType, SizeMode, TextAnchor, TextPosition, Visible,
};
use plotly::encode::Encode;
use serde_json::{Number, Value};

fn text(value: &str) -> Value {
    Value::String(value.to_string())
}

fn parsed(document: &str) -> Value {
    serde_json::from_str(document).unwrap()
}

#[test]
fn orientation_symbols() {
    assert_eq!(Orientation::Vertical.to_value(), text("v"));
    assert_eq!(Orientation::Horizontal.to_value(), text("h"));
    assert_eq!(Orientation::Vertical.as_str(), "v");
}

#[test]
fn visible_symbols() {
    assert_eq!(Visible::True.to_value(), Value::Bool(true));
    assert_eq!(Visible::False.to_value(), Value::Bool(false));
    assert_eq!(Visible::LegendOnly.to_value(), text("legendonly"));
}

#[test]
fn plot_type_symbols() {
    let all = [
        (PlotType::Scatter, "scatter"),
        (PlotType::ScatterGL, "scattergl"),
        (PlotType::Scatter3D, "scatter3d"),
        (PlotType::ScatterMapbox, "scattermapbox"),
        (PlotType::ScatterPolar, "scatterpolar"),
        (PlotType::ScatterPolarGL, "scatterpolargl"),
        (PlotType::Bar, "bar"),
        (PlotType::Box, "box"),
        (PlotType::Candlestick, "candlestick"),
        (PlotType::Contour, "contour"),
        (PlotType::HeatMap, "heatmap"),
        (PlotType::Histogram, "histogram"),
        (PlotType::Histogram2dContour, "histogram2dcontour"),
        (PlotType::Ohlc, "ohlc"),
        (PlotType::Sankey, "sankey"),
        (PlotType::Surface, "surface"),
        (PlotType::Pie, "pie"),
    ];
    for (value, symbol) in all {
        assert_eq!(value.as_str(), symbol);
        assert_eq!(value.to_value(), text(symbol));
    }
}

#[test]
fn constrain_text_symbols() {
    let all = [
        (ConstrainText::Inside, "inside"),
        (ConstrainText::Outside, "outside"),
        (ConstrainText::Both, "both"),
        (ConstrainText::Nothing, "none"),
    ];
    for (value, symbol) in all {
        assert_eq!(value.as_str(), symbol);
        assert_eq!(value.to_value(), text(symbol));
    }
}

#[test]
fn hover_info_symbols() {
    let all = [
        (HoverInfo::X, "x"),
        (HoverInfo::Y, "y"),
        (HoverInfo::Z, "z"),
        (HoverInfo::XAndY, "x+y"),
        (HoverInfo::XAndZ, "x+z"),
        (HoverInfo::YAndZ, "y+z"),
        (HoverInfo::XAndYAndZ, "x+y+z"),
        (HoverInfo::Text, "text"),
        (HoverInfo::Name, "name"),
        (HoverInfo::All, "all"),
        (HoverInfo::Nothing, "none"),
        (HoverInfo::Skip, "skip"),
    ];
    for (value, symbol) in all {
        assert_eq!(value.as_str(), symbol);
        assert_eq!(value.to_value(), text(symbol));
    }
}

#[test]
fn text_position_and_anchor_symbols() {
    assert_eq!(TextPosition::Inside.to_value(), text("inside"));
    assert_eq!(TextPosition::Outside.to_value(), text("outside"));
    assert_eq!(TextPosition::Auto.to_value(), text("auto"));
    assert_eq!(TextPosition::Nothing.to_value(), text("none"));
    assert_eq!(TextAnchor::Start.to_value(), text("start"));
    assert_eq!(TextAnchor::Middle.to_value(), text("middle"));
    assert_eq!(TextAnchor::End.to_value(), text("end"));
}

#[test]
fn calendar_symbols() {
    let all = [
        (Calendar::Gregorian, "gregorian"),
        (Calendar::Chinese, "chinese"),
        (Calendar::Coptic, "coptic"),
        (Calendar::DiscWorld, "discworld"),
        (Calendar::Ethiopian, "ethiopian"),
        (Calendar::Hebrew, "hebrew"),
        (Calendar::Islamic, "islamic"),
        (Calendar::Julian, "julian"),
        (Calendar::Mayan, "mayan"),
        (Calendar::Nanakshahi, "nanakshahi"),
        (Calendar::Nepali, "nepali"),
        (Calendar::Persian, "persian"),
        (Calendar::Jalali, "jalali"),
        (Calendar::Taiwan, "taiwan"),
        (Calendar::Thai, "thai"),
        (Calendar::Ummalqura, "ummalqura"),
    ];
    for (value, symbol) in all {
        assert_eq!(value.as_str(), symbol);
        assert_eq!(value.to_value(), text(symbol));
    }
}

#[test]
fn error_type_and_size_mode_symbols() {
    assert_eq!(ErrorType::Percent.to_value(), text("percent"));
    assert_eq!(ErrorType::Constant.to_value(), text("constant"));
    assert_eq!(ErrorType::SquareRoot.to_value(), text("sqrt"));
    assert_eq!(ErrorType::Data.to_value(), text("data"));
    assert_eq!(SizeMode::Diameter.to_value(), text("diameter"));
    assert_eq!(SizeMode::Area.to_value(), text("area"));
}

#[test]
fn font_document() {
    assert_eq!(Font::new().to_value(), parsed("{}"));
    assert_eq!(Font::default().to_value(), parsed("{}"));
    let font = Font::new().family("Courier").size(14).color("#ff0000");
    assert_eq!(font.to_value(), parsed(r##"{"family": "Courier", "size": 14, "color": "#ff0000"}"##));
    assert_eq!(Font::new().size(1).size(2).to_value(), parsed(r#"{"size": 2}"#));
}

#[test]
fn label_document() {
    assert_eq!(Label::new().to_value(), parsed("{}"));
    let label = Label::new()
        .background_color("white")
        .border_color("black")
        .font(Font::new().size(9))
        .align("left")
        .name_length(-1);
    let expected = parsed(
        r#"{"bgcolor": "white", "bordercolor": "black", "font": {"size": 9}, "align": "left", "namelength": -1}"#,
    );
    assert_eq!(label.to_value(), expected);
    let label = label.name_length_array(vec![3, -1]);
    assert_eq!(label.to_value()["namelength"], parsed("[3, -1]"));
    assert_eq!(Label::new().font(Font::new()).to_value(), parsed(r#"{"font": {}}"#));
}

#[test]
fn marker_document() {
    assert_eq!(Marker::new().to_value(), parsed("{}"));
    let marker = Marker::new()
        .opacity(Number::from_f64(0.5).unwrap())
        .size(8)
        .max_displayed(100)
        .size_ref(2)
        .size_min(1)
        .size_mode(SizeMode::Area)
        .color("blue")
        .cauto(true)
        .cmin(Number::from(0))
        .cmax(Number::from(10))
        .cmid(Number::from(5))
        .auto_color_scale(false)
        .reverse_scale(true)
        .show_scale(false)
        .outlier_color("red");
    let expected = parsed(
        r#"{"opacity": 0.5, "size": 8, "maxdisplayed": 100, "sizeref": 2, "sizemin": 1,
            "sizemode": "area", "color": "blue", "cauto": true, "cmin": 0, "cmax": 10, "cmid": 5,
            "autocolorscale": false, "reversescale": true, "showscale": false,
            "outliercolor": "red"}"#,
    );
    assert_eq!(marker.to_value(), expected);
    let marker = marker.size_array(vec![1, 2, 3]).color_array(vec!["blue", "green"]);
    assert_eq!(marker.to_value()["size"], parsed("[1, 2, 3]"));
    assert_eq!(marker.to_value()["color"], parsed(r#"["blue", "green"]"#));
}

#[test]
fn error_data_document() {
    assert_eq!(ErrorData::new(ErrorType::SquareRoot).to_value(), parsed(r#"{"type": "sqrt"}"#));
    let half = Number::from_f64(0.5).unwrap();
    let error = ErrorData::new(ErrorType::Data)
        .array(vec![half.clone(), Number::from(1)])
        .visible(true)
        .symmetric(false)
        .array_minus(vec![Number::from(2)])
        .value(Number::from(10))
        .value_minus(Number::from(20))
        .trace_ref(1)
        .trace_ref_minus(2)
        .copy_ystyle(true)
        .color("grey")
        .thickness(half)
        .width(4);
    let expected = parsed(
        r#"{"type": "data", "array": [0.5, 1], "visible": true, "symmetric": false,
            "arrayminus": [2], "value": 10, "valueminus": 20, "traceref": 1, "tracerefminus": 2,
            "copy_ystyle": true, "color": "grey", "thickness": 0.5, "width": 4}"#,
    );
    assert_eq!(error.to_value(), expected);
}
