//! Values shared by the traces: enumerated symbols, the scalar-or-list
//! attribute, and the nested configurations (fonts, labels, markers, error
//! bars).
//!
//! Every enumerated value is encoded as one fixed symbol, given by `symbol`.
//! Every nested configuration is encoded as an object that holds the
//! attributes that were set and no others; its view is that object's members.

use crate::encode::{json_list, json_option, Encode};
use crate::json::{bool_value, json_of, number_of, string_value, Json, Num};
use crate::object::{mark, members, Members, Writer};
use crate::private::owned_string_vector;
use vstd::prelude::*;

verus! {

/// Builds the document that is the given symbol.
fn symbol_value(symbol: &str) -> (value: serde_json::Value)
    ensures
        json_of(value) == Json::Str(symbol@),
{
    string_value(symbol.to_owned())
}

/// The kind of a trace, which the renderer reads under the key `type`.
#[derive(Clone, Copy, Debug)]
pub enum PlotType {
    Scatter,
    ScatterGL,
    Scatter3D,
    ScatterMapbox,
    ScatterPolar,
    ScatterPolarGL,
    Bar,
    Box,
    Candlestick,
    Contour,
    HeatMap,
    Histogram,
    Histogram2dContour,
    Ohlc,
    Sankey,
    Surface,
    Pie,
}

impl PlotType {
    /// The symbol that stands for the value in a document.
    pub open spec fn symbol(&self) -> Seq<char> {
        match self {
            PlotType::Scatter => "scatter"@,
            PlotType::ScatterGL => "scattergl"@,
            PlotType::Scatter3D => "scatter3d"@,
            PlotType::ScatterMapbox => "scattermapbox"@,
            PlotType::ScatterPolar => "scatterpolar"@,
            PlotType::ScatterPolarGL => "scatterpolargl"@,
            PlotType::Bar => "bar"@,
            PlotType::Box => "box"@,
            PlotType::Candlestick => "candlestick"@,
            PlotType::Contour => "contour"@,
            PlotType::HeatMap => "heatmap"@,
            PlotType::Histogram => "histogram"@,
            PlotType::Histogram2dContour => "histogram2dcontour"@,
            PlotType::Ohlc => "ohlc"@,
            PlotType::Sankey => "sankey"@,
            PlotType::Surface => "surface"@,
            PlotType::Pie => "pie"@,
        }
    }

    /// The symbol that stands for the value in a document.
    pub fn as_str(&self) -> (symbol: &'static str)
        ensures
            symbol@ == self.symbol(),
    {
        match self {
            PlotType::Scatter => "scatter",
            PlotType::ScatterGL => "scattergl",
            PlotType::Scatter3D => "scatter3d",
            PlotType::ScatterMapbox => "scattermapbox",
            PlotType::ScatterPolar => "scatterpolar",
            PlotType::ScatterPolarGL => "scatterpolargl",
            PlotType::Bar => "bar",
            PlotType::Box => "box",
            PlotType::Candlestick => "candlestick",
            PlotType::Contour => "contour",
            PlotType::HeatMap => "heatmap",
            PlotType::Histogram => "histogram",
            PlotType::Histogram2dContour => "histogram2dcontour",
            PlotType::Ohlc => "ohlc",
            PlotType::Sankey => "sankey",
            PlotType::Surface => "surface",
            PlotType::Pie => "pie",
        }
    }
}

impl Encode for PlotType {
    open spec fn json(&self) -> Json {
        Json::Str(self.symbol())
    }

    fn to_value(&self) -> (value: serde_json::Value) {
        symbol_value(self.as_str())
    }
}

/// The direction in which bars or boxes run.
#[derive(Clone, Copy, Debug)]
pub enum Orientation {
    Vertical,
    Horizontal,
}

impl Orientation {
    /// The symbol that stands for the value in a document.
    pub open spec fn symbol(&self) -> Seq<char> {
        match self {
            Orientation::Vertical => "v"@,
            Orientation::Horizontal => "h"@,
        }
    }

    /// The symbol that stands for the value in a document.
    pub fn as_str(&self) -> (symbol: &'static str)
        ensures
            symbol@ == self.symbol(),
    {
        match self {
            Orientation::Vertical => "v",
            Orientation::Horizontal => "h",
        }
    }
}

impl Encode for Orientation {
    open spec fn json(&self) -> Json {
        Json::Str(self.symbol())
    }

    fn to_value(&self) -> (value: serde_json::Value) {
        symbol_value(self.as_str())
    }
}

/// Whether text is scaled down to fit its bar.
#[derive(Clone, Copy, Debug)]
pub enum ConstrainText {
    Inside,
    Outside,
    Both,
    Nothing,
}

impl ConstrainText {
    /// The symbol that stands for the value in a document.
    pub open spec fn symbol(&self) -> Seq<char> {
        match self {
            ConstrainText::Inside => "inside"@,
            ConstrainText::Outside => "outside"@,
            ConstrainText::Both => "both"@,
            ConstrainText::Nothing => "none"@,
        }
    }

    /// The symbol that stands for the value in a document.
    pub fn as_str(&self) -> (symbol: &'static str)
        ensures
            symbol@ == self.symbol(),
    {
        match self {
            ConstrainText::Inside => "inside",
            ConstrainText::Outside => "outside",
            ConstrainText::Both => "both",
            ConstrainText::Nothing => "none",
        }
    }
}

impl Encode for ConstrainText {
    open spec fn json(&self) -> Json {
        Json::Str(self.symbol())
    }

    fn to_value(&self) -> (value: serde_json::Value) {
        symbol_value(self.as_str())
    }
}

/// Which parts of a point are shown on hover.
#[derive(Clone, Copy, Debug)]
pub enum HoverInfo {
    X,
    Y,
    Z,
    XAndY,
    XAndZ,
    YAndZ,
    XAndYAndZ,
    Text,
    Name,
    All,
    Nothing,
    Skip,
}

impl HoverInfo {
    /// The symbol that stands for the value in a document.
    pub open spec fn symbol(&self) -> Seq<char> {
        match self {
            HoverInfo::X => "x"@,
            HoverInfo::Y => "y"@,
            HoverInfo::Z => "z"@,
            HoverInfo::XAndY => "x+y"@,
            HoverInfo::XAndZ => "x+z"@,
            HoverInfo::YAndZ => "y+z"@,
            HoverInfo::XAndYAndZ => "x+y+z"@,
            HoverInfo::Text => "text"@,
            HoverInfo::Name => "name"@,
            HoverInfo::All => "all"@,
            HoverInfo::Nothing => "none"@,
            HoverInfo::Skip => "skip"@,
        }
    }

    /// The symbol that stands for the value in a document.
    pub fn as_str(&self) -> (symbol: &'static str)
        ensures
            symbol@ == self.symbol(),
    {
        match self {
            HoverInfo::X => "x",
            HoverInfo::Y => "y",
            HoverInfo::Z => "z",
            HoverInfo::XAndY => "x+y",
            HoverInfo::XAndZ => "x+z",
            HoverInfo::YAndZ => "y+z",
            HoverInfo::XAndYAndZ => "x+y+z",
            HoverInfo::Text => "text",
            HoverInfo::Name => "name",
            HoverInfo::All => "all",
            HoverInfo::Nothing => "none",
            HoverInfo::Skip => "skip",
        }
    }
}

impl Encode for HoverInfo {
    open spec fn json(&self) -> Json {
        Json::Str(self.symbol())
    }

    fn to_value(&self) -> (value: serde_json::Value) {
        symbol_value(self.as_str())
    }
}

/// Where text stands relative to its bar.
#[derive(Clone, Copy, Debug)]
pub enum TextPosition {
    Inside,
    Outside,
    Auto,
    Nothing,
}

impl TextPosition {
    /// The symbol that stands for the value in a document.
    pub open spec fn symbol(&self) -> Seq<char> {
        match self {
            TextPosition::Inside => "inside"@,
            TextPosition::Outside => "outside"@,
            TextPosition::Auto => "auto"@,
            TextPosition::Nothing => "none"@,
        }
    }

    /// The symbol that stands for the value in a document.
    pub fn as_str(&self) -> (symbol: &'static str)
        ensures
            symbol@ == self.symbol(),
    {
        match self {
            TextPosition::Inside => "inside",
            TextPosition::Outside => "outside",
            TextPosition::Auto => "auto",
            TextPosition::Nothing => "none",
        }
    }
}

impl Encode for TextPosition {
    open spec fn json(&self) -> Json {
        Json::Str(self.symbol())
    }

    fn to_value(&self) -> (value: serde_json::Value) {
        symbol_value(self.as_str())
    }
}

/// The end of a bar at which inside text is anchored.
#[derive(Clone, Copy, Debug)]
pub enum TextAnchor {
    Start,
    Middle,
    End,
}

impl TextAnchor {
    /// The symbol that stands for the value in a document.
    pub open spec fn symbol(&self) -> Seq<char> {
        match self {
            TextAnchor::Start => "start"@,
            TextAnchor::Middle => "middle"@,
            TextAnchor::End => "end"@,
        }
    }

    /// The symbol that stands for the value in a document.
    pub fn as_str(&self) -> (symbol: &'static str)
        ensures
            symbol@ == self.symbol(),
    {
        match self {
            TextAnchor::Start => "start",
            TextAnchor::Middle => "middle",
            TextAnchor::End => "end",
        }
    }
}

impl Encode for TextAnchor {
    open spec fn json(&self) -> Json {
        Json::Str(self.symbol())
    }

    fn to_value(&self) -> (value: serde_json::Value) {
        symbol_value(self.as_str())
    }
}

/// The calendar by which dates on an axis are read.
#[derive(Clone, Copy, Debug)]
pub enum Calendar {
    Gregorian,
    Chinese,
    Coptic,
    DiscWorld,
    Ethiopian,
    Hebrew,
    Islamic,
    Julian,
    Mayan,
    Nanakshahi,
    Nepali,
    Persian,
    Jalali,
    Taiwan,
    Thai,
    Ummalqura,
}

impl Calendar {
    /// The symbol that stands for the value in a document.
    pub open spec fn symbol(&self) -> Seq<char> {
        match self {
            Calendar::Gregorian => "gregorian"@,
            Calendar::Chinese => "chinese"@,
            Calendar::Coptic => "coptic"@,
            Calendar::DiscWorld => "discworld"@,
            Calendar::Ethiopian => "ethiopian"@,
            Calendar::Hebrew => "hebrew"@,
            Calendar::Islamic => "islamic"@,
            Calendar::Julian => "julian"@,
            Calendar::Mayan => "mayan"@,
            Calendar::Nanakshahi => "nanakshahi"@,
            Calendar::Nepali => "nepali"@,
            Calendar::Persian => "persian"@,
            Calendar::Jalali => "jalali"@,
            Calendar::Taiwan => "taiwan"@,
            Calendar::Thai => "thai"@,
            Calendar::Ummalqura => "ummalqura"@,
        }
    }

    /// The symbol that stands for the value in a document.
    pub fn as_str(&self) -> (symbol: &'static str)
        ensures
            symbol@ == self.symbol(),
    {
        match self {
            Calendar::Gregorian => "gregorian",
            Calendar::Chinese => "chinese",
            Calendar::Coptic => "coptic",
            Calendar::DiscWorld => "discworld",
            Calendar::Ethiopian => "ethiopian",
            Calendar::Hebrew => "hebrew",
            Calendar::Islamic => "islamic",
            Calendar::Julian => "julian",
            Calendar::Mayan => "mayan",
            Calendar::Nanakshahi => "nanakshahi",
            Calendar::Nepali => "nepali",
            Calendar::Persian => "persian",
            Calendar::Jalali => "jalali",
            Calendar::Taiwan => "taiwan",
            Calendar::Thai => "thai",
            Calendar::Ummalqura => "ummalqura",
        }
    }
}

impl Encode for Calendar {
    open spec fn json(&self) -> Json {
        Json::Str(self.symbol())
    }

    fn to_value(&self) -> (value: serde_json::Value) {
        symbol_value(self.as_str())
    }
}

/// How the length of an error bar is given.
#[derive(Clone, Copy, Debug)]
pub enum ErrorType {
    Percent,
    Constant,
    SquareRoot,
    Data,
}

impl ErrorType {
    /// The symbol that stands for the value in a document.
    pub open spec fn symbol(&self) -> Seq<char> {
        match self {
            ErrorType::Percent => "percent"@,
            ErrorType::Constant => "constant"@,
            ErrorType::SquareRoot => "sqrt"@,
            ErrorType::Data => "data"@,
        }
    }

    /// The symbol that stands for the value in a document.
    pub fn as_str(&self) -> (symbol: &'static str)
        ensures
            symbol@ == self.symbol(),
    {
        match self {
            ErrorType::Percent => "percent",
            ErrorType::Constant => "constant",
            ErrorType::SquareRoot => "sqrt",
            ErrorType::Data => "data",
        }
    }
}

impl Encode for ErrorType {
    open spec fn json(&self) -> Json {
        Json::Str(self.symbol())
    }

    fn to_value(&self) -> (value: serde_json::Value) {
        symbol_value(self.as_str())
    }
}

/// Whether a marker's size sets its diameter or its area.
#[derive(Clone, Copy, Debug)]
pub enum SizeMode {
    Diameter,
    Area,
}

impl SizeMode {
    /// The symbol that stands for the value in a document.
    pub open spec fn symbol(&self) -> Seq<char> {
        match self {
            SizeMode::Diameter => "diameter"@,
            SizeMode::Area => "area"@,
        }
    }

    /// The symbol that stands for the value in a document.
    pub fn as_str(&self) -> (symbol: &'static str)
        ensures
            symbol@ == self.symbol(),
    {
        match self {
            SizeMode::Diameter => "diameter",
            SizeMode::Area => "area",
        }
    }
}

impl Encode for SizeMode {
    open spec fn json(&self) -> Json {
        Json::Str(self.symbol())
    }

    fn to_value(&self) -> (value: serde_json::Value) {
        symbol_value(self.as_str())
    }
}

/// Whether a trace is drawn: yes, no, or only as an entry of the legend,
/// which can then be clicked to show the trace.
#[derive(Clone, Copy, Debug)]
pub enum Visible {
    True,
    False,
    LegendOnly,
}

impl Encode for Visible {
    /// The two plain states are encoded as truth values, the third as the
    /// symbol `legendonly`.
    open spec fn json(&self) -> Json {
        match self {
            Visible::True => Json::Bool(true),
            Visible::False => Json::Bool(false),
            Visible::LegendOnly => Json::Str("legendonly"@),
        }
    }

    fn to_value(&self) -> (value: serde_json::Value) {
        match self {
            Visible::True => bool_value(true),
            Visible::False => bool_value(false),
            Visible::LegendOnly => symbol_value("legendonly"),
        }
    }
}

/// An attribute that is given either once for the whole trace or once for
/// each point.
#[derive(Clone, Debug)]
pub enum Dim<T> {
    Scalar(T),
    Vector(Vec<T>),
}

impl<T: Encode> Encode for Dim<T> {
    /// A single value is encoded bare, a list as an array.
    open spec fn json(&self) -> Json {
        match self {
            Dim::Scalar(item) => item.json(),
            Dim::Vector(items) => Json::Array(json_list(items@)),
        }
    }

    fn to_value(&self) -> (value: serde_json::Value) {
        match self {
            Dim::Scalar(item) => item.to_value(),
            Dim::Vector(items) => items.to_value(),
        }
    }
}

/// The two shapes of a scalar-or-list attribute: a single value is encoded
/// as its own document, a list as an array, whatever the list holds.
pub proof fn lemma_dim_shapes<T: Encode>(item: T, items: Vec<T>)
    ensures
        Dim::Scalar(item).json() == item.json(),
        Dim::Vector(items).json() == Json::Array(json_list(items@)),
        Dim::Vector(items).json() is Array,
{
}

/// The keys of a font differ from one another: each has its own mark.
pub proof fn lemma_font_keys_differ()
    ensures
        mark("family"@) == (6nat, 'f', 'y'),
        mark("size"@) == (4nat, 's', 'e'),
        mark("color"@) == (5nat, 'c', 'r'),
{
    reveal_strlit("family");
    reveal_strlit("size");
    reveal_strlit("color");
}

/// The font of a piece of text.
#[derive(Clone, Debug)]
pub struct Font {
    family: Option<String>,
    size: Option<usize>,
    color: Option<String>,
}

impl Font {
    /// The document that stands under a key: that of the attribute with this
    /// key, where it is set.
    spec fn member(&self, key: Seq<char>) -> Option<Json> {
        if key == "family"@ {
            json_option(self.family)
        } else if key == "size"@ {
            json_option(self.size)
        } else if key == "color"@ {
            json_option(self.color)
        } else {
            None
        }
    }

    /// The table of the members, by key.
    spec fn table(&self) -> spec_fn(Seq<char>) -> Option<Json> {
        |key: Seq<char>| self.member(key)
    }

    /// A font with no attribute set.
    pub fn new() -> (font: Self)
        ensures
            font@ == Members::empty(),
            font.json() == Json::Object(Members::empty()),
    {
        let font = Font {
            family: None,
            size: None,
            color: None,
        };
        assert(font@ =~= Members::empty());
        font
    }

    /// Sets the typeface, by a name that the renderer knows.
    pub fn family(self, family: &str) -> (font: Self)
        ensures
            font@ == self@.insert("family"@, Json::Str(family@)),
    {
        let mut font = self;
        font.family = Some(family.to_owned());
        proof {
            lemma_font_keys_differ();
            assert(font@ =~= self@.insert("family"@, Json::Str(family@)));
        }
        font
    }

    /// Sets the size of the text.
    pub fn size(self, size: usize) -> (font: Self)
        ensures
            font@ == self@.insert("size"@, Json::Number(Num::Integer(size as int))),
    {
        let mut font = self;
        font.size = Some(size);
        proof {
            lemma_font_keys_differ();
            assert(font@ =~= self@.insert("size"@, Json::Number(Num::Integer(size as int))));
        }
        font
    }

    /// Sets the colour of the text, in any notation that the renderer reads.
    pub fn color(self, color: &str) -> (font: Self)
        ensures
            font@ == self@.insert("color"@, Json::Str(color@)),
    {
        let mut font = self;
        font.color = Some(color.to_owned());
        proof {
            lemma_font_keys_differ();
            assert(font@ =~= self@.insert("color"@, Json::Str(color@)));
        }
        font
    }
}

impl Default for Font {
    /// A font with no attribute set.
    fn default() -> (font: Self)
        ensures
            font@ == Members::empty(),
    {
        Font::new()
    }
}

impl View for Font {
    type V = Members;

    /// The members of the object that stands for the font.
    closed spec fn view(&self) -> Members {
        members(self.table())
    }
}

impl Encode for Font {
    open spec fn json(&self) -> Json {
        Json::Object(self@)
    }

    fn to_value(&self) -> (value: serde_json::Value) {
        let ghost table = self.table();
        proof {
            lemma_font_keys_differ();
        }
        let mut writer = Writer::new(Ghost(table));
        writer.put("family", &self.family, Ghost(table));
        writer.put("size", &self.size, Ghost(table));
        writer.put("color", &self.color, Ghost(table));
        writer.finish(Ghost(table))
    }
}

/// The keys of a label differ from one another: each has its own mark.
pub proof fn lemma_label_keys_differ()
    ensures
        mark("bgcolor"@) == (7nat, 'b', 'r'),
        mark("bordercolor"@) == (11nat, 'b', 'r'),
        mark("font"@) == (4nat, 'f', 't'),
        mark("align"@) == (5nat, 'a', 'n'),
        mark("namelength"@) == (10nat, 'n', 'h'),
{
    reveal_strlit("bgcolor");
    reveal_strlit("bordercolor");
    reveal_strlit("font");
    reveal_strlit("align");
    reveal_strlit("namelength");
}

/// The label that is shown while the pointer is over a point.
#[derive(Clone, Debug)]
pub struct Label {
    background_color: Option<String>,
    border_color: Option<String>,
    font: Option<Font>,
    align: Option<String>,
    name_length: Option<Dim<i32>>,
}

impl Label {
    /// The document that stands under a key: that of the attribute with this
    /// key, where it is set.
    spec fn member(&self, key: Seq<char>) -> Option<Json> {
        if key == "bgcolor"@ {
            json_option(self.background_color)
        } else if key == "bordercolor"@ {
            json_option(self.border_color)
        } else if key == "font"@ {
            json_option(self.font)
        } else if key == "align"@ {
            json_option(self.align)
        } else if key == "namelength"@ {
            json_option(self.name_length)
        } else {
            None
        }
    }

    /// The table of the members, by key.
    spec fn table(&self) -> spec_fn(Seq<char>) -> Option<Json> {
        |key: Seq<char>| self.member(key)
    }

    /// A label with no attribute set.
    pub fn new() -> (label: Self)
        ensures
            label@ == Members::empty(),
            label.json() == Json::Object(Members::empty()),
    {
        let label = Label {
            background_color: None,
            border_color: None,
            font: None,
            align: None,
            name_length: None,
        };
        assert(label@ =~= Members::empty());
        label
    }

    /// Sets the colour of the label's background.
    pub fn background_color(self, background_color: &str) -> (label: Self)
        ensures
            label@ == self@.insert("bgcolor"@, Json::Str(background_color@)),
    {
        let mut label = self;
        label.background_color = Some(background_color.to_owned());
        proof {
            lemma_label_keys_differ();
            assert(label@ =~= self@.insert("bgcolor"@, Json::Str(background_color@)));
        }
        label
    }

    /// Sets the colour of the label's border.
    pub fn border_color(self, border_color: &str) -> (label: Self)
        ensures
            label@ == self@.insert("bordercolor"@, Json::Str(border_color@)),
    {
        let mut label = self;
        label.border_color = Some(border_color.to_owned());
        proof {
            lemma_label_keys_differ();
            assert(label@ =~= self@.insert("bordercolor"@, Json::Str(border_color@)));
        }
        label
    }

    /// Sets the font of the label's text.
    pub fn font(self, font: Font) -> (label: Self)
        ensures
            label@ == self@.insert("font"@, font.json()),
    {
        let ghost given = font.json();
        let mut label = self;
        label.font = Some(font);
        proof {
            lemma_label_keys_differ();
            assert(label@ =~= self@.insert("font"@, given));
        }
        label
    }

    /// Sets how lines of text are aligned within the label.
    pub fn align(self, align: &str) -> (label: Self)
        ensures
            label@ == self@.insert("align"@, Json::Str(align@)),
    {
        let mut label = self;
        label.align = Some(align.to_owned());
        proof {
            lemma_label_keys_differ();
            assert(label@ =~= self@.insert("align"@, Json::Str(align@)));
        }
        label
    }

    /// Sets how many characters of the trace's name are shown, one number for
    /// all points.
    pub fn name_length(self, name_length: i32) -> (label: Self)
        ensures
            label@ == self@.insert("namelength"@, Json::Number(Num::Integer(name_length as int))),
    {
        let mut label = self;
        label.name_length = Some(Dim::Scalar(name_length));
        proof {
            lemma_label_keys_differ();
            assert(label@ =~= self@.insert(
                "namelength"@,
                Json::Number(Num::Integer(name_length as int)),
            ));
        }
        label
    }

    /// Sets how many characters of the trace's name are shown, point by
    /// point.
    pub fn name_length_array(self, name_length: Vec<i32>) -> (label: Self)
        ensures
            label@ == self@.insert("namelength"@, Json::Array(json_list(name_length@))),
    {
        let ghost given = Json::Array(json_list(name_length@));
        let mut label = self;
        label.name_length = Some(Dim::Vector(name_length));
        proof {
            lemma_label_keys_differ();
            assert(label@ =~= self@.insert("namelength"@, given));
        }
        label
    }
}

impl Default for Label {
    /// A label with no attribute set.
    fn default() -> (label: Self)
        ensures
            label@ == Members::empty(),
    {
        Label::new()
    }
}

impl View for Label {
    type V = Members;

    /// The members of the object that stands for the label.
    closed spec fn view(&self) -> Members {
        members(self.table())
    }
}

impl Encode for Label {
    open spec fn json(&self) -> Json {
        Json::Object(self@)
    }

    fn to_value(&self) -> (value: serde_json::Value) {
        let ghost table = self.table();
        proof {
            lemma_label_keys_differ();
        }
        let mut writer = Writer::new(Ghost(table));
        writer.put("bgcolor", &self.background_color, Ghost(table));
        writer.put("bordercolor", &self.border_color, Ghost(table));
        writer.put("font", &self.font, Ghost(table));
        writer.put("align", &self.align, Ghost(table));
        writer.put("namelength", &self.name_length, Ghost(table));
        writer.finish(Ghost(table))
    }
}

/// The keys of a marker differ from one another: each has its own mark.
pub proof fn lemma_marker_keys_differ()
    ensures
        mark("opacity"@) == (7nat, 'o', 'y'),
        mark("size"@) == (4nat, 's', 'e'),
        mark("maxdisplayed"@) == (12nat, 'm', 'd'),
        mark("sizeref"@) == (7nat, 's', 'f'),
        mark("sizemin"@) == (7nat, 's', 'n'),
        mark("sizemode"@) == (8nat, 's', 'e'),
        mark("color"@) == (5nat, 'c', 'r'),
        mark("cauto"@) == (5nat, 'c', 'o'),
        mark("cmin"@) == (4nat, 'c', 'n'),
        mark("cmax"@) == (4nat, 'c', 'x'),
        mark("cmid"@) == (4nat, 'c', 'd'),
        mark("autocolorscale"@) == (14nat, 'a', 'e'),
        mark("reversescale"@) == (12nat, 'r', 'e'),
        mark("showscale"@) == (9nat, 's', 'e'),
        mark("outliercolor"@) == (12nat, 'o', 'r'),
{
    reveal_strlit("opacity");
    reveal_strlit("size");
    reveal_strlit("maxdisplayed");
    reveal_strlit("sizeref");
    reveal_strlit("sizemin");
    reveal_strlit("sizemode");
    reveal_strlit("color");
    reveal_strlit("cauto");
    reveal_strlit("cmin");
    reveal_strlit("cmax");
    reveal_strlit("cmid");
    reveal_strlit("autocolorscale");
    reveal_strlit("reversescale");
    reveal_strlit("showscale");
    reveal_strlit("outliercolor");
}

/// How the points of a trace are drawn.
#[derive(Clone, Debug)]
pub struct Marker {
    opacity: Option<serde_json::Number>,
    size: Option<Dim<usize>>,
    max_displayed: Option<usize>,
    size_ref: Option<usize>,
    size_min: Option<usize>,
    size_mode: Option<SizeMode>,
    color: Option<Dim<String>>,
    cauto: Option<bool>,
    cmin: Option<serde_json::Number>,
    cmax: Option<serde_json::Number>,
    cmid: Option<serde_json::Number>,
    auto_color_scale: Option<bool>,
    reverse_scale: Option<bool>,
    show_scale: Option<bool>,
    outlier_color: Option<String>,
}

impl Marker {
    /// The document that stands under a key: that of the attribute with this
    /// key, where it is set.
    spec fn member(&self, key: Seq<char>) -> Option<Json> {
        if key == "opacity"@ {
            json_option(self.opacity)
        } else if key == "size"@ {
            json_option(self.size)
        } else if key == "maxdisplayed"@ {
            json_option(self.max_displayed)
        } else if key == "sizeref"@ {
            json_option(self.size_ref)
        } else if key == "sizemin"@ {
            json_option(self.size_min)
        } else if key == "sizemode"@ {
            json_option(self.size_mode)
        } else if key == "color"@ {
            json_option(self.color)
        } else if key == "cauto"@ {
            json_option(self.cauto)
        } else if key == "cmin"@ {
            json_option(self.cmin)
        } else if key == "cmax"@ {
            json_option(self.cmax)
        } else if key == "cmid"@ {
            json_option(self.cmid)
        } else if key == "autocolorscale"@ {
            json_option(self.auto_color_scale)
        } else if key == "reversescale"@ {
            json_option(self.reverse_scale)
        } else if key == "showscale"@ {
            json_option(self.show_scale)
        } else if key == "outliercolor"@ {
            json_option(self.outlier_color)
        } else {
            None
        }
    }

    /// The table of the members, by key.
    spec fn table(&self) -> spec_fn(Seq<char>) -> Option<Json> {
        |key: Seq<char>| self.member(key)
    }

    /// A marker with no attribute set.
    pub fn new() -> (marker: Self)
        ensures
            marker@ == Members::empty(),
            marker.json() == Json::Object(Members::empty()),
    {
        let marker = Marker {
            opacity: None,
            size: None,
            max_displayed: None,
            size_ref: None,
            size_min: None,
            size_mode: None,
            color: None,
            cauto: None,
            cmin: None,
            cmax: None,
            cmid: None,
            auto_color_scale: None,
            reverse_scale: None,
            show_scale: None,
            outlier_color: None,
        };
        assert(marker@ =~= Members::empty());
        marker
    }

    /// Sets how opaque the markers are.
    pub fn opacity(self, opacity: serde_json::Number) -> (marker: Self)
        ensures
            marker@ == self@.insert("opacity"@, Json::Number(number_of(opacity))),
    {
        let ghost given = Json::Number(number_of(opacity));
        let mut marker = self;
        marker.opacity = Some(opacity);
        proof {
            lemma_marker_keys_differ();
            assert(marker@ =~= self@.insert("opacity"@, given));
        }
        marker
    }

    /// Sets the size of all markers.
    pub fn size(self, size: usize) -> (marker: Self)
        ensures
            marker@ == self@.insert("size"@, Json::Number(Num::Integer(size as int))),
    {
        let mut marker = self;
        marker.size = Some(Dim::Scalar(size));
        proof {
            lemma_marker_keys_differ();
            assert(marker@ =~= self@.insert("size"@, Json::Number(Num::Integer(size as int))));
        }
        marker
    }

    /// Sets the size of the markers, point by point.
    pub fn size_array(self, size: Vec<usize>) -> (marker: Self)
        ensures
            marker@ == self@.insert("size"@, Json::Array(json_list(size@))),
    {
        let ghost given = Json::Array(json_list(size@));
        let mut marker = self;
        marker.size = Some(Dim::Vector(size));
        proof {
            lemma_marker_keys_differ();
            assert(marker@ =~= self@.insert("size"@, given));
        }
        marker
    }

    /// Sets how many markers are drawn at most.
    pub fn max_displayed(self, max_displayed: usize) -> (marker: Self)
        ensures
            marker@ == self@.insert(
                "maxdisplayed"@,
                Json::Number(Num::Integer(max_displayed as int)),
            ),
    {
        let mut marker = self;
        marker.max_displayed = Some(max_displayed);
        proof {
            lemma_marker_keys_differ();
            assert(marker@ =~= self@.insert(
                "maxdisplayed"@,
                Json::Number(Num::Integer(max_displayed as int)),
            ));
        }
        marker
    }

    /// Sets the factor by which the sizes are scaled.
    pub fn size_ref(self, size_ref: usize) -> (marker: Self)
        ensures
            marker@ == self@.insert("sizeref"@, Json::Number(Num::Integer(size_ref as int))),
    {
        let mut marker = self;
        marker.size_ref = Some(size_ref);
        proof {
            lemma_marker_keys_differ();
            assert(marker@ =~= self@.insert(
                "sizeref"@,
                Json::Number(Num::Integer(size_ref as int)),
            ));
        }
        marker
    }

    /// Sets the least size that a marker is drawn with.
    pub fn size_min(self, size_min: usize) -> (marker: Self)
        ensures
            marker@ == self@.insert("sizemin"@, Json::Number(Num::Integer(size_min as int))),
    {
        let mut marker = self;
        marker.size_min = Some(size_min);
        proof {
            lemma_marker_keys_differ();
            assert(marker@ =~= self@.insert(
                "sizemin"@,
                Json::Number(Num::Integer(size_min as int)),
            ));
        }
        marker
    }

    /// Sets whether sizes are read as diameters or as areas.
    pub fn size_mode(self, size_mode: SizeMode) -> (marker: Self)
        ensures
            marker@ == self@.insert("sizemode"@, size_mode.json()),
    {
        let mut marker = self;
        marker.size_mode = Some(size_mode);
        proof {
            lemma_marker_keys_differ();
            assert(marker@ =~= self@.insert("sizemode"@, size_mode.json()));
        }
        marker
    }

    /// Sets the colour of all markers.
    pub fn color(self, color: &str) -> (marker: Self)
        ensures
            marker@ == self@.insert("color"@, Json::Str(color@)),
    {
        let mut marker = self;
        marker.color = Some(Dim::Scalar(color.to_owned()));
        proof {
            lemma_marker_keys_differ();
            assert(marker@ =~= self@.insert("color"@, Json::Str(color@)));
        }
        marker
    }

    /// Sets the colour of the markers, point by point.
    pub fn color_array(self, color: Vec<&str>) -> (marker: Self)
        ensures
            marker@ == self@.insert("color"@, Json::Array(json_list(color@))),
    {
        let ghost given = Json::Array(json_list(color@));
        let mut marker = self;
        marker.color = Some(Dim::Vector(owned_string_vector(color)));
        proof {
            lemma_marker_keys_differ();
            assert(marker@ =~= self@.insert("color"@, given));
        }
        marker
    }

    /// Sets whether the colour range is taken from the data.
    pub fn cauto(self, cauto: bool) -> (marker: Self)
        ensures
            marker@ == self@.insert("cauto"@, Json::Bool(cauto)),
    {
        let mut marker = self;
        marker.cauto = Some(cauto);
        proof {
            lemma_marker_keys_differ();
            assert(marker@ =~= self@.insert("cauto"@, Json::Bool(cauto)));
        }
        marker
    }

    /// Sets the lower end of the colour range.
    pub fn cmin(self, cmin: serde_json::Number) -> (marker: Self)
        ensures
            marker@ == self@.insert("cmin"@, Json::Number(number_of(cmin))),
    {
        let ghost given = Json::Number(number_of(cmin));
        let mut marker = self;
        marker.cmin = Some(cmin);
        proof {
            lemma_marker_keys_differ();
            assert(marker@ =~= self@.insert("cmin"@, given));
        }
        marker
    }

    /// Sets the upper end of the colour range.
    pub fn cmax(self, cmax: serde_json::Number) -> (marker: Self)
        ensures
            marker@ == self@.insert("cmax"@, Json::Number(number_of(cmax))),
    {
        let ghost given = Json::Number(number_of(cmax));
        let mut marker = self;
        marker.cmax = Some(cmax);
        proof {
            lemma_marker_keys_differ();
            assert(marker@ =~= self@.insert("cmax"@, given));
        }
        marker
    }

    /// Sets the middle of the colour range.
    pub fn cmid(self, cmid: serde_json::Number) -> (marker: Self)
        ensures
            marker@ == self@.insert("cmid"@, Json::Number(number_of(cmid))),
    {
        let ghost given = Json::Number(number_of(cmid));
        let mut marker = self;
        marker.cmid = Some(cmid);
        proof {
            lemma_marker_keys_differ();
            assert(marker@ =~= self@.insert("cmid"@, given));
        }
        marker
    }

    /// Sets whether the renderer picks the colour scale.
    pub fn auto_color_scale(self, auto_color_scale: bool) -> (marker: Self)
        ensures
            marker@ == self@.insert("autocolorscale"@, Json::Bool(auto_color_scale)),
    {
        let mut marker = self;
        marker.auto_color_scale = Some(auto_color_scale);
        proof {
            lemma_marker_keys_differ();
            assert(marker@ =~= self@.insert("autocolorscale"@, Json::Bool(auto_color_scale)));
        }
        marker
    }

    /// Sets whether the colour scale runs backwards.
    pub fn reverse_scale(self, reverse_scale: bool) -> (marker: Self)
        ensures
            marker@ == self@.insert("reversescale"@, Json::Bool(reverse_scale)),
    {
        let mut marker = self;
        marker.reverse_scale = Some(reverse_scale);
        proof {
            lemma_marker_keys_differ();
            assert(marker@ =~= self@.insert("reversescale"@, Json::Bool(reverse_scale)));
        }
        marker
    }

    /// Sets whether a colour bar is shown.
    pub fn show_scale(self, show_scale: bool) -> (marker: Self)
        ensures
            marker@ == self@.insert("showscale"@, Json::Bool(show_scale)),
    {
        let mut marker = self;
        marker.show_scale = Some(show_scale);
        proof {
            lemma_marker_keys_differ();
            assert(marker@ =~= self@.insert("showscale"@, Json::Bool(show_scale)));
        }
        marker
    }

    /// Sets the colour of the markers of outliers.
    pub fn outlier_color(self, outlier_color: &str) -> (marker: Self)
        ensures
            marker@ == self@.insert("outliercolor"@, Json::Str(outlier_color@)),
    {
        let mut marker = self;
        marker.outlier_color = Some(outlier_color.to_owned());
        proof {
            lemma_marker_keys_differ();
            assert(marker@ =~= self@.insert("outliercolor"@, Json::Str(outlier_color@)));
        }
        marker
    }
}

impl Default for Marker {
    /// A marker with no attribute set.
    fn default() -> (marker: Self)
        ensures
            marker@ == Members::empty(),
    {
        Marker::new()
    }
}

impl View for Marker {
    type V = Members;

    /// The members of the object that stands for the marker.
    closed spec fn view(&self) -> Members {
        members(self.table())
    }
}

impl Encode for Marker {
    open spec fn json(&self) -> Json {
        Json::Object(self@)
    }

    fn to_value(&self) -> (value: serde_json::Value) {
        let ghost table = self.table();
        proof {
            lemma_marker_keys_differ();
        }
        let mut writer = Writer::new(Ghost(table));
        writer.put("opacity", &self.opacity, Ghost(table));
        writer.put("size", &self.size, Ghost(table));
        writer.put("maxdisplayed", &self.max_displayed, Ghost(table));
        writer.put("sizeref", &self.size_ref, Ghost(table));
        writer.put("sizemin", &self.size_min, Ghost(table));
        writer.put("sizemode", &self.size_mode, Ghost(table));
        writer.put("color", &self.color, Ghost(table));
        writer.put("cauto", &self.cauto, Ghost(table));
        writer.put("cmin", &self.cmin, Ghost(table));
        writer.put("cmax", &self.cmax, Ghost(table));
        writer.put("cmid", &self.cmid, Ghost(table));
        writer.put("autocolorscale", &self.auto_color_scale, Ghost(table));
        writer.put("reversescale", &self.reverse_scale, Ghost(table));
        writer.put("showscale", &self.show_scale, Ghost(table));
        writer.put("outliercolor", &self.outlier_color, Ghost(table));
        writer.finish(Ghost(table))
    }
}

/// The keys of error bars differ from one another: each has its own mark.
pub proof fn lemma_error_keys_differ()
    ensures
        mark("type"@) == (4nat, 't', 'e'),
        mark("array"@) == (5nat, 'a', 'y'),
        mark("visible"@) == (7nat, 'v', 'e'),
        mark("symmetric"@) == (9nat, 's', 'c'),
        mark("arrayminus"@) == (10nat, 'a', 's'),
        mark("value"@) == (5nat, 'v', 'e'),
        mark("valueminus"@) == (10nat, 'v', 's'),
        mark("traceref"@) == (8nat, 't', 'f'),
        mark("tracerefminus"@) == (13nat, 't', 's'),
        mark("copy_ystyle"@) == (11nat, 'c', 'e'),
        mark("color"@) == (5nat, 'c', 'r'),
        mark("thickness"@) == (9nat, 't', 's'),
        mark("width"@) == (5nat, 'w', 'h'),
{
    reveal_strlit("type");
    reveal_strlit("array");
    reveal_strlit("visible");
    reveal_strlit("symmetric");
    reveal_strlit("arrayminus");
    reveal_strlit("value");
    reveal_strlit("valueminus");
    reveal_strlit("traceref");
    reveal_strlit("tracerefminus");
    reveal_strlit("copy_ystyle");
    reveal_strlit("color");
    reveal_strlit("thickness");
    reveal_strlit("width");
}

/// The error bars of a trace, along one axis.
#[derive(Clone, Debug)]
pub struct ErrorData {
    error_type: ErrorType,
    array: Option<Vec<serde_json::Number>>,
    visible: Option<bool>,
    symmetric: Option<bool>,
    array_minus: Option<Vec<serde_json::Number>>,
    value: Option<serde_json::Number>,
    value_minus: Option<serde_json::Number>,
    trace_ref: Option<usize>,
    trace_ref_minus: Option<usize>,
    copy_ystyle: Option<bool>,
    color: Option<String>,
    thickness: Option<serde_json::Number>,
    width: Option<usize>,
}

impl ErrorData {
    /// The document that stands under a key: that of the attribute with this
    /// key, where it is set.
    spec fn member(&self, key: Seq<char>) -> Option<Json> {
        if key == "type"@ {
            Some(self.error_type.json())
        } else if key == "array"@ {
            json_option(self.array)
        } else if key == "visible"@ {
            json_option(self.visible)
        } else if key == "symmetric"@ {
            json_option(self.symmetric)
        } else if key == "arrayminus"@ {
            json_option(self.array_minus)
        } else if key == "value"@ {
            json_option(self.value)
        } else if key == "valueminus"@ {
            json_option(self.value_minus)
        } else if key == "traceref"@ {
            json_option(self.trace_ref)
        } else if key == "tracerefminus"@ {
            json_option(self.trace_ref_minus)
        } else if key == "copy_ystyle"@ {
            json_option(self.copy_ystyle)
        } else if key == "color"@ {
            json_option(self.color)
        } else if key == "thickness"@ {
            json_option(self.thickness)
        } else if key == "width"@ {
            json_option(self.width)
        } else {
            None
        }
    }

    /// The table of the members, by key.
    spec fn table(&self) -> spec_fn(Seq<char>) -> Option<Json> {
        |key: Seq<char>| self.member(key)
    }

    /// Error bars of the given kind, with no other attribute set.
    pub fn new(error_type: ErrorType) -> (error: Self)
        ensures
            error@ == Members::empty().insert("type"@, error_type.json()),
    {
        let error = ErrorData {
            error_type,
            array: None,
            visible: None,
            symmetric: None,
            array_minus: None,
            value: None,
            value_minus: None,
            trace_ref: None,
            trace_ref_minus: None,
            copy_ystyle: None,
            color: None,
            thickness: None,
            width: None,
        };
        proof {
            lemma_error_keys_differ();
            assert(error@ =~= Members::empty().insert("type"@, error_type.json()));
        }
        error
    }

    /// Sets the lengths of the error bars, point by point.
    pub fn array(self, array: Vec<serde_json::Number>) -> (error: Self)
        ensures
            error@ == self@.insert("array"@, Json::Array(json_list(array@))),
    {
        let ghost given = Json::Array(json_list(array@));
        let mut error = self;
        error.array = Some(array);
        proof {
            lemma_error_keys_differ();
            assert(error@ =~= self@.insert("array"@, given));
        }
        error
    }

    /// Sets whether the error bars are drawn.
    pub fn visible(self, visible: bool) -> (error: Self)
        ensures
            error@ == self@.insert("visible"@, Json::Bool(visible)),
    {
        let mut error = self;
        error.visible = Some(visible);
        proof {
            lemma_error_keys_differ();
            assert(error@ =~= self@.insert("visible"@, Json::Bool(visible)));
        }
        error
    }

    /// Sets whether the bars have the same length in both directions.
    pub fn symmetric(self, symmetric: bool) -> (error: Self)
        ensures
            error@ == self@.insert("symmetric"@, Json::Bool(symmetric)),
    {
        let mut error = self;
        error.symmetric = Some(symmetric);
        proof {
            lemma_error_keys_differ();
            assert(error@ =~= self@.insert("symmetric"@, Json::Bool(symmetric)));
        }
        error
    }

    /// Sets the lengths of the bars in the negative direction, point by
    /// point.
    pub fn array_minus(self, array_minus: Vec<serde_json::Number>) -> (error: Self)
        ensures
            error@ == self@.insert("arrayminus"@, Json::Array(json_list(array_minus@))),
    {
        let ghost given = Json::Array(json_list(array_minus@));
        let mut error = self;
        error.array_minus = Some(array_minus);
        proof {
            lemma_error_keys_differ();
            assert(error@ =~= self@.insert("arrayminus"@, given));
        }
        error
    }

    /// Sets the length of the bars, as a percentage or a constant.
    pub fn value(self, value: serde_json::Number) -> (error: Self)
        ensures
            error@ == self@.insert("value"@, Json::Number(number_of(value))),
    {
        let ghost given = Json::Number(number_of(value));
        let mut error = self;
        error.value = Some(value);
        proof {
            lemma_error_keys_differ();
            assert(error@ =~= self@.insert("value"@, given));
        }
        error
    }

    /// Sets the length of the bars in the negative direction.
    pub fn value_minus(self, value_minus: serde_json::Number) -> (error: Self)
        ensures
            error@ == self@.insert("valueminus"@, Json::Number(number_of(value_minus))),
    {
        let ghost given = Json::Number(number_of(value_minus));
        let mut error = self;
        error.value_minus = Some(value_minus);
        proof {
            lemma_error_keys_differ();
            assert(error@ =~= self@.insert("valueminus"@, given));
        }
        error
    }

    /// Sets the trace from which the lengths are taken.
    pub fn trace_ref(self, trace_ref: usize) -> (error: Self)
        ensures
            error@ == self@.insert("traceref"@, Json::Number(Num::Integer(trace_ref as int))),
    {
        let mut error = self;
        error.trace_ref = Some(trace_ref);
        proof {
            lemma_error_keys_differ();
            assert(error@ =~= self@.insert(
                "traceref"@,
                Json::Number(Num::Integer(trace_ref as int)),
            ));
        }
        error
    }

    /// Sets the trace from which the lengths in the negative direction are
    /// taken.
    pub fn trace_ref_minus(self, trace_ref_minus: usize) -> (error: Self)
        ensures
            error@ == self@.insert(
                "tracerefminus"@,
                Json::Number(Num::Integer(trace_ref_minus as int)),
            ),
    {
        let mut error = self;
        error.trace_ref_minus = Some(trace_ref_minus);
        proof {
            lemma_error_keys_differ();
            assert(error@ =~= self@.insert(
                "tracerefminus"@,
                Json::Number(Num::Integer(trace_ref_minus as int)),
            ));
        }
        error
    }

    /// Sets whether the horizontal bars are styled as the vertical ones.
    pub fn copy_ystyle(self, copy_ystyle: bool) -> (error: Self)
        ensures
            error@ == self@.insert("copy_ystyle"@, Json::Bool(copy_ystyle)),
    {
        let mut error = self;
        error.copy_ystyle = Some(copy_ystyle);
        proof {
            lemma_error_keys_differ();
            assert(error@ =~= self@.insert("copy_ystyle"@, Json::Bool(copy_ystyle)));
        }
        error
    }

    /// Sets the colour of the error bars.
    pub fn color(self, color: &str) -> (error: Self)
        ensures
            error@ == self@.insert("color"@, Json::Str(color@)),
    {
        let mut error = self;
        error.color = Some(color.to_owned());
        proof {
            lemma_error_keys_differ();
            assert(error@ =~= self@.insert("color"@, Json::Str(color@)));
        }
        error
    }

    /// Sets the thickness of the error bars.
    pub fn thickness(self, thickness: serde_json::Number) -> (error: Self)
        ensures
            error@ == self@.insert("thickness"@, Json::Number(number_of(thickness))),
    {
        let ghost given = Json::Number(number_of(thickness));
        let mut error = self;
        error.thickness = Some(thickness);
        proof {
            lemma_error_keys_differ();
            assert(error@ =~= self@.insert("thickness"@, given));
        }
        error
    }

    /// Sets the width of the caps at the ends of the bars.
    pub fn width(self, width: usize) -> (error: Self)
        ensures
            error@ == self@.insert("width"@, Json::Number(Num::Integer(width as int))),
    {
        let mut error = self;
        error.width = Some(width);
        proof {
            lemma_error_keys_differ();
            assert(error@ =~= self@.insert("width"@, Json::Number(Num::Integer(width as int))));
        }
        error
    }
}

impl View for ErrorData {
    type V = Members;

    /// The members of the object that stands for the error bars.
    closed spec fn view(&self) -> Members {
        members(self.table())
    }
}

impl Encode for ErrorData {
    open spec fn json(&self) -> Json {
        Json::Object(self@)
    }

    fn to_value(&self) -> (value: serde_json::Value) {
        let ghost table = self.table();
        proof {
            lemma_error_keys_differ();
        }
        let mut writer = Writer::new(Ghost(table));
        writer.set("type", &self.error_type, Ghost(table));
        writer.put("array", &self.array, Ghost(table));
        writer.put("visible", &self.visible, Ghost(table));
        writer.put("symmetric", &self.symmetric, Ghost(table));
        writer.put("arrayminus", &self.array_minus, Ghost(table));
        writer.put("value", &self.value, Ghost(table));
        writer.put("valueminus", &self.value_minus, Ghost(table));
        writer.put("traceref", &self.trace_ref, Ghost(table));
        writer.put("tracerefminus", &self.trace_ref_minus, Ghost(table));
        writer.put("copy_ystyle", &self.copy_ystyle, Ghost(table));
        writer.put("color", &self.color, Ghost(table));
        writer.put("thickness", &self.thickness, Ghost(table));
        writer.put("width", &self.width, Ghost(table));
        writer.finish(Ghost(table))
    }
}

} // verus!
