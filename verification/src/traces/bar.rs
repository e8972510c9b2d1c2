//! The bar trace.

use crate::common::{
    Calendar, ConstrainText, Dim, ErrorData, Font, HoverInfo, Label, Marker, Orientation, PlotType,
    TextAnchor, TextPosition, Visible,
};
use crate::encode::{json_list, json_option, Encode};
use crate::json::{number_of, written_of, Json, Num};
use crate::object::{mark, members, Members, Writer};
use crate::private::owned_string_vector;
use crate::trace::{to_json, EncodeError, Trace};
use vstd::prelude::*;

verus! {

/// The keys of a bar trace differ from one another: each has its own mark.
pub proof fn lemma_bar_keys_differ()
    ensures
        mark("type"@) == (4nat, 't', 'e'),
        mark("x"@) == (1nat, 'x', 'x'),
        mark("y"@) == (1nat, 'y', 'y'),
        mark("name"@) == (4nat, 'n', 'e'),
        mark("visible"@) == (7nat, 'v', 'e'),
        mark("showlegend"@) == (10nat, 's', 'd'),
        mark("legendgroup"@) == (11nat, 'l', 'p'),
        mark("opacity"@) == (7nat, 'o', 'y'),
        mark("ids"@) == (3nat, 'i', 's'),
        mark("width"@) == (5nat, 'w', 'h'),
        mark("offset"@) == (6nat, 'o', 't'),
        mark("text"@) == (4nat, 't', 't'),
        mark("textposition"@) == (12nat, 't', 'n'),
        mark("texttemplate"@) == (12nat, 't', 'e'),
        mark("hovertext"@) == (9nat, 'h', 't'),
        mark("hoverinfo"@) == (9nat, 'h', 'o'),
        mark("hovertemplate"@) == (13nat, 'h', 'e'),
        mark("xaxis"@) == (5nat, 'x', 's'),
        mark("yaxis"@) == (5nat, 'y', 's'),
        mark("orientation"@) == (11nat, 'o', 'n'),
        mark("alignmentgroup"@) == (14nat, 'a', 'p'),
        mark("offsetgroup"@) == (11nat, 'o', 'p'),
        mark("marker"@) == (6nat, 'm', 'r'),
        mark("textangle"@) == (9nat, 't', 'e'),
        mark("textfont"@) == (8nat, 't', 't'),
        mark("error_x"@) == (7nat, 'e', 'x'),
        mark("error_y"@) == (7nat, 'e', 'y'),
        mark("cliponaxis"@) == (10nat, 'c', 's'),
        mark("constraintext"@) == (13nat, 'c', 't'),
        mark("hoverlabel"@) == (10nat, 'h', 'l'),
        mark("insidetextanchor"@) == (16nat, 'i', 'r'),
        mark("insidetextfont"@) == (14nat, 'i', 't'),
        mark("outsidetextfont"@) == (15nat, 'o', 't'),
        mark("xcalendar"@) == (9nat, 'x', 'r'),
        mark("ycalendar"@) == (9nat, 'y', 'r'),
{
    reveal_strlit("type");
    reveal_strlit("x");
    reveal_strlit("y");
    reveal_strlit("name");
    reveal_strlit("visible");
    reveal_strlit("showlegend");
    reveal_strlit("legendgroup");
    reveal_strlit("opacity");
    reveal_strlit("ids");
    reveal_strlit("width");
    reveal_strlit("offset");
    reveal_strlit("text");
    reveal_strlit("textposition");
    reveal_strlit("texttemplate");
    reveal_strlit("hovertext");
    reveal_strlit("hoverinfo");
    reveal_strlit("hovertemplate");
    reveal_strlit("xaxis");
    reveal_strlit("yaxis");
    reveal_strlit("orientation");
    reveal_strlit("alignmentgroup");
    reveal_strlit("offsetgroup");
    reveal_strlit("marker");
    reveal_strlit("textangle");
    reveal_strlit("textfont");
    reveal_strlit("error_x");
    reveal_strlit("error_y");
    reveal_strlit("cliponaxis");
    reveal_strlit("constraintext");
    reveal_strlit("hoverlabel");
    reveal_strlit("insidetextanchor");
    reveal_strlit("insidetextfont");
    reveal_strlit("outsidetextfont");
    reveal_strlit("xcalendar");
    reveal_strlit("ycalendar");
}

/// A bar trace: one bar for each point, from the base line to the point's
/// value. The trace is built from its data by `new` and its attributes are
/// set one at a time, each by the setter of its name. An attribute that is
/// set twice holds what was set last.
#[derive(Clone, Debug)]
pub struct Bar<X, Y> {
    x: Option<Vec<X>>,
    y: Option<Vec<Y>>,
    name: Option<String>,
    visible: Option<Visible>,
    show_legend: Option<bool>,
    legend_group: Option<String>,
    opacity: Option<serde_json::Number>,
    ids: Option<Vec<String>>,
    width: Option<usize>,
    offset: Option<Dim<usize>>,
    text: Option<Dim<String>>,
    text_position: Option<Dim<TextPosition>>,
    text_template: Option<Dim<String>>,
    hover_text: Option<Dim<String>>,
    hover_info: Option<HoverInfo>,
    hover_template: Option<Dim<String>>,
    x_axis: Option<String>,
    y_axis: Option<String>,
    orientation: Option<Orientation>,
    alignment_group: Option<String>,
    offset_group: Option<String>,
    marker: Option<Marker>,
    text_angle: Option<serde_json::Number>,
    text_font: Option<Font>,
    error_x: Option<ErrorData>,
    error_y: Option<ErrorData>,
    clip_on_axis: Option<bool>,
    constrain_text: Option<ConstrainText>,
    hover_label: Option<Label>,
    inside_text_anchor: Option<TextAnchor>,
    inside_text_font: Option<Font>,
    outside_text_font: Option<Font>,
    x_calendar: Option<Calendar>,
    y_calendar: Option<Calendar>,
}

impl<X: Encode, Y: Encode> Bar<X, Y> {
    /// The document that stands under a key: that of the attribute with this
    /// key, where it is set.
    spec fn member(&self, key: Seq<char>) -> Option<Json> {
        if key == "type"@ {
            Some(PlotType::Bar.json())
        } else if key == "x"@ {
            json_option(self.x)
        } else if key == "y"@ {
            json_option(self.y)
        } else if key == "name"@ {
            json_option(self.name)
        } else if key == "visible"@ {
            json_option(self.visible)
        } else if key == "showlegend"@ {
            json_option(self.show_legend)
        } else if key == "legendgroup"@ {
            json_option(self.legend_group)
        } else if key == "opacity"@ {
            json_option(self.opacity)
        } else if key == "ids"@ {
            json_option(self.ids)
        } else if key == "width"@ {
            json_option(self.width)
        } else if key == "offset"@ {
            json_option(self.offset)
        } else if key == "text"@ {
            json_option(self.text)
        } else if key == "textposition"@ {
            json_option(self.text_position)
        } else if key == "texttemplate"@ {
            json_option(self.text_template)
        } else if key == "hovertext"@ {
            json_option(self.hover_text)
        } else if key == "hoverinfo"@ {
            json_option(self.hover_info)
        } else if key == "hovertemplate"@ {
            json_option(self.hover_template)
        } else if key == "xaxis"@ {
            json_option(self.x_axis)
        } else if key == "yaxis"@ {
            json_option(self.y_axis)
        } else if key == "orientation"@ {
            json_option(self.orientation)
        } else if key == "alignmentgroup"@ {
            json_option(self.alignment_group)
        } else if key == "offsetgroup"@ {
            json_option(self.offset_group)
        } else if key == "marker"@ {
            json_option(self.marker)
        } else if key == "textangle"@ {
            json_option(self.text_angle)
        } else if key == "textfont"@ {
            json_option(self.text_font)
        } else if key == "error_x"@ {
            json_option(self.error_x)
        } else if key == "error_y"@ {
            json_option(self.error_y)
        } else if key == "cliponaxis"@ {
            json_option(self.clip_on_axis)
        } else if key == "constraintext"@ {
            json_option(self.constrain_text)
        } else if key == "hoverlabel"@ {
            json_option(self.hover_label)
        } else if key == "insidetextanchor"@ {
            json_option(self.inside_text_anchor)
        } else if key == "insidetextfont"@ {
            json_option(self.inside_text_font)
        } else if key == "outsidetextfont"@ {
            json_option(self.outside_text_font)
        } else if key == "xcalendar"@ {
            json_option(self.x_calendar)
        } else if key == "ycalendar"@ {
            json_option(self.y_calendar)
        } else {
            None
        }
    }

    /// The table of the members, by key.
    spec fn table(&self) -> spec_fn(Seq<char>) -> Option<Json> {
        |key: Seq<char>| self.member(key)
    }

    /// A bar trace of the given data, with no attribute set: its document
    /// holds the kind and the two lists of data, and no other key.
    pub fn new(x: Vec<X>, y: Vec<Y>) -> (bar: Box<Self>)
        ensures
            bar@ == Members::empty().insert("type"@, Json::Str("bar"@)).insert(
                "x"@,
                Json::Array(json_list(x@)),
            ).insert("y"@, Json::Array(json_list(y@))),
            bar@.dom() == set!["type"@, "x"@, "y"@],
    {
        let ghost first = Json::Array(json_list(x@));
        let ghost second = Json::Array(json_list(y@));
        let mut bar: Bar<X, Y> = Bar::default();
        let ghost bare = bar@;
        bar.x = Some(x);
        bar.y = Some(y);
        proof {
            lemma_bar_keys_differ();
            assert(bar@ =~= bare.insert("x"@, first).insert("y"@, second));
            assert(bar@.dom() =~= set!["type"@, "x"@, "y"@]);
        }
        Box::new(bar)
    }

    /// Sets the alignment group of the trace: bars of one group are aligned
    /// at the same position.
    pub fn alignment_group(self, alignment_group: &str) -> (bar: Box<Self>)
        ensures
            bar@ == self@.insert("alignmentgroup"@, Json::Str(alignment_group@)),
    {
        let mut bar = self;
        bar.alignment_group = Some(alignment_group.to_owned());
        proof {
            lemma_bar_keys_differ();
            assert(bar@ =~= self@.insert("alignmentgroup"@, Json::Str(alignment_group@)));
        }
        Box::new(bar)
    }

    /// Sets whether the text is clipped at the axes.
    pub fn clip_on_axis(self, clip_on_axis: bool) -> (bar: Box<Self>)
        ensures
            bar@ == self@.insert("cliponaxis"@, Json::Bool(clip_on_axis)),
    {
        let mut bar = self;
        bar.clip_on_axis = Some(clip_on_axis);
        proof {
            lemma_bar_keys_differ();
            assert(bar@ =~= self@.insert("cliponaxis"@, Json::Bool(clip_on_axis)));
        }
        Box::new(bar)
    }

    /// Sets whether the text is scaled down to fit its bar.
    pub fn constrain_text(self, constrain_text: ConstrainText) -> (bar: Box<Self>)
        ensures
            bar@ == self@.insert("constraintext"@, constrain_text.json()),
    {
        let mut bar = self;
        bar.constrain_text = Some(constrain_text);
        proof {
            lemma_bar_keys_differ();
            assert(bar@ =~= self@.insert("constraintext"@, constrain_text.json()));
        }
        Box::new(bar)
    }

    /// Sets the horizontal error bars.
    pub fn error_x(self, error_x: ErrorData) -> (bar: Box<Self>)
        ensures
            bar@ == self@.insert("error_x"@, error_x.json()),
    {
        let ghost given = error_x.json();
        let mut bar = self;
        bar.error_x = Some(error_x);
        proof {
            lemma_bar_keys_differ();
            assert(bar@ =~= self@.insert("error_x"@, given));
        }
        Box::new(bar)
    }

    /// Sets the vertical error bars.
    pub fn error_y(self, error_y: ErrorData) -> (bar: Box<Self>)
        ensures
            bar@ == self@.insert("error_y"@, error_y.json()),
    {
        let ghost given = error_y.json();
        let mut bar = self;
        bar.error_y = Some(error_y);
        proof {
            lemma_bar_keys_differ();
            assert(bar@ =~= self@.insert("error_y"@, given));
        }
        Box::new(bar)
    }

    /// Sets which parts of a point are shown on hover.
    pub fn hover_info(self, hover_info: HoverInfo) -> (bar: Box<Self>)
        ensures
            bar@ == self@.insert("hoverinfo"@, hover_info.json()),
    {
        let mut bar = self;
        bar.hover_info = Some(hover_info);
        proof {
            lemma_bar_keys_differ();
            assert(bar@ =~= self@.insert("hoverinfo"@, hover_info.json()));
        }
        Box::new(bar)
    }

    /// Sets the look of the hover box.
    pub fn hover_label(self, hover_label: Label) -> (bar: Box<Self>)
        ensures
            bar@ == self@.insert("hoverlabel"@, hover_label.json()),
    {
        let ghost given = hover_label.json();
        let mut bar = self;
        bar.hover_label = Some(hover_label);
        proof {
            lemma_bar_keys_differ();
            assert(bar@ =~= self@.insert("hoverlabel"@, given));
        }
        Box::new(bar)
    }

    /// Sets one template for the hover box of all points.
    pub fn hover_template(self, hover_template: &str) -> (bar: Box<Self>)
        ensures
            bar@ == self@.insert("hovertemplate"@, Json::Str(hover_template@)),
    {
        let mut bar = self;
        bar.hover_template = Some(Dim::Scalar(hover_template.to_owned()));
        proof {
            lemma_bar_keys_differ();
            assert(bar@ =~= self@.insert("hovertemplate"@, Json::Str(hover_template@)));
        }
        Box::new(bar)
    }

    /// Sets the templates for the hover box, point by point.
    pub fn hover_template_array(self, hover_template: Vec<&str>) -> (bar: Box<Self>)
        ensures
            bar@ == self@.insert("hovertemplate"@, Json::Array(json_list(hover_template@))),
    {
        let ghost given = Json::Array(json_list(hover_template@));
        let mut bar = self;
        bar.hover_template = Some(Dim::Vector(owned_string_vector(hover_template)));
        proof {
            lemma_bar_keys_differ();
            assert(bar@ =~= self@.insert("hovertemplate"@, given));
        }
        Box::new(bar)
    }

    /// Sets one hover text for all points.
    pub fn hover_text(self, hover_text: &str) -> (bar: Box<Self>)
        ensures
            bar@ == self@.insert("hovertext"@, Json::Str(hover_text@)),
    {
        let mut bar = self;
        bar.hover_text = Some(Dim::Scalar(hover_text.to_owned()));
        proof {
            lemma_bar_keys_differ();
            assert(bar@ =~= self@.insert("hovertext"@, Json::Str(hover_text@)));
        }
        Box::new(bar)
    }

    /// Sets the hover texts, point by point.
    pub fn hover_text_array(self, hover_text: Vec<&str>) -> (bar: Box<Self>)
        ensures
            bar@ == self@.insert("hovertext"@, Json::Array(json_list(hover_text@))),
    {
        let ghost given = Json::Array(json_list(hover_text@));
        let mut bar = self;
        bar.hover_text = Some(Dim::Vector(owned_string_vector(hover_text)));
        proof {
            lemma_bar_keys_differ();
            assert(bar@ =~= self@.insert("hovertext"@, given));
        }
        Box::new(bar)
    }

    /// Gives each point an identifier, by which the renderer follows it
    /// through changes of the data.
    pub fn ids(self, ids: Vec<&str>) -> (bar: Box<Self>)
        ensures
            bar@ == self@.insert("ids"@, Json::Array(json_list(ids@))),
    {
        let ghost given = Json::Array(json_list(ids@));
        let mut bar = self;
        bar.ids = Some(owned_string_vector(ids));
        proof {
            lemma_bar_keys_differ();
            assert(bar@ =~= self@.insert("ids"@, given));
        }
        Box::new(bar)
    }

    /// Sets the end of the bar at which inside text is anchored.
    pub fn inside_text_anchor(self, inside_text_anchor: TextAnchor) -> (bar: Box<Self>)
        ensures
            bar@ == self@.insert("insidetextanchor"@, inside_text_anchor.json()),
    {
        let mut bar = self;
        bar.inside_text_anchor = Some(inside_text_anchor);
        proof {
            lemma_bar_keys_differ();
            assert(bar@ =~= self@.insert("insidetextanchor"@, inside_text_anchor.json()));
        }
        Box::new(bar)
    }

    /// Sets the font of text that stands inside the bars.
    pub fn inside_text_font(self, inside_text_font: Font) -> (bar: Box<Self>)
        ensures
            bar@ == self@.insert("insidetextfont"@, inside_text_font.json()),
    {
        let ghost given = inside_text_font.json();
        let mut bar = self;
        bar.inside_text_font = Some(inside_text_font);
        proof {
            lemma_bar_keys_differ();
            assert(bar@ =~= self@.insert("insidetextfont"@, given));
        }
        Box::new(bar)
    }

    /// Sets the legend group of the trace: traces of one group are shown and
    /// hidden together.
    pub fn legend_group(self, legend_group: &str) -> (bar: Box<Self>)
        ensures
            bar@ == self@.insert("legendgroup"@, Json::Str(legend_group@)),
    {
        let mut bar = self;
        bar.legend_group = Some(legend_group.to_owned());
        proof {
            lemma_bar_keys_differ();
            assert(bar@ =~= self@.insert("legendgroup"@, Json::Str(legend_group@)));
        }
        Box::new(bar)
    }

    /// Sets how the bars are drawn.
    pub fn marker(self, marker: Marker) -> (bar: Box<Self>)
        ensures
            bar@ == self@.insert("marker"@, marker.json()),
    {
        let ghost given = marker.json();
        let mut bar = self;
        bar.marker = Some(marker);
        proof {
            lemma_bar_keys_differ();
            assert(bar@ =~= self@.insert("marker"@, given));
        }
        Box::new(bar)
    }

    /// Sets the name of the trace, which is shown in the legend and on hover.
    pub fn name(self, name: &str) -> (bar: Box<Self>)
        ensures
            bar@ == self@.insert("name"@, Json::Str(name@)),
    {
        let mut bar = self;
        bar.name = Some(name.to_owned());
        proof {
            lemma_bar_keys_differ();
            assert(bar@ =~= self@.insert("name"@, Json::Str(name@)));
        }
        Box::new(bar)
    }

    /// Sets whether the trace has an entry in the legend.
    pub fn show_legend(self, show_legend: bool) -> (bar: Box<Self>)
        ensures
            bar@ == self@.insert("showlegend"@, Json::Bool(show_legend)),
    {
        let mut bar = self;
        bar.show_legend = Some(show_legend);
        proof {
            lemma_bar_keys_differ();
            assert(bar@ =~= self@.insert("showlegend"@, Json::Bool(show_legend)));
        }
        Box::new(bar)
    }

    /// Sets one text for all points.
    pub fn text(self, text: &str) -> (bar: Box<Self>)
        ensures
            bar@ == self@.insert("text"@, Json::Str(text@)),
    {
        let mut bar = self;
        bar.text = Some(Dim::Scalar(text.to_owned()));
        proof {
            lemma_bar_keys_differ();
            assert(bar@ =~= self@.insert("text"@, Json::Str(text@)));
        }
        Box::new(bar)
    }

    /// Sets the texts of the points, point by point.
    pub fn text_array(self, text: Vec<&str>) -> (bar: Box<Self>)
        ensures
            bar@ == self@.insert("text"@, Json::Array(json_list(text@))),
    {
        let ghost given = Json::Array(json_list(text@));
        let mut bar = self;
        bar.text = Some(Dim::Vector(owned_string_vector(text)));
        proof {
            lemma_bar_keys_differ();
            assert(bar@ =~= self@.insert("text"@, given));
        }
        Box::new(bar)
    }

    /// Sets the angle of the text, in degrees.
    pub fn text_angle(self, text_angle: serde_json::Number) -> (bar: Box<Self>)
        ensures
            bar@ == self@.insert("textangle"@, Json::Number(number_of(text_angle))),
    {
        let ghost given = Json::Number(number_of(text_angle));
        let mut bar = self;
        bar.text_angle = Some(text_angle);
        proof {
            lemma_bar_keys_differ();
            assert(bar@ =~= self@.insert("textangle"@, given));
        }
        Box::new(bar)
    }

    /// Sets where the text of every point stands.
    pub fn text_position(self, text_position: TextPosition) -> (bar: Box<Self>)
        ensures
            bar@ == self@.insert("textposition"@, text_position.json()),
    {
        let mut bar = self;
        bar.text_position = Some(Dim::Scalar(text_position));
        proof {
            lemma_bar_keys_differ();
            assert(bar@ =~= self@.insert("textposition"@, text_position.json()));
        }
        Box::new(bar)
    }

    /// Sets where the text stands, point by point.
    pub fn text_position_array(self, text_position: Vec<TextPosition>) -> (bar: Box<Self>)
        ensures
            bar@ == self@.insert("textposition"@, Json::Array(json_list(text_position@))),
    {
        let ghost given = Json::Array(json_list(text_position@));
        let mut bar = self;
        bar.text_position = Some(Dim::Vector(text_position));
        proof {
            lemma_bar_keys_differ();
            assert(bar@ =~= self@.insert("textposition"@, given));
        }
        Box::new(bar)
    }

    /// Sets one template for the text of all points.
    pub fn text_template(self, text_template: &str) -> (bar: Box<Self>)
        ensures
            bar@ == self@.insert("texttemplate"@, Json::Str(text_template@)),
    {
        let mut bar = self;
        bar.text_template = Some(Dim::Scalar(text_template.to_owned()));
        proof {
            lemma_bar_keys_differ();
            assert(bar@ =~= self@.insert("texttemplate"@, Json::Str(text_template@)));
        }
        Box::new(bar)
    }

    /// Sets the templates for the text, point by point.
    pub fn text_template_array(self, text_template: Vec<&str>) -> (bar: Box<Self>)
        ensures
            bar@ == self@.insert("texttemplate"@, Json::Array(json_list(text_template@))),
    {
        let ghost given = Json::Array(json_list(text_template@));
        let mut bar = self;
        bar.text_template = Some(Dim::Vector(owned_string_vector(text_template)));
        proof {
            lemma_bar_keys_differ();
            assert(bar@ =~= self@.insert("texttemplate"@, given));
        }
        Box::new(bar)
    }

    /// Shifts all bars by the same offset along the position axis.
    pub fn offset(self, offset: usize) -> (bar: Box<Self>)
        ensures
            bar@ == self@.insert("offset"@, Json::Number(Num::Integer(offset as int))),
    {
        let mut bar = self;
        bar.offset = Some(Dim::Scalar(offset));
        proof {
            lemma_bar_keys_differ();
            assert(bar@ =~= self@.insert("offset"@, Json::Number(Num::Integer(offset as int))));
        }
        Box::new(bar)
    }

    /// Shifts the bars along the position axis, point by point.
    pub fn offset_array(self, offset: Vec<usize>) -> (bar: Box<Self>)
        ensures
            bar@ == self@.insert("offset"@, Json::Array(json_list(offset@))),
    {
        let ghost given = Json::Array(json_list(offset@));
        let mut bar = self;
        bar.offset = Some(Dim::Vector(offset));
        proof {
            lemma_bar_keys_differ();
            assert(bar@ =~= self@.insert("offset"@, given));
        }
        Box::new(bar)
    }

    /// Sets the offset group of the trace: bars of one group share one place
    /// at each position.
    pub fn offset_group(self, offset_group: &str) -> (bar: Box<Self>)
        ensures
            bar@ == self@.insert("offsetgroup"@, Json::Str(offset_group@)),
    {
        let mut bar = self;
        bar.offset_group = Some(offset_group.to_owned());
        proof {
            lemma_bar_keys_differ();
            assert(bar@ =~= self@.insert("offsetgroup"@, Json::Str(offset_group@)));
        }
        Box::new(bar)
    }

    /// Sets how opaque the trace is.
    pub fn opacity(self, opacity: serde_json::Number) -> (bar: Box<Self>)
        ensures
            bar@ == self@.insert("opacity"@, Json::Number(number_of(opacity))),
    {
        let ghost given = Json::Number(number_of(opacity));
        let mut bar = self;
        bar.opacity = Some(opacity);
        proof {
            lemma_bar_keys_differ();
            assert(bar@ =~= self@.insert("opacity"@, given));
        }
        Box::new(bar)
    }

    /// Sets the direction in which the bars run.
    pub fn orientation(self, orientation: Orientation) -> (bar: Box<Self>)
        ensures
            bar@ == self@.insert("orientation"@, orientation.json()),
    {
        let mut bar = self;
        bar.orientation = Some(orientation);
        proof {
            lemma_bar_keys_differ();
            assert(bar@ =~= self@.insert("orientation"@, orientation.json()));
        }
        Box::new(bar)
    }

    /// Sets the font of text that stands outside the bars.
    pub fn outside_text_font(self, outside_text_font: Font) -> (bar: Box<Self>)
        ensures
            bar@ == self@.insert("outsidetextfont"@, outside_text_font.json()),
    {
        let ghost given = outside_text_font.json();
        let mut bar = self;
        bar.outside_text_font = Some(outside_text_font);
        proof {
            lemma_bar_keys_differ();
            assert(bar@ =~= self@.insert("outsidetextfont"@, given));
        }
        Box::new(bar)
    }

    /// Sets the font of the text.
    pub fn text_font(self, text_font: Font) -> (bar: Box<Self>)
        ensures
            bar@ == self@.insert("textfont"@, text_font.json()),
    {
        let ghost given = text_font.json();
        let mut bar = self;
        bar.text_font = Some(text_font);
        proof {
            lemma_bar_keys_differ();
            assert(bar@ =~= self@.insert("textfont"@, given));
        }
        Box::new(bar)
    }

    /// Sets whether the trace is drawn.
    pub fn visible(self, visible: Visible) -> (bar: Box<Self>)
        ensures
            bar@ == self@.insert("visible"@, visible.json()),
    {
        let mut bar = self;
        bar.visible = Some(visible);
        proof {
            lemma_bar_keys_differ();
            assert(bar@ =~= self@.insert("visible"@, visible.json()));
        }
        Box::new(bar)
    }

    /// Sets the width of the bars.
    pub fn width(self, width: usize) -> (bar: Box<Self>)
        ensures
            bar@ == self@.insert("width"@, Json::Number(Num::Integer(width as int))),
    {
        let mut bar = self;
        bar.width = Some(width);
        proof {
            lemma_bar_keys_differ();
            assert(bar@ =~= self@.insert("width"@, Json::Number(Num::Integer(width as int))));
        }
        Box::new(bar)
    }

    /// Sets the horizontal axis that the trace is drawn against.
    pub fn x_axis(self, axis: &str) -> (bar: Box<Self>)
        ensures
            bar@ == self@.insert("xaxis"@, Json::Str(axis@)),
    {
        let mut bar = self;
        bar.x_axis = Some(axis.to_owned());
        proof {
            lemma_bar_keys_differ();
            assert(bar@ =~= self@.insert("xaxis"@, Json::Str(axis@)));
        }
        Box::new(bar)
    }

    /// Sets the calendar by which the dates of the horizontal axis are read.
    pub fn x_calendar(self, x_calendar: Calendar) -> (bar: Box<Self>)
        ensures
            bar@ == self@.insert("xcalendar"@, x_calendar.json()),
    {
        let mut bar = self;
        bar.x_calendar = Some(x_calendar);
        proof {
            lemma_bar_keys_differ();
            assert(bar@ =~= self@.insert("xcalendar"@, x_calendar.json()));
        }
        Box::new(bar)
    }

    /// Sets the vertical axis that the trace is drawn against.
    pub fn y_axis(self, axis: &str) -> (bar: Box<Self>)
        ensures
            bar@ == self@.insert("yaxis"@, Json::Str(axis@)),
    {
        let mut bar = self;
        bar.y_axis = Some(axis.to_owned());
        proof {
            lemma_bar_keys_differ();
            assert(bar@ =~= self@.insert("yaxis"@, Json::Str(axis@)));
        }
        Box::new(bar)
    }

    /// Sets the calendar by which the dates of the vertical axis are read.
    pub fn y_calendar(self, y_calendar: Calendar) -> (bar: Box<Self>)
        ensures
            bar@ == self@.insert("ycalendar"@, y_calendar.json()),
    {
        let mut bar = self;
        bar.y_calendar = Some(y_calendar);
        proof {
            lemma_bar_keys_differ();
            assert(bar@ =~= self@.insert("ycalendar"@, y_calendar.json()));
        }
        Box::new(bar)
    }
}

impl<X: Encode, Y: Encode> Default for Bar<X, Y> {
    /// A bar trace without data and with no attribute set: its document
    /// holds the kind and no other key.
    fn default() -> (bar: Self)
        ensures
            bar@ == Members::empty().insert("type"@, Json::Str("bar"@)),
            bar@.dom() == set!["type"@],
    {
        let bar = Bar {
            x: None,
            y: None,
            name: None,
            visible: None,
            show_legend: None,
            legend_group: None,
            opacity: None,
            ids: None,
            width: None,
            offset: None,
            text: None,
            text_position: None,
            text_template: None,
            hover_text: None,
            hover_info: None,
            hover_template: None,
            x_axis: None,
            y_axis: None,
            orientation: None,
            alignment_group: None,
            offset_group: None,
            marker: None,
            text_angle: None,
            text_font: None,
            error_x: None,
            error_y: None,
            clip_on_axis: None,
            constrain_text: None,
            hover_label: None,
            inside_text_anchor: None,
            inside_text_font: None,
            outside_text_font: None,
            x_calendar: None,
            y_calendar: None,
        };
        proof {
            lemma_bar_keys_differ();
            assert(bar@ =~= Members::empty().insert("type"@, Json::Str("bar"@)));
            assert(bar@.dom() =~= set!["type"@]);
        }
        bar
    }
}

impl<X: Encode, Y: Encode> View for Bar<X, Y> {
    type V = Members;

    /// The members of the object that stands for the trace.
    closed spec fn view(&self) -> Members {
        members(self.table())
    }
}

impl<X: Encode, Y: Encode> Encode for Bar<X, Y> {
    open spec fn json(&self) -> Json {
        Json::Object(self@)
    }

    fn to_value(&self) -> (value: serde_json::Value) {
        let ghost table = self.table();
        proof {
            lemma_bar_keys_differ();
        }
        let mut writer = Writer::new(Ghost(table));
        writer.set("type", &PlotType::Bar, Ghost(table));
        writer.put("x", &self.x, Ghost(table));
        writer.put("y", &self.y, Ghost(table));
        writer.put("name", &self.name, Ghost(table));
        writer.put("visible", &self.visible, Ghost(table));
        writer.put("showlegend", &self.show_legend, Ghost(table));
        writer.put("legendgroup", &self.legend_group, Ghost(table));
        writer.put("opacity", &self.opacity, Ghost(table));
        writer.put("ids", &self.ids, Ghost(table));
        writer.put("width", &self.width, Ghost(table));
        writer.put("offset", &self.offset, Ghost(table));
        writer.put("text", &self.text, Ghost(table));
        writer.put("textposition", &self.text_position, Ghost(table));
        writer.put("texttemplate", &self.text_template, Ghost(table));
        writer.put("hovertext", &self.hover_text, Ghost(table));
        writer.put("hoverinfo", &self.hover_info, Ghost(table));
        writer.put("hovertemplate", &self.hover_template, Ghost(table));
        writer.put("xaxis", &self.x_axis, Ghost(table));
        writer.put("yaxis", &self.y_axis, Ghost(table));
        writer.put("orientation", &self.orientation, Ghost(table));
        writer.put("alignmentgroup", &self.alignment_group, Ghost(table));
        writer.put("offsetgroup", &self.offset_group, Ghost(table));
        writer.put("marker", &self.marker, Ghost(table));
        writer.put("textangle", &self.text_angle, Ghost(table));
        writer.put("textfont", &self.text_font, Ghost(table));
        writer.put("error_x", &self.error_x, Ghost(table));
        writer.put("error_y", &self.error_y, Ghost(table));
        writer.put("cliponaxis", &self.clip_on_axis, Ghost(table));
        writer.put("constraintext", &self.constrain_text, Ghost(table));
        writer.put("hoverlabel", &self.hover_label, Ghost(table));
        writer.put("insidetextanchor", &self.inside_text_anchor, Ghost(table));
        writer.put("insidetextfont", &self.inside_text_font, Ghost(table));
        writer.put("outsidetextfont", &self.outside_text_font, Ghost(table));
        writer.put("xcalendar", &self.x_calendar, Ghost(table));
        writer.put("ycalendar", &self.y_calendar, Ghost(table));
        writer.finish(Ghost(table))
    }
}

impl<X: Encode, Y: Encode> Trace for Bar<X, Y> {
    fn to_json(&self) -> (text: Result<String, EncodeError>) {
        to_json(self)
    }
}

/// The keys that a bar trace can hold.
pub open spec fn wire_keys() -> Set<Seq<char>> {
    set![
        "type"@,
        "x"@,
        "y"@,
        "name"@,
        "visible"@,
        "showlegend"@,
        "legendgroup"@,
        "opacity"@,
        "ids"@,
        "width"@,
        "offset"@,
        "text"@,
        "textposition"@,
        "texttemplate"@,
        "hovertext"@,
        "hoverinfo"@,
        "hovertemplate"@,
        "xaxis"@,
        "yaxis"@,
        "orientation"@,
        "alignmentgroup"@,
        "offsetgroup"@,
        "marker"@,
        "textangle"@,
        "textfont"@,
        "error_x"@,
        "error_y"@,
        "cliponaxis"@,
        "constraintext"@,
        "hoverlabel"@,
        "insidetextanchor"@,
        "insidetextfont"@,
        "outsidetextfont"@,
        "xcalendar"@,
        "ycalendar"@,
    ]
}

/// Every bar trace holds its kind, `bar`, under the key `type`: the kind is
/// there from the start and no setter changes it.
pub proof fn lemma_kind_is_kept<X: Encode, Y: Encode>(bar: Bar<X, Y>)
    ensures
        bar@.contains_key("type"@),
        bar@["type"@] == Json::Str("bar"@),
{
    lemma_bar_keys_differ();
}

/// A bar trace holds no key but the keys of its attributes: an attribute
/// that is not set has no key, and nothing else has one.
pub proof fn lemma_keys_are_wire_keys<X: Encode, Y: Encode>(bar: Bar<X, Y>)
    ensures
        bar@.dom().subset_of(wire_keys()),
{
    assert forall|key: Seq<char>| bar@.dom().contains(key) implies wire_keys().contains(key) by {
        assert(bar.member(key) is Some);
    }
}

/// Traces with the same members are encoded as the same document, and
/// for that document the writer gives the same text.
pub proof fn lemma_same_trace_same_document<X: Encode, Y: Encode>(one: Bar<X, Y>, other: Bar<X, Y>)
    requires
        one@ == other@,
    ensures
        one.json() == other.json(),
        written_of(one.json()) == written_of(other.json()),
{
}

} // verus!
