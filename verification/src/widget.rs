//! Widget nodes: what is to be shown in which region of the screen.
//!
//! A node is a description, not a drawing: the text, its alignment and
//! colours, whether a border with a title goes round it, and the region it
//! belongs to.

use crate::area::ScreenArea;
use crate::text::ValueText;
use vstd::prelude::*;

verus! {

/// Where a line of text sits between the left and the right edge.
#[derive(Clone, Copy, Debug, PartialEq, Eq, Structural)]
pub enum Alignment {
    Left,
    Center,
    Right,
}

/// A foreground colour.
#[derive(Clone, Copy, Debug, PartialEq, Eq, Structural)]
pub enum Color {
    DarkGray,
    Yellow,
}

/// A run of text in one weight.
#[derive(Clone, Copy, Debug, PartialEq, Eq)]
pub struct Span {
    pub text: &'static str,
    pub bold: bool,
}

/// A span as a value of mathematics.
pub struct SpanView {
    pub text: Seq<char>,
    pub bold: bool,
}

impl View for Span {
    type V = SpanView;

    open spec fn view(&self) -> SpanView {
        SpanView { text: self.text@, bold: self.bold }
    }
}

/// A character that is drawn as one cell of its own: a printable character
/// of Latin-1, the no-break space and the soft hyphen left out.
pub open spec fn printable_char(c: char) -> bool {
    0x20 <= (c as u32) <= 0x7e || 0xa1 <= (c as u32) <= 0xac || 0xae <= (c as u32) <= 0xff
}

/// A text made of printable characters alone.
///
/// Drawing needs less than this: that each character is a grapheme cluster
/// by itself, one cell wide, measured the same alone and next to its
/// neighbours. Many characters beyond Latin-1 meet that too. They are left
/// out all the same, because nothing short of the tables of the width and
/// segmentation crates says which do; a text with any of them is refused,
/// not drawn.
pub open spec fn printable(text: Seq<char>) -> bool {
    forall|i: int| 0 <= i < text.len() ==> printable_char(#[trigger] text[i])
}

/// Whether a text is made of printable characters alone.
pub fn is_printable(text: &str) -> (yes: bool)
    ensures
        yes == printable(text@),
{
    let mut yes = true;
    for c in it: text.chars()
        invariant
            it.seq() == text@,
            yes == (forall|j: int| 0 <= j < it.index() ==> printable_char(#[trigger] it.seq()[j])),
    {
        let code: u32 = c as u32;
        let fits = 0x20 <= code && code <= 0x7e || 0xa1 <= code && code <= 0xac || 0xae <= code
            && code <= 0xff;
        if !fits {
            yes = false;
        }
    }
    yes
}

/// The text inside a panel: fixed, or a formatted value in its bounded
/// buffer.
#[derive(Debug, PartialEq, Eq)]
pub enum Text {
    Fixed(&'static str),
    Value(ValueText),
}

impl View for Text {
    type V = Seq<char>;

    open spec fn view(&self) -> Seq<char> {
        match self {
            Text::Fixed(s) => s@,
            Text::Value(v) => v@,
        }
    }
}

impl Text {
    /// The text as a string slice.
    pub fn as_str(&self) -> (s: &str)
        ensures
            s@ == self@,
    {
        match self {
            Text::Fixed(s) => s,
            Text::Value(v) => v.as_str(),
        }
    }
}

/// A box with a border on all four sides, a title on its top edge and
/// wrapped text inside.
#[derive(Debug, PartialEq, Eq)]
pub struct Panel {
    /// The label on the top border.
    pub title: &'static str,
    /// The text inside the border.
    pub text: Text,
    /// How each line of the text is aligned.
    pub alignment: Alignment,
    /// Whether leading blanks of a wrapped line are dropped.
    pub trim: bool,
    /// Colour of the whole panel, border and title included.
    pub color: Option<Color>,
    /// Colour of the text alone.
    pub text_color: Option<Color>,
    /// Colour of the border alone.
    pub border_color: Option<Color>,
}

/// A panel as a value of mathematics.
pub struct PanelView {
    pub title: Seq<char>,
    pub text: Seq<char>,
    pub alignment: Alignment,
    pub trim: bool,
    pub color: Option<Color>,
    pub text_color: Option<Color>,
    pub border_color: Option<Color>,
}

impl View for Panel {
    type V = PanelView;

    open spec fn view(&self) -> PanelView {
        PanelView {
            title: self.title@,
            text: self.text@,
            alignment: self.alignment,
            trim: self.trim,
            color: self.color,
            text_color: self.text_color,
            border_color: self.border_color,
        }
    }
}

/// What a node shows.
///
/// Whether a node has a border is a matter of its kind: a `Line` has none,
/// a `Panel` has one on all four sides, with its title on the top edge.
#[derive(Debug, PartialEq, Eq)]
pub enum Widget {
    /// One line of text without a border, made of spans.
    Line { spans: Vec<Span>, alignment: Alignment },
    /// A bordered, titled box of text.
    Panel(Panel),
}

/// A widget as a value of mathematics.
pub enum WidgetView {
    Line { spans: Seq<SpanView>, alignment: Alignment },
    Panel(PanelView),
}

/// The views of a sequence of spans, in order.
pub open spec fn span_views(spans: Seq<Span>) -> Seq<SpanView> {
    spans.map_values(|s: Span| s@)
}

/// Every span of a line is made of printable characters alone.
pub open spec fn spans_printable(spans: Seq<SpanView>) -> bool {
    forall|i: int| 0 <= i < spans.len() ==> printable((#[trigger] spans[i]).text)
}

/// Whether every span of a line is made of printable characters alone.
pub fn are_printable(spans: &Vec<Span>) -> (yes: bool)
    ensures
        yes == spans_printable(span_views(spans@)),
{
    let mut i: usize = 0;
    while i < spans.len()
        invariant
            i <= spans.len(),
            forall|j: int| 0 <= j < i ==> printable((#[trigger] span_views(spans@)[j]).text),
        decreases spans.len() - i,
    {
        if !is_printable(spans[i].text) {
            assert(!printable(span_views(spans@)[i as int].text));
            return false;
        }
        i += 1;
    }
    true
}

impl View for Widget {
    type V = WidgetView;

    open spec fn view(&self) -> WidgetView {
        match self {
            Widget::Line { spans, alignment } => WidgetView::Line {
                spans: span_views(spans@),
                alignment: *alignment,
            },
            Widget::Panel(panel) => WidgetView::Panel(panel@),
        }
    }
}

/// A widget bound to the region of the screen that it may draw in.
#[derive(Debug, PartialEq, Eq)]
pub struct WidgetNode {
    pub area: ScreenArea,
    pub widget: Widget,
}

/// A node as a value of mathematics.
pub struct NodeView {
    pub area: ScreenArea,
    pub widget: WidgetView,
}

impl View for WidgetNode {
    type V = NodeView;

    open spec fn view(&self) -> NodeView {
        NodeView { area: self.area, widget: self.widget@ }
    }
}

/// The views of a sequence of nodes, in order.
pub open spec fn node_views(nodes: Seq<WidgetNode>) -> Seq<NodeView> {
    nodes.map_values(|n: WidgetNode| n@)
}

impl NodeView {
    /// A node that can be drawn: the text of a panel, which is wrapped
    /// cell by cell, and the spans of a line, which is cut to its region
    /// cell by cell, are made of printable characters alone. The title of
    /// a panel takes any text.
    pub open spec fn legible(self) -> bool {
        match self.widget {
            WidgetView::Line { spans, alignment } => spans_printable(spans),
            WidgetView::Panel(panel) => printable(panel.text),
        }
    }
}

/// Every node of a frame can be drawn.
pub open spec fn all_legible(nodes: Seq<NodeView>) -> bool {
    forall|i: int| 0 <= i < nodes.len() ==> (#[trigger] nodes[i]).legible()
}

impl WidgetNode {
    /// Whether the node can be drawn.
    pub fn is_legible(&self) -> (yes: bool)
        ensures
            yes == self@.legible(),
    {
        match &self.widget {
            Widget::Line { spans, alignment } => are_printable(spans),
            Widget::Panel(panel) => is_printable(panel.text.as_str()),
        }
    }
}

/// Whether every node of a frame can be drawn.
pub fn are_legible(nodes: &Vec<WidgetNode>) -> (yes: bool)
    ensures
        yes == all_legible(node_views(nodes@)),
{
    let mut i: usize = 0;
    while i < nodes.len()
        invariant
            i <= nodes.len(),
            forall|j: int| 0 <= j < i ==> (#[trigger] node_views(nodes@)[j]).legible(),
        decreases nodes.len() - i,
    {
        if !nodes[i].is_legible() {
            assert(!node_views(nodes@)[i as int].legible());
            return false;
        }
        i += 1;
    }
    true
}

impl WidgetView {
    /// The text that the widget shows, spans joined.
    pub open spec fn text(self) -> Seq<char> {
        match self {
            WidgetView::Line { spans, alignment } => joined(spans),
            WidgetView::Panel(panel) => panel.text,
        }
    }
}

/// The texts of a sequence of spans, one after the other.
pub open spec fn joined(spans: Seq<SpanView>) -> Seq<char>
    decreases spans.len(),
{
    if spans.len() == 0 {
        Seq::empty()
    } else {
        joined(spans.drop_last()) + spans.last().text
    }
}

} // verus!
