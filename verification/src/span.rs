use vstd::prelude::*;
use vstd::string::*;

verus! {

/// How a run of text is set off from plain text.
#[derive(Clone, Copy, Debug, PartialEq, Eq, Structural)]
pub enum SpanStyle {
    Bold,
    Dim,
    Cyan,
    Green,
    Red,
    Yellow,
}

/// A run of text drawn in one style.
#[derive(Debug, PartialEq, Eq)]
pub struct Span {
    pub content: String,
    pub style: SpanStyle,
}

/// What a [`Span`] says: its characters and its style.
pub struct SpanView {
    pub content: Seq<char>,
    pub style: SpanStyle,
}

impl View for Span {
    type V = SpanView;

    open spec fn view(&self) -> SpanView {
        SpanView { content: self.content@, style: self.style }
    }
}

/// The views of a row of spans, in order.
pub open spec fn span_views(spans: Seq<Span>) -> Seq<SpanView> {
    spans.map_values(|span: Span| span@)
}

/// The marker that opens every row the overlay owns.
pub open spec fn gutter_span() -> SpanView {
    SpanView { content: "▌ "@, style: SpanStyle::Cyan }
}

/// The gutter marker: a half block and a blank, in cyan.
pub fn gutter() -> (span: Span)
    ensures
        span@ == gutter_span(),
{
    Span { content: String::from_str("▌ "), style: SpanStyle::Cyan }
}

/// A row that holds one span.
pub(crate) fn row_of_one(only: Span) -> (row: Vec<Span>)
    ensures
        span_views(row@) == seq![only@],
{
    let mut row: Vec<Span> = Vec::new();
    row.push(only);
    assert(span_views(row@) =~= seq![only@]);
    row
}

/// A row that holds two spans, `first` to the left of `second`.
pub(crate) fn row_of_two(first: Span, second: Span) -> (row: Vec<Span>)
    ensures
        span_views(row@) == seq![first@, second@],
{
    let mut row: Vec<Span> = Vec::new();
    row.push(first);
    row.push(second);
    assert(span_views(row@) =~= seq![first@, second@]);
    row
}

} // verus!
