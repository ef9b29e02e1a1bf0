//! Painting onto the host's drawing surface, a `ratatui` buffer.
//!
//! The buffer is carried through: the library never looks into a cell. What
//! it proves is where it paints. A paint is cut to the part of it that lies
//! on the buffer before `ratatui` is asked to draw, so drawing cannot reach a
//! cell the buffer does not have.

use vstd::prelude::*;
use vstd::string::*;
use ratatui::buffer::Buffer;
use ratatui::style::Stylize;
use ratatui::widgets::Widget;
use crate::geometry::Rect;
use crate::layout::Paint;
use crate::layout::PaintView;
use crate::span::span_views;
use crate::span::Span;
use crate::span::SpanStyle;
use crate::span::SpanView;

verus! {

/// `ratatui::buffer::Buffer`, a grid of terminal cells. Its cells are not
/// read here.
#[verifier::external_type_specification]
#[verifier::external_body]
pub struct ExBuffer(Buffer);

/// The widest area a line is drawn into. `ratatui` adds the width of the
/// next symbol to the width of the line so far in 16 bits before it compares
/// the sum with the width of the area; up to this width the sum fits.
pub const LINE_WIDTH_LIMIT: u16 = 0x7fff;

/// The most characters of a span that are drawn. `ratatui` takes the width of
/// a symbol, which is at most three columns for each of its characters, down
/// to 16 bits; up to this length nothing is lost.
pub const SPAN_TEXT_LIMIT: usize = 0x4000;

/// The foreground of a cell, as far as this library tells colours apart.
pub enum CellColor {
    /// The terminal's own foreground, `Color::Reset`.
    Reset,
    Cyan,
    Green,
    Red,
    Yellow,
    /// Any other colour.
    Other,
}

/// The style of a cell, as far as this library sets it.
pub struct CellStyle {
    pub fg: CellColor,
    pub bold: bool,
    pub dim: bool,
}

/// What the library says of a cell: its symbol and its style.
pub struct CellView {
    pub symbol: Seq<char>,
    pub style: CellStyle,
}

/// The rectangle of the terminal that a buffer stands for: its field `area`.
pub uninterp spec fn surface_area(buf: Buffer) -> Rect;

/// The cells of a buffer in the order in which it stores them, row by row
/// and from left to right in each row. Of each element of its field
/// `content`: `symbol()`; the field `fg`, with `Other` for every colour but
/// `Reset`, `Cyan`, `Green`, `Red` and `Yellow`; and whether the field
/// `modifier` holds `BOLD`, and `DIM`.
pub uninterp spec fn surface_cells(buf: Buffer) -> Seq<CellView>;

/// The cells `cells` of a buffer for `surface` after `ratatui`'s `Paragraph`
/// has drawn the one line `spans` into `area`, without a block, without
/// wrapping, left-aligned and unscrolled, each span styled by the `Stylize`
/// method that its style names.
pub uninterp spec fn line_drawn(
    cells: Seq<CellView>,
    surface: Rect,
    area: Rect,
    spans: Seq<SpanView>,
) -> Seq<CellView>;

/// The first column right of `rect`, as `ratatui` counts it: never past the
/// last coordinate.
pub open spec fn right_of(rect: Rect) -> int {
    if rect.x + rect.width > u16::MAX {
        u16::MAX as int
    } else {
        rect.x + rect.width
    }
}

/// The first row below `rect`, as `ratatui` counts it: never past the last
/// coordinate.
pub open spec fn bottom_of(rect: Rect) -> int {
    if rect.y + rect.height > u16::MAX {
        u16::MAX as int
    } else {
        rect.y + rect.height
    }
}

/// Whether `rect` has no cell.
pub open spec fn is_empty(rect: Rect) -> bool {
    rect.width == 0 || rect.height == 0
}

/// Whether every cell of `inner` is a cell of `outer` that a buffer for
/// `outer` can be asked for.
pub open spec fn lies_on(outer: Rect, inner: Rect) -> bool {
    &&& outer.x <= inner.x
    &&& inner.x + inner.width <= right_of(outer)
    &&& outer.y <= inner.y
    &&& inner.y + inner.height <= bottom_of(outer)
}

/// Whether the cell in column `x` of row `y` is one of `rect`.
pub open spec fn covers(rect: Rect, x: int, y: int) -> bool {
    rect.x <= x < rect.x + rect.width && rect.y <= y < rect.y + rect.height
}

/// The place of the cell in column `x` of row `y` among the cells of a buffer
/// for `surface`.
pub open spec fn cell_index(surface: Rect, x: int, y: int) -> int {
    (y - surface.y) * surface.width + (x - surface.x)
}

/// Whether `cells` has one cell for each position of `surface`.
pub open spec fn sound(cells: Seq<CellView>, surface: Rect) -> bool {
    cells.len() == surface.width * surface.height
}

/// The part of `area` that lies on `surface`. Without a common cell its
/// width or its height is 0.
pub open spec fn clipped(area: Rect, surface: Rect) -> Rect {
    let left = if area.x > surface.x {
        area.x
    } else {
        surface.x
    };
    let top = if area.y > surface.y {
        area.y
    } else {
        surface.y
    };
    let right = if right_of(area) < right_of(surface) {
        right_of(area)
    } else {
        right_of(surface)
    };
    let bottom = if bottom_of(area) < bottom_of(surface) {
        bottom_of(area)
    } else {
        bottom_of(surface)
    };
    Rect {
        x: left,
        y: top,
        width: if right > left {
            (right - left) as u16
        } else {
            0
        },
        height: if bottom > top {
            (bottom - top) as u16
        } else {
            0
        },
    }
}

/// Where a paint for `area` is drawn on a buffer with `cells` for `surface`:
/// on the part of `area` that lies on the surface. Nothing is drawn where
/// that part is empty, nor on a buffer whose cells do not fit its area.
pub open spec fn target(cells: Seq<CellView>, surface: Rect, area: Rect) -> Option<Rect> {
    if sound(cells, surface) && !is_empty(clipped(area, surface)) {
        Some(clipped(area, surface))
    } else {
        None
    }
}

/// Where a line for `area` is drawn: where a paint for `area` is drawn, but
/// no wider than [`LINE_WIDTH_LIMIT`].
pub open spec fn line_target(cells: Seq<CellView>, surface: Rect, area: Rect) -> Option<Rect> {
    match target(cells, surface, area) {
        Some(part) => Some(
            Rect {
                width: if part.width > LINE_WIDTH_LIMIT {
                    LINE_WIDTH_LIMIT
                } else {
                    part.width
                },
                ..part
            },
        ),
        None => None,
    }
}

/// The first [`SPAN_TEXT_LIMIT`] characters of `text`, or all of it.
pub open spec fn cut_text(text: Seq<char>) -> Seq<char> {
    if text.len() > SPAN_TEXT_LIMIT {
        text.subrange(0, SPAN_TEXT_LIMIT as int)
    } else {
        text
    }
}

/// `span` with its text cut to [`SPAN_TEXT_LIMIT`] characters.
pub open spec fn cut_span(span: SpanView) -> SpanView {
    SpanView { content: cut_text(span.content), style: span.style }
}

/// `spans`, each with its text cut to [`SPAN_TEXT_LIMIT`] characters.
pub open spec fn cut_spans(spans: Seq<SpanView>) -> Seq<SpanView> {
    spans.map_values(|span: SpanView| cut_span(span))
}

/// Whether none of `spans` has more than [`SPAN_TEXT_LIMIT`] characters.
pub open spec fn short_spans(spans: Seq<SpanView>) -> bool {
    forall|j: int| 0 <= j < spans.len() ==> (#[trigger] spans[j]).content.len() <= SPAN_TEXT_LIMIT
}

/// The column of the cell stored at place `i` of a buffer for `surface`.
pub open spec fn column_of(surface: Rect, i: int) -> int {
    surface.x + i % (surface.width as int)
}

/// The row of the cell stored at place `i` of a buffer for `surface`.
pub open spec fn row_of(surface: Rect, i: int) -> int {
    surface.y + i / (surface.width as int)
}

/// A cell as `ratatui` resets it: a blank in the terminal's own colour,
/// neither bold nor dim.
pub open spec fn blank_cell() -> CellView {
    CellView {
        symbol: " "@,
        style: CellStyle { fg: CellColor::Reset, bold: false, dim: false },
    }
}

/// The style of a cell that had `style` once a symbol of a span in `span`
/// style has been drawn on it: a colour replaces the foreground, bold and
/// dim are added, and the rest stays.
pub open spec fn styled(style: CellStyle, span: SpanStyle) -> CellStyle {
    match span {
        SpanStyle::Bold => CellStyle { bold: true, ..style },
        SpanStyle::Dim => CellStyle { dim: true, ..style },
        SpanStyle::Cyan => CellStyle { fg: CellColor::Cyan, ..style },
        SpanStyle::Green => CellStyle { fg: CellColor::Green, ..style },
        SpanStyle::Red => CellStyle { fg: CellColor::Red, ..style },
        SpanStyle::Yellow => CellStyle { fg: CellColor::Yellow, ..style },
    }
}

/// `cells` with every cell of `area` reset.
pub open spec fn cleared(cells: Seq<CellView>, surface: Rect, area: Rect) -> Seq<CellView> {
    Seq::new(
        cells.len(),
        |i: int|
            if covers(area, column_of(surface, i), row_of(surface, i)) {
                blank_cell()
            } else {
                cells[i]
            },
    )
}

/// Whether every cell outside `area` is in `after` as it was in `before`.
pub open spec fn kept_outside(
    before: Seq<CellView>,
    after: Seq<CellView>,
    surface: Rect,
    area: Rect,
) -> bool {
    forall|i: int|
        0 <= i < before.len() && !covers(area, column_of(surface, i), row_of(surface, i))
            ==> #[trigger] after[i] == before[i]
}

/// Whether every cell is in `after` as it was in `before`, or has the style
/// that drawing a symbol of one of `spans` gives it.
pub open spec fn styled_by(before: Seq<CellView>, after: Seq<CellView>, spans: Seq<SpanView>) -> bool {
    forall|i: int|
        0 <= i < before.len() ==> (#[trigger] after[i]) == before[i] || exists|j: int|
            0 <= j < spans.len() && after[i].style == styled(
                before[i].style,
                (#[trigger] spans[j]).style,
            )
}

/// The cells of a buffer after `paint` has been drawn on it. A line is drawn
/// where [`line_target`] says, with its spans cut by [`cut_spans`]; a
/// clearing where [`target`] says. The text primitive's area is left to the
/// host.
pub open spec fn drawn(cells: Seq<CellView>, surface: Rect, paint: PaintView) -> Seq<CellView> {
    match paint {
        PaintView::Line { area, spans } => match line_target(cells, surface, area) {
            Some(part) => line_drawn(cells, surface, part, cut_spans(spans)),
            None => cells,
        },
        PaintView::Clear { area } => match target(cells, surface, area) {
            Some(part) => cleared(cells, surface, part),
            None => cells,
        },
        PaintView::TextArea { .. } => cells,
    }
}

/// Reads the field `area` of a `ratatui` buffer.
#[verifier::external_body]
fn surface_extent(buf: &Buffer) -> (area: Rect)
    ensures
        area == surface_area(*buf),
{
    Rect { x: buf.area.x, y: buf.area.y, width: buf.area.width, height: buf.area.height }
}

/// Reads the length of the field `content` of a `ratatui` buffer: how many
/// cells it holds.
#[verifier::external_body]
fn surface_len(buf: &Buffer) -> (len: usize)
    ensures
        len == surface_cells(*buf).len(),
{
    buf.content.len()
}

/// Draws `ratatui`'s `Clear` into `area`. `Clear` resets every cell of
/// `area`: a blank as its symbol, `Color::Reset` as its foreground, no
/// modifier. It touches no other cell. It indexes the buffer by position,
/// which panics for a position outside the buffer's area or without a cell:
/// `area` must lie on the buffer, and the buffer must hold a cell for each of
/// its positions.
#[verifier::external_body]
fn clear_cells(buf: &mut Buffer, area: Rect)
    requires
        sound(surface_cells(*old(buf)), surface_area(*old(buf))),
        lies_on(surface_area(*old(buf)), area),
        !is_empty(area),
    ensures
        surface_area(*final(buf)) == surface_area(*old(buf)),
        surface_cells(*final(buf)) == cleared(
            surface_cells(*old(buf)),
            surface_area(*old(buf)),
            area,
        ),
{
    let area =
        ratatui::layout::Rect { x: area.x, y: area.y, width: area.width, height: area.height };
    ratatui::widgets::Clear.render(area, buf);
}

/// Draws `spans` as one line into `area` with `ratatui`'s `Paragraph`, each
/// span styled by the `Stylize` method that its style names, one arm for
/// each style.
///
/// `Paragraph` cuts the line at the width of `area` and writes only cells of
/// `area`. On a cell it draws a symbol on, it sets the symbol and the span's
/// style: a colour as the foreground, bold or dim as one more modifier. Which
/// cell gets which symbol is given a name, not spelled out. The buffer keeps
/// its area and the number of its cells.
///
/// `Paragraph` indexes the buffer by position, hence the same demands as for
/// [`clear_cells`]. It counts columns in 16 bits, hence the two limits: up to
/// [`LINE_WIDTH_LIMIT`] columns its sums fit, and up to [`SPAN_TEXT_LIMIT`]
/// characters the width of a symbol does.
#[verifier::external_body]
fn draw_line(buf: &mut Buffer, area: Rect, spans: &Vec<Span>)
    requires
        sound(surface_cells(*old(buf)), surface_area(*old(buf))),
        lies_on(surface_area(*old(buf)), area),
        !is_empty(area),
        area.width <= LINE_WIDTH_LIMIT,
        short_spans(span_views(spans@)),
    ensures
        surface_area(*final(buf)) == surface_area(*old(buf)),
        surface_cells(*final(buf)) == line_drawn(
            surface_cells(*old(buf)),
            surface_area(*old(buf)),
            area,
            span_views(spans@),
        ),
        surface_cells(*final(buf)).len() == surface_cells(*old(buf)).len(),
        kept_outside(
            surface_cells(*old(buf)),
            surface_cells(*final(buf)),
            surface_area(*old(buf)),
            area,
        ),
        styled_by(surface_cells(*old(buf)), surface_cells(*final(buf)), span_views(spans@)),
{
    let line = ratatui::text::Line::from_iter(spans.iter().map(|span| {
        let text = ratatui::text::Span::raw(span.content.clone());
        match span.style {
            SpanStyle::Bold => text.bold(),
            SpanStyle::Dim => text.dim(),
            SpanStyle::Cyan => text.cyan(),
            SpanStyle::Green => text.green(),
            SpanStyle::Red => text.red(),
            SpanStyle::Yellow => text.yellow(),
        }
    }));
    let area =
        ratatui::layout::Rect { x: area.x, y: area.y, width: area.width, height: area.height };
    ratatui::widgets::Paragraph::new(line).render(area, buf);
}

/// `spans`, each with its text cut to [`SPAN_TEXT_LIMIT`] characters.
fn cut_to_limit(spans: &Vec<Span>) -> (cut: Vec<Span>)
    ensures
        span_views(cut@) == cut_spans(span_views(spans@)),
        short_spans(span_views(cut@)),
{
    let mut cut: Vec<Span> = Vec::new();
    let mut i: usize = 0;
    while i < spans.len()
        invariant
            i <= spans.len(),
            cut@.len() == i,
            forall|k: int| 0 <= k < i ==> (#[trigger] cut@[k])@ == cut_span(spans@[k]@),
        decreases spans.len() - i,
    {
        let span = &spans[i];
        let text = span.content.as_str();
        let content = if text.unicode_len() > SPAN_TEXT_LIMIT {
            String::from_str(text.substring_char(0, SPAN_TEXT_LIMIT))
        } else {
            span.content.clone()
        };
        cut.push(Span { content, style: span.style });
        i += 1;
    }
    assert(span_views(cut@) =~= cut_spans(span_views(spans@)));
    cut
}

/// The part of `area` that lies on `surface`.
pub fn clip(area: Rect, surface: Rect) -> (part: Rect)
    ensures
        part == clipped(area, surface),
        !is_empty(part) ==> lies_on(surface, part) && lies_on(area, part),
        lies_on(surface, area) ==> part == area,
{
    let left = area.x.max(surface.x);
    let top = area.y.max(surface.y);
    let right = area.x.saturating_add(area.width).min(surface.x.saturating_add(surface.width));
    let bottom = area.y.saturating_add(area.height).min(surface.y.saturating_add(surface.height));
    Rect {
        x: left,
        y: top,
        width: right.saturating_sub(left),
        height: bottom.saturating_sub(top),
    }
}

/// Where a paint for `area` is drawn on `buf`, if anywhere.
fn target_on(buf: &Buffer, area: Rect) -> (part: Option<Rect>)
    ensures
        part == target(surface_cells(*buf), surface_area(*buf), area),
        part matches Some(part) ==> {
            &&& sound(surface_cells(*buf), surface_area(*buf))
            &&& lies_on(surface_area(*buf), part)
            &&& lies_on(area, part)
            &&& !is_empty(part)
        },
{
    let surface = surface_extent(buf);
    let len = surface_len(buf);
    assert(surface.width * surface.height <= 0xffff * 0xffff) by (nonlinear_arith)
        requires
            0 <= surface.width <= 0xffff,
            0 <= surface.height <= 0xffff,
    ;
    let fits = len as u64 == (surface.width as u64) * (surface.height as u64);
    let part = clip(area, surface);
    if fits && part.width != 0 && part.height != 0 {
        Some(part)
    } else {
        None
    }
}

impl Paint {
    /// Draws the paint on `buf`, or says where the host has to let the text
    /// primitive draw.
    ///
    /// A line or a clearing is drawn on the part of its area that lies on the
    /// buffer, a line on at most [`LINE_WIDTH_LIMIT`] columns of it and with
    /// at most [`SPAN_TEXT_LIMIT`] characters of each span. The buffer keeps
    /// its area and the number of its cells, and every cell outside the
    /// paint's area stays as it was. A line leaves each cell as it was or in
    /// the style of one of its spans. For the text primitive's area nothing
    /// is drawn and the area is handed back.
    pub fn draw(&self, buf: &mut Buffer) -> (text_area: Option<Rect>)
        ensures
            surface_area(*final(buf)) == surface_area(*old(buf)),
            surface_cells(*final(buf)) == drawn(
                surface_cells(*old(buf)),
                surface_area(*old(buf)),
                self@,
            ),
            surface_cells(*final(buf)).len() == surface_cells(*old(buf)).len(),
            kept_outside(
                surface_cells(*old(buf)),
                surface_cells(*final(buf)),
                surface_area(*old(buf)),
                self@.area(),
            ),
            self@ matches PaintView::Line { spans, .. } ==> styled_by(
                surface_cells(*old(buf)),
                surface_cells(*final(buf)),
                spans,
            ),
            text_area == (match self@ {
                PaintView::TextArea { area } => Some(area),
                _ => None,
            }),
    {
        match self {
            Paint::Line { area, spans } => {
                match target_on(buf, *area) {
                    Some(part) => {
                        let part = Rect { width: part.width.min(LINE_WIDTH_LIMIT), ..part };
                        let cut = cut_to_limit(spans);
                        draw_line(buf, part, &cut);
                        proof {
                            let before = surface_cells(*old(buf));
                            let after = surface_cells(*buf);
                            let shown = span_views(cut@);
                            let all = span_views(spans@);
                            assert forall|i: int| 0 <= i < before.len() implies (
                            #[trigger] after[i]) == before[i] || exists|j: int|
                                0 <= j < all.len() && after[i].style == styled(
                                    before[i].style,
                                    (#[trigger] all[j]).style,
                                ) by {
                                if after[i] != before[i] {
                                    let j = choose|j: int|
                                        0 <= j < shown.len() && after[i].style == styled(
                                            before[i].style,
                                            (#[trigger] shown[j]).style,
                                        );
                                    assert(all[j].style == shown[j].style);
                                }
                            }
                        }
                    },
                    None => {},
                }
                None
            },
            Paint::Clear { area } => {
                match target_on(buf, *area) {
                    Some(part) => {
                        clear_cells(buf, part);
                    },
                    None => {},
                }
                None
            },
            Paint::TextArea { area } => Some(*area),
        }
    }
}

} // verus!
