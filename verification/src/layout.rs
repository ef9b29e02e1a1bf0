use vstd::prelude::*;
use vstd::string::*;
use crate::geometry::Rect;
use crate::session::PreferencesEditorView;
use crate::session::SessionState;
use crate::span::gutter;
use crate::span::gutter_span;
use crate::span::row_of_one;
use crate::span::row_of_two;
use crate::span::span_views;
use crate::span::Span;
use crate::span::SpanStyle;
use crate::span::SpanView;

verus! {

/// The columns the gutter takes at the left edge.
pub const GUTTER_WIDTH: u16 = 2;

/// The fewest rows the text area is given.
pub const MIN_TEXT_ROWS: u16 = 4;

/// The most rows the text area is given.
pub const MAX_TEXT_ROWS: u16 = 18;

/// The rows above the editor block: title, path and status.
pub const HEADER_ROWS: u16 = 3;

/// The rows around the editor block: title, path, status, spacer and hint.
pub const CHROME_ROWS: u16 = 5;

/// The narrowest overlay that has room for the gutter and text beside it.
pub const MIN_TEXT_WIDTH: u16 = 4;

/// One step of painting.
#[derive(Debug, PartialEq, Eq)]
pub enum Paint {
    /// Draw `spans` as one line of text from the top-left cell of `area`,
    /// cut off at its right edge.
    Line { area: Rect, spans: Vec<Span> },
    /// Reset every cell of `area`.
    Clear { area: Rect },
    /// Let the text primitive draw itself into `area`.
    TextArea { area: Rect },
}

/// What a [`Paint`] says.
pub enum PaintView {
    Line { area: Rect, spans: Seq<SpanView> },
    Clear { area: Rect },
    TextArea { area: Rect },
}

impl View for Paint {
    type V = PaintView;

    open spec fn view(&self) -> PaintView {
        match *self {
            Paint::Line { area, spans } => PaintView::Line { area, spans: span_views(spans@) },
            Paint::Clear { area } => PaintView::Clear { area },
            Paint::TextArea { area } => PaintView::TextArea { area },
        }
    }
}

impl PaintView {
    /// The rectangle a paint touches.
    pub open spec fn area(self) -> Rect {
        match self {
            PaintView::Line { area, .. } => area,
            PaintView::Clear { area } => area,
            PaintView::TextArea { area } => area,
        }
    }
}

/// The views of a list of paints, in order.
pub open spec fn paint_views(plan: Seq<Paint>) -> Seq<PaintView> {
    plan.map_values(|paint: Paint| paint@)
}

/// The columns left for text in an overlay `width` columns wide.
pub open spec fn text_columns(width: u16) -> u16 {
    if width >= GUTTER_WIDTH {
        (width - GUTTER_WIDTH) as u16
    } else {
        0
    }
}

/// The rows the text area is given when the text primitive would like
/// `desired`: as many, but no fewer than 4 and no more than 18.
pub open spec fn text_rows(desired: u16) -> u16 {
    if desired < MIN_TEXT_ROWS {
        MIN_TEXT_ROWS
    } else if desired > MAX_TEXT_ROWS {
        MAX_TEXT_ROWS
    } else {
        desired
    }
}

/// The rows of the editor block: the text area and one row kept free.
pub open spec fn input_rows(desired: u16) -> u16 {
    (text_rows(desired) + 1) as u16
}

/// The rows the whole overlay asks of the host.
pub open spec fn overlay_rows(desired: u16) -> u16 {
    (input_rows(desired) + CHROME_ROWS) as u16
}

/// `from` moved by `by`, stopping at the last coordinate there is.
pub open spec fn moved(from: u16, by: u16) -> u16 {
    if from + by > u16::MAX {
        u16::MAX
    } else {
        (from + by) as u16
    }
}

/// Where the text primitive draws in `area`, if there is room: two columns
/// in from the left and four rows down, two columns narrower than `area`,
/// and as many rows as the text area is given.
pub open spec fn text_area(area: Rect, desired: u16) -> Option<Rect> {
    if area.width < MIN_TEXT_WIDTH || text_rows(desired) == 0 {
        None
    } else {
        Some(
            Rect {
                x: moved(area.x, GUTTER_WIDTH),
                y: moved(area.y, 4),
                width: (area.width - GUTTER_WIDTH) as u16,
                height: text_rows(desired),
            },
        )
    }
}

/// Whether row `k` of the overlay, counted from the top of `area`, lies in
/// `area` and on a row that a coordinate can name.
pub open spec fn row_in(area: Rect, k: int) -> bool {
    0 <= k < area.height && area.y + k <= u16::MAX
}

/// Row `k` of the overlay, over the full width of `area`.
pub open spec fn row(area: Rect, k: int) -> Rect {
    Rect { x: area.x, y: (area.y + k) as u16, width: area.width, height: 1 }
}

/// `paint` if `shown`, else nothing.
pub open spec fn only_if(shown: bool, paint: PaintView) -> Seq<PaintView> {
    if shown {
        seq![paint]
    } else {
        Seq::empty()
    }
}

/// The gutter marker followed by `span`, on row `k`, if that row lies in
/// `area`.
pub open spec fn marked_row(area: Rect, k: int, span: SpanView) -> Seq<PaintView> {
    only_if(row_in(area, k), PaintView::Line { area: row(area, k), spans: seq![gutter_span(), span] })
}

/// The title of the overlay.
pub open spec fn title_span() -> SpanView {
    SpanView { content: "Edit preferences.md"@, style: SpanStyle::Bold }
}

/// The line that names the file.
pub open spec fn path_span(display_path: Seq<char>) -> SpanView {
    SpanView { content: "Path: "@ + display_path, style: SpanStyle::Dim }
}

/// The instruction shown in place of the text while there is none.
pub open spec fn placeholder_span() -> SpanView {
    SpanView {
        content: "Type your preferences and press Ctrl+S to save"@,
        style: SpanStyle::Dim,
    }
}

/// The reminder of the two commands, on the last row.
pub open spec fn hint_span() -> SpanView {
    SpanView { content: "Ctrl+S save · Esc close"@, style: SpanStyle::Dim }
}

/// Title, path and status, on rows 0, 1 and 2.
pub open spec fn header(state: SessionState, area: Rect) -> Seq<PaintView> {
    marked_row(area, 0, title_span()) + marked_row(area, 1, path_span(state.display_path))
        + marked_row(area, 2, state.status_span())
}

/// How many rows of the editor block lie in `area`. The block starts on row
/// 3 and has `input_rows(desired)` rows.
pub open spec fn editor_rows_in(area: Rect, desired: u16) -> nat {
    let by_height = area.height - HEADER_ROWS;
    let by_limit = u16::MAX - HEADER_ROWS - area.y + 1;
    let rows = input_rows(desired) as int;
    let fit = if by_height < by_limit {
        by_height
    } else {
        by_limit
    };
    if fit <= 0 {
        0
    } else if fit < rows {
        fit as nat
    } else {
        rows as nat
    }
}

/// The gutter marker on row `i` of the editor block.
pub open spec fn gutter_cell(area: Rect, i: int) -> PaintView {
    PaintView::Line {
        area: Rect {
            x: area.x,
            y: (area.y + HEADER_ROWS + i) as u16,
            width: GUTTER_WIDTH,
            height: 1,
        },
        spans: seq![gutter_span()],
    }
}

/// The gutter marker on every row of the editor block that lies in `area`,
/// from the top down.
pub open spec fn gutter_column(area: Rect, desired: u16) -> Seq<PaintView> {
    Seq::new(editor_rows_in(area, desired), |i: int| gutter_cell(area, i))
}

/// The row kept free above the text, right of the gutter.
pub open spec fn free_row(area: Rect) -> PaintView {
    PaintView::Clear {
        area: Rect {
            x: moved(area.x, GUTTER_WIDTH),
            y: (area.y + HEADER_ROWS) as u16,
            width: (area.width - GUTTER_WIDTH) as u16,
            height: 1,
        },
    }
}

/// The part of `text_area(area, desired)` that lies in the rows of `area`.
pub open spec fn text_area_in(area: Rect, desired: u16) -> Option<Rect> {
    match text_area(area, desired) {
        Some(rect) => if row_in(area, 4) {
            let left = area.height - 4;
            Some(
                Rect {
                    height: if rect.height < left {
                        rect.height
                    } else {
                        left as u16
                    },
                    ..rect
                },
            )
        } else {
            None
        },
        None => None,
    }
}

/// The text primitive in its area, and over it the placeholder while the
/// text is empty.
pub open spec fn text_paints(state: SessionState, area: Rect, desired: u16) -> Seq<PaintView> {
    match text_area_in(area, desired) {
        Some(rect) => seq![PaintView::TextArea { area: rect }] + only_if(
            state.text.len() == 0,
            PaintView::Line { area: rect, spans: seq![placeholder_span()] },
        ),
        None => Seq::empty(),
    }
}

/// The editor block: the gutter column, the free row and the text. An
/// overlay too narrow for the gutter has no editor block.
pub open spec fn editor_block(state: SessionState, area: Rect, desired: u16) -> Seq<PaintView> {
    if area.width < GUTTER_WIDTH {
        Seq::empty()
    } else {
        gutter_column(area, desired) + only_if(
            area.width > GUTTER_WIDTH && row_in(area, 3),
            free_row(area),
        ) + text_paints(state, area, desired)
    }
}

/// The blank spacer under the editor block and the hint under the spacer.
pub open spec fn footer(area: Rect, desired: u16) -> Seq<PaintView> {
    let spacer = HEADER_ROWS + input_rows(desired);
    only_if(row_in(area, spacer), PaintView::Clear { area: row(area, spacer) }) + marked_row(
        area,
        spacer + 1,
        hint_span(),
    )
}

/// Everything the overlay paints into `area`, in the order in which it is
/// painted. An area without columns or without rows gets nothing.
pub open spec fn render_plan(state: SessionState, area: Rect, desired: u16) -> Seq<PaintView> {
    if area.width == 0 || area.height == 0 {
        Seq::empty()
    } else {
        header(state, area) + editor_block(state, area, desired) + footer(area, desired)
    }
}

/// Adds `paint` to the end of `plan`.
fn push_paint(plan: &mut Vec<Paint>, paint: Paint)
    ensures
        paint_views(final(plan)@) == paint_views(old(plan)@).push(paint@),
{
    plan.push(paint);
    assert(paint_views(plan@) =~= paint_views(old(plan)@).push(paint@));
}

/// Row `k` of the overlay, if it lies in `area`.
fn row_at(area: Rect, k: u16) -> (found: Option<Rect>)
    ensures
        found == (if row_in(area, k as int) {
            Some(row(area, k as int))
        } else {
            None
        }),
{
    if k < area.height {
        match area.y.checked_add(k) {
            Some(y) => Some(Rect { x: area.x, y, width: area.width, height: 1 }),
            None => None,
        }
    } else {
        None
    }
}

/// Adds the gutter marker followed by `span` on row `k`, if that row lies
/// in `area`.
fn push_marked_row(plan: &mut Vec<Paint>, area: Rect, k: u16, span: Span)
    ensures
        paint_views(final(plan)@) == paint_views(old(plan)@) + marked_row(area, k as int, span@),
{
    match row_at(area, k) {
        Some(line) => {
            push_paint(plan, Paint::Line { area: line, spans: row_of_two(gutter(), span) });
        },
        None => {},
    }
    assert(paint_views(plan@) =~= paint_views(old(plan)@) + marked_row(area, k as int, span@));
}

impl PreferencesEditorView {
    /// The width to ask the text primitive's desired height for, in an
    /// overlay `width` columns wide: the gutter's two columns are not the
    /// text's.
    pub fn usable_width(width: u16) -> (columns: u16)
        ensures
            columns == text_columns(width),
    {
        width.saturating_sub(GUTTER_WIDTH)
    }

    /// The rows of the editor block, where `desired` is the height the text
    /// primitive would like at [`Self::usable_width`] columns: `desired`
    /// held to the range from 4 to 18, and one row more.
    pub fn input_height(&self, desired: u16) -> (rows: u16)
        ensures
            rows == input_rows(desired),
            5 <= rows <= 19,
    {
        let text_height = if desired < MIN_TEXT_ROWS {
            MIN_TEXT_ROWS
        } else if desired > MAX_TEXT_ROWS {
            MAX_TEXT_ROWS
        } else {
            desired
        };
        text_height.saturating_add(1)
    }

    /// The rows the overlay asks of the host: the editor block and the five
    /// rows for title, path, status, spacer and hint.
    pub fn desired_height(&self, desired: u16) -> (rows: u16)
        ensures
            rows == overlay_rows(desired),
            rows == text_rows(desired) + 6,
    {
        self.input_height(desired).saturating_add(CHROME_ROWS)
    }

    /// Where the text primitive draws in `area`. There is no such place in an
    /// area under 4 columns wide.
    pub fn textarea_rect(&self, area: Rect, desired: u16) -> (rect: Option<Rect>)
        ensures
            rect == text_area(area, desired),
            area.width < 4 ==> rect is None,
            area.width >= 4 ==> rect is Some,
    {
        if area.width < MIN_TEXT_WIDTH {
            return None;
        }
        let text_area_height = self.input_height(desired).saturating_sub(1);
        if text_area_height == 0 {
            return None;
        }
        Some(
            Rect {
                x: area.x.saturating_add(GUTTER_WIDTH),
                y: area.y.saturating_add(4),
                width: area.width.saturating_sub(GUTTER_WIDTH),
                height: text_area_height,
            },
        )
    }

    /// Where the terminal's caret goes: what `locate`, the text primitive's
    /// answer for a given rectangle, says for the text area of `area`. With
    /// no text area there is no caret, and `locate` is not asked.
    pub fn cursor_pos<F: FnOnce(Rect) -> Option<(u16, u16)>>(
        &self,
        area: Rect,
        desired: u16,
        locate: F,
    ) -> (pos: Option<(u16, u16)>)
        requires
            text_area(area, desired) matches Some(rect) ==> locate.requires((rect,)),
        ensures
            match text_area(area, desired) {
                Some(rect) => locate.ensures((rect,), pos),
                None => pos is None,
            },
            area.width < 4 ==> pos is None,
    {
        match self.textarea_rect(area, desired) {
            Some(rect) => locate(rect),
            None => None,
        }
    }

    /// Adds title, path and status.
    fn push_header(&self, plan: &mut Vec<Paint>, area: Rect)
        ensures
            paint_views(final(plan)@) == paint_views(old(plan)@) + header(self@, area),
    {
        let title = Span { content: String::from_str("Edit preferences.md"), style: SpanStyle::Bold };
        let path = Span {
            content: String::from_str("Path: ").concat(self.display_path()),
            style: SpanStyle::Dim,
        };
        push_marked_row(plan, area, 0, title);
        push_marked_row(plan, area, 1, path);
        push_marked_row(plan, area, 2, self.status_span());
        assert(paint_views(plan@) =~= paint_views(old(plan)@) + header(self@, area));
    }

    /// Adds the gutter marker on every row of the editor block that lies in
    /// `area`.
    fn push_gutter_column(&self, plan: &mut Vec<Paint>, area: Rect, desired: u16)
        ensures
            paint_views(final(plan)@) == paint_views(old(plan)@) + gutter_column(area, desired),
    {
        let by_height = area.height.saturating_sub(HEADER_ROWS);
        let by_limit = if area.y <= u16::MAX - HEADER_ROWS {
            u16::MAX - HEADER_ROWS - area.y + 1
        } else {
            0
        };
        let shown = self.input_height(desired).min(by_height).min(by_limit);
        assert(shown == editor_rows_in(area, desired));
        let mut i: u16 = 0;
        while i < shown
            invariant
                i <= shown,
                shown == editor_rows_in(area, desired),
                paint_views(plan@) == paint_views(old(plan)@) + Seq::new(
                    i as nat,
                    |j: int| gutter_cell(area, j),
                ),
            decreases shown - i,
        {
            let cell = Rect { x: area.x, y: area.y + HEADER_ROWS + i, width: GUTTER_WIDTH, height: 1 };
            push_paint(plan, Paint::Line { area: cell, spans: row_of_one(gutter()) });
            assert(paint_views(plan@) =~= paint_views(old(plan)@) + Seq::new(
                (i + 1) as nat,
                |j: int| gutter_cell(area, j),
            ));
            i = i + 1;
        }
    }

    /// Adds the text primitive's area and, while the text is empty, the
    /// placeholder over it.
    fn push_text(&self, plan: &mut Vec<Paint>, area: Rect, desired: u16)
        ensures
            paint_views(final(plan)@) == paint_views(old(plan)@) + text_paints(
                self@,
                area,
                desired,
            ),
    {
        match self.textarea_rect(area, desired) {
            Some(rect) => {
                if area.height > 4 && area.y <= u16::MAX - 4 {
                    let shown = Rect { height: rect.height.min(area.height - 4), ..rect };
                    push_paint(plan, Paint::TextArea { area: shown });
                    if self.text().is_empty() {
                        let placeholder = Span {
                            content: String::from_str(
                                "Type your preferences and press Ctrl+S to save",
                            ),
                            style: SpanStyle::Dim,
                        };
                        push_paint(plan, Paint::Line { area: shown, spans: row_of_one(placeholder) });
                    }
                }
            },
            None => {},
        }
        assert(paint_views(plan@) =~= paint_views(old(plan)@) + text_paints(self@, area, desired));
    }

    /// Adds the editor block.
    fn push_editor_block(&self, plan: &mut Vec<Paint>, area: Rect, desired: u16)
        ensures
            paint_views(final(plan)@) == paint_views(old(plan)@) + editor_block(
                self@,
                area,
                desired,
            ),
    {
        if area.width >= GUTTER_WIDTH {
            self.push_gutter_column(plan, area, desired);
            if area.width > GUTTER_WIDTH {
                match row_at(area, HEADER_ROWS) {
                    Some(top) => {
                        push_paint(
                            plan,
                            Paint::Clear {
                                area: Rect {
                                    x: area.x.saturating_add(GUTTER_WIDTH),
                                    y: top.y,
                                    width: area.width - GUTTER_WIDTH,
                                    height: 1,
                                },
                            },
                        );
                    },
                    None => {},
                }
            }
            self.push_text(plan, area, desired);
        }
        assert(paint_views(plan@) =~= paint_views(old(plan)@) + editor_block(self@, area, desired));
    }

    /// Adds the spacer and the hint.
    fn push_footer(&self, plan: &mut Vec<Paint>, area: Rect, desired: u16)
        ensures
            paint_views(final(plan)@) == paint_views(old(plan)@) + footer(area, desired),
    {
        let spacer = HEADER_ROWS + self.input_height(desired);
        match row_at(area, spacer) {
            Some(blank) => {
                push_paint(plan, Paint::Clear { area: blank });
            },
            None => {},
        }
        let hint = Span { content: String::from_str("Ctrl+S save · Esc close"), style: SpanStyle::Dim };
        push_marked_row(plan, area, spacer + 1, hint);
        assert(paint_views(plan@) =~= paint_views(old(plan)@) + footer(area, desired));
    }

    /// Plans what is painted into `area`, in order: title, path and status
    /// on the first three rows, then the editor block, a blank spacer and
    /// the hint. `desired` is the height the text primitive would like at
    /// [`Self::usable_width`] columns. Rows that `area` has no room for are
    /// left out, and the text primitive's area is cut to the rows that
    /// remain.
    pub fn render(&self, area: Rect, desired: u16) -> (plan: Vec<Paint>)
        ensures
            paint_views(plan@) == render_plan(self@, area, desired),
            plan@.len() == render_plan(self@, area, desired).len(),
    {
        let mut plan: Vec<Paint> = Vec::new();
        if area.width == 0 || area.height == 0 {
            assert(paint_views(plan@) =~= render_plan(self@, area, desired));
            return plan;
        }
        self.push_header(&mut plan, area);
        self.push_editor_block(&mut plan, area, desired);
        self.push_footer(&mut plan, area, desired);
        assert(paint_views(plan@) =~= render_plan(self@, area, desired));
        plan
    }
}

} // verus!
