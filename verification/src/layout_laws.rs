//! What holds of the layout whatever rectangle the host offers, and of
//! drawing it whatever buffer the host hands over.

use vstd::prelude::*;
use crate::geometry::Rect;
use crate::layout::editor_block;
use crate::layout::editor_rows_in;
use crate::layout::footer;
use crate::layout::free_row;
use crate::layout::gutter_column;
use crate::layout::header;
use crate::layout::hint_span;
use crate::layout::input_rows;
use crate::layout::marked_row;
use crate::layout::only_if;
use crate::layout::overlay_rows;
use crate::layout::path_span;
use crate::layout::render_plan;
use crate::layout::row;
use crate::layout::row_in;
use crate::layout::text_area;
use crate::layout::text_area_in;
use crate::layout::text_paints;
use crate::layout::text_rows;
use crate::layout::title_span;
use crate::layout::PaintView;
use crate::session::SessionState;
use crate::span::SpanStyle;
use crate::span::SpanView;
use crate::surface::blank_cell;
use crate::surface::cell_index;
use crate::surface::cleared;
use crate::surface::clipped;
use crate::surface::covers;
use crate::surface::cut_spans;
use crate::surface::drawn;
use crate::surface::is_empty;
use crate::surface::kept_outside;
use crate::surface::lies_on;
use crate::surface::line_target;
use crate::surface::short_spans;
use crate::surface::sound;
use crate::surface::styled;
use crate::surface::target;
use crate::surface::LINE_WIDTH_LIMIT;
use crate::surface::CellColor;
use crate::surface::CellView;

verus! {

/// The text area is given at least 4 rows and at most 18, so the overlay
/// asks for at least 10 rows and at most 24.
pub proof fn heights_are_bounded(desired: u16)
    ensures
        4 <= text_rows(desired) <= 18,
        input_rows(desired) == text_rows(desired) + 1,
        overlay_rows(desired) == text_rows(desired) + 6,
        4 <= desired <= 18 ==> text_rows(desired) == desired,
{
}

/// An area under 4 columns wide has no text area, whatever the text is and
/// however many rows it would like.
pub proof fn narrow_area_has_no_text_area(state: SessionState, area: Rect, desired: u16)
    requires
        area.width < 4,
    ensures
        text_area(area, desired) is None,
        text_area_in(area, desired) is None,
        text_paints(state, area, desired).len() == 0,
{
}

/// An area at least 4 columns wide has a text area, two columns narrower
/// than the area and as high as the text area is given rows.
pub proof fn wide_area_has_text_area(area: Rect, desired: u16)
    requires
        area.width >= 4,
    ensures
        text_area(area, desired) matches Some(rect) && rect.width == area.width - 2 && rect.height
            == text_rows(desired),
{
}

/// Row `i` of the editor block gets its gutter marker exactly when it lies in
/// the area.
pub proof fn gutter_marks_rows_in_area(area: Rect, desired: u16, i: int)
    ensures
        0 <= i < editor_rows_in(area, desired) <==> 0 <= i < input_rows(desired) && row_in(
            area,
            3 + i,
        ),
{
}

/// Whether `inner` has a cell, and no cell outside `area`.
pub open spec fn inside(area: Rect, inner: Rect) -> bool {
    &&& !is_empty(inner)
    &&& area.x <= inner.x
    &&& inner.x + inner.width <= area.x + area.width
    &&& area.y <= inner.y
    &&& inner.y + inner.height <= area.y + area.height
}

/// Whether each of `paints` touches a cell, and none outside `area`.
pub open spec fn all_inside(area: Rect, paints: Seq<PaintView>) -> bool {
    forall|i: int| 0 <= i < paints.len() ==> inside(area, #[trigger] paints[i].area())
}

/// Paints that keep inside `area`, followed by more that do, keep inside
/// `area`.
proof fn joined_inside(area: Rect, first: Seq<PaintView>, second: Seq<PaintView>)
    requires
        all_inside(area, first),
        all_inside(area, second),
    ensures
        all_inside(area, first + second),
{
}

/// A marked row keeps inside an `area` that has columns.
proof fn marked_row_inside(area: Rect, k: int, span: SpanView)
    requires
        area.width > 0,
    ensures
        all_inside(area, marked_row(area, k, span)),
{
}

/// Nothing the overlay paints touches a cell outside the area it was given:
/// what the area has no room for is left out or cut short. And no paint is
/// empty.
pub proof fn plan_keeps_inside_area(state: SessionState, area: Rect, desired: u16)
    ensures
        all_inside(area, render_plan(state, area, desired)),
{
    if area.width == 0 || area.height == 0 {
    } else {
        let top = header(state, area);
        let block = editor_block(state, area, desired);
        let bottom = footer(area, desired);
        assert(all_inside(area, top)) by {
            let title = marked_row(area, 0, title_span());
            let path = marked_row(area, 1, path_span(state.display_path));
            let status = marked_row(area, 2, state.status_span());
            marked_row_inside(area, 0, title_span());
            marked_row_inside(area, 1, path_span(state.display_path));
            marked_row_inside(area, 2, state.status_span());
            joined_inside(area, title, path);
            joined_inside(area, title + path, status);
        }
        assert(all_inside(area, block)) by {
            if area.width >= 2 {
                let column = gutter_column(area, desired);
                let free = only_if(area.width > 2 && row_in(area, 3), free_row(area));
                let text = text_paints(state, area, desired);
                assert(all_inside(area, column));
                assert(all_inside(area, free));
                assert(all_inside(area, text));
                joined_inside(area, column, free);
                joined_inside(area, column + free, text);
            }
        }
        assert(all_inside(area, bottom)) by {
            let spacer = 3 + input_rows(desired);
            let blank = only_if(row_in(area, spacer), PaintView::Clear { area: row(area, spacer) });
            marked_row_inside(area, spacer + 1, hint_span());
            joined_inside(area, blank, marked_row(area, spacer + 1, hint_span()));
        }
        joined_inside(area, top, block);
        joined_inside(area, top + block, bottom);
    }
}

/// An area that is wide enough for text and as high as the overlay asks
/// shows all of it: every row of the overlay lies in the area, every row of
/// the editor block has its gutter marker, and the text area is not cut.
pub proof fn asked_height_shows_everything(state: SessionState, area: Rect, desired: u16)
    requires
        area.width >= 4,
        area.height >= overlay_rows(desired),
        area.y + overlay_rows(desired) <= u16::MAX + 1,
    ensures
        forall|k: int| 0 <= k < overlay_rows(desired) ==> row_in(area, k),
        editor_rows_in(area, desired) == input_rows(desired),
        text_area_in(area, desired) == text_area(area, desired),
        render_plan(state, area, desired).len() == input_rows(desired) + 7 + (if state.text.len()
            == 0 {
            1int
        } else {
            0int
        }),
{
    let rows = input_rows(desired) as int;
    assert(row_in(area, 0) && row_in(area, 1) && row_in(area, 2) && row_in(area, 3) && row_in(
        area,
        4,
    ));
    assert(row_in(area, 3 + rows) && row_in(area, 4 + rows));
    assert(header(state, area).len() == 3);
    assert(gutter_column(area, desired).len() == rows);
    assert(text_paints(state, area, desired).len() == 1 + (if state.text.len() == 0 {
        1int
    } else {
        0int
    }));
    assert(footer(area, desired).len() == 2);
}

/// A paint whose area lies on the buffer is drawn whole, as long as the
/// buffer holds a cell for each of its positions.
pub proof fn paint_on_surface_is_whole(cells: Seq<CellView>, surface: Rect, area: Rect)
    requires
        sound(cells, surface),
        lies_on(surface, area),
        !is_empty(area),
    ensures
        target(cells, surface, area) == Some(area),
{
}

/// Where the area offered to the overlay lies on the buffer, so does every
/// paint of the plan: each is drawn whole, and none asks the buffer for a
/// cell it does not have.
pub proof fn plan_on_surface_is_whole(
    state: SessionState,
    area: Rect,
    desired: u16,
    cells: Seq<CellView>,
    surface: Rect,
)
    requires
        sound(cells, surface),
        lies_on(surface, area),
    ensures
        forall|i: int|
            0 <= i < render_plan(state, area, desired).len() ==> target(
                cells,
                surface,
                (#[trigger] render_plan(state, area, desired)[i]).area(),
            ) == Some(render_plan(state, area, desired)[i].area()),
{
    plan_keeps_inside_area(state, area, desired);
    let plan = render_plan(state, area, desired);
    assert forall|i: int| 0 <= i < plan.len() implies target(
        cells,
        surface,
        (#[trigger] plan[i]).area(),
    ) == Some(plan[i].area()) by {
        assert(inside(area, plan[i].area()));
        paint_on_surface_is_whole(cells, surface, plan[i].area());
    }
}

/// Drawing changes no symbol of a buffer whose cells do not fit its area, and
/// the text primitive's area is never drawn on.
pub proof fn nothing_drawn_where_nothing_fits(
    cells: Seq<CellView>,
    surface: Rect,
    paint: PaintView,
)
    requires
        !sound(cells, surface) || paint is TextArea || is_empty(clipped(paint.area(), surface)),
    ensures
        drawn(cells, surface, paint) == cells,
{
}

/// Clearing keeps the number of cells, resets the cells of the cleared area
/// and leaves every other cell as it was.
pub proof fn clearing_resets_its_area(
    cells: Seq<CellView>,
    surface: Rect,
    area: Rect,
    x: int,
    y: int,
)
    requires
        sound(cells, surface),
        covers(surface, x, y),
    ensures
        cleared(cells, surface, area).len() == cells.len(),
        0 <= cell_index(surface, x, y) < cells.len(),
        cleared(cells, surface, area)[cell_index(surface, x, y)] == (if covers(area, x, y) {
            blank_cell()
        } else {
            cells[cell_index(surface, x, y)]
        }),
        kept_outside(cells, cleared(cells, surface, area), surface, area),
{
    let w = surface.width as int;
    let h = surface.height as int;
    let dx = x - surface.x;
    let dy = y - surface.y;
    let i = dy * w + dx;
    assert(0 <= i < w * h) by (nonlinear_arith)
        requires
            0 <= dx < w,
            0 <= dy < h,
            i == dy * w + dx,
    ;
    assert(i % w == dx && i / w == dy) by {
        vstd::arithmetic::div_mod::lemma_fundamental_div_mod_converse(i, w, dy, dx);
    }
}

/// A line no wider than the limit is drawn where any paint for its area is
/// drawn, and spans within the limit are drawn uncut.
pub proof fn line_within_limits_is_whole(
    cells: Seq<CellView>,
    surface: Rect,
    area: Rect,
    spans: Seq<SpanView>,
)
    requires
        area.width <= LINE_WIDTH_LIMIT,
        short_spans(spans),
    ensures
        line_target(cells, surface, area) == target(cells, surface, area),
        cut_spans(spans) == spans,
{
    assert(cut_spans(spans) =~= spans);
}

/// Cutting the spans of a line keeps their number, their order and their
/// styles, and leaves none longer than the limit.
pub proof fn cut_spans_keep_their_styles(spans: Seq<SpanView>)
    ensures
        cut_spans(spans).len() == spans.len(),
        short_spans(cut_spans(spans)),
        forall|j: int|
            0 <= j < spans.len() ==> (#[trigger] cut_spans(spans)[j]).style == spans[j].style,
        forall|j: int|
            0 <= j < spans.len() ==> (#[trigger] cut_spans(spans)[j]).content.is_prefix_of(
                spans[j].content,
            ),
{
}

/// What a span's style does to a cell: each of the three status colours, and
/// the gutter's, becomes the foreground, and nothing else changes; bold and
/// dim are added, and the foreground stays.
pub proof fn span_style_sets_cell_style(cell: CellView, style: SpanStyle)
    ensures
        style == SpanStyle::Green ==> styled(cell.style, style).fg == CellColor::Green,
        style == SpanStyle::Red ==> styled(cell.style, style).fg == CellColor::Red,
        style == SpanStyle::Yellow ==> styled(cell.style, style).fg == CellColor::Yellow,
        style == SpanStyle::Cyan ==> styled(cell.style, style).fg == CellColor::Cyan,
        style == SpanStyle::Bold ==> styled(cell.style, style).bold && styled(
            cell.style,
            style,
        ).fg == cell.style.fg,
        style == SpanStyle::Dim ==> styled(cell.style, style).dim && styled(cell.style, style).fg
            == cell.style.fg,
        style != SpanStyle::Bold ==> styled(cell.style, style).bold == cell.style.bold,
        style != SpanStyle::Dim ==> styled(cell.style, style).dim == cell.style.dim,
{
}

} // verus!
