//! The frame: which text is drawn where.
//!
//! The screen is cut into a header, a body and a footer below each other, and
//! the body into a price pane and a weather pane beside each other.

use crate::app::{App, AppView};
use crate::area::{Area, Axis};
use crate::surface::{
    bounds, bounds_of, cell_count, cells, covers, footer_cells, header_cells, is_cut, is_grid,
    paint_footer, paint_header, paint_pane, pane_cells, same_outside, split, Glyph,
    MAX_COORDINATE,
};
use ratatui::buffer::Buffer;
use vstd::prelude::*;

verus! {

/// The title in the header.
pub open spec fn title() -> Seq<char> {
    " JkDashTUI "@
}

/// The words of the hint in the footer.
pub open spec fn hint_label() -> Seq<char> {
    "Quit "@
}

/// The key named by the hint in the footer.
pub open spec fn hint_key() -> Seq<char> {
    "<Q> "@
}

/// The words before the price.
pub open spec fn price_label() -> Seq<char> {
    "Price: "@
}

/// The words before the weather.
pub open spec fn weather_label() -> Seq<char> {
    "Weather: "@
}

/// The shares of the height, in percent, of header, body and footer.
pub open spec fn row_percents() -> Seq<u16> {
    seq![10u16, 80u16, 10u16]
}

/// The shares of the body's width, in percent, of the two panes.
pub open spec fn pane_percents() -> Seq<u16> {
    seq![50u16, 50u16]
}

/// `rows` and `columns` are a layout of `area`: the rows are an outcome of
/// cutting `area` from top to bottom by `row_percents`, the columns an outcome
/// of cutting the middle row from left to right by `pane_percents`. There are
/// three rows as wide as `area` and two columns as high as the middle row.
pub open spec fn is_layout(area: Area, rows: Seq<Area>, columns: Seq<Area>) -> bool {
    &&& rows.len() == 3
    &&& columns.len() == 2
    &&& is_cut(area, Axis::Vertical, row_percents(), rows)
    &&& is_cut(rows[1], Axis::Horizontal, pane_percents(), columns)
    &&& forall|i: int| 0 <= i < 3 ==> (#[trigger] rows[i]).x == area.x && rows[i].width == area.width
    &&& forall|j: int|
        0 <= j < 2 ==> (#[trigger] columns[j]).y == rows[1].y && columns[j].height
            == rows[1].height
}

/// The cell with index `i` of a buffer of rectangle `bounds` lies in one of
/// the four parts that a frame is drawn into.
pub open spec fn in_frame(rows: Seq<Area>, columns: Seq<Area>, bounds: Area, i: int) -> bool {
    ||| covers(rows[0], bounds, i)
    ||| covers(rows[2], bounds, i)
    ||| covers(columns[0], bounds, i)
    ||| covers(columns[1], bounds, i)
}

/// The cells of `after` that lie in none of the four parts of the frame are
/// those of `before`.
pub open spec fn same_around_frame(
    before: Seq<Glyph>,
    after: Seq<Glyph>,
    rows: Seq<Area>,
    columns: Seq<Area>,
    bounds: Area,
) -> bool {
    forall|i: int|
        0 <= i < before.len() && !in_frame(rows, columns, bounds, i) ==> (#[trigger] after[i])
            == before[i]
}

/// The cells of a buffer after the header has been drawn into the first row,
/// cut down to the buffer's rectangle.
pub open spec fn with_header(rows: Seq<Area>, before: Seq<Glyph>, bounds: Area) -> Seq<Glyph> {
    header_cells(before, bounds, rows[0].intersection(bounds), title())
}

/// The cells after the footer has then been drawn into the third row.
pub open spec fn with_footer(rows: Seq<Area>, before: Seq<Glyph>, bounds: Area) -> Seq<Glyph> {
    footer_cells(
        with_header(rows, before, bounds),
        bounds,
        rows[2].intersection(bounds),
        hint_label(),
        hint_key(),
    )
}

/// The cells after the price has then been drawn into the first column.
pub open spec fn with_price(
    state: AppView,
    rows: Seq<Area>,
    columns: Seq<Area>,
    before: Seq<Glyph>,
    bounds: Area,
) -> Seq<Glyph> {
    pane_cells(
        with_footer(rows, before, bounds),
        bounds,
        columns[0].intersection(bounds),
        price_label(),
        state.price,
    )
}

/// The cells of a buffer after a frame has been drawn into it: the header
/// into the first row, the footer into the third, the price into the first
/// column and the weather into the second, in this order and each cut down
/// to the buffer's rectangle.
pub open spec fn frame_cells(
    state: AppView,
    rows: Seq<Area>,
    columns: Seq<Area>,
    before: Seq<Glyph>,
    bounds: Area,
) -> Seq<Glyph> {
    pane_cells(
        with_price(state, rows, columns, before, bounds),
        bounds,
        columns[1].intersection(bounds),
        weather_label(),
        state.weather,
    )
}

/// Each part of the frame is drawn in its place and nowhere else: the header
/// changes cells of the first row only, the footer cells of the third row
/// only, the price cells of the first column only and the weather cells of
/// the second column only. No step changes the number of cells.
pub open spec fn each_in_its_place(
    state: AppView,
    rows: Seq<Area>,
    columns: Seq<Area>,
    before: Seq<Glyph>,
    bounds: Area,
) -> bool {
    let header = with_header(rows, before, bounds);
    let footer = with_footer(rows, before, bounds);
    let price = with_price(state, rows, columns, before, bounds);
    let weather = frame_cells(state, rows, columns, before, bounds);
    &&& header.len() == before.len()
    &&& footer.len() == before.len()
    &&& price.len() == before.len()
    &&& weather.len() == before.len()
    &&& same_outside(before, header, bounds, rows[0])
    &&& same_outside(header, footer, bounds, rows[2])
    &&& same_outside(footer, price, bounds, columns[0])
    &&& same_outside(price, weather, bounds, columns[1])
}

/// The percentages by which the screen is cut into header, body and footer.
pub fn row_shares() -> (shares: Vec<u16>)
    ensures
        shares@ == row_percents(),
{
    let shares: Vec<u16> = vec![10, 80, 10];
    shares
}

/// The percentages by which the body is cut into the two panes.
pub fn pane_shares() -> (shares: Vec<u16>)
    ensures
        shares@ == pane_percents(),
{
    let shares: Vec<u16> = vec![50, 50];
    shares
}

/// Draws the frame of `app` into `buf`, given the rows and columns of the
/// layout. The state is only read.
pub fn draw(app: &App, rows: &Vec<Area>, columns: &Vec<Area>, buf: &mut Buffer)
    requires
        rows.len() == 3,
        columns.len() == 2,
        is_grid(*old(buf)),
    ensures
        bounds(*final(buf)) == bounds(*old(buf)),
        is_grid(*final(buf)),
        cells(*final(buf)) == frame_cells(
            app@,
            rows@,
            columns@,
            cells(*old(buf)),
            bounds(*old(buf)),
        ),
        each_in_its_place(app@, rows@, columns@, cells(*old(buf)), bounds(*old(buf))),
{
    let limits = bounds_of(buf);
    let header = rows[0].clip(&limits);
    let footer = rows[2].clip(&limits);
    let left = columns[0].clip(&limits);
    let right = columns[1].clip(&limits);
    proof {
        reveal_strlit(" JkDashTUI ");
        reveal_strlit("Quit ");
        reveal_strlit("<Q> ");
    }
    let ghost blank = cells(*buf);
    paint_header(buf, header, " JkDashTUI ");
    let ghost headed = cells(*buf);
    paint_footer(buf, footer, "Quit ", "<Q> ");
    let ghost footed = cells(*buf);
    paint_pane(buf, left, "Price: ", app.price());
    let ghost priced = cells(*buf);
    paint_pane(buf, right, "Weather: ", app.weather());
    proof {
        lemma_same_outside_the_whole(blank, headed, limits, rows[0]);
        lemma_same_outside_the_whole(headed, footed, limits, rows[2]);
        lemma_same_outside_the_whole(footed, priced, limits, columns[0]);
        lemma_same_outside_the_whole(priced, cells(*buf), limits, columns[1]);
    }
}

/// Whether a frame can be drawn into `buf`: it holds one cell for each
/// position of its rectangle, and no coordinate is above `MAX_COORDINATE`.
pub fn is_drawable(buf: &Buffer) -> (ok: bool)
    ensures
        ok == is_grid(*buf),
{
    let limits = bounds_of(buf);
    let count = cell_count(buf);
    if limits.x > MAX_COORDINATE || limits.width > MAX_COORDINATE - limits.x {
        return false;
    }
    if limits.y > MAX_COORDINATE || limits.height > MAX_COORDINATE - limits.y {
        return false;
    }
    assert(limits.width * limits.height <= 0x7fff * 0x7fff) by (nonlinear_arith)
        requires
            limits.width <= 0x7fff,
            limits.height <= 0x7fff,
    ;
    let wanted: u64 = (limits.width as u64) * (limits.height as u64);
    (count as u64) == wanted
}

/// Draws the dashboard for `app` into `buf`: `area` is cut into header, body
/// and footer by `row_shares`, the body into two panes by `pane_shares`, and
/// the frame is drawn into those parts. The state is only read. Where the
/// cuts fall is the layout solver's choice among its outcomes for those
/// shares; whichever it chose, the buffer holds the frame for those parts,
/// each text in its part and nowhere else. A buffer that `is_drawable` refuses is
/// left as it is.
pub fn render(app: &App, area: Area, buf: &mut Buffer)
    ensures
        bounds(*final(buf)) == bounds(*old(buf)),
        is_grid(*old(buf)) ==> is_grid(*final(buf)) && exists|rows: Seq<Area>, columns: Seq<Area>|
            {
                &&& #[trigger] is_layout(area, rows, columns)
                &&& cells(*final(buf)) == frame_cells(
                    app@,
                    rows,
                    columns,
                    cells(*old(buf)),
                    bounds(*old(buf)),
                )
                &&& each_in_its_place(
                    app@,
                    rows,
                    columns,
                    cells(*old(buf)),
                    bounds(*old(buf)),
                )
            },
        !is_grid(*old(buf)) ==> cells(*final(buf)) == cells(*old(buf)),
{
    if !is_drawable(buf) {
        return;
    }
    let row_shares = row_shares();
    let rows = split(area, Axis::Vertical, &row_shares);
    let pane_shares = pane_shares();
    let columns = split(rows[1], Axis::Horizontal, &pane_shares);
    draw(app, &rows, &columns, buf);
    proof {
        assert(is_layout(area, rows@, columns@));
    }
}

/// A cell of a buffer lies in a rectangle exactly if it lies in the part of
/// the rectangle that the buffer holds.
pub proof fn lemma_clip_covers_the_same(area: Area, bounds: Area, i: int)
    requires
        bounds.x + bounds.width <= MAX_COORDINATE,
        bounds.y + bounds.height <= MAX_COORDINATE,
        0 <= i < bounds.width * bounds.height,
    ensures
        covers(area.intersection(bounds), bounds, i) == covers(area, bounds, i),
{
    let w = bounds.width as int;
    let h = bounds.height as int;
    assert(w > 0 && h > 0) by (nonlinear_arith)
        requires
            0 <= i < w * h,
            w >= 0,
            h >= 0,
    ;
    vstd::arithmetic::div_mod::lemma_mod_bound(i, w);
    vstd::arithmetic::div_mod::lemma_div_pos_is_pos(i, w);
    vstd::arithmetic::div_mod::lemma_multiply_divide_lt(i, w, h);
}

/// Cells that a widget left alone outside the part of a rectangle that the
/// buffer holds were left alone outside the whole rectangle.
pub proof fn lemma_same_outside_the_whole(
    before: Seq<Glyph>,
    after: Seq<Glyph>,
    bounds: Area,
    area: Area,
)
    requires
        bounds.x + bounds.width <= MAX_COORDINATE,
        bounds.y + bounds.height <= MAX_COORDINATE,
        before.len() == bounds.width * bounds.height,
        same_outside(before, after, bounds, area.intersection(bounds)),
    ensures
        same_outside(before, after, bounds, area),
{
    assert forall|i: int| 0 <= i < before.len() && !covers(area, bounds, i) implies (
    #[trigger] after[i]) == before[i] by {
        lemma_clip_covers_the_same(area, bounds, i);
    }
}

/// A frame changes no cell outside its four parts.
pub proof fn lemma_frame_leaves_the_rest(
    state: AppView,
    rows: Seq<Area>,
    columns: Seq<Area>,
    before: Seq<Glyph>,
    bounds: Area,
)
    requires
        each_in_its_place(state, rows, columns, before, bounds),
    ensures
        same_around_frame(
            before,
            frame_cells(state, rows, columns, before, bounds),
            rows,
            columns,
            bounds,
        ),
{
    let header = with_header(rows, before, bounds);
    let footer = with_footer(rows, before, bounds);
    let price = with_price(state, rows, columns, before, bounds);
    let weather = frame_cells(state, rows, columns, before, bounds);
    assert forall|i: int|
        0 <= i < before.len() && !in_frame(rows, columns, bounds, i) implies (
    #[trigger] weather[i]) == before[i] by {
        assert(header[i] == before[i]);
        assert(footer[i] == header[i]);
        assert(price[i] == footer[i]);
    }
}

/// Drawing is a function of what is shown: two states with the same texts
/// give the same frame on the same layout and the same buffer.
pub proof fn lemma_frame_depends_on_texts(
    a: AppView,
    b: AppView,
    rows: Seq<Area>,
    columns: Seq<Area>,
    before: Seq<Glyph>,
    bounds: Area,
)
    requires
        a.price == b.price,
        a.weather == b.weather,
    ensures
        frame_cells(a, rows, columns, before, bounds) == frame_cells(
            b,
            rows,
            columns,
            before,
            bounds,
        ),
{
}

} // verus!
