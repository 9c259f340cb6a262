//! The drawing surface: ratatui's cell buffer, its layout solver and its
//! widgets, behind contracts that Verus takes on trust.
//!
//! A buffer is described by two things, its rectangle and the row-major list
//! of its cells. The contracts of the widgets speak of those two alone; the
//! contract of the layout solver says which lists of parts are among its
//! outcomes.

use crate::area::{Area, Axis};
use ratatui::buffer::Buffer;
use ratatui::layout::{Constraint, Direction, Layout, Rect};
use ratatui::style::Stylize;
use ratatui::symbols::border;
use ratatui::text::Line;
use ratatui::widgets::{Block, Paragraph, Widget};
use vstd::prelude::*;

verus! {

/// A colour of a cell, as ratatui's `Color` has it.
pub enum Tint {
    Reset,
    Black,
    Red,
    Green,
    Yellow,
    Blue,
    Magenta,
    Cyan,
    Gray,
    DarkGray,
    LightRed,
    LightGreen,
    LightYellow,
    LightBlue,
    LightMagenta,
    LightCyan,
    White,
    Rgb(u8, u8, u8),
    Indexed(u8),
}

/// All that one cell of a buffer holds: the text drawn in it, its three
/// colours, the bits of its text modifiers, and whether it is left out when
/// the buffer is copied to the screen.
pub struct Glyph {
    pub symbol: Seq<char>,
    pub fg: Tint,
    pub bg: Tint,
    pub underline: Tint,
    pub modifier: u16,
    pub skip: bool,
}

/// `ratatui::buffer::Buffer`, a rectangle of terminal cells in memory.
#[verifier::external_type_specification]
#[verifier::external_body]
pub struct ExBuffer(Buffer);

/// The cells of a buffer in row-major order: its field `content`.
pub uninterp spec fn cells(buf: Buffer) -> Seq<Glyph>;

/// The rectangle that a buffer stands for: its field `area`.
pub uninterp spec fn bounds(buf: Buffer) -> Area;

/// What a buffer's cells become when a header block with `title` is drawn
/// into `area`.
pub uninterp spec fn header_cells(before: Seq<Glyph>, bounds: Area, area: Area, title: Seq<char>) -> Seq<Glyph>;

/// What a buffer's cells become when a footer block with the hint `label`
/// followed by `key` is drawn into `area`.
pub uninterp spec fn footer_cells(before: Seq<Glyph>, bounds: Area, area: Area, label: Seq<char>, key: Seq<char>) -> Seq<Glyph>;

/// What a buffer's cells become when a pane with `label` followed by `value`
/// is drawn into `area`.
pub uninterp spec fn pane_cells(before: Seq<Glyph>, bounds: Area, area: Area, label: Seq<char>, value: Seq<char>) -> Seq<Glyph>;

/// `parts` is an outcome of `Layout::split` for `area` cut along `axis` by
/// one percentage constraint for each entry of `percents`. The solver may
/// have more than one outcome for the same arguments: this says of `parts`
/// that it is one of them, not that it is the only one.
pub uninterp spec fn is_cut(area: Area, axis: Axis, percents: Seq<u16>, parts: Seq<Area>) -> bool;

/// The largest coordinate of a buffer that is drawn into. ratatui adds
/// widths to columns in `u16`; below this limit no such sum leaves the range.
pub const MAX_COORDINATE: u16 = 0x7fff;

/// The largest number of characters of a title. ratatui adds one to a
/// title's width in `u16`; a plain title this short stays far below the
/// range.
pub const MAX_TITLE: usize = 1000;

/// The buffer is one that ratatui's widgets can draw into: it holds one cell
/// for each position of its rectangle, and no coordinate of the rectangle is
/// above `MAX_COORDINATE`.
pub open spec fn is_grid(buf: Buffer) -> bool {
    &&& bounds(buf).x + bounds(buf).width <= MAX_COORDINATE
    &&& bounds(buf).y + bounds(buf).height <= MAX_COORDINATE
    &&& cells(buf).len() == bounds(buf).width * bounds(buf).height
}

/// Every character of `text` is a printable ASCII character. ratatui measures
/// a title that does not fit both cluster by cluster and as a whole, and
/// stops where the two differ; on such a text they never do.
pub open spec fn is_plain(text: Seq<char>) -> bool {
    forall|i: int| 0 <= i < text.len() ==> 0x20 <= (#[trigger] text[i]) as u32 <= 0x7e
}

/// The column of the cell with index `i` in a buffer of rectangle `bounds`.
pub open spec fn column_of(bounds: Area, i: int) -> int {
    bounds.x + i % (bounds.width as int)
}

/// The row of the cell with index `i` in a buffer of rectangle `bounds`.
pub open spec fn row_of(bounds: Area, i: int) -> int {
    bounds.y + i / (bounds.width as int)
}

/// The cell with index `i` in a buffer of rectangle `bounds` lies in `area`.
pub open spec fn covers(area: Area, bounds: Area, i: int) -> bool {
    &&& area.x <= column_of(bounds, i) < area.x + area.width
    &&& area.y <= row_of(bounds, i) < area.y + area.height
}

/// The cells of `after` that lie outside `area` are those of `before`.
pub open spec fn same_outside(
    before: Seq<Glyph>,
    after: Seq<Glyph>,
    bounds: Area,
    area: Area,
) -> bool {
    forall|i: int|
        0 <= i < before.len() && !covers(area, bounds, i) ==> (#[trigger] after[i]) == before[i]
}

/// `area` can be handed to a widget that draws into a buffer of rectangle
/// `bounds`: it has no cell, or all its cells are the buffer's.
pub open spec fn fits(area: Area, bounds: Area) -> bool {
    area.is_empty() || area.within(bounds)
}

/// Reads the field `area` of a buffer.
#[verifier::external_body]
pub(crate) fn bounds_of(buf: &Buffer) -> (area: Area)
    ensures
        area == bounds(*buf),
{
    Area { x: buf.area.x, y: buf.area.y, width: buf.area.width, height: buf.area.height }
}

/// Reads the length of the field `content` of a buffer.
#[verifier::external_body]
pub(crate) fn cell_count(buf: &Buffer) -> (count: usize)
    ensures
        count == cells(*buf).len(),
{
    buf.content.len()
}

/// `Layout::split` with one percentage constraint for each entry of
/// `percents`. The solver behind it walks hash maps, so the result is not
/// given as a function of the arguments: it is said to be an outcome for
/// them, whichever. What the source shows of every outcome: there is one part
/// for each constraint, and across the axis each part is as large as `area`.
#[verifier::external_body]
pub(crate) fn split(area: Area, axis: Axis, percents: &Vec<u16>) -> (parts: Vec<Area>)
    ensures
        is_cut(area, axis, percents@, parts@),
        parts.len() == percents.len(),
        forall|i: int|
            0 <= i < parts.len() ==> match axis {
                Axis::Vertical => (#[trigger] parts[i]).x == area.x && parts[i].width
                    == area.width,
                Axis::Horizontal => parts[i].y == area.y && parts[i].height == area.height,
            },
{
    let direction = match axis {
        Axis::Horizontal => Direction::Horizontal,
        Axis::Vertical => Direction::Vertical,
    };
    let constraints = percents.iter().map(|p| Constraint::Percentage(*p));
    let rect = Rect { x: area.x, y: area.y, width: area.width, height: area.height };
    let parts = Layout::default().direction(direction).constraints(constraints).split(rect);
    parts.iter().map(|r| Area { x: r.x, y: r.y, width: r.width, height: r.height }).collect()
}

/// `Block::render` for a block without visible border whose top title is
/// `title`, bold and centred. The buffer keeps its rectangle and the number
/// of its cells; the cells outside `area` stay as they are; the new cells
/// depend on the old ones and on the arguments alone.
#[verifier::external_body]
pub(crate) fn paint_header(buf: &mut Buffer, area: Area, title: &str)
    requires
        is_grid(*old(buf)),
        fits(area, bounds(*old(buf))),
        title@.len() <= MAX_TITLE,
        is_plain(title@),
    ensures
        bounds(*final(buf)) == bounds(*old(buf)),
        cells(*final(buf)).len() == cells(*old(buf)).len(),
        same_outside(cells(*old(buf)), cells(*final(buf)), bounds(*old(buf)), area),
        cells(*final(buf)) == header_cells(cells(*old(buf)), bounds(*old(buf)), area, title@),
{
    let rect = Rect { x: area.x, y: area.y, width: area.width, height: area.height };
    let line = Line::from(title.to_owned().bold());
    Block::bordered().title(line.centered()).border_set(border::EMPTY).render(rect, buf);
}

/// `Block::render` for a block without visible border whose bottom title is
/// `label` followed by `key`, the key blue and bold, centred. The buffer
/// keeps its rectangle and the number of its cells; the cells outside `area`
/// stay as they are; the new cells depend on the old ones and on the
/// arguments alone.
#[verifier::external_body]
pub(crate) fn paint_footer(buf: &mut Buffer, area: Area, label: &str, key: &str)
    requires
        is_grid(*old(buf)),
        fits(area, bounds(*old(buf))),
        label@.len() + key@.len() <= MAX_TITLE,
        is_plain(label@),
        is_plain(key@),
    ensures
        bounds(*final(buf)) == bounds(*old(buf)),
        cells(*final(buf)).len() == cells(*old(buf)).len(),
        same_outside(cells(*old(buf)), cells(*final(buf)), bounds(*old(buf)), area),
        cells(*final(buf)) == footer_cells(
            cells(*old(buf)),
            bounds(*old(buf)),
            area,
            label@,
            key@,
        ),
{
    let rect = Rect { x: area.x, y: area.y, width: area.width, height: area.height };
    let line = Line::from(vec![label.to_owned().into(), key.to_owned().blue().bold()]);
    Block::bordered().title_bottom(line.centered()).border_set(border::EMPTY).render(rect, buf);
}

/// `Paragraph::render` for one centred line, `label` followed by `value` in
/// yellow, inside a block with a thick border. The buffer keeps its rectangle
/// and the number of its cells; the cells outside `area` stay as they are;
/// the new cells depend on the old ones and on the arguments alone.
#[verifier::external_body]
pub(crate) fn paint_pane(buf: &mut Buffer, area: Area, label: &str, value: &str)
    requires
        is_grid(*old(buf)),
        fits(area, bounds(*old(buf))),
    ensures
        bounds(*final(buf)) == bounds(*old(buf)),
        cells(*final(buf)).len() == cells(*old(buf)).len(),
        same_outside(cells(*old(buf)), cells(*final(buf)), bounds(*old(buf)), area),
        cells(*final(buf)) == pane_cells(
            cells(*old(buf)),
            bounds(*old(buf)),
            area,
            label@,
            value@,
        ),
{
    let rect = Rect { x: area.x, y: area.y, width: area.width, height: area.height };
    let line = Line::from(vec![label.to_owned().into(), value.to_owned().yellow()]);
    let block = Block::bordered().border_set(border::THICK);
    Paragraph::new(line).centered().block(block).render(rect, buf);
}

} // verus!
