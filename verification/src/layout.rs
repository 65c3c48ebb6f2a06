//! Placing the command palette's pop-up in the middle of the screen.

use vstd::prelude::*;
use ratatui::layout::{Constraint, Layout, Rect};

verus! {

/// A rectangle of terminal cells: its top-left corner and its size.
#[derive(Clone, Copy, PartialEq, Eq, Structural, Debug)]
pub struct Area {
    pub x: u16,
    pub y: u16,
    pub width: u16,
    pub height: u16,
}

/// The middle part when ratatui lays `area` out in three columns: the middle
/// `width` cells wide, the two others filling the rest equally.
pub uninterp spec fn middle_column(area: Area, width: u16) -> Area;

/// The middle part when ratatui lays `area` out in three rows: the middle
/// `height` cells high, the two others filling the rest equally.
pub uninterp spec fn middle_row(area: Area, height: u16) -> Area;

/// The middle column of ratatui's
/// `Layout::horizontal([Fill(1), Length(width), Fill(1)]).split(area)`: the
/// contract names the result, a function of `area` and `width` alone, and
/// states what ratatui fixes: a column keeps the area's top and height
/// (`changes_to_rects`); when `width` fits, the `Length` column is that wide
/// and the two `Fill` columns share the rest equally, the odd cell going to
/// the left one (the documented behaviour of `Length` and `Fill`).
#[verifier::external_body]
fn split_middle_column(area: Area, width: u16) -> (r: Area)
    ensures
        r == middle_column(area, width),
        r.y == area.y,
        r.height == area.height,
        width <= area.width && area.x + area.width <= 0xffff ==> r.width == width && area.width
            - width <= 2 * (r.x - area.x) <= area.width - width + 1,
{
    let rect = Rect { x: area.x, y: area.y, width: area.width, height: area.height };
    let parts = Layout::horizontal([Constraint::Fill(1), Constraint::Length(width), Constraint::Fill(1)])
        .split(rect);
    Area { x: parts[1].x, y: parts[1].y, width: parts[1].width, height: parts[1].height }
}

/// The middle row of ratatui's
/// `Layout::vertical([Fill(1), Length(height), Fill(1)]).split(area)`: the
/// contract names the result, a function of `area` and `height` alone, and
/// states what ratatui fixes: a row keeps the area's left edge and width
/// (`changes_to_rects`); when `height` fits, the `Length` row is that high
/// and the two `Fill` rows share the rest equally, the odd cell going to the
/// upper one (the documented behaviour of `Length` and `Fill`).
#[verifier::external_body]
fn split_middle_row(area: Area, height: u16) -> (r: Area)
    ensures
        r == middle_row(area, height),
        r.x == area.x,
        r.width == area.width,
        height <= area.height && area.y + area.height <= 0xffff ==> r.height == height
            && area.height - height <= 2 * (r.y - area.y) <= area.height - height + 1,
{
    let rect = Rect { x: area.x, y: area.y, width: area.width, height: area.height };
    let parts = Layout::vertical([Constraint::Fill(1), Constraint::Length(height), Constraint::Fill(1)])
        .split(rect);
    Area { x: parts[1].x, y: parts[1].y, width: parts[1].width, height: parts[1].height }
}

/// A `width` x `height` rectangle centred in `area`: the middle row of the
/// middle column. Its left edge and width are the middle column's; its top
/// and height come from laying out rows over the column, which spans the
/// area's full height. When it fits, it has the requested size and leaves
/// equal margins on opposite sides, up to one cell.
pub fn centered_rect(area: Area, width: u16, height: u16) -> (r: Area)
    ensures
        width <= area.width && area.x + area.width <= 0xffff ==> r.width == width && area.width
            - width <= 2 * (r.x - area.x) <= area.width - width + 1,
        height <= area.height && area.y + area.height <= 0xffff ==> r.height == height
            && area.height - height <= 2 * (r.y - area.y) <= area.height - height + 1,
        r == middle_row(middle_column(area, width), height),
        r.x == middle_column(area, width).x,
        r.width == middle_column(area, width).width,
        r == middle_row(
            (Area {
                x: middle_column(area, width).x,
                y: area.y,
                width: middle_column(area, width).width,
                height: area.height,
            }),
            height,
        ),
{
    let column = split_middle_column(area, width);
    split_middle_row(column, height)
}

} // verus!
