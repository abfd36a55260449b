//! Screen rectangles and the terminal layout solver.
use vstd::prelude::*;
use ratatui::layout::{Constraint, Direction, Layout, Rect};

verus! {

/// A rectangle of terminal cells.
#[derive(Debug, Clone, Copy, PartialEq, Eq, Structural)]
pub struct Area {
    pub x: u16,
    pub y: u16,
    pub width: u16,
    pub height: u16,
}

/// How much of the split direction a part of a layout takes.
#[derive(Debug, Clone, Copy, PartialEq, Eq, Structural)]
pub enum Extent {
    Percentage(u16),
    Length(u16),
    Min(u16),
}

/// `ratatui::layout::Rect::new`: the size is clamped so that the rectangle
/// ends within the coordinate range.
pub open spec fn rect_new(x: u16, y: u16, width: u16, height: u16) -> Area {
    Area {
        x,
        y,
        width: if width > u16::MAX - x {
            (u16::MAX - x) as u16
        } else {
            width
        },
        height: if height > u16::MAX - y {
            (u16::MAX - y) as u16
        } else {
            height
        },
    }
}

pub fn area_new(x: u16, y: u16, width: u16, height: u16) -> (r: Area)
    ensures
        r == rect_new(x, y, width, height),
{
    let max_width = u16::MAX - x;
    let max_height = u16::MAX - y;
    Area {
        x,
        y,
        width: if width > max_width {
            max_width
        } else {
            width
        },
        height: if height > max_height {
            max_height
        } else {
            height
        },
    }
}

/// Whether the cell (`col`, `row`) lies inside `a`.
pub open spec fn contains_cell(a: Area, col: u16, row: u16) -> bool {
    a.x <= col < a.x + a.width && a.y <= row < a.y + a.height
}

pub fn contains_cell_exec(a: Area, col: u16, row: u16) -> (b: bool)
    ensures
        b == contains_cell(a, col, row),
{
    col >= a.x && (col as u32) < (a.x as u32) + (a.width as u32) && row >= a.y && (row as u32) < (
    a.y as u32) + (a.height as u32)
}

/// Whether `c` lies inside `a`.
pub open spec fn inside(c: Area, a: Area) -> bool {
    &&& a.x <= c.x
    &&& c.x + c.width <= a.x + a.width
    &&& a.y <= c.y
    &&& c.y + c.height <= a.y + a.height
}

/// Whether `p` is a part of `a` split vertically (rows) or horizontally
/// (columns): it keeps `a`'s position and size across the split and lies
/// within `a` along it.
pub open spec fn part_of(p: Area, a: Area, vertical: bool) -> bool {
    if vertical {
        p.x == a.x && p.width == a.width && a.y <= p.y && p.y + p.height <= a.y + a.height
    } else {
        p.y == a.y && p.height == a.height && a.x <= p.x && p.x + p.width <= a.x + a.width
    }
}

/// `ratatui::layout::Layout::default().direction(..).constraints(..).split(area)`.
/// The source builds one segment per constraint from solver variables that
/// are REQUIRED to lie within the area (`Rect::new` of it) and each
/// segment's end REQUIRED not to precede its start; `changes_to_rects`
/// copies the area's position and extent across the split axis and rounds
/// the ends. So every part is stated to be a part of the area. Nothing more
/// is stated: in particular not the parts' order along the axis (the
/// spacers between them are only strongly preferred, not required), nor
/// where they lie within the area (the solver walks hash maps whose order is
/// seeded per run).
#[verifier::external_body]
pub(crate) fn split_area(vertical: bool, constraints: &Vec<Extent>, area: Area) -> (r: Vec<Area>)
    ensures
        r@.len() == constraints@.len(),
        forall|i: int|
            0 <= i < r@.len() ==> part_of(
                #[trigger] r@[i],
                rect_new(area.x, area.y, area.width, area.height),
                vertical,
            ),
{
    let cs: Vec<Constraint> = constraints.iter().map(|c| match c {
        Extent::Percentage(p) => Constraint::Percentage(*p),
        Extent::Length(n) => Constraint::Length(*n),
        Extent::Min(n) => Constraint::Min(*n),
    }).collect();
    let dir = if vertical { Direction::Vertical } else { Direction::Horizontal };
    let rects = Layout::default().direction(dir).constraints(cs).split(Rect::new(area.x, area.y, area.width, area.height));
    rects.iter().map(|r| Area { x: r.x, y: r.y, width: r.width, height: r.height }).collect()
}

/// Two constraints.
pub fn two(a: Extent, b: Extent) -> (r: Vec<Extent>)
    ensures
        r@ == seq![a, b],
{
    let mut v: Vec<Extent> = Vec::new();
    v.push(a);
    v.push(b);
    assert(v@ =~= seq![a, b]);
    v
}

/// Three constraints.
pub fn three(a: Extent, b: Extent, c: Extent) -> (r: Vec<Extent>)
    ensures
        r@ == seq![a, b, c],
{
    let mut v: Vec<Extent> = Vec::new();
    v.push(a);
    v.push(b);
    v.push(c);
    assert(v@ =~= seq![a, b, c]);
    v
}

/// One constraint.
pub fn one(a: Extent) -> (r: Vec<Extent>)
    ensures
        r@ == seq![a],
{
    let mut v: Vec<Extent> = Vec::new();
    v.push(a);
    assert(v@ =~= seq![a]);
    v
}

} // verus!
