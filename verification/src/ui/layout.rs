//! Rectangular screen areas, and cutting rows off the top of one.

use vstd::prelude::*;

verus! {

/// A rectangular area of the screen, in terminal cells.
#[derive(Clone, Copy, Debug, PartialEq, Eq, Structural)]
pub struct Rect {
    pub x: u16,
    pub y: u16,
    pub width: u16,
    pub height: u16,
}

impl Rect {
    /// The row just below the area.
    pub open spec fn bottom(self) -> int {
        self.y + self.height
    }

    /// This area moved down by `rows`, stopping at the last row a screen
    /// can have.
    pub open spec fn lowered(self, rows: int) -> Rect {
        Rect {
            y: if self.y + rows <= u16::MAX {
                (self.y + rows) as u16
            } else {
                u16::MAX
            },
            ..self
        }
    }

    /// Moves the area down by `rows`, stopping at the last row a screen can
    /// have.
    pub fn lower(self, rows: u16) -> (moved: Rect)
        ensures
            moved == self.lowered(rows as int),
    {
        let y: u16 = if rows <= u16::MAX - self.y {
            self.y + rows
        } else {
            u16::MAX
        };
        Rect { x: self.x, y, width: self.width, height: self.height }
    }
}

/// Whether `part` spans the same columns as `area`.
pub open spec fn same_columns(part: Rect, area: Rect) -> bool {
    part.x == area.x && part.width == area.width
}

/// Whether `part` is a band of `area`: the same columns, and rows that lie
/// among those of `area` and on the screen.
pub open spec fn band_of(part: Rect, area: Rect) -> bool {
    &&& same_columns(part, area)
    &&& area.y <= part.y
    &&& part.bottom() <= area.bottom()
    &&& part.bottom() <= u16::MAX
}

/// Whether `rects` are bands of `pool` laid out from top to bottom: each one
/// ends where the next begins or above it.
pub open spec fn stacked_in(rects: Seq<Rect>, pool: Rect) -> bool {
    &&& forall|i: int| 0 <= i < rects.len() ==> band_of(#[trigger] rects[i], pool)
    &&& forall|i: int, j: int|
        0 <= i < j < rects.len() ==> (#[trigger] rects[i]).bottom() <= (#[trigger] rects[j]).y
}

/// Cuts `length` rows off the top of `area` with `ratatui`'s
/// `Layout::vertical(..).split(..)`, under the constraints `Length(length)`
/// and `Percentage(100)`, and hands back the top part and the remainder.
///
/// How many rows each part gets is the answer of ratatui's constraint
/// solver, and nothing is claimed of it. The claims are those that hold of
/// any answer. `split` makes one area per constraint, each with the `x` and
/// the `width` of the area it was given, its `y` and `height` taken from two
/// positions of the solver; and it requires of the solver that all positions
/// lie between the top and the bottom of that area, in ascending order. So
/// both parts are bands of `area`, and the top part ends where the
/// remainder begins or above it. These required constraints can always be
/// met, so the call returns for every area.
#[verifier::external_body]
fn split_top(area: Rect, length: u16) -> (parts: (Rect, Rect))
    ensures
        band_of(parts.0, area),
        band_of(parts.1, area),
        parts.0.bottom() <= parts.1.y,
{
    let layout = ratatui::layout::Layout::vertical(vec![
        ratatui::layout::Constraint::Length(length),
        ratatui::layout::Constraint::Percentage(100),
    ])
    .split(ratatui::layout::Rect { x: area.x, y: area.y, width: area.width, height: area.height });
    let (top, rest) = (layout[0], layout[1]);
    (
        Rect { x: top.x, y: top.y, width: top.width, height: top.height },
        Rect { x: rest.x, y: rest.y, width: rest.width, height: rest.height },
    )
}

/// Stacks one area per entry of `lengths` from the top of `pool`
/// downwards: for each entry in turn, that many rows are asked for off the
/// top of what is left of the pool.
///
/// How many rows each area gets is the layout solver's answer. Whatever it
/// answers, there is one area per entry, each a band of the pool, and each
/// ends where the next begins or above it.
pub fn stack(pool: Rect, lengths: &Vec<u16>) -> (rects: Vec<Rect>)
    ensures
        rects@.len() == lengths@.len(),
        stacked_in(rects@, pool),
{
    let mut rects: Vec<Rect> = Vec::new();
    let mut left = pool;
    let mut i: usize = 0;
    while i < lengths.len()
        invariant
            i <= lengths@.len(),
            rects@.len() == i,
            left == pool || band_of(left, pool),
            stacked_in(rects@, pool),
            forall|j: int| 0 <= j < rects@.len() ==> (#[trigger] rects@[j]).bottom() <= left.y,
        decreases lengths@.len() - i,
    {
        let (top, remainder) = split_top(left, lengths[i]);
        rects.push(top);
        left = remainder;
        i += 1;
    }
    rects
}

} // verus!
