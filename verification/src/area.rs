//! Screen geometry: rectangles of character cells and the fixed split of a
//! full display into a title strip and two value columns.
//!
//! The split is by rule, so that a frame depends on nothing but the state
//! and the area.
//!
//! Rows, from the top: the title strip of `TITLE_HEIGHT` rows, a gap of
//! `SPACING` rows, and the body, which takes the rows that are left. An
//! area too low for all three gives up the body first and the strip next:
//! the gap is kept as long as the area has a row.
//!
//! Columns of the body, from the left: the left column, half of the width
//! rounded down; a gap of `SPACING` columns; and the right column, which
//! takes the columns that are left. A body too narrow for all three gives
//! up the right column first and the left column next: the gap is kept as
//! long as the body has a column.

use vstd::prelude::*;

verus! {

/// Height of the title strip, in rows.
pub const TITLE_HEIGHT: u16 = 1;

/// Gap left between two neighbouring regions, in cells.
pub const SPACING: u16 = 1;

/// A rectangle of cells: the cell in column `x`, row `y` is its top left
/// corner, and it extends `width` columns to the right and `height` rows
/// down.
#[derive(Clone, Copy, Debug, PartialEq, Eq, Structural)]
pub struct ScreenArea {
    pub x: u16,
    pub y: u16,
    pub width: u16,
    pub height: u16,
}

impl ScreenArea {
    /// The first column to the right of the area.
    pub open spec fn right(self) -> int {
        self.x + self.width
    }

    /// The first row below the area.
    pub open spec fn bottom(self) -> int {
        self.y + self.height
    }

    /// The area lies inside the coordinate space: neither edge passes the
    /// largest coordinate.
    pub open spec fn wf(self) -> bool {
        self.right() <= u16::MAX && self.bottom() <= u16::MAX
    }

    /// The area holds no cell.
    pub open spec fn degenerate(self) -> bool {
        self.width == 0 || self.height == 0
    }

    /// The cell in column `col`, row `row` belongs to the area.
    pub open spec fn covers(self, col: int, row: int) -> bool {
        self.x <= col < self.right() && self.y <= row < self.bottom()
    }

    /// All four edges of the area lie on or inside the edges of `outer`.
    pub open spec fn within(self, outer: ScreenArea) -> bool {
        &&& outer.x <= self.x
        &&& outer.y <= self.y
        &&& self.right() <= outer.right()
        &&& self.bottom() <= outer.bottom()
    }

    /// No cell belongs to both areas.
    pub open spec fn disjoint(self, other: ScreenArea) -> bool {
        forall|col: int, row: int| !(self.covers(col, row) && other.covers(col, row))
    }

    /// The area `new` gives: the corner as asked, the extent cut off at the
    /// end of the coordinate space.
    pub open spec fn clamped(x: u16, y: u16, width: u16, height: u16) -> ScreenArea {
        ScreenArea {
            x,
            y,
            width: if x + width <= u16::MAX { width } else { (u16::MAX - x) as u16 },
            height: if y + height <= u16::MAX { height } else { (u16::MAX - y) as u16 },
        }
    }

    /// The rows of the gap below the title strip: `SPACING`, or all the rows
    /// of the area where it has fewer.
    pub open spec fn row_gap(self) -> int {
        if self.height < SPACING {
            self.height as int
        } else {
            SPACING as int
        }
    }

    /// The title strip of the area: its first `TITLE_HEIGHT` rows. Where the
    /// area is too low for strip and gap, the gap is kept and the strip
    /// takes the rows that are left.
    pub open spec fn title_strip(self) -> ScreenArea {
        let room: int = self.height - self.row_gap();
        ScreenArea {
            x: self.x,
            y: self.y,
            width: self.width,
            height: if room < TITLE_HEIGHT { room as u16 } else { TITLE_HEIGHT },
        }
    }

    /// What is left of the area below the title strip and the gap.
    pub open spec fn body(self) -> ScreenArea {
        let used: int = self.title_strip().height + self.row_gap();
        ScreenArea {
            x: self.x,
            y: (self.y + used) as u16,
            width: self.width,
            height: (self.height - used) as u16,
        }
    }

    /// The left one of two columns: half of the width, rounded down.
    pub open spec fn left_column(self) -> ScreenArea {
        ScreenArea { x: self.x, y: self.y, width: self.width / 2, height: self.height }
    }

    /// The right one of two columns: it starts one gap of `SPACING` columns
    /// after the left column and takes all that is left of the width. Where
    /// the width has no room for the gap, the column is empty and sits on
    /// the area's right edge.
    pub open spec fn right_column(self) -> ScreenArea {
        let left: int = self.width as int / 2;
        let gap: int = if self.width - left < SPACING { self.width - left } else { SPACING as int };
        ScreenArea {
            x: (self.x + left + gap) as u16,
            y: self.y,
            width: (self.width - left - gap) as u16,
            height: self.height,
        }
    }

    /// Makes an area from its corner and extent. An extent that would pass
    /// the end of the coordinate space is cut off there.
    pub fn new(x: u16, y: u16, width: u16, height: u16) -> (area: ScreenArea)
        ensures
            area == Self::clamped(x, y, width, height),
            area.wf(),
            x + width <= u16::MAX && y + height <= u16::MAX ==> area == (ScreenArea {
                x,
                y,
                width,
                height,
            }),
    {
        let width: u16 = if width <= u16::MAX - x { width } else { u16::MAX - x };
        let height: u16 = if height <= u16::MAX - y { height } else { u16::MAX - y };
        ScreenArea { x, y, width, height }
    }

    /// Whether the area holds no cell.
    pub fn is_empty(&self) -> (empty: bool)
        ensures
            empty == self.degenerate(),
    {
        self.width == 0 || self.height == 0
    }

    /// Splits the area into its title strip and its body.
    pub fn split_rows(&self) -> (parts: (ScreenArea, ScreenArea))
        requires
            self.wf(),
        ensures
            parts.0 == self.title_strip(),
            parts.1 == self.body(),
            parts.0.wf() && parts.0.within(*self),
            parts.1.wf() && parts.1.within(*self),
            parts.0.disjoint(parts.1),
    {
        let gap: u16 = if self.height < SPACING {
            self.height
        } else {
            SPACING
        };
        let room: u16 = self.height - gap;
        let strip_height: u16 = if room < TITLE_HEIGHT {
            room
        } else {
            TITLE_HEIGHT
        };
        let used: u16 = strip_height + gap;
        let strip = ScreenArea { x: self.x, y: self.y, width: self.width, height: strip_height };
        let body = ScreenArea {
            x: self.x,
            y: self.y + used,
            width: self.width,
            height: self.height - used,
        };
        (strip, body)
    }

    /// Splits the area into two columns of equal width with one gap between
    /// them; with an odd cell left over, the left column is the wider.
    pub fn split_columns(&self) -> (parts: (ScreenArea, ScreenArea))
        requires
            self.wf(),
        ensures
            parts.0 == self.left_column(),
            parts.1 == self.right_column(),
            parts.0.wf() && parts.0.within(*self),
            parts.1.wf() && parts.1.within(*self),
            parts.0.disjoint(parts.1),
    {
        let left_width: u16 = self.width / 2;
        let rest: u16 = self.width - left_width;
        let gap: u16 = if rest < SPACING { rest } else { SPACING };
        let left = ScreenArea { x: self.x, y: self.y, width: left_width, height: self.height };
        let right = ScreenArea {
            x: self.x + left_width + gap,
            y: self.y,
            width: rest - gap,
            height: self.height,
        };
        (left, right)
    }
}

/// The three regions of the dashboard sit inside the display area and share
/// no cell, whatever the size of the display.
///
/// The title strip, the left column of the body and the right column of the
/// body each lie within `area`, each is valid, and no two of them overlap.
pub proof fn lemma_regions_fit_and_are_disjoint(area: ScreenArea)
    requires
        area.wf(),
    ensures
        area.title_strip().wf(),
        area.body().wf(),
        area.body().left_column().wf(),
        area.body().right_column().wf(),
        area.title_strip().within(area),
        area.body().within(area),
        area.body().left_column().within(area),
        area.body().right_column().within(area),
        area.title_strip().disjoint(area.body()),
        area.title_strip().disjoint(area.body().left_column()),
        area.title_strip().disjoint(area.body().right_column()),
        area.body().left_column().disjoint(area.body().right_column()),
{
}

/// On a display with room for them, the regions have the sizes of the fixed
/// layout: a title strip of `TITLE_HEIGHT` rows, one empty row, and below it
/// two columns that share the width but for one empty column between them,
/// the left column never narrower than the right and at most one cell
/// wider.
pub proof fn lemma_region_sizes(area: ScreenArea)
    requires
        area.wf(),
        area.height >= TITLE_HEIGHT + SPACING,
        area.width >= SPACING,
    ensures
        area.title_strip().height == TITLE_HEIGHT,
        area.title_strip().width == area.width,
        area.body().y == area.y + TITLE_HEIGHT + SPACING,
        area.body().height == area.height - TITLE_HEIGHT - SPACING,
        area.body().left_column().x == area.x,
        area.body().right_column().x == area.body().left_column().right() + SPACING,
        area.body().right_column().right() == area.right(),
        area.body().left_column().width + SPACING + area.body().right_column().width
            == area.width,
        0 <= area.body().left_column().width - area.body().right_column().width <= 1,
        area.body().left_column().height == area.body().height,
        area.body().right_column().height == area.body().height,
{
}

} // verus!
