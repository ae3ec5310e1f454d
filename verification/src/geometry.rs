//! The terminal's geometry and the player's place in it.

use crate::cell::Color;
use vstd::prelude::*;

verus! {

/// Columns kept free beside the canvas for the side panel.
pub const SIDE_MARGIN: u16 = 25;

/// Rows kept free below the canvas for the bottom panels.
pub const BOTTOM_MARGIN: u16 = 8;

/// A terminal large enough to hold the panels round the canvas.
#[derive(Clone, Copy, PartialEq, Eq, Structural, Debug)]
pub struct Viewport {
    pub term_width: u16,
    pub term_height: u16,
}

impl Viewport {
    /// Whether the terminal leaves room for the margins.
    pub open spec fn wf(self) -> bool {
        self.term_width >= SIDE_MARGIN && self.term_height >= BOTTOM_MARGIN
    }

    pub open spec fn spec_canvas_width(self) -> int {
        self.term_width - SIDE_MARGIN
    }

    pub open spec fn spec_canvas_height(self) -> int {
        self.term_height - BOTTOM_MARGIN
    }

    /// The width to which the blank tail of a narration is padded.
    pub open spec fn spec_pad_width(self) -> nat {
        (self.spec_canvas_width() / 2) as nat
    }

    /// Whether a position can be seen: the rectangle from `(1, 1)` to the
    /// terminal's size, borders included.
    pub open spec fn spec_shows(self, x: int, y: int) -> bool {
        1 <= x <= self.term_width && 1 <= y <= self.term_height
    }

    /// A viewport for a terminal of the given size, if the margins fit in it.
    pub fn new(term_width: u16, term_height: u16) -> (r: Option<Viewport>)
        ensures
            r.is_some() <==> term_width >= SIDE_MARGIN && term_height >= BOTTOM_MARGIN,
            r.is_some() ==> r.unwrap() == (Viewport { term_width, term_height }),
    {
        if term_width >= SIDE_MARGIN && term_height >= BOTTOM_MARGIN {
            Some(Viewport { term_width, term_height })
        } else {
            None
        }
    }

    pub fn canvas_width(&self) -> (r: u16)
        requires
            self.wf(),
        ensures
            r == self.spec_canvas_width(),
    {
        self.term_width - SIDE_MARGIN
    }

    pub fn canvas_height(&self) -> (r: u16)
        requires
            self.wf(),
        ensures
            r == self.spec_canvas_height(),
    {
        self.term_height - BOTTOM_MARGIN
    }

    pub fn pad_width(&self) -> (r: usize)
        requires
            self.wf(),
        ensures
            r == self.spec_pad_width(),
    {
        (self.canvas_width() / 2) as usize
    }

    /// Rows of the upper panels: the canvas and one row of border.
    pub fn upper_rows(&self) -> (r: u16)
        requires
            self.wf(),
        ensures
            r == self.spec_canvas_height() + 1,
    {
        self.canvas_height() + 1
    }

    /// Rows of the lower panels: what the upper panels and one more row of
    /// border leave of the terminal.
    pub fn lower_rows(&self) -> (r: u16)
        requires
            self.wf(),
        ensures
            r == self.term_height - self.spec_canvas_height() - 2,
            r == BOTTOM_MARGIN - 2,
    {
        self.term_height - self.canvas_height() - 2
    }

    /// Columns of the canvas panel: the canvas and one column of border.
    pub fn canvas_columns(&self) -> (r: u16)
        requires
            self.wf(),
        ensures
            r == self.spec_canvas_width() + 1,
    {
        self.canvas_width() + 1
    }

    /// Columns of the side panel: what the canvas panel and one more column
    /// of border leave of the terminal.
    pub fn side_columns(&self) -> (r: u16)
        requires
            self.wf(),
        ensures
            r == self.term_width - self.spec_canvas_width() - 2,
            r == SIDE_MARGIN - 2,
    {
        self.term_width - self.canvas_width() - 2
    }

    pub fn shows(&self, x: i32, y: i32) -> (r: bool)
        ensures
            r == self.spec_shows(x as int, y as int),
    {
        1 <= x && x as i64 <= self.term_width as i64 && 1 <= y && y as i64
            <= self.term_height as i64
    }
}

/// Half of `extent`, rounded to the nearest whole number, a half upward.
pub open spec fn half_rounded(extent: int) -> int {
    (extent + 1) / 2
}

/// The avatar. Its position never changes: the world moves round it.
#[derive(Clone, Copy, PartialEq, Eq, Structural, Debug)]
pub struct Player {
    pub x: i32,
    pub y: i32,
}

impl Player {
    pub fn new(x: i32, y: i32) -> (r: Player)
        ensures
            r == (Player { x, y }),
    {
        Player { x, y }
    }

    /// The player at the centre of the viewport's canvas.
    pub fn centered(viewport: &Viewport) -> (r: Player)
        requires
            viewport.wf(),
        ensures
            r.x == half_rounded(viewport.spec_canvas_width()),
            r.y == half_rounded(viewport.spec_canvas_height()),
    {
        let w: i32 = viewport.canvas_width() as i32;
        let h: i32 = viewport.canvas_height() as i32;
        Player { x: (w + 1) / 2, y: (h + 1) / 2 }
    }

    /// The glyph that stands for the player on the canvas.
    pub fn glyph() -> (r: char)
        ensures
            r == '@',
    {
        '@'
    }

    /// The glyph as a string of one character.
    pub fn symbol() -> (r: &'static str)
        ensures
            r@ == seq!['@'],
    {
        proof {
            reveal_strlit("@");
        }
        let r: &'static str = "@";
        assert(r@ =~= seq!['@']);
        r
    }

    /// The colour in which the player is shown: pure green.
    pub fn color() -> (r: Color)
        ensures
            r == Color::Rgb(0, 255, 0),
    {
        Color::Rgb(0, 255, 0)
    }

    pub fn x(&self) -> (r: i32)
        ensures
            r == self.x,
    {
        self.x
    }

    pub fn y(&self) -> (r: i32)
        ensures
            r == self.y,
    {
        self.y
    }
}

} // verus!
