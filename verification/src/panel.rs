//! The layout of the displayed surface: the game area inside a border, with
//! a strip of two bar gauges above it.

use vstd::arithmetic::div_mod::{lemma_div_is_ordered, lemma_div_multiples_vanish};
use vstd::prelude::*;

verus! {

/// Opaque black: the border and the gaps of the gauge strip.
pub open spec fn black() -> Seq<u8> {
    seq![0u8, 0u8, 0u8, 255u8]
}

/// Opaque white: the empty part of a gauge.
pub open spec fn white() -> Seq<u8> {
    seq![255u8, 255u8, 255u8, 255u8]
}

/// Opaque cyan: the filled part of the density gauge.
pub open spec fn cyan() -> Seq<u8> {
    seq![0u8, 255u8, 255u8, 255u8]
}

/// Opaque magenta: the filled part of the speed gauge.
pub open spec fn magenta() -> Seq<u8> {
    seq![255u8, 0u8, 255u8, 255u8]
}

/// The filled width of a bar gauge that is `full` pixels wide and shows
/// `level` out of `top`: the exact proportion, rounded down.
pub open spec fn gauge(full: int, level: int, top: int) -> int {
    full * level / top
}

/// A gauge at its top level is filled from end to end, a gauge at level
/// zero is empty, and in between the filled part never leaves the bar.
pub proof fn lemma_gauge_ends(full: int, level: int, top: int)
    requires
        0 <= full,
        0 <= level <= top,
        0 < top,
    ensures
        gauge(full, top, top) == full,
        gauge(full, 0, top) == 0,
        0 <= gauge(full, level, top) <= full,
{
    assert(full * top == top * full) by (nonlinear_arith);
    lemma_div_multiples_vanish(full, top);
    assert(full * 0 == 0);
    assert(0 <= full * level <= full * top) by (nonlinear_arith)
        requires
            0 <= full,
            0 <= level <= top,
    ;
    lemma_div_is_ordered(0, full * level, top);
    lemma_div_is_ordered(full * level, full * top, top);
}

/// A higher level never shortens the filled part of a gauge.
pub proof fn lemma_gauge_grows(full: int, low: int, high: int, top: int)
    requires
        0 <= full,
        low <= high,
        0 < top,
    ensures
        gauge(full, low, top) <= gauge(full, high, top),
{
    assert(full * low <= full * high) by (nonlinear_arith)
        requires
            0 <= full,
            low <= high,
    ;
    lemma_div_is_ordered(full * low, full * high, top);
}

/// The filled width of a bar gauge, in pixels.
pub fn bar_width(full: u32, level: u32, top: u32) -> (width: u32)
    requires
        0 < top,
        level <= top,
    ensures
        width == gauge(full as int, level as int, top as int),
{
    proof {
        lemma_gauge_ends(full as int, level as int, top as int);
        assert(full * level <= 0xffff_ffff * 0xffff_ffff) by (nonlinear_arith)
            requires
                0 <= full <= 0xffff_ffff,
                0 <= level <= 0xffff_ffff,
        ;
    }
    let filled = (full as u64) * (level as u64) / (top as u64);
    filled as u32
}

/// What a pixel of the surface belongs to.
#[derive(Clone, Copy, Debug, PartialEq, Eq)]
pub enum Region {
    /// The border around everything, and the rows of the gauge strip that
    /// hold no gauge.
    Margin,
    /// The gauge of the randomisation density.
    DensityGauge,
    /// The gauge of the running speed.
    SpeedGauge,
    /// The game area.
    Game,
}

/// The measures of the surface. The game area of `game_width` by
/// `game_height` pixels lies inside a border of `border` pixels on every
/// side; between the top border and the game lies the gauge strip, four
/// bands of `indicator` rows each: the density gauge, a gap, the speed
/// gauge, a gap.
#[derive(Clone, Copy, Debug, PartialEq, Eq)]
pub struct Layout {
    pub game_width: u32,
    pub game_height: u32,
    pub border: u32,
    pub indicator: u32,
}

impl Layout {
    /// The height of the gauge strip.
    pub open spec fn spec_panel_height(self) -> int {
        2 * self.indicator * 2
    }

    /// The width of the whole surface.
    pub open spec fn spec_window_width(self) -> int {
        self.game_width + 2 * self.border
    }

    /// The height of the whole surface.
    pub open spec fn spec_window_height(self) -> int {
        self.game_height + 2 * self.border + self.spec_panel_height()
    }

    /// The game area is not empty and the surface can be measured in `u32`.
    pub open spec fn wf(self) -> bool {
        &&& self.game_width > 0
        &&& self.game_height > 0
        &&& self.spec_window_width() <= u32::MAX
        &&& self.spec_window_height() <= u32::MAX
    }

    /// What the pixel at `(x, y)` of the surface belongs to. Whatever lies
    /// outside the surface counts as margin.
    pub open spec fn spec_region(self, x: int, y: int) -> Region {
        if x < self.border || x >= self.border + self.game_width {
            Region::Margin
        } else if y < self.border || y >= self.border + self.spec_panel_height() + self.game_height {
            Region::Margin
        } else if y < self.border + self.indicator {
            Region::DensityGauge
        } else if self.border + 2 * self.indicator <= y < self.border + 3 * self.indicator {
            Region::SpeedGauge
        } else if y >= self.border + self.spec_panel_height() {
            Region::Game
        } else {
            Region::Margin
        }
    }

    /// The layout with the given measures, if its surface can be measured in
    /// `u32` and its game area is not empty.
    pub fn new(game_width: u32, game_height: u32, border: u32, indicator: u32) -> (layout: Option<
        Layout,
    >)
        ensures
            match layout {
                Some(l) => l.wf() && l == (Layout { game_width, game_height, border, indicator }),
                None => !(Layout { game_width, game_height, border, indicator }).wf(),
            },
    {
        let layout = Layout { game_width, game_height, border, indicator };
        if layout.is_sound() {
            Some(layout)
        } else {
            None
        }
    }

    /// Whether the layout is well-formed.
    pub fn is_sound(&self) -> (sound: bool)
        ensures
            sound == self.wf(),
    {
        if self.game_width == 0 || self.game_height == 0 {
            return false;
        }
        let limit = u32::MAX as u64;
        let width = self.game_width as u64 + 2 * (self.border as u64);
        let height = self.game_height as u64 + 2 * (self.border as u64) + 4 * (
        self.indicator as u64);
        width <= limit && height <= limit
    }

    pub fn panel_height(&self) -> (rows: u32)
        requires
            self.wf(),
        ensures
            rows == self.spec_panel_height(),
    {
        2 * self.indicator * 2
    }

    pub fn window_width(&self) -> (width: u32)
        requires
            self.wf(),
        ensures
            width == self.spec_window_width(),
    {
        self.game_width + 2 * self.border
    }

    pub fn window_height(&self) -> (height: u32)
        requires
            self.wf(),
        ensures
            height == self.spec_window_height(),
    {
        self.game_height + 2 * self.border + 2 * (self.indicator * 2)
    }

    pub fn region(&self, x: u32, y: u32) -> (region: Region)
        requires
            self.wf(),
        ensures
            region == self.spec_region(x as int, y as int),
    {
        let control_panel = self.panel_height();
        if x < self.border || x >= self.border + self.game_width {
            // borders always black
            Region::Margin
        } else if y < self.border || y >= self.border + control_panel + self.game_height {
            Region::Margin
        } else if y < self.border + self.indicator {
            Region::DensityGauge
        } else if y >= self.border + self.indicator * 2 && y < self.border + self.indicator * 2
            + self.indicator {
            Region::SpeedGauge
        } else if y >= self.border + control_panel {
            Region::Game
        } else {
            Region::Margin
        }
    }
}

/// A pixel of the game region lies inside the game area once the border and
/// the gauge strip are taken off its coordinates.
pub proof fn lemma_game_region(layout: Layout, x: int, y: int)
    requires
        layout.wf(),
        layout.spec_region(x, y) == Region::Game,
    ensures
        0 <= x - layout.border < layout.game_width,
        0 <= y - layout.border - layout.spec_panel_height() < layout.game_height,
{
}

/// Every pixel of the border is margin: the first and last `border` columns
/// and rows of the surface.
pub proof fn lemma_border_is_margin(layout: Layout, x: int, y: int)
    requires
        layout.wf(),
        0 <= x < layout.spec_window_width(),
        0 <= y < layout.spec_window_height(),
        x < layout.border || x >= layout.spec_window_width() - layout.border || y < layout.border || y
            >= layout.spec_window_height() - layout.border,
    ensures
        layout.spec_region(x, y) == Region::Margin,
{
}

} // verus!
