//! Which screen is shown, the scroll positions of its panes, and the
//! smallest terminal the dashboard is drawn in.
use vstd::prelude::*;

verus! {

/// The four panes of the container details screen.
#[derive(Clone, Copy, Debug, PartialEq, Eq, Structural)]
pub enum SplitScreen {
    UpperLeft,
    LowerLeft,
    UpperRight,
    LowerRight,
}

/// The place of a pane in the focus cycle.
pub open spec fn pane_position(s: SplitScreen) -> int {
    match s {
        SplitScreen::UpperLeft => 0,
        SplitScreen::LowerLeft => 1,
        SplitScreen::UpperRight => 2,
        SplitScreen::LowerRight => 3,
    }
}

/// The pane that takes the focus after `s`.
pub open spec fn next_pane(s: SplitScreen) -> SplitScreen {
    match s {
        SplitScreen::UpperLeft => SplitScreen::LowerLeft,
        SplitScreen::LowerLeft => SplitScreen::UpperRight,
        SplitScreen::UpperRight => SplitScreen::LowerRight,
        SplitScreen::LowerRight => SplitScreen::UpperLeft,
    }
}

/// The pane that has the focus before `s`.
pub open spec fn prev_pane(s: SplitScreen) -> SplitScreen {
    match s {
        SplitScreen::LowerLeft => SplitScreen::UpperLeft,
        SplitScreen::UpperRight => SplitScreen::LowerLeft,
        SplitScreen::LowerRight => SplitScreen::UpperRight,
        SplitScreen::UpperLeft => SplitScreen::LowerRight,
    }
}

impl SplitScreen {
    /// The pane that takes the focus next: down the left column, then down
    /// the right one, then back to the start.
    pub fn transition(self) -> (r: SplitScreen)
        ensures
            r == next_pane(self),
            pane_position(r) == (pane_position(self) + 1) % 4,
    {
        match self {
            SplitScreen::UpperLeft => SplitScreen::LowerLeft,
            SplitScreen::LowerLeft => SplitScreen::UpperRight,
            SplitScreen::UpperRight => SplitScreen::LowerRight,
            SplitScreen::LowerRight => SplitScreen::UpperLeft,
        }
    }

    /// The pane that had the focus before: the cycle of `transition`
    /// walked backwards.
    pub fn transition_back(self) -> (r: SplitScreen)
        ensures
            r == prev_pane(self),
            next_pane(r) == self,
            pane_position(r) == (pane_position(self) + 3) % 4,
    {
        match self {
            SplitScreen::LowerLeft => SplitScreen::UpperLeft,
            SplitScreen::UpperRight => SplitScreen::LowerLeft,
            SplitScreen::LowerRight => SplitScreen::UpperRight,
            SplitScreen::UpperLeft => SplitScreen::LowerRight,
        }
    }
}

/// What covers the main screen: the help, the container details, or
/// nothing (`Main`).
#[derive(Clone, Copy, Debug, PartialEq, Eq, Structural)]
pub enum AlternateScreenContent {
    Help,
    ContainerDetails(SplitScreen),
    Main,
}

/// The scroll position of each pane of the container details screen.
#[derive(Clone, Copy, Debug, PartialEq, Eq, Structural)]
pub struct AlternateScreen {
    pub upper_left_scroll: usize,
    pub upper_right_scroll: usize,
    pub lower_left_scroll: usize,
    pub lower_right_scroll: usize,
}

/// A scroll position moved by `amount` lines, stopping at both ends of the
/// range of `usize`.
pub open spec fn scrolled(pos: usize, amount: usize, up: bool) -> usize {
    if up {
        if pos >= amount { (pos - amount) as usize } else { 0 }
    } else {
        if pos + amount <= usize::MAX { (pos + amount) as usize } else { usize::MAX }
    }
}

/// Moves a scroll position by `amount` lines, towards the top when `up`.
pub fn scroll_position(pos: usize, amount: usize, up: bool) -> (r: usize)
    ensures
        r == scrolled(pos, amount, up),
{
    if up {
        pos.saturating_sub(amount)
    } else {
        pos.saturating_add(amount)
    }
}

/// The panes with `pane` scrolled by `amount` lines.
pub open spec fn scrolled_panes(a: AlternateScreen, pane: SplitScreen, amount: usize, up: bool) -> AlternateScreen {
    match pane {
        SplitScreen::UpperLeft => AlternateScreen { upper_left_scroll: scrolled(a.upper_left_scroll, amount, up), ..a },
        SplitScreen::LowerLeft => AlternateScreen { lower_left_scroll: scrolled(a.lower_left_scroll, amount, up), ..a },
        SplitScreen::UpperRight => AlternateScreen { upper_right_scroll: scrolled(a.upper_right_scroll, amount, up), ..a },
        SplitScreen::LowerRight => AlternateScreen { lower_right_scroll: scrolled(a.lower_right_scroll, amount, up), ..a },
    }
}

impl AlternateScreen {
    /// Every pane at the top.
    pub fn new() -> (r: AlternateScreen)
        ensures
            r.upper_left_scroll == 0,
            r.upper_right_scroll == 0,
            r.lower_left_scroll == 0,
            r.lower_right_scroll == 0,
    {
        AlternateScreen { upper_left_scroll: 0, upper_right_scroll: 0, lower_left_scroll: 0, lower_right_scroll: 0 }
    }

    /// Moves every pane back to the top.
    pub fn reset_scrolls(&mut self)
        ensures
            final(self).upper_left_scroll == 0,
            final(self).upper_right_scroll == 0,
            final(self).lower_left_scroll == 0,
            final(self).lower_right_scroll == 0,
    {
        *self = AlternateScreen::new();
    }

    /// Scrolls `pane` by `amount` lines, leaving the other panes.
    pub fn scroll(&mut self, pane: SplitScreen, amount: usize, up: bool)
        ensures
            *final(self) == scrolled_panes(*old(self), pane, amount, up),
    {
        match pane {
            SplitScreen::UpperLeft => {
                self.upper_left_scroll = scroll_position(self.upper_left_scroll, amount, up);
            },
            SplitScreen::LowerLeft => {
                self.lower_left_scroll = scroll_position(self.lower_left_scroll, amount, up);
            },
            SplitScreen::UpperRight => {
                self.upper_right_scroll = scroll_position(self.upper_right_scroll, amount, up);
            },
            SplitScreen::LowerRight => {
                self.lower_right_scroll = scroll_position(self.lower_right_scroll, amount, up);
            },
        }
    }
}

impl Default for AlternateScreen {
    fn default() -> (r: AlternateScreen)
        ensures
            r.upper_left_scroll == 0,
            r.upper_right_scroll == 0,
            r.lower_left_scroll == 0,
            r.lower_right_scroll == 0,
    {
        AlternateScreen::new()
    }
}

/// The fewest terminal rows the dashboard is drawn in.
pub const MIN_ROWS: u16 = 20;

/// The fewest terminal columns the dashboard is drawn in.
pub const MIN_COLS: u16 = 130;

/// The notice shown in place of the dashboard when the terminal is too
/// small, with the size it needs.
#[derive(Debug)]
pub struct ResizeScreen {
    pub min_height: u16,
    pub min_width: u16,
}

impl ResizeScreen {
    /// The notice for the dashboard's own minimum size.
    pub fn new() -> (r: ResizeScreen)
        ensures
            r.min_width == MIN_COLS,
            r.min_height == MIN_ROWS,
    {
        ResizeScreen { min_width: MIN_COLS, min_height: MIN_ROWS }
    }

    /// Whether a terminal `width` columns wide is wide enough.
    pub fn width_fits(&self, width: u16) -> (r: bool)
        ensures
            r == (width >= self.min_width),
    {
        width >= self.min_width
    }

    /// Whether a terminal `height` rows high is high enough.
    pub fn height_fits(&self, height: u16) -> (r: bool)
        ensures
            r == (height >= self.min_height),
    {
        height >= self.min_height
    }

    /// Whether the notice is shown instead of the dashboard.
    pub fn too_small(&self, width: u16, height: u16) -> (r: bool)
        ensures
            r == (width < self.min_width || height < self.min_height),
    {
        !self.width_fits(width) || !self.height_fits(height)
    }
}

impl Default for ResizeScreen {
    fn default() -> (r: ResizeScreen)
        ensures
            r.min_width == MIN_COLS,
            r.min_height == MIN_ROWS,
    {
        ResizeScreen::new()
    }
}

} // verus!
