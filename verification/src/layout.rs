//! Layout-derived limits: the page sizes and help-menu height the client
//! recomputes from the terminal's height on every frame, so a resize is
//! picked up at once.

use vstd::prelude::*;
use crate::state::App;

verus! {

/// How many rows of a listing fit below the fixed chrome, capped at the
/// largest page the remote accepts.
pub open spec fn spec_max_limit(height: u16) -> int {
    let potential: int = if height >= 13 {
        height - 13
    } else {
        0
    };
    if potential < 50 {
        potential
    } else {
        50
    }
}

/// The page size for large listings: five sevenths of the height, capped
/// by what fits.
pub open spec fn spec_large_limit(height: u16) -> int {
    let raw: int = 5 * height / 7;
    if raw < spec_max_limit(height) {
        raw
    } else {
        spec_max_limit(height)
    }
}

/// The page size for per-category search results: twenty fifty-sevenths
/// of the height, capped by half of what fits.
pub open spec fn spec_small_limit(height: u16) -> int {
    let raw: int = 20 * height / 57;
    let cap: int = spec_max_limit(height) / 2;
    if raw < cap {
        raw
    } else {
        cap
    }
}

/// How many lines the help menu may use: the height less its chrome.
pub open spec fn spec_help_menu_lines(height: u16) -> int {
    if height > 8 {
        height - 8
    } else {
        0
    }
}

/// Computes the large and small page limits for a terminal of the given
/// height.
pub fn compute_page_limits(height: u16) -> (r: (u32, u32))
    ensures
        r.0 == spec_large_limit(height),
        r.1 == spec_small_limit(height),
{
    let h = height as u32;
    let potential: u32 = if h >= 13 {
        h - 13
    } else {
        0
    };
    let max_limit: u32 = if potential < 50 {
        potential
    } else {
        50
    };
    let large_raw: u32 = 5 * h / 7;
    let small_raw: u32 = 20 * h / 57;
    let large: u32 = if large_raw < max_limit {
        large_raw
    } else {
        max_limit
    };
    let small_cap: u32 = max_limit / 2;
    let small: u32 = if small_raw < small_cap {
        small_raw
    } else {
        small_cap
    };
    (large, small)
}

/// Computes the help menu's line budget for a terminal of the given
/// height.
pub fn compute_help_menu_lines(height: u16) -> (n: u32)
    ensures
        n == spec_help_menu_lines(height),
{
    if height > 8 {
        (height - 8) as u32
    } else {
        0
    }
}

impl App {
    /// Recomputes every layout-derived limit from the terminal's current
    /// height; called once per frame so a resize is reflected at once.
    pub fn update_layout(&mut self, height: u16)
        ensures
            *final(self) == (App {
                large_search_limit: final(self).large_search_limit,
                small_search_limit: final(self).small_search_limit,
                help_menu_max_lines: final(self).help_menu_max_lines,
                ..*old(self)
            }),
            final(self).large_search_limit == spec_large_limit(height),
            final(self).small_search_limit == spec_small_limit(height),
            final(self).help_menu_max_lines == spec_help_menu_lines(height),
            old(self).wf() ==> final(self).wf(),
    {
        let (large, small) = compute_page_limits(height);
        self.large_search_limit = large;
        self.small_search_limit = small;
        self.help_menu_max_lines = compute_help_menu_lines(height);
    }
}

} // verus!
