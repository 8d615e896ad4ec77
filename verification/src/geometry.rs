//! Layout geometry: every panel size is a pure function of the browser
//! viewport, of whether the related-tabs panel is shown and of the height
//! that the toolbar takes.

use vstd::prelude::*;

verus! {

/// Width kept free for the window list, the left padding and the margins.
pub const AUXILLIARY_WIDTH: i32 = 300;

/// Height kept free for the column headers, the paddings and the margins.
pub const AUXILLIARY_HEIGHT: i32 = 70;

/// Height of the content of the related-tabs panel.
pub const RELATED_TABS_CONTENT_HEIGHT: i32 = 300;

/// Height of the strip that holds the links of the has-many and indirect tabs.
pub const RELATED_TAB_LINKS_HEIGHT: i32 = 40;

/// A viewport from which the auxilliary spaces can be taken in `i32`.
pub open spec fn viewport_in_range(browser_width: int, browser_height: int) -> bool {
    &&& i32::MIN + AUXILLIARY_WIDTH <= browser_width <= i32::MAX
    &&& i32::MIN + AUXILLIARY_HEIGHT <= browser_height <= i32::MAX
}

/// The window is the viewport without the auxilliary spaces.
pub open spec fn window_size(browser_width: int, browser_height: int) -> (int, int) {
    (browser_width - AUXILLIARY_WIDTH, browser_height - AUXILLIARY_HEIGHT)
}

/// The related-tabs panel has a fixed height while it is shown and none
/// while it is hidden.
pub open spec fn related_tabs_height(shown: bool) -> int {
    if shown {
        RELATED_TABS_CONTENT_HEIGHT + RELATED_TAB_LINKS_HEIGHT
    } else {
        0
    }
}

/// The related-tabs panel is as wide as the window.
pub open spec fn related_tabs_size(browser_width: int, shown: bool) -> (int, int) {
    (browser_width - AUXILLIARY_WIDTH, related_tabs_height(shown))
}

/// The main table gets the window's width, and what the related-tabs panel
/// and the toolbar leave of its height, but never less than nothing.
pub open spec fn main_table_size(
    browser_width: int,
    browser_height: int,
    related_tabs_shown: bool,
    toolbar_height: int,
) -> (int, int) {
    let (window_width, window_height) = window_size(browser_width, browser_height);
    let left = window_height - (related_tabs_height(related_tabs_shown) + toolbar_height);
    (
        window_width,
        if left < 0 {
            0
        } else {
            left
        },
    )
}

/// The detail view takes up exactly the footprint of the main table.
pub open spec fn detail_window_size(
    browser_width: int,
    browser_height: int,
    related_tabs_shown: bool,
    toolbar_height: int,
) -> (int, int) {
    main_table_size(browser_width, browser_height, related_tabs_shown, toolbar_height)
}

/// The pair of mathematical integers that a pair of pixels stands for.
pub open spec fn as_ints(size: (i32, i32)) -> (int, int) {
    (size.0 as int, size.1 as int)
}

/// Tells whether the auxilliary spaces can be taken from the viewport
/// without leaving `i32`.
pub fn is_viewport_in_range(browser_width: i32, browser_height: i32) -> (ok: bool)
    ensures
        ok == viewport_in_range(browser_width as int, browser_height as int),
{
    browser_width >= i32::MIN + AUXILLIARY_WIDTH && browser_height >= i32::MIN + AUXILLIARY_HEIGHT
}

pub fn calculate_window_size(browser_width: i32, browser_height: i32) -> (size: (i32, i32))
    requires
        viewport_in_range(browser_width as int, browser_height as int),
    ensures
        as_ints(size) == window_size(browser_width as int, browser_height as int),
{
    (browser_width - AUXILLIARY_WIDTH, browser_height - AUXILLIARY_HEIGHT)
}

pub fn calculate_related_tabs_height() -> (height: i32)
    ensures
        height == related_tabs_height(true),
        height == 340,
{
    RELATED_TABS_CONTENT_HEIGHT + RELATED_TAB_LINKS_HEIGHT
}

pub fn calculate_related_tabs_size(browser_width: i32, shown: bool) -> (size: (i32, i32))
    requires
        i32::MIN + AUXILLIARY_WIDTH <= browser_width,
    ensures
        as_ints(size) == related_tabs_size(browser_width as int, shown),
{
    (
        browser_width - AUXILLIARY_WIDTH,
        if shown {
            calculate_related_tabs_height()
        } else {
            0
        },
    )
}

pub fn calculate_main_table_size(
    browser_width: i32,
    browser_height: i32,
    related_tabs_shown: bool,
    toolbar_height: u32,
) -> (size: (i32, i32))
    requires
        viewport_in_range(browser_width as int, browser_height as int),
    ensures
        as_ints(size) == main_table_size(
            browser_width as int,
            browser_height as int,
            related_tabs_shown,
            toolbar_height as int,
        ),
        size.1 >= 0,
{
    let (window_width, window_height) = calculate_window_size(browser_width, browser_height);
    let (_related_tab_width, related_tab_height) = calculate_related_tabs_size(
        browser_width,
        related_tabs_shown,
    );
    let left: i64 = window_height as i64 - (related_tab_height as i64 + toolbar_height as i64);
    let clamped: i32 = if left < 0 {
        0
    } else {
        left as i32
    };
    (window_width, clamped)
}

/// Whatever the viewport, the mode and the toolbar, the main table is never
/// given a negative height, and the related-tabs panel is either 340 high or
/// has no height at all.
pub proof fn heights_are_never_negative(
    browser_width: int,
    browser_height: int,
    related_tabs_shown: bool,
    toolbar_height: int,
)
    ensures
        main_table_size(browser_width, browser_height, related_tabs_shown, toolbar_height).1 >= 0,
        related_tabs_size(browser_width, related_tabs_shown).1 == 0 || related_tabs_size(
            browser_width,
            related_tabs_shown,
        ).1 == 340,
        related_tabs_size(browser_width, related_tabs_shown).1 == 340 <==> related_tabs_shown,
        detail_window_size(browser_width, browser_height, related_tabs_shown, toolbar_height)
            == main_table_size(browser_width, browser_height, related_tabs_shown, toolbar_height),
{
}

} // verus!
