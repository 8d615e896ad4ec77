use window_view::geometry;

#[test]
fn window_is_viewport_without_auxilliary_spaces() {
    assert_eq!(geometry::calculate_window_size(1200, 800), (900, 730));
    assert_eq!(geometry::calculate_window_size(300, 70), (0, 0));
}

#[test]
fn window_of_a_small_viewport_keeps_its_negative_size() {
    assert_eq!(geometry::calculate_window_size(100, 50), (-200, -20));
}

#[test]
fn auxilliary_spaces_are_fixed() {
    assert_eq!(geometry::AUXILLIARY_WIDTH, 300);
    assert_eq!(geometry::AUXILLIARY_HEIGHT, 70);
    assert_eq!(geometry::RELATED_TABS_CONTENT_HEIGHT, 300);
    assert_eq!(geometry::RELATED_TAB_LINKS_HEIGHT, 40);
}

#[test]
fn related_tabs_are_340_high_when_shown() {
    assert_eq!(geometry::calculate_related_tabs_height(), 340);
    assert_eq!(geometry::calculate_related_tabs_size(1200, true), (900, 340));
}

#[test]
fn related_tabs_have_no_height_when_hidden() {
    assert_eq!(geometry::calculate_related_tabs_size(1200, false), (900, 0));
}

#[test]
fn main_table_takes_whole_window_outside_detail_view() {
    assert_eq!(geometry::calculate_main_table_size(1200, 800, false, 0), (900, 730));
}

#[test]
fn main_table_shares_height_with_related_tabs() {
    assert_eq!(geometry::calculate_main_table_size(1200, 800, true, 0), (900, 390));
}

#[test]
fn main_table_leaves_room_for_the_toolbar() {
    assert_eq!(geometry::calculate_main_table_size(1200, 800, false, 90), (900, 640));
    assert_eq!(geometry::calculate_main_table_size(1200, 800, true, 90), (900, 300));
}

#[test]
fn main_table_height_is_clamped_at_zero() {
    assert_eq!(geometry::calculate_main_table_size(1200, 400, true, 0), (900, 0));
    assert_eq!(geometry::calculate_main_table_size(1200, 410, true, 0), (900, 0));
    assert_eq!(geometry::calculate_main_table_size(1200, 411, true, 0), (900, 1));
    assert_eq!(geometry::calculate_main_table_size(1200, 0, false, 0), (900, 0));
}

#[test]
fn main_table_height_survives_the_largest_toolbar() {
    assert_eq!(geometry::calculate_main_table_size(1200, i32::MAX, true, u32::MAX), (900, 0));
    assert_eq!(
        geometry::calculate_main_table_size(i32::MAX, i32::MAX, false, 0),
        (i32::MAX - 300, i32::MAX - 70)
    );
}

#[test]
fn heights_are_never_negative_on_a_grid_of_viewports() {
    let mut height = -2000;
    while height <= 2000 {
        for shown in [false, true] {
            for toolbar in [0u32, 1, 70, 500] {
                let main = geometry::calculate_main_table_size(640, height, shown, toolbar);
                assert!(main.1 >= 0);
                let related = geometry::calculate_related_tabs_size(640, shown);
                assert!(related.1 == 0 || related.1 == 340);
                assert_eq!(related.1 == 340, shown);
            }
        }
        height += 37;
    }
}

#[test]
fn viewport_range_ends_where_i32_ends() {
    assert!(geometry::is_viewport_in_range(0, 0));
    assert!(geometry::is_viewport_in_range(i32::MAX, i32::MAX));
    assert!(geometry::is_viewport_in_range(i32::MIN + 300, i32::MIN + 70));
    assert!(!geometry::is_viewport_in_range(i32::MIN + 299, 0));
    assert!(!geometry::is_viewport_in_range(0, i32::MIN + 69));
    assert_eq!(
        geometry::calculate_window_size(i32::MIN + 300, i32::MIN + 70),
        (i32::MIN, i32::MIN)
    );
}
