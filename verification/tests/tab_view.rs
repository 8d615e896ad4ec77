use window_view::cmd::Cmd;
use window_view::data::Tab;
use window_view::tab_view::{Msg, TabView};

fn product_tab() -> TabView {
    TabView::new(Tab { name: "product".to_string() })
}

fn row(cells: &[&str]) -> Vec<String> {
    cells.iter().map(|cell| cell.to_string()).collect()
}

#[test]
fn new_tab_is_shown_and_empty() {
    let tab = product_tab();
    assert_eq!(tab.name, "product");
    assert!(tab.is_visible);
    assert!(!tab.is_one_one);
    assert!(!tab.in_detail_view());
    assert_eq!((tab.width, tab.height), (0, 0));
    assert!(tab.pages.is_empty());
    assert!(tab.frozen_data.is_empty());
    assert_eq!(tab.current_page, 0);
    assert_eq!(tab.total_rows, 0);
}

#[test]
fn tab_shows_and_hides() {
    let mut tab = product_tab();
    tab.hide_tab();
    assert!(!tab.is_visible);
    tab.hide_tab();
    assert!(!tab.is_visible);
    tab.show();
    assert!(tab.is_visible);
}

#[test]
fn tab_keeps_the_size_it_is_given() {
    let mut tab = product_tab();
    tab.set_table_size((900, 390));
    assert_eq!((tab.width, tab.height), (900, 390));
}

#[test]
fn tab_takes_pages_with_page_and_count() {
    let mut tab = product_tab();
    let pages = vec![vec![row(&["1", "tea"]), row(&["2", "milk"])], vec![row(&["3", "salt"])]];
    tab.set_pages(&pages, 1, 57);
    assert_eq!(tab.pages, pages);
    assert_eq!(tab.current_page, 1);
    assert_eq!(tab.total_rows, 57);
}

#[test]
fn tab_takes_frozen_data_after_rows() {
    let mut tab = product_tab();
    tab.set_pages(&vec![vec![row(&["1", "tea"])]], 0, 1);
    tab.set_frozen_data(&vec![row(&["1"])]);
    assert_eq!(tab.frozen_data, vec![row(&["1"])]);
    assert_eq!(tab.pages, vec![vec![row(&["1", "tea"])]]);
}

#[test]
fn tab_without_rows_takes_frozen_data() {
    let mut tab = product_tab();
    tab.set_frozen_data(&vec![row(&["1"]), row(&["2"])]);
    assert_eq!(tab.frozen_data.len(), 2);
    assert!(tab.pages.is_empty());
}

#[test]
fn new_rows_drop_the_frozen_data_of_the_old_rows() {
    let mut tab = product_tab();
    tab.set_pages(&vec![vec![row(&["1", "tea"])]], 0, 1);
    tab.set_frozen_data(&vec![row(&["1"])]);
    tab.set_pages(&vec![vec![row(&["7", "rice"]), row(&["8", "oil"])]], 0, 2);
    assert!(tab.frozen_data.is_empty());
    assert_eq!(tab.pages, vec![vec![row(&["7", "rice"]), row(&["8", "oil"])]]);
    assert_eq!(tab.total_rows, 2);
}

#[test]
fn one_one_record_is_the_only_row() {
    let mut tab = product_tab();
    tab.set_is_one_one(true);
    tab.set_pages(&vec![vec![row(&["1"]), row(&["2"])]], 3, 9);
    tab.set_one_one_record(&Some(row(&["42", "detail"])));
    assert!(tab.is_one_one);
    assert_eq!(tab.pages, vec![vec![row(&["42", "detail"])]]);
    assert_eq!(tab.current_page, 0);
    assert_eq!(tab.total_rows, 1);
}

#[test]
fn missing_one_one_record_leaves_no_row() {
    let mut tab = product_tab();
    tab.set_pages(&vec![vec![row(&["1"])]], 0, 1);
    tab.set_one_one_record(&None);
    assert!(tab.pages.is_empty());
    assert_eq!(tab.total_rows, 0);
}

#[test]
fn detail_view_opens_and_closes() {
    let mut tab = product_tab();
    tab.show_detail_view(2, 5);
    assert!(tab.in_detail_view());
    assert_eq!(tab.detail, Some((2, 5)));
    tab.close_detail_view();
    assert!(!tab.in_detail_view());
    assert_eq!(tab.detail, None);
}

#[test]
fn opened_row_asks_for_its_detail() {
    let mut tab = product_tab();
    let cmd = tab.update(Msg::RowOpened(1, 4));
    assert_eq!(cmd, Cmd::FetchRecordDetail { page_index: 1, row_index: 4 });
    assert!(!cmd.is_none());
    assert!(!tab.in_detail_view());
}

#[test]
fn closing_from_inside_the_tab_asks_for_nothing() {
    let mut tab = product_tab();
    tab.show_detail_view(0, 0);
    let cmd = tab.update(Msg::CloseDetailView);
    assert_eq!(cmd, Cmd::none());
    assert!(cmd.is_none());
    assert!(!tab.in_detail_view());
}
