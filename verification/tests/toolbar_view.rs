use window_view::toolbar_view::{Msg, ToolbarView};

#[test]
fn new_toolbar_shows_related_tabs_and_takes_no_height() {
    let toolbar = ToolbarView::new();
    assert_eq!(toolbar.sql_query, "");
    assert!(toolbar.show_related_tabs);
    assert_eq!(toolbar.get_consumed_height(), 0);
    assert_eq!((toolbar.allocated_width, toolbar.allocated_height), (0, 0));
}

#[test]
fn toolbar_keeps_query_and_size() {
    let mut toolbar = ToolbarView::new();
    toolbar.set_sql_query(&"select * from product".to_string());
    toolbar.set_allocated_size((900, 730));
    assert_eq!(toolbar.sql_query, "select * from product");
    assert_eq!((toolbar.allocated_width, toolbar.allocated_height), (900, 730));
}

#[test]
fn toolbar_switch_flips() {
    let mut toolbar = ToolbarView::new();
    toolbar.update(Msg::ToggleShowRelatedTabs);
    assert!(!toolbar.show_related_tabs);
    toolbar.update(Msg::ToggleShowRelatedTabs);
    assert!(toolbar.show_related_tabs);
}

#[test]
fn toolbar_takes_edited_query_and_height() {
    let mut toolbar = ToolbarView::new();
    toolbar.update(Msg::SqlQueryChanged("select 1".to_string()));
    toolbar.update(Msg::HeightChanged(90));
    assert_eq!(toolbar.sql_query, "select 1");
    assert_eq!(toolbar.get_consumed_height(), 90);
    assert!(toolbar.show_related_tabs);
}

#[test]
fn toolbar_message_clones_equal() {
    let msg = Msg::SqlQueryChanged("select 1".to_string());
    assert_eq!(msg.clone(), msg);
    assert_eq!(Msg::HeightChanged(3).clone(), Msg::HeightChanged(3));
    assert_eq!(Msg::ToggleShowRelatedTabs.clone(), Msg::ToggleShowRelatedTabs);
}
