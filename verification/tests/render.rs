use window_view::data::{IndirectTab, Tab, TableName, Window, WindowData};
use window_view::render::{
    has_many_links, has_many_slots, indirect_links, indirect_slots, one_one_sections,
    OneOneSection, TabLink, TabSlot,
};
use window_view::tab_view;
use window_view::tab_view::TabView;
use window_view::toolbar_view;
use window_view::window_view::{Msg, WindowView};

fn descriptor(name: &str) -> Tab {
    Tab { name: name.to_string() }
}

fn linker(name: &str) -> TableName {
    TableName { name: name.to_string(), schema: None, alias: Some("link".to_string()) }
}

fn product_window() -> WindowView {
    let window = Window {
        name: "product".to_string(),
        main_tab: descriptor("product"),
        one_one_tabs: vec![descriptor("availability")],
        has_many_tabs: vec![descriptor("rating"), descriptor("price")],
        indirect_tabs: vec![IndirectTab {
            linker: linker("product_category"),
            tab: descriptor("category"),
        }],
    };
    let data = WindowData {
        sql_query: String::new(),
        main_tab_data: vec![],
        main_tab_current_page: 0,
        main_tab_total_rows: 0,
        main_tab_frozen_data: vec![],
        one_one_tab_data: vec![None],
        has_many_tab_data: vec![vec![], vec![]],
        has_many_tab_current_page: vec![],
        has_many_tab_total_rows: vec![0, 0],
        indirect_tab_data: vec![vec![]],
        indirect_tab_current_page: vec![],
        indirect_tab_total_rows: vec![0],
    };
    WindowView::new(window, &data, 1200, 800)
}

#[test]
fn description_of_a_new_window() {
    let description = product_window().view();
    assert_eq!(description.key, "window_product");
    assert!(description.is_visible);
    assert_eq!((description.detail_width, description.detail_height), (900, 730));
    assert!(!description.in_detail_view);
    assert!(!description.show_related_tabs);
    assert_eq!(description.main_tab, TabSlot::MainTab);
    assert_eq!(description.on_close_detail, Msg::CloseDetailView);
    assert_eq!(
        description.one_one_tabs,
        vec![OneOneSection { summary: "availability".to_string(), content: TabSlot::OneOneTab(0) }]
    );
    assert_eq!(
        description.has_many_links,
        vec![
            TabLink {
                label: "rating".to_string(),
                is_active: true,
                on_click: Msg::ShowHasManyTab(0)
            },
            TabLink {
                label: "price".to_string(),
                is_active: false,
                on_click: Msg::ShowHasManyTab(1)
            },
        ]
    );
    assert_eq!(
        description.indirect_links,
        vec![TabLink {
            label: "category".to_string(),
            is_active: false,
            on_click: Msg::ShowIndirectTab(0)
        }]
    );
    assert_eq!(description.has_many_tabs, vec![TabSlot::HasManyTab(0), TabSlot::HasManyTab(1)]);
    assert_eq!(
        description.indirect_tabs,
        vec![TabSlot::IndirectTab(0, linker("product_category"))]
    );
}

#[test]
fn description_in_detail_view() {
    let mut window = product_window();
    window.show_main_tab_detail_view(0, 0);
    let description = window.view();
    assert!(description.in_detail_view);
    assert!(description.show_related_tabs);
    assert_eq!((description.detail_width, description.detail_height), (900, 390));
}

#[test]
fn description_hides_related_tabs_when_switched_off() {
    let mut window = product_window();
    window.show_main_tab_detail_view(0, 0);
    window.update(Msg::ToolbarMsg(toolbar_view::Msg::ToggleShowRelatedTabs));
    let description = window.view();
    assert!(description.in_detail_view);
    assert!(!description.show_related_tabs);
    assert_eq!((description.detail_width, description.detail_height), (900, 730));
}

#[test]
fn description_marks_the_link_of_the_active_tab() {
    let mut window = product_window();
    window.update(Msg::ShowIndirectTab(0));
    let description = window.view();
    let marked: Vec<bool> = description
        .has_many_links
        .iter()
        .chain(description.indirect_links.iter())
        .map(|link| link.is_active)
        .collect();
    assert_eq!(marked, vec![false, false, true]);
}

#[test]
fn clicking_a_link_activates_its_tab() {
    let mut window = product_window();
    let description = window.view();
    let click = description.has_many_links[1].on_click.clone();
    assert!(window.accepts(&click));
    window.update(click);
    assert_eq!(window.active_has_many_tab(), Some(1));
    let click = description.indirect_links[0].on_click.clone();
    window.update(click);
    assert_eq!(window.active_indirect_tab(), Some(0));
    assert_eq!(window.active_has_many_tab(), None);
}

#[test]
fn description_of_a_hidden_window() {
    let mut window = product_window();
    window.hide_window();
    let description = window.view();
    assert!(!description.is_visible);
    assert_eq!(description.key, "window_product");
}

#[test]
fn close_button_closes_the_detail_view() {
    let mut window = product_window();
    window.show_main_tab_detail_view(0, 0);
    let description = window.view();
    window.update(description.on_close_detail);
    assert!(!window.view().in_detail_view);
}

#[test]
fn slot_wraps_the_message_of_its_tab() {
    let opened = tab_view::Msg::RowOpened(1, 2);
    assert_eq!(TabSlot::MainTab.wrap(opened), Msg::MainTabMsg(opened));
    assert_eq!(TabSlot::OneOneTab(3).wrap(opened), Msg::OneOneTabMsg(3, opened));
    assert_eq!(TabSlot::HasManyTab(4).wrap(opened), Msg::HasManyTabMsg(4, opened));
    assert_eq!(
        TabSlot::IndirectTab(5, linker("product_category")).wrap(opened),
        Msg::IndirectTabMsg(5, (linker("product_category"), opened))
    );
}

#[test]
fn wrapped_message_reaches_the_tab_of_the_slot() {
    let mut window = product_window();
    let description = window.view();
    let msg = description.indirect_tabs[0].wrap(tab_view::Msg::CloseDetailView);
    assert!(window.accepts(&msg));
    window.update(msg);
    let msg = description.main_tab.wrap(tab_view::Msg::RowOpened(0, 0));
    assert!(!window.update(msg).is_none());
}

#[test]
fn parts_of_a_description_follow_the_tabs() {
    let mut shown = TabView::new(descriptor("rating"));
    shown.show();
    let mut hidden = TabView::new(descriptor("price"));
    hidden.hide_tab();
    let tabs = vec![shown, hidden];
    let links = has_many_links(&tabs);
    assert_eq!(links.len(), 2);
    assert_eq!((links[0].label.as_str(), links[0].is_active), ("rating", true));
    assert_eq!((links[1].label.as_str(), links[1].is_active), ("price", false));
    assert_eq!(links[1].on_click, Msg::ShowHasManyTab(1));
    let sections = one_one_sections(&tabs);
    assert_eq!(sections[1].summary, "price");
    assert_eq!(sections[1].content, TabSlot::OneOneTab(1));
    assert_eq!(has_many_slots(0), vec![]);
    assert_eq!(has_many_slots(2), vec![TabSlot::HasManyTab(0), TabSlot::HasManyTab(1)]);

    let linked = vec![(linker("product_category"), TabView::new(descriptor("category")))];
    let links = indirect_links(&linked);
    assert_eq!(links[0].on_click, Msg::ShowIndirectTab(0));
    assert!(links[0].is_active);
    assert_eq!(indirect_slots(&linked), vec![TabSlot::IndirectTab(0, linker("product_category"))]);
}

#[test]
fn window_takes_whatever_its_description_sends() {
    let window = product_window();
    let description = window.view();
    assert!(window.accepts(&description.on_close_detail));
    for link in description.has_many_links.iter().chain(description.indirect_links.iter()) {
        assert!(window.accepts(&link.on_click));
    }
    let slots = description
        .has_many_tabs
        .iter()
        .chain(description.indirect_tabs.iter())
        .chain(description.one_one_tabs.iter().map(|one_one| &one_one.content))
        .chain([&description.main_tab]);
    let mut seen = 0;
    for slot in slots {
        assert!(window.accepts(&slot.wrap(tab_view::Msg::RowOpened(0, 0))));
        assert!(window.accepts(&slot.wrap(tab_view::Msg::CloseDetailView)));
        seen += 1;
    }
    assert_eq!(seen, 5);
}

#[test]
fn windows_of_different_names_have_different_keys() {
    let named = |name: &str| {
        let window = Window {
            name: name.to_string(),
            main_tab: descriptor(name),
            one_one_tabs: vec![],
            has_many_tabs: vec![],
            indirect_tabs: vec![],
        };
        let data = WindowData {
            sql_query: String::new(),
            main_tab_data: vec![],
            main_tab_current_page: 0,
            main_tab_total_rows: 0,
            main_tab_frozen_data: vec![],
            one_one_tab_data: vec![],
            has_many_tab_data: vec![],
            has_many_tab_current_page: vec![],
            has_many_tab_total_rows: vec![],
            indirect_tab_data: vec![],
            indirect_tab_current_page: vec![],
            indirect_tab_total_rows: vec![],
        };
        WindowView::new(window, &data, 640, 480)
    };
    assert_eq!(named("product").view().key, "window_product");
    assert_eq!(named("").view().key, "window_");
    assert_ne!(named("product").view().key, named("products").view().key);
    assert_eq!(named("product").view().key, named("product").view().key);
}
