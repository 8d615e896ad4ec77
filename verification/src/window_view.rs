//! The window coordinator: one main tab, its one-to-one tabs, the has-many
//! and indirect tabs of which at most one is shown, and the toolbar. It
//! decides which tab is shown and hands every child its size.

use vstd::prelude::*;
use crate::cmd::Cmd;
use crate::data::{DataRow, IndirectTab, Tab, TableName, Window, WindowData};
use crate::text::{blank, is_blank};
use crate::geometry;
use crate::render;
use crate::render::{RenderDescription, TabSlot};
use crate::state::{at, ActiveRelated, WindowState};
use crate::tab_view;
use crate::tab_view::{TabState, TabView};
use crate::toolbar_view;
use crate::toolbar_view::ToolbarView;

verus! {

/// What can happen to a window.
#[derive(Debug, PartialEq)]
pub enum Msg {
    MainTabMsg(tab_view::Msg),
    OneOneTabMsg(usize, tab_view::Msg),
    HasManyTabMsg(usize, tab_view::Msg),
    IndirectTabMsg(usize, (TableName, tab_view::Msg)),
    ShowHasManyTab(usize),
    ShowIndirectTab(usize),
    BrowserResized(i32, i32),
    ToolbarMsg(toolbar_view::Msg),
    CloseDetailView,
}

impl Clone for Msg {
    fn clone(&self) -> (copy: Self)
        ensures
            copy == *self,
    {
        match self {
            Msg::MainTabMsg(tab_msg) => Msg::MainTabMsg(*tab_msg),
            Msg::OneOneTabMsg(index, tab_msg) => Msg::OneOneTabMsg(*index, *tab_msg),
            Msg::HasManyTabMsg(index, tab_msg) => Msg::HasManyTabMsg(*index, *tab_msg),
            Msg::IndirectTabMsg(index, linked) => Msg::IndirectTabMsg(
                *index,
                (linked.0.clone(), linked.1),
            ),
            Msg::ShowHasManyTab(index) => Msg::ShowHasManyTab(*index),
            Msg::ShowIndirectTab(index) => Msg::ShowIndirectTab(*index),
            Msg::BrowserResized(width, height) => Msg::BrowserResized(*width, *height),
            Msg::ToolbarMsg(toolbar_msg) => Msg::ToolbarMsg(toolbar_msg.clone()),
            Msg::CloseDetailView => Msg::CloseDetailView,
        }
    }
}

/// The states of a row of tabs.
pub open spec fn tab_states(tabs: Seq<TabView>) -> Seq<TabState> {
    tabs.map_values(|tab: TabView| tab@)
}

/// The states of a row of tabs that each come with their linker table.
pub open spec fn linked_tab_states(tabs: Seq<(TableName, TabView)>) -> Seq<(TableName, TabState)> {
    tabs.map_values(|linked: (TableName, TabView)| (linked.0, linked.1@))
}

/// Shows the tab at `active`, if any, and hides every other one.
fn show_only(tabs: &mut Vec<TabView>, active: Option<usize>)
    ensures
        tab_states(final(tabs)@) == Seq::new(
            old(tabs).len() as nat,
            |i: int| old(tabs)[i]@.with_visible(at(active, i)),
        ),
{
    let n = tabs.len();
    let mut index: usize = 0;
    while index < n
        invariant
            index <= n,
            n == tabs.len(),
            tabs.len() == old(tabs).len(),
            forall|i: int|
                0 <= i < index ==> (#[trigger] tabs[i])@ == old(tabs)[i]@.with_visible(
                    at(active, i),
                ),
            forall|i: int| index <= i < n ==> tabs[i] == old(tabs)[i],
        decreases n - index,
    {
        if active == Some(index) {
            tabs[index].show();
        } else {
            tabs[index].hide_tab();
        }
        index += 1;
    }
}

/// Shows the tab at `active`, if any, and hides every other one.
fn show_only_linked(tabs: &mut Vec<(TableName, TabView)>, active: Option<usize>)
    ensures
        linked_tab_states(final(tabs)@) == Seq::new(
            old(tabs).len() as nat,
            |i: int| (old(tabs)[i].0, old(tabs)[i].1@.with_visible(at(active, i))),
        ),
{
    let n = tabs.len();
    let mut index: usize = 0;
    while index < n
        invariant
            index <= n,
            n == tabs.len(),
            tabs.len() == old(tabs).len(),
            forall|i: int|
                0 <= i < index ==> (#[trigger] tabs[i]).0 == old(tabs)[i].0 && tabs[i].1@ == old(
                    tabs,
                )[i].1@.with_visible(at(active, i)),
            forall|i: int| index <= i < n ==> tabs[i] == old(tabs)[i],
        decreases n - index,
    {
        if active == Some(index) {
            tabs[index].1.show();
        } else {
            tabs[index].1.hide_tab();
        }
        index += 1;
    }
}

/// Gives every tab the same size.
fn set_table_sizes(tabs: &mut Vec<TabView>, size: (i32, i32))
    ensures
        tab_states(final(tabs)@) == tab_states(old(tabs)@).map_values(
            |tab: TabState| tab.with_size(geometry::as_ints(size)),
        ),
{
    let n = tabs.len();
    let mut index: usize = 0;
    while index < n
        invariant
            index <= n,
            n == tabs.len(),
            tabs.len() == old(tabs).len(),
            forall|i: int|
                0 <= i < index ==> (#[trigger] tabs[i])@ == old(tabs)[i]@.with_size(
                    geometry::as_ints(size),
                ),
            forall|i: int| index <= i < n ==> tabs[i] == old(tabs)[i],
        decreases n - index,
    {
        tabs[index].set_table_size(size);
        index += 1;
    }
}

/// Gives every tab the same size.
fn set_linked_table_sizes(tabs: &mut Vec<(TableName, TabView)>, size: (i32, i32))
    ensures
        linked_tab_states(final(tabs)@) == linked_tab_states(old(tabs)@).map_values(
            |linked: (TableName, TabState)|
                (linked.0, linked.1.with_size(geometry::as_ints(size))),
        ),
{
    let n = tabs.len();
    let mut index: usize = 0;
    while index < n
        invariant
            index <= n,
            n == tabs.len(),
            tabs.len() == old(tabs).len(),
            forall|i: int|
                0 <= i < index ==> (#[trigger] tabs[i]).0 == old(tabs)[i].0 && tabs[i].1@ == old(
                    tabs,
                )[i].1@.with_size(geometry::as_ints(size)),
            forall|i: int| index <= i < n ==> tabs[i] == old(tabs)[i],
        decreases n - index,
    {
        tabs[index].1.set_table_size(size);
        index += 1;
    }
}

/// Gives each tab the record at its position as its only row.
fn set_one_one_records(tabs: &mut Vec<TabView>, records: &Vec<Option<DataRow>>)
    requires
        records.len() == old(tabs).len(),
    ensures
        tab_states(final(tabs)@) == Seq::new(
            old(tabs).len() as nat,
            |i: int| old(tabs)[i]@.with_one_one_record(records[i].deep_view()),
        ),
{
    let n = tabs.len();
    let mut index: usize = 0;
    while index < n
        invariant
            index <= n,
            n == tabs.len(),
            n == records.len(),
            tabs.len() == old(tabs).len(),
            forall|i: int|
                0 <= i < index ==> (#[trigger] tabs[i])@ == old(tabs)[i]@.with_one_one_record(
                    records[i].deep_view(),
                ),
            forall|i: int| index <= i < n ==> tabs[i] == old(tabs)[i],
        decreases n - index,
    {
        tabs[index].set_one_one_record(&records[index]);
        index += 1;
    }
}

/// Gives each tab the pages at its position, from page 0 on, with the row
/// count at its position.
fn set_pages_of_each(
    tabs: &mut Vec<TabView>,
    data: &Vec<Vec<Vec<DataRow>>>,
    total_rows: &Vec<usize>,
)
    requires
        data.len() == old(tabs).len(),
        total_rows.len() == old(tabs).len(),
    ensures
        tab_states(final(tabs)@) == Seq::new(
            old(tabs).len() as nat,
            |i: int| old(tabs)[i]@.with_pages(data[i].deep_view(), 0, total_rows[i]),
        ),
{
    let n = tabs.len();
    let mut index: usize = 0;
    while index < n
        invariant
            index <= n,
            n == tabs.len(),
            n == data.len(),
            n == total_rows.len(),
            tabs.len() == old(tabs).len(),
            forall|i: int|
                0 <= i < index ==> (#[trigger] tabs[i])@ == old(tabs)[i]@.with_pages(
                    data[i].deep_view(),
                    0,
                    total_rows[i],
                ),
            forall|i: int| index <= i < n ==> tabs[i] == old(tabs)[i],
        decreases n - index,
    {
        tabs[index].set_pages(&data[index], 0, total_rows[index]);
        index += 1;
    }
}

/// Gives each tab the pages at its position, from page 0 on, with the row
/// count at its position.
fn set_pages_of_each_linked(
    tabs: &mut Vec<(TableName, TabView)>,
    data: &Vec<Vec<Vec<DataRow>>>,
    total_rows: &Vec<usize>,
)
    requires
        data.len() == old(tabs).len(),
        total_rows.len() == old(tabs).len(),
    ensures
        linked_tab_states(final(tabs)@) == Seq::new(
            old(tabs).len() as nat,
            |i: int|
                (old(tabs)[i].0, old(tabs)[i].1@.with_pages(data[i].deep_view(), 0, total_rows[i])),
        ),
{
    let n = tabs.len();
    let mut index: usize = 0;
    while index < n
        invariant
            index <= n,
            n == tabs.len(),
            n == data.len(),
            n == total_rows.len(),
            tabs.len() == old(tabs).len(),
            forall|i: int|
                0 <= i < index ==> (#[trigger] tabs[i]).0 == old(tabs)[i].0 && tabs[i].1@ == old(
                    tabs,
                )[i].1@.with_pages(data[i].deep_view(), 0, total_rows[i]),
            forall|i: int| index <= i < n ==> tabs[i] == old(tabs)[i],
        decreases n - index,
    {
        tabs[index].1.set_pages(&data[index], 0, total_rows[index]);
        index += 1;
    }
}

/// A new tab for each descriptor, in order.
fn tab_views_of(tabs: &Vec<Tab>, is_one_one: bool) -> (tab_views: Vec<TabView>)
    ensures
        tab_states(tab_views@) == Seq::new(
            tabs.len() as nat,
            |i: int| TabState { is_one_one, ..TabState::initial(tabs[i].name@) },
        ),
{
    let n = tabs.len();
    let mut tab_views: Vec<TabView> = Vec::new();
    let mut index: usize = 0;
    while index < n
        invariant
            index <= n,
            n == tabs.len(),
            tab_views.len() == index,
            forall|i: int|
                0 <= i < index ==> (#[trigger] tab_views[i])@ == (TabState {
                    is_one_one,
                    ..TabState::initial(tabs[i].name@)
                }),
        decreases n - index,
    {
        let mut tab_view = TabView::new(Tab { name: tabs[index].name.clone() });
        tab_view.set_is_one_one(is_one_one);
        tab_views.push(tab_view);
        index += 1;
    }
    tab_views
}

/// A new tab for each descriptor, in order, each with its linker table.
fn linked_tab_views_of(tabs: &Vec<IndirectTab>) -> (tab_views: Vec<(TableName, TabView)>)
    ensures
        linked_tab_states(tab_views@) == Seq::new(
            tabs.len() as nat,
            |i: int| (tabs[i].linker, TabState::initial(tabs[i].tab.name@)),
        ),
{
    let n = tabs.len();
    let mut tab_views: Vec<(TableName, TabView)> = Vec::new();
    let mut index: usize = 0;
    while index < n
        invariant
            index <= n,
            n == tabs.len(),
            tab_views.len() == index,
            forall|i: int|
                0 <= i < index ==> (#[trigger] tab_views[i]).0 == tabs[i].linker && tab_views[i].1@
                    == TabState::initial(tabs[i].tab.name@),
        decreases n - index,
    {
        let tab_view = TabView::new(Tab { name: tabs[index].tab.name.clone() });
        tab_views.push((tabs[index].linker.clone(), tab_view));
        index += 1;
    }
    tab_views
}

/// Tells whether the tab at `active`, if any, is the only one marked
/// visible.
fn only_shown(tabs: &Vec<TabView>, active: Option<usize>) -> (ok: bool)
    ensures
        ok == (forall|i: int|
            0 <= i < tabs.len() ==> (#[trigger] tab_states(tabs@)[i]).is_visible == at(active, i)),
{
    let n = tabs.len();
    let mut index: usize = 0;
    while index < n
        invariant
            index <= n,
            n == tabs.len(),
            forall|i: int|
                0 <= i < index ==> (#[trigger] tab_states(tabs@)[i]).is_visible == at(active, i),
        decreases n - index,
    {
        if tabs[index].is_visible != (active == Some(index)) {
            assert(tab_states(tabs@)[index as int].is_visible != at(active, index as int));
            return false;
        }
        index += 1;
    }
    true
}

/// Tells whether the tab at `active`, if any, is the only one marked
/// visible.
fn only_shown_linked(tabs: &Vec<(TableName, TabView)>, active: Option<usize>) -> (ok: bool)
    ensures
        ok == (forall|i: int|
            0 <= i < tabs.len() ==> (#[trigger] linked_tab_states(tabs@)[i]).1.is_visible == at(
                active,
                i,
            )),
{
    let n = tabs.len();
    let mut index: usize = 0;
    while index < n
        invariant
            index <= n,
            n == tabs.len(),
            forall|i: int|
                0 <= i < index ==> (#[trigger] linked_tab_states(tabs@)[i]).1.is_visible == at(
                    active,
                    i,
                ),
        decreases n - index,
    {
        if tabs[index].1.is_visible != (active == Some(index)) {
            assert(linked_tab_states(tabs@)[index as int].1.is_visible != at(active, index as int));
            return false;
        }
        index += 1;
    }
    true
}

/// Tells whether every tab is flagged one-to-one.
fn all_one_one(tabs: &Vec<TabView>) -> (ok: bool)
    ensures
        ok == (forall|i: int| 0 <= i < tabs.len() ==> (#[trigger] tab_states(tabs@)[i]).is_one_one),
{
    let n = tabs.len();
    let mut index: usize = 0;
    while index < n
        invariant
            index <= n,
            n == tabs.len(),
            forall|i: int| 0 <= i < index ==> (#[trigger] tab_states(tabs@)[i]).is_one_one,
        decreases n - index,
    {
        if !tabs[index].is_one_one {
            assert(!tab_states(tabs@)[index as int].is_one_one);
            return false;
        }
        index += 1;
    }
    true
}

/// The window coordinator.
#[derive(Debug)]
pub struct WindowView {
    name: String,
    main_tab: TabView,
    one_one_tabs: Vec<TabView>,
    has_many_tabs: Vec<TabView>,
    indirect_tabs: Vec<(TableName, TabView)>,
    is_visible: bool,
    active: ActiveRelated,
    browser_width: i32,
    browser_height: i32,
    toolbar_view: ToolbarView,
}

impl WindowView {
    /// The window as contracts see it.
    pub closed spec fn state(&self) -> WindowState {
        WindowState {
            name: self.name@,
            main_tab: self.main_tab@,
            one_one_tabs: tab_states(self.one_one_tabs@),
            has_many_tabs: tab_states(self.has_many_tabs@),
            indirect_tabs: linked_tab_states(self.indirect_tabs@),
            is_visible: self.is_visible,
            active: self.active,
            browser_width: self.browser_width as int,
            browser_height: self.browser_height as int,
            toolbar: self.toolbar_view@,
        }
    }

    /// Tells whether the window is well formed, as every window is that
    /// was made by `new` and changed through its methods alone.
    pub fn is_well_formed(&self) -> (ok: bool)
        ensures
            ok == self.state().wf(),
    {
        let selection_in_range = match self.active {
            ActiveRelated::NoRelatedTab => self.has_many_tabs.is_empty()
                && self.indirect_tabs.is_empty(),
            ActiveRelated::HasMany(index) => index < self.has_many_tabs.len(),
            ActiveRelated::Indirect(index) => index < self.indirect_tabs.len(),
        };
        selection_in_range && only_shown(&self.has_many_tabs, self.active_has_many_tab())
            && only_shown_linked(&self.indirect_tabs, self.active_indirect_tab())
            && self.main_tab.is_visible && all_one_one(&self.one_one_tabs)
            && geometry::is_viewport_in_range(self.browser_width, self.browser_height)
    }

    pub fn active_has_many_tab(&self) -> (active: Option<usize>)
        ensures
            active == self.state().active_has_many_tab(),
    {
        match self.active {
            ActiveRelated::HasMany(index) => Some(index),
            _ => None,
        }
    }

    pub fn active_indirect_tab(&self) -> (active: Option<usize>)
        ensures
            active == self.state().active_indirect_tab(),
    {
        match self.active {
            ActiveRelated::Indirect(index) => Some(index),
            _ => None,
        }
    }

    /// Marks the selected tab visible and every other has-many and indirect
    /// tab hidden.
    fn update_active_has_many_or_indirect_tab(&mut self)
        ensures
            final(self).state() == old(self).state().rederive_visibility(),
    {
        let active_has_many_tab = self.active_has_many_tab();
        let active_indirect_tab = self.active_indirect_tab();
        show_only(&mut self.has_many_tabs, active_has_many_tab);
        show_only_linked(&mut self.indirect_tabs, active_indirect_tab);
        proof {
            let rederived = old(self).state().rederive_visibility();
            assert(final(self).state().has_many_tabs =~= rederived.has_many_tabs);
            assert(final(self).state().indirect_tabs =~= rederived.indirect_tabs);
        }
    }

    fn activate_has_many_tab(&mut self, index: usize)
        ensures
            final(self).state() == old(self).state().activate(ActiveRelated::HasMany(index)),
    {
        self.active = ActiveRelated::HasMany(index);
        self.update_active_has_many_or_indirect_tab();
    }

    fn activate_indirect_tab(&mut self, index: usize)
        ensures
            final(self).state() == old(self).state().activate(ActiveRelated::Indirect(index)),
    {
        self.active = ActiveRelated::Indirect(index);
        self.update_active_has_many_or_indirect_tab();
    }

    /// Selects the first has-many tab if there is one, else the first
    /// indirect tab. A window without related tabs stays as it is.
    fn activate_first_related_tab(&mut self)
        ensures
            final(self).state() == old(self).state().activate_first_related_tab(),
    {
        if !self.has_many_tabs.is_empty() {
            self.activate_has_many_tab(0);
        } else if !self.indirect_tabs.is_empty() {
            self.activate_indirect_tab(0);
        }
    }

    fn in_detail_view(&self) -> (zoomed: bool)
        ensures
            zoomed == self.state().in_detail_view(),
    {
        self.main_tab.in_detail_view()
    }

    fn is_show_related_tabs(&self) -> (shown: bool)
        ensures
            shown == self.state().is_show_related_tabs(),
    {
        self.in_detail_view() && self.toolbar_view.show_related_tabs
    }

    fn close_detail_view(&mut self)
        ensures
            final(self).state() == (WindowState {
                main_tab: TabState { detail: None, ..old(self).state().main_tab },
                ..old(self).state()
            }),
    {
        self.main_tab.close_detail_view()
    }

    /// The height that the columns, the paddings and the margins need.
    fn calculate_needed_height_for_auxilliary_spaces(&self) -> (height: i32)
        ensures
            height == geometry::AUXILLIARY_HEIGHT,
    {
        geometry::AUXILLIARY_HEIGHT
    }

    /// The width that the window list, the left padding and the margins need.
    fn calculate_needed_width_for_auxilliary_spaces(&self) -> (width: i32)
        ensures
            width == geometry::AUXILLIARY_WIDTH,
    {
        geometry::AUXILLIARY_WIDTH
    }

    /// The height of the links of the has-many and indirect tabs.
    fn related_tab_links_needed_height(&self) -> (height: i32)
        ensures
            height == geometry::RELATED_TAB_LINKS_HEIGHT,
    {
        geometry::RELATED_TAB_LINKS_HEIGHT
    }

    /// The window is the browser without the auxilliary spaces.
    pub fn calculate_window_size(&self) -> (size: (i32, i32))
        requires
            self.state().viewport_in_range(),
        ensures
            geometry::as_ints(size) == self.state().window_size(),
    {
        let width = self.browser_width - self.calculate_needed_width_for_auxilliary_spaces();
        let height = self.browser_height - self.calculate_needed_height_for_auxilliary_spaces();
        (width, height)
    }

    /// The main table gets what the related tabs and the toolbar leave of
    /// the window's height, or nothing where they leave less than nothing.
    pub fn calculate_main_table_size(&self) -> (size: (i32, i32))
        requires
            self.state().viewport_in_range(),
        ensures
            geometry::as_ints(size) == self.state().main_table_size(),
            size.1 >= 0,
    {
        geometry::calculate_main_table_size(
            self.browser_width,
            self.browser_height,
            self.is_show_related_tabs(),
            self.toolbar_view.get_consumed_height(),
        )
    }

    /// The detail view takes up the main table's place.
    pub fn calculate_detail_window_size(&self) -> (size: (i32, i32))
        requires
            self.state().viewport_in_range(),
        ensures
            geometry::as_ints(size) == self.state().main_table_size(),
            size.1 >= 0,
    {
        self.calculate_main_table_size()
    }

    pub fn calculate_detail_window_height(&self) -> (height: i32)
        requires
            self.state().viewport_in_range(),
        ensures
            height == self.state().main_table_size().1,
            height >= 0,
    {
        self.calculate_detail_window_size().1
    }

    pub fn calculate_detail_window_width(&self) -> (width: i32)
        requires
            self.state().viewport_in_range(),
        ensures
            width == self.state().main_table_size().0,
    {
        self.calculate_detail_window_size().0
    }

    pub fn calculate_related_tabs_size(&self) -> (size: (i32, i32))
        requires
            self.state().viewport_in_range(),
        ensures
            geometry::as_ints(size) == self.state().related_tabs_size(),
            size.1 == 0 || size.1 == 340,
    {
        (
            self.calculate_related_tabs_width(),
            if self.is_show_related_tabs() {
                self.calculate_related_tabs_height()
            } else {
                0
            },
        )
    }

    /// The related tabs have a fixed height.
    fn calculate_related_tabs_height(&self) -> (height: i32)
        ensures
            height == geometry::related_tabs_height(true),
    {
        geometry::RELATED_TABS_CONTENT_HEIGHT + self.related_tab_links_needed_height()
    }

    fn calculate_related_tabs_width(&self) -> (width: i32)
        requires
            self.state().viewport_in_range(),
        ensures
            width == self.browser_width - geometry::AUXILLIARY_WIDTH,
    {
        self.browser_width - self.calculate_needed_width_for_auxilliary_spaces()
    }

    /// Computes every size anew and hands it to the child it belongs to.
    pub fn update_size_allocation(&mut self)
        requires
            old(self).state().viewport_in_range(),
        ensures
            final(self).state() == old(self).state().allocate(),
            final(self).state().allocated(),
            old(self).state().wf() ==> final(self).state().wf(),
    {
        let calculated_main_table_size = self.calculate_main_table_size();
        let calculated_related_tabs_size = self.calculate_related_tabs_size();
        let calculated_window_size = self.calculate_window_size();

        self.main_tab.set_table_size(calculated_main_table_size);
        self.toolbar_view.set_allocated_size(calculated_window_size);
        set_table_sizes(&mut self.one_one_tabs, calculated_main_table_size);
        set_table_sizes(&mut self.has_many_tabs, calculated_related_tabs_size);
        set_linked_table_sizes(&mut self.indirect_tabs, calculated_related_tabs_size);
        proof {
            let before = old(self).state();
            let after = final(self).state();
            assert(after.one_one_tabs =~= before.allocate().one_one_tabs);
            assert(after.has_many_tabs =~= before.allocate().has_many_tabs);
            assert(after.indirect_tabs =~= before.allocate().indirect_tabs);
            crate::laws::allocation_settles(before);
        }
    }

    /// Tells whether the payload has an entry for each dependent tab of
    /// this window.
    pub fn payload_fits(&self, window_data: &WindowData) -> (ok: bool)
        ensures
            ok == self.state().payload_fits(*window_data),
    {
        window_data.one_one_tab_data.len() == self.one_one_tabs.len()
            && window_data.has_many_tab_data.len() == self.has_many_tabs.len()
            && window_data.has_many_tab_total_rows.len() == self.has_many_tabs.len()
            && window_data.indirect_tab_data.len() == self.indirect_tabs.len()
            && window_data.indirect_tab_total_rows.len() == self.indirect_tabs.len()
    }

    /// Fills the toolbar and every tab from the payload. The rows of the
    /// main tab are set before its frozen data, which belongs to them.
    pub fn set_window_data(&mut self, window_data: &WindowData)
        requires
            old(self).state().payload_fits(*window_data),
        ensures
            final(self).state() == old(self).state().ingest(*window_data),
            old(self).state().wf() ==> final(self).state().wf(),
    {
        self.toolbar_view.set_sql_query(&window_data.sql_query);
        self.main_tab.set_pages(
            &window_data.main_tab_data,
            window_data.main_tab_current_page,
            window_data.main_tab_total_rows,
        );
        self.main_tab.set_frozen_data(&window_data.main_tab_frozen_data);
        set_one_one_records(&mut self.one_one_tabs, &window_data.one_one_tab_data);
        set_pages_of_each(
            &mut self.has_many_tabs,
            &window_data.has_many_tab_data,
            &window_data.has_many_tab_total_rows,
        );
        set_pages_of_each_linked(
            &mut self.indirect_tabs,
            &window_data.indirect_tab_data,
            &window_data.indirect_tab_total_rows,
        );
        proof {
            let before = old(self).state();
            let after = final(self).state();
            assert(after.one_one_tabs =~= before.ingest(*window_data).one_one_tabs);
            assert(after.has_many_tabs =~= before.ingest(*window_data).has_many_tabs);
            assert(after.indirect_tabs =~= before.ingest(*window_data).indirect_tabs);
        }
    }

    /// Makes the window that `window` describes, fills it from
    /// `window_data`, hands out the sizes for the given viewport and selects
    /// the first related tab.
    pub fn new(window: Window, window_data: &WindowData, browser_width: i32, browser_height: i32)
        -> (window_view: WindowView)
        requires
            window_data.fits(
                window.one_one_tabs.len() as nat,
                window.has_many_tabs.len() as nat,
                window.indirect_tabs.len() as nat,
            ),
            geometry::viewport_in_range(browser_width as int, browser_height as int),
        ensures
            window_view.state() == WindowState::initial(
                window,
                *window_data,
                browser_width as int,
                browser_height as int,
            ),
            window_view.state().wf(),
            window_view.state().allocated(),
    {
        let one_one_tabs = tab_views_of(&window.one_one_tabs, true);
        let has_many_tabs = tab_views_of(&window.has_many_tabs, false);
        let indirect_tabs = linked_tab_views_of(&window.indirect_tabs);
        let mut window_view = WindowView {
            name: window.name,
            main_tab: TabView::new(window.main_tab),
            one_one_tabs,
            has_many_tabs,
            indirect_tabs,
            is_visible: true,
            active: ActiveRelated::NoRelatedTab,
            browser_width,
            browser_height,
            toolbar_view: ToolbarView::new(),
        };
        let ghost described = WindowState::described(
            window,
            browser_width as int,
            browser_height as int,
        );
        assert(window_view.state().one_one_tabs =~= described.one_one_tabs);
        assert(window_view.state().has_many_tabs =~= described.has_many_tabs);
        assert(window_view.state().indirect_tabs =~= described.indirect_tabs);
        assert(window_view.state() == described);
        window_view.set_window_data(window_data);
        window_view.update_active_has_many_or_indirect_tab();
        window_view.update_size_allocation();
        window_view.activate_first_related_tab();
        proof {
            crate::laws::first_selection_settles_visibility(described.ingest(*window_data));
            crate::laws::new_window_is_well_formed(
                window,
                *window_data,
                browser_width as int,
                browser_height as int,
            );
        }
        window_view
    }

    /// The query text of the toolbar, unless it is blank.
    pub fn sql_query(&self) -> (query: Option<String>)
        ensures
            match query {
                Some(text) => text@ == self.state().toolbar.sql_query && !blank(text@),
                None => blank(self.state().toolbar.sql_query),
            },
    {
        let sql = &self.toolbar_view.sql_query;
        if is_blank(sql.as_str()) {
            None
        } else {
            Some(sql.clone())
        }
    }

    /// Zooms the main tab on the record at the given page and row. The
    /// sizes stay as they are until they are next handed out.
    pub fn show_main_tab_detail_view(&mut self, page_index: usize, row_index: usize)
        ensures
            final(self).state() == (WindowState {
                main_tab: TabState {
                    detail: Some((page_index, row_index)),
                    ..old(self).state().main_tab
                },
                ..old(self).state()
            }),
            final(self).state().in_detail_view(),
            old(self).state().wf() ==> final(self).state().wf(),
    {
        self.main_tab.show_detail_view(page_index, row_index)
    }

    pub fn hide_window(&mut self)
        ensures
            final(self).state() == (WindowState { is_visible: false, ..old(self).state() }),
    {
        self.is_visible = false;
    }

    pub fn show(&mut self)
        ensures
            final(self).state() == (WindowState { is_visible: true, ..old(self).state() }),
    {
        self.is_visible = true;
    }

    /// Tells whether the window can take the message.
    pub fn accepts(&self, msg: &Msg) -> (ok: bool)
        ensures
            ok == self.state().accepts(*msg),
    {
        match msg {
            Msg::MainTabMsg(_) => true,
            Msg::OneOneTabMsg(index, _) => *index < self.one_one_tabs.len(),
            Msg::HasManyTabMsg(index, _) => *index < self.has_many_tabs.len(),
            Msg::IndirectTabMsg(index, _) => *index < self.indirect_tabs.len(),
            Msg::ShowHasManyTab(index) => *index < self.has_many_tabs.len(),
            Msg::ShowIndirectTab(index) => *index < self.indirect_tabs.len(),
            Msg::BrowserResized(width, height) => geometry::is_viewport_in_range(*width, *height),
            Msg::ToolbarMsg(_) => true,
            Msg::CloseDetailView => true,
        }
    }

    /// Takes one message to its end and returns what the host has to do
    /// next.
    pub fn update(&mut self, msg: Msg) -> (cmd: Cmd)
        requires
            old(self).state().wf(),
            old(self).state().accepts(msg),
        ensures
            final(self).state() == old(self).state().step(msg),
            cmd == old(self).state().command(msg),
            final(self).state().wf(),
    {
        proof {
            crate::laws::step_keeps_well_formed(old(self).state(), msg);
        }
        match msg {
            Msg::MainTabMsg(tab_msg) => {
                let cmd = self.main_tab.update(tab_msg);
                self.update_size_allocation();
                cmd
            },
            Msg::OneOneTabMsg(index, tab_msg) => {
                self.one_one_tabs[index].update(tab_msg);
                assert(final(self).state().one_one_tabs =~= old(self).state().step(
                    msg,
                ).one_one_tabs);
                Cmd::none()
            },
            Msg::HasManyTabMsg(index, tab_msg) => {
                self.has_many_tabs[index].update(tab_msg);
                assert(final(self).state().has_many_tabs =~= old(self).state().step(
                    msg,
                ).has_many_tabs);
                Cmd::none()
            },
            Msg::IndirectTabMsg(index, (_table_name, tab_msg)) => {
                self.indirect_tabs[index].1.update(tab_msg);
                assert(final(self).state().indirect_tabs =~= old(self).state().step(
                    msg,
                ).indirect_tabs);
                Cmd::none()
            },
            Msg::ShowHasManyTab(index) => {
                self.activate_has_many_tab(index);
                Cmd::none()
            },
            Msg::ShowIndirectTab(index) => {
                self.activate_indirect_tab(index);
                Cmd::none()
            },
            Msg::BrowserResized(width, height) => {
                self.browser_width = width;
                self.browser_height = height;
                self.update_size_allocation();
                Cmd::none()
            },
            Msg::ToolbarMsg(toolbar_msg) => {
                self.toolbar_view.update(toolbar_msg);
                self.update_size_allocation();
                Cmd::none()
            },
            Msg::CloseDetailView => {
                self.close_detail_view();
                self.update_size_allocation();
                Cmd::none()
            },
        }
    }

    /// Describes the window for drawing.
    pub fn view(&self) -> (description: RenderDescription)
        requires
            self.state().viewport_in_range(),
        ensures
            self.state().renders_as(description),
    {
        RenderDescription {
            key: String::from_str("window_").concat(self.name.as_str()),
            is_visible: self.is_visible,
            detail_width: self.calculate_detail_window_width(),
            detail_height: self.calculate_detail_window_height(),
            in_detail_view: self.in_detail_view(),
            main_tab: TabSlot::MainTab,
            one_one_tabs: render::one_one_sections(&self.one_one_tabs),
            on_close_detail: Msg::CloseDetailView,
            show_related_tabs: self.is_show_related_tabs(),
            has_many_links: render::has_many_links(&self.has_many_tabs),
            indirect_links: render::indirect_links(&self.indirect_tabs),
            has_many_tabs: render::has_many_slots(self.has_many_tabs.len()),
            indirect_tabs: render::indirect_slots(&self.indirect_tabs),
        }
    }

    pub fn name(&self) -> (name: &String)
        ensures
            name@ == self.state().name,
    {
        &self.name
    }

    pub fn is_visible(&self) -> (is_visible: bool)
        ensures
            is_visible == self.state().is_visible,
    {
        self.is_visible
    }

    pub fn browser_size(&self) -> (size: (i32, i32))
        ensures
            size.0 == self.state().browser_width,
            size.1 == self.state().browser_height,
    {
        (self.browser_width, self.browser_height)
    }

    pub fn main_tab(&self) -> (tab: &TabView)
        ensures
            tab@ == self.state().main_tab,
    {
        &self.main_tab
    }

    pub fn one_one_tabs(&self) -> (tabs: &Vec<TabView>)
        ensures
            tab_states(tabs@) == self.state().one_one_tabs,
    {
        &self.one_one_tabs
    }

    pub fn has_many_tabs(&self) -> (tabs: &Vec<TabView>)
        ensures
            tab_states(tabs@) == self.state().has_many_tabs,
    {
        &self.has_many_tabs
    }

    pub fn indirect_tabs(&self) -> (tabs: &Vec<(TableName, TabView)>)
        ensures
            linked_tab_states(tabs@) == self.state().indirect_tabs,
    {
        &self.indirect_tabs
    }

    pub fn toolbar_view(&self) -> (toolbar_view: &ToolbarView)
        ensures
            toolbar_view@ == self.state().toolbar,
    {
        &self.toolbar_view
    }
}

} // verus!
