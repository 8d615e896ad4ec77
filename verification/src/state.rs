//! The window as contracts see it, and what each event makes of it.

use vstd::prelude::*;
use crate::cmd::Cmd;
use crate::data::{TableName, Window, WindowData};
use crate::geometry;
use crate::render;
use crate::render::{RenderDescription, TabSlot};
use crate::tab_view::TabState;
use crate::toolbar_view::ToolbarState;
use crate::window_view::Msg;

verus! {

/// Which of the has-many and indirect tabs is the one shown.
#[derive(Debug, Clone, Copy, PartialEq, Eq, Structural)]
pub enum ActiveRelated {
    NoRelatedTab,
    HasMany(usize),
    Indirect(usize),
}

/// A window as contracts see it.
pub struct WindowState {
    pub name: Seq<char>,
    pub main_tab: TabState,
    pub one_one_tabs: Seq<TabState>,
    pub has_many_tabs: Seq<TabState>,
    pub indirect_tabs: Seq<(TableName, TabState)>,
    pub is_visible: bool,
    pub active: ActiveRelated,
    pub browser_width: int,
    pub browser_height: int,
    pub toolbar: ToolbarState,
}

impl WindowState {
    pub open spec fn active_has_many_tab(self) -> Option<usize> {
        match self.active {
            ActiveRelated::HasMany(index) => Some(index),
            _ => None,
        }
    }

    pub open spec fn active_indirect_tab(self) -> Option<usize> {
        match self.active {
            ActiveRelated::Indirect(index) => Some(index),
            _ => None,
        }
    }

    /// Detail view is on while the main tab shows one zoomed record.
    pub open spec fn in_detail_view(self) -> bool {
        self.main_tab.in_detail_view()
    }

    /// The related-tabs panel is shown in detail view, while the toolbar's
    /// switch is on.
    pub open spec fn is_show_related_tabs(self) -> bool {
        self.in_detail_view() && self.toolbar.show_related_tabs
    }

    pub open spec fn window_size(self) -> (int, int) {
        geometry::window_size(self.browser_width, self.browser_height)
    }

    pub open spec fn related_tabs_size(self) -> (int, int) {
        geometry::related_tabs_size(self.browser_width, self.is_show_related_tabs())
    }

    pub open spec fn main_table_size(self) -> (int, int) {
        geometry::main_table_size(
            self.browser_width,
            self.browser_height,
            self.is_show_related_tabs(),
            self.toolbar.consumed_height as int,
        )
    }

    /// The selection names a tab that exists, and names none only where
    /// there is none to name.
    pub open spec fn selection_in_range(self) -> bool {
        match self.active {
            ActiveRelated::NoRelatedTab => self.has_many_tabs.len() == 0
                && self.indirect_tabs.len() == 0,
            ActiveRelated::HasMany(index) => index < self.has_many_tabs.len(),
            ActiveRelated::Indirect(index) => index < self.indirect_tabs.len(),
        }
    }

    /// A has-many or indirect tab is marked visible exactly when it is the
    /// selected one.
    pub open spec fn visibility_follows_selection(self) -> bool {
        &&& forall|i: int|
            0 <= i < self.has_many_tabs.len() ==> (#[trigger] self.has_many_tabs[i]).is_visible
                == at(self.active_has_many_tab(), i)
        &&& forall|i: int|
            0 <= i < self.indirect_tabs.len() ==> (#[trigger] self.indirect_tabs[i]).1.is_visible
                == at(self.active_indirect_tab(), i)
    }

    /// The auxilliary spaces can be taken from the viewport in `i32`.
    pub open spec fn viewport_in_range(self) -> bool {
        geometry::viewport_in_range(self.browser_width, self.browser_height)
    }

    /// What holds of every window between two calls.
    pub open spec fn wf(self) -> bool {
        &&& self.selection_in_range()
        &&& self.visibility_follows_selection()
        &&& self.main_tab.is_visible
        &&& forall|i: int|
            0 <= i < self.one_one_tabs.len() ==> (#[trigger] self.one_one_tabs[i]).is_one_one
        &&& self.viewport_in_range()
    }

    /// Every has-many and indirect tab gets its visibility anew from the
    /// selection.
    pub open spec fn rederive_visibility(self) -> WindowState {
        WindowState {
            has_many_tabs: Seq::new(
                self.has_many_tabs.len(),
                |i: int| self.has_many_tabs[i].with_visible(at(self.active_has_many_tab(), i)),
            ),
            indirect_tabs: Seq::new(
                self.indirect_tabs.len(),
                |i: int|
                    (
                        self.indirect_tabs[i].0,
                        self.indirect_tabs[i].1.with_visible(at(self.active_indirect_tab(), i)),
                    ),
            ),
            ..self
        }
    }

    pub open spec fn activate(self, active: ActiveRelated) -> WindowState {
        WindowState { active, ..self }.rederive_visibility()
    }

    /// The first has-many tab is selected if there is one, else the first
    /// indirect tab; with neither, nothing changes.
    pub open spec fn activate_first_related_tab(self) -> WindowState {
        if self.has_many_tabs.len() > 0 {
            self.activate(ActiveRelated::HasMany(0))
        } else if self.indirect_tabs.len() > 0 {
            self.activate(ActiveRelated::Indirect(0))
        } else {
            self
        }
    }

    /// The sizes that the viewport and the mode give are handed to every
    /// child: the main table's to the main tab and the one-to-one tabs, the
    /// related-tabs panel's to every has-many and indirect tab, selected or
    /// not, and the window's to the toolbar.
    pub open spec fn allocate(self) -> WindowState {
        let main_table_size = self.main_table_size();
        let related_tabs_size = self.related_tabs_size();
        WindowState {
            main_tab: self.main_tab.with_size(main_table_size),
            toolbar: self.toolbar.with_allocated_size(self.window_size()),
            one_one_tabs: self.one_one_tabs.map_values(
                |tab: TabState| tab.with_size(main_table_size),
            ),
            has_many_tabs: self.has_many_tabs.map_values(
                |tab: TabState| tab.with_size(related_tabs_size),
            ),
            indirect_tabs: self.indirect_tabs.map_values(
                |linked: (TableName, TabState)| (linked.0, linked.1.with_size(related_tabs_size)),
            ),
            ..self
        }
    }

    /// Every child holds the size that the viewport and the mode give it.
    pub open spec fn allocated(self) -> bool {
        self.allocate() == self
    }

    /// The payload has an entry for each one-to-one, has-many and indirect
    /// tab of the window.
    pub open spec fn payload_fits(self, data: WindowData) -> bool {
        data.fits(self.one_one_tabs.len(), self.has_many_tabs.len(), self.indirect_tabs.len())
    }

    /// The window filled from a payload: the query text goes to the toolbar;
    /// the main tab gets its rows and then its frozen data; each one-to-one
    /// tab gets its record as its only row; each has-many and indirect tab
    /// gets its rows, from page 0 on, with its own row count. Entries belong
    /// to tabs by position.
    pub open spec fn ingest(self, data: WindowData) -> WindowState {
        WindowState {
            toolbar: self.toolbar.with_sql_query(data.sql_query@),
            main_tab: self.main_tab.with_pages(
                data.main_tab_data.deep_view(),
                data.main_tab_current_page,
                data.main_tab_total_rows,
            ).with_frozen_data(data.main_tab_frozen_data.deep_view()),
            one_one_tabs: Seq::new(
                self.one_one_tabs.len(),
                |i: int| self.one_one_tabs[i].with_one_one_record(
                    data.one_one_tab_data[i].deep_view(),
                ),
            ),
            has_many_tabs: Seq::new(
                self.has_many_tabs.len(),
                |i: int| self.has_many_tabs[i].with_pages(
                    data.has_many_tab_data[i].deep_view(),
                    0,
                    data.has_many_tab_total_rows[i],
                ),
            ),
            indirect_tabs: Seq::new(
                self.indirect_tabs.len(),
                |i: int|
                    (
                        self.indirect_tabs[i].0,
                        self.indirect_tabs[i].1.with_pages(
                            data.indirect_tab_data[i].deep_view(),
                            0,
                            data.indirect_tab_total_rows[i],
                        ),
                    ),
            ),
            ..self
        }
    }

    /// A window as its descriptor gives it, before any data: every tab
    /// shown and empty, nothing selected, the toolbar as new.
    pub open spec fn described(window: Window, browser_width: int, browser_height: int)
        -> WindowState {
        WindowState {
            name: window.name@,
            main_tab: TabState::initial(window.main_tab.name@),
            one_one_tabs: Seq::new(
                window.one_one_tabs.len() as nat,
                |i: int|
                    TabState { is_one_one: true, ..TabState::initial(window.one_one_tabs[i].name@) },
            ),
            has_many_tabs: Seq::new(
                window.has_many_tabs.len() as nat,
                |i: int| TabState::initial(window.has_many_tabs[i].name@),
            ),
            indirect_tabs: Seq::new(
                window.indirect_tabs.len() as nat,
                |i: int|
                    (
                        window.indirect_tabs[i].linker,
                        TabState::initial(window.indirect_tabs[i].tab.name@),
                    ),
            ),
            is_visible: true,
            active: ActiveRelated::NoRelatedTab,
            browser_width,
            browser_height,
            toolbar: ToolbarState::initial(),
        }
    }

    /// A new window: described, filled, given its sizes, and with its first
    /// related tab selected.
    pub open spec fn initial(
        window: Window,
        data: WindowData,
        browser_width: int,
        browser_height: int,
    ) -> WindowState {
        Self::described(window, browser_width, browser_height).ingest(
            data,
        ).allocate().activate_first_related_tab()
    }

    /// The messages that a window can take: one for a tab names a tab that
    /// exists, and a resize names a viewport in range.
    pub open spec fn accepts(self, msg: Msg) -> bool {
        match msg {
            Msg::MainTabMsg(_) => true,
            Msg::OneOneTabMsg(index, _) => index < self.one_one_tabs.len(),
            Msg::HasManyTabMsg(index, _) => index < self.has_many_tabs.len(),
            Msg::IndirectTabMsg(index, _) => index < self.indirect_tabs.len(),
            Msg::ShowHasManyTab(index) => index < self.has_many_tabs.len(),
            Msg::ShowIndirectTab(index) => index < self.indirect_tabs.len(),
            Msg::BrowserResized(width, height) => geometry::viewport_in_range(
                width as int,
                height as int,
            ),
            Msg::ToolbarMsg(_) => true,
            Msg::CloseDetailView => true,
        }
    }

    /// The window after a message. Whatever can change what a size is
    /// computed from is followed by handing out all sizes anew.
    pub open spec fn step(self, msg: Msg) -> WindowState {
        match msg {
            Msg::MainTabMsg(tab_msg) => WindowState {
                main_tab: self.main_tab.step(tab_msg),
                ..self
            }.allocate(),
            Msg::OneOneTabMsg(index, tab_msg) => WindowState {
                one_one_tabs: self.one_one_tabs.update(
                    index as int,
                    self.one_one_tabs[index as int].step(tab_msg),
                ),
                ..self
            },
            Msg::HasManyTabMsg(index, tab_msg) => WindowState {
                has_many_tabs: self.has_many_tabs.update(
                    index as int,
                    self.has_many_tabs[index as int].step(tab_msg),
                ),
                ..self
            },
            Msg::IndirectTabMsg(index, linked_msg) => WindowState {
                indirect_tabs: self.indirect_tabs.update(
                    index as int,
                    (
                        self.indirect_tabs[index as int].0,
                        self.indirect_tabs[index as int].1.step(linked_msg.1),
                    ),
                ),
                ..self
            },
            Msg::ShowHasManyTab(index) => self.activate(ActiveRelated::HasMany(index)),
            Msg::ShowIndirectTab(index) => self.activate(ActiveRelated::Indirect(index)),
            Msg::BrowserResized(width, height) => WindowState {
                browser_width: width as int,
                browser_height: height as int,
                ..self
            }.allocate(),
            Msg::ToolbarMsg(toolbar_msg) => WindowState {
                toolbar: self.toolbar.step(toolbar_msg),
                ..self
            }.allocate(),
            Msg::CloseDetailView => WindowState {
                main_tab: TabState { detail: None, ..self.main_tab },
                ..self
            }.allocate(),
        }
    }

    /// What a message asks of the host: what the main tab asks for a
    /// message of its own, and nothing otherwise.
    pub open spec fn command(self, msg: Msg) -> Cmd {
        match msg {
            Msg::MainTabMsg(tab_msg) => self.main_tab.command(tab_msg),
            _ => Cmd::Nothing,
        }
    }

    /// What a drawing of the window has to show of it: the window's key
    /// and visibility, the panel of the main tab with the size of the main
    /// table, the one-to-one tabs under their names, and the related tabs
    /// with a link for each.
    pub open spec fn renders_as(self, description: RenderDescription) -> bool {
        &&& description.key@ == "window_"@ + self.name
        &&& description.is_visible == self.is_visible
        &&& geometry::as_ints((description.detail_width, description.detail_height))
            == self.main_table_size()
        &&& description.in_detail_view == self.in_detail_view()
        &&& description.main_tab == TabSlot::MainTab
        &&& render::sections_of(description.one_one_tabs@, self.one_one_tabs)
        &&& description.on_close_detail == Msg::CloseDetailView
        &&& description.show_related_tabs == self.is_show_related_tabs()
        &&& render::has_many_links_of(description.has_many_links@, self.has_many_tabs)
        &&& render::indirect_links_of(description.indirect_links@, self.indirect_tabs)
        &&& render::has_many_slots_of(description.has_many_tabs@, self.has_many_tabs.len())
        &&& render::indirect_slots_of(description.indirect_tabs@, self.indirect_tabs)
    }
}

/// Whether `active` selects position `i`.
pub open spec fn at(active: Option<usize>, i: int) -> bool {
    active matches Some(index) && index == i
}

} // verus!
