//! What a window hands to whatever draws it: flags, sizes, labels, the
//! message behind each control, and the place of each child tab, in order.
//! Nothing here knows how a window is drawn.

use vstd::prelude::*;
use crate::data::TableName;
use crate::tab_view;
use crate::tab_view::{TabState, TabView};
use crate::window_view::Msg;

verus! {

/// The place of a tab in its window. A message from inside a tab reaches
/// the window wrapped by the place it comes from.
#[derive(Debug, PartialEq, Eq)]
pub enum TabSlot {
    MainTab,
    OneOneTab(usize),
    HasManyTab(usize),
    IndirectTab(usize, TableName),
}

impl Clone for TabSlot {
    fn clone(&self) -> (copy: Self)
        ensures
            copy == *self,
    {
        match self {
            TabSlot::MainTab => TabSlot::MainTab,
            TabSlot::OneOneTab(index) => TabSlot::OneOneTab(*index),
            TabSlot::HasManyTab(index) => TabSlot::HasManyTab(*index),
            TabSlot::IndirectTab(index, table_name) => TabSlot::IndirectTab(
                *index,
                table_name.clone(),
            ),
        }
    }
}

impl TabSlot {
    /// The window's message for a message of the tab at this place.
    pub open spec fn wrapped(self, tab_msg: tab_view::Msg) -> Msg {
        match self {
            TabSlot::MainTab => Msg::MainTabMsg(tab_msg),
            TabSlot::OneOneTab(index) => Msg::OneOneTabMsg(index, tab_msg),
            TabSlot::HasManyTab(index) => Msg::HasManyTabMsg(index, tab_msg),
            TabSlot::IndirectTab(index, table_name) => Msg::IndirectTabMsg(
                index,
                (table_name, tab_msg),
            ),
        }
    }

    /// Wraps a message of the tab at this place for the window.
    pub fn wrap(&self, tab_msg: tab_view::Msg) -> (msg: Msg)
        ensures
            msg == self.wrapped(tab_msg),
    {
        match self {
            TabSlot::MainTab => Msg::MainTabMsg(tab_msg),
            TabSlot::OneOneTab(index) => Msg::OneOneTabMsg(*index, tab_msg),
            TabSlot::HasManyTab(index) => Msg::HasManyTabMsg(*index, tab_msg),
            TabSlot::IndirectTab(index, table_name) => Msg::IndirectTabMsg(
                *index,
                (table_name.clone(), tab_msg),
            ),
        }
    }
}

/// The link that selects a has-many or indirect tab.
#[derive(Debug, PartialEq)]
pub struct TabLink {
    pub label: String,
    /// The link of the tab that is shown is marked.
    pub is_active: bool,
    pub on_click: Msg,
}

/// A one-to-one tab under its heading.
#[derive(Debug, PartialEq, Eq)]
pub struct OneOneSection {
    pub summary: String,
    pub content: TabSlot,
}

/// A window, described for drawing.
#[derive(Debug, PartialEq)]
pub struct RenderDescription {
    /// Differs between windows, so that nothing drawn for one window is
    /// taken over for another that replaces it.
    pub key: String,
    pub is_visible: bool,
    /// The size of the panel that holds the main tab and the one-to-one
    /// tabs.
    pub detail_width: i32,
    pub detail_height: i32,
    /// In detail view the panel of the main tab scrolls, and the one-to-one
    /// tabs and the button that closes the detail view are shown.
    pub in_detail_view: bool,
    pub main_tab: TabSlot,
    pub one_one_tabs: Vec<OneOneSection>,
    pub on_close_detail: Msg,
    /// Whether the panel of the related tabs, links and contents, is shown.
    pub show_related_tabs: bool,
    pub has_many_links: Vec<TabLink>,
    pub indirect_links: Vec<TabLink>,
    pub has_many_tabs: Vec<TabSlot>,
    pub indirect_tabs: Vec<TabSlot>,
}

/// The sections are those of the one-to-one tabs, in order, each under the
/// name of its tab.
pub open spec fn sections_of(sections: Seq<OneOneSection>, tabs: Seq<TabState>) -> bool {
    &&& sections.len() == tabs.len()
    &&& forall|i: int|
        0 <= i < tabs.len() ==> (#[trigger] sections[i]).summary@ == tabs[i].name
            && sections[i].content == TabSlot::OneOneTab(i as usize)
}

/// The links are those of the has-many tabs, in order: each bears the name
/// of its tab, is marked when its tab is shown, and selects its tab.
pub open spec fn has_many_links_of(links: Seq<TabLink>, tabs: Seq<TabState>) -> bool {
    &&& links.len() == tabs.len()
    &&& forall|i: int|
        0 <= i < tabs.len() ==> (#[trigger] links[i]).label@ == tabs[i].name && links[i].is_active
            == tabs[i].is_visible && links[i].on_click == Msg::ShowHasManyTab(i as usize)
}

/// The links are those of the indirect tabs, in order: each bears the name
/// of its tab, is marked when its tab is shown, and selects its tab.
pub open spec fn indirect_links_of(links: Seq<TabLink>, tabs: Seq<(TableName, TabState)>) -> bool {
    &&& links.len() == tabs.len()
    &&& forall|i: int|
        0 <= i < tabs.len() ==> (#[trigger] links[i]).label@ == tabs[i].1.name
            && links[i].is_active == tabs[i].1.is_visible && links[i].on_click
            == Msg::ShowIndirectTab(i as usize)
}

/// The places are those of `count` has-many tabs, in order.
pub open spec fn has_many_slots_of(slots: Seq<TabSlot>, count: nat) -> bool {
    &&& slots.len() == count
    &&& forall|i: int| 0 <= i < count ==> #[trigger] slots[i] == TabSlot::HasManyTab(i as usize)
}

/// The places are those of the indirect tabs, in order, each with the
/// linker table of its tab.
pub open spec fn indirect_slots_of(slots: Seq<TabSlot>, tabs: Seq<(TableName, TabState)>) -> bool {
    &&& slots.len() == tabs.len()
    &&& forall|i: int|
        0 <= i < tabs.len() ==> #[trigger] slots[i] == TabSlot::IndirectTab(i as usize, tabs[i].0)
}

pub fn one_one_sections(tabs: &Vec<TabView>) -> (sections: Vec<OneOneSection>)
    ensures
        sections_of(sections@, crate::window_view::tab_states(tabs@)),
{
    let n = tabs.len();
    let mut sections: Vec<OneOneSection> = Vec::new();
    let mut index: usize = 0;
    while index < n
        invariant
            index <= n,
            n == tabs.len(),
            sections.len() == index,
            forall|i: int|
                0 <= i < index ==> (#[trigger] sections[i]).summary@ == tabs[i].name@
                    && sections[i].content == TabSlot::OneOneTab(i as usize),
        decreases n - index,
    {
        sections.push(
            OneOneSection { summary: tabs[index].name.clone(), content: TabSlot::OneOneTab(index) },
        );
        index += 1;
    }
    sections
}

pub fn has_many_links(tabs: &Vec<TabView>) -> (links: Vec<TabLink>)
    ensures
        has_many_links_of(links@, crate::window_view::tab_states(tabs@)),
{
    let n = tabs.len();
    let mut links: Vec<TabLink> = Vec::new();
    let mut index: usize = 0;
    while index < n
        invariant
            index <= n,
            n == tabs.len(),
            links.len() == index,
            forall|i: int|
                0 <= i < index ==> (#[trigger] links[i]).label@ == tabs[i].name@
                    && links[i].is_active == tabs[i].is_visible && links[i].on_click
                    == Msg::ShowHasManyTab(i as usize),
        decreases n - index,
    {
        links.push(
            TabLink {
                label: tabs[index].name.clone(),
                is_active: tabs[index].is_visible,
                on_click: Msg::ShowHasManyTab(index),
            },
        );
        index += 1;
    }
    links
}

pub fn indirect_links(tabs: &Vec<(TableName, TabView)>) -> (links: Vec<TabLink>)
    ensures
        indirect_links_of(links@, crate::window_view::linked_tab_states(tabs@)),
{
    let n = tabs.len();
    let mut links: Vec<TabLink> = Vec::new();
    let mut index: usize = 0;
    while index < n
        invariant
            index <= n,
            n == tabs.len(),
            links.len() == index,
            forall|i: int|
                0 <= i < index ==> (#[trigger] links[i]).label@ == tabs[i].1.name@
                    && links[i].is_active == tabs[i].1.is_visible && links[i].on_click
                    == Msg::ShowIndirectTab(i as usize),
        decreases n - index,
    {
        links.push(
            TabLink {
                label: tabs[index].1.name.clone(),
                is_active: tabs[index].1.is_visible,
                on_click: Msg::ShowIndirectTab(index),
            },
        );
        index += 1;
    }
    links
}

pub fn has_many_slots(count: usize) -> (slots: Vec<TabSlot>)
    ensures
        has_many_slots_of(slots@, count as nat),
{
    let mut slots: Vec<TabSlot> = Vec::new();
    let mut index: usize = 0;
    while index < count
        invariant
            index <= count,
            slots.len() == index,
            forall|i: int| 0 <= i < index ==> #[trigger] slots[i] == TabSlot::HasManyTab(i as usize),
        decreases count - index,
    {
        slots.push(TabSlot::HasManyTab(index));
        index += 1;
    }
    slots
}

pub fn indirect_slots(tabs: &Vec<(TableName, TabView)>) -> (slots: Vec<TabSlot>)
    ensures
        indirect_slots_of(slots@, crate::window_view::linked_tab_states(tabs@)),
{
    let n = tabs.len();
    let mut slots: Vec<TabSlot> = Vec::new();
    let mut index: usize = 0;
    while index < n
        invariant
            index <= n,
            n == tabs.len(),
            slots.len() == index,
            forall|i: int|
                0 <= i < index ==> #[trigger] slots[i] == TabSlot::IndirectTab(
                    i as usize,
                    tabs[i].0,
                ),
        decreases n - index,
    {
        slots.push(TabSlot::IndirectTab(index, tabs[index].0.clone()));
        index += 1;
    }
    slots
}

} // verus!
