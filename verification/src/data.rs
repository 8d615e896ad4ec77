//! What a window is made from: the descriptor of its tabs, and the payload
//! of rows that fills them.

use vstd::prelude::*;

verus! {

/// One record: the text of each of its cells, in column order.
pub type DataRow = Vec<String>;

/// The identity of a table: its name, and the schema and alias where it has
/// them.
#[derive(Debug, PartialEq, Eq)]
pub struct TableName {
    pub name: String,
    pub schema: Option<String>,
    pub alias: Option<String>,
}

impl Clone for TableName {
    fn clone(&self) -> (copy: Self)
        ensures
            copy == *self,
    {
        TableName {
            name: self.name.clone(),
            schema: self.schema.clone(),
            alias: self.alias.clone(),
        }
    }
}

/// The descriptor of one tab.
#[derive(Debug, PartialEq, Eq)]
pub struct Tab {
    pub name: String,
}

/// The descriptor of a tab that is reached through a linker table.
#[derive(Debug, PartialEq, Eq)]
pub struct IndirectTab {
    pub linker: TableName,
    pub tab: Tab,
}

/// The descriptor of a window: its main tab and the tabs that depend on it.
#[derive(Debug, PartialEq, Eq)]
pub struct Window {
    pub name: String,
    pub main_tab: Tab,
    pub one_one_tabs: Vec<Tab>,
    pub has_many_tabs: Vec<Tab>,
    pub indirect_tabs: Vec<IndirectTab>,
}

/// The rows that fill the tabs of a window. The entries for the one-to-one,
/// has-many and indirect tabs belong to the window's tabs by position.
#[derive(Debug, PartialEq, Eq)]
pub struct WindowData {
    pub sql_query: String,
    pub main_tab_data: Vec<Vec<DataRow>>,
    pub main_tab_current_page: usize,
    pub main_tab_total_rows: usize,
    pub main_tab_frozen_data: Vec<DataRow>,
    pub one_one_tab_data: Vec<Option<DataRow>>,
    pub has_many_tab_data: Vec<Vec<Vec<DataRow>>>,
    pub has_many_tab_current_page: Vec<usize>,
    pub has_many_tab_total_rows: Vec<usize>,
    pub indirect_tab_data: Vec<Vec<Vec<DataRow>>>,
    pub indirect_tab_current_page: Vec<usize>,
    pub indirect_tab_total_rows: Vec<usize>,
}

impl WindowData {
    /// The payload has one entry, with its row count, for each dependent tab
    /// of a window with that many tabs of each family.
    pub open spec fn fits(
        &self,
        one_one_tabs: nat,
        has_many_tabs: nat,
        indirect_tabs: nat,
    ) -> bool {
        &&& self.one_one_tab_data.len() == one_one_tabs
        &&& self.has_many_tab_data.len() == has_many_tabs
        &&& self.has_many_tab_total_rows.len() == has_many_tabs
        &&& self.indirect_tab_data.len() == indirect_tabs
        &&& self.indirect_tab_total_rows.len() == indirect_tabs
    }

    /// Tells whether the payload can fill the tabs that `window` describes.
    pub fn fits_window(&self, window: &Window) -> (ok: bool)
        ensures
            ok == self.fits(
                window.one_one_tabs.len() as nat,
                window.has_many_tabs.len() as nat,
                window.indirect_tabs.len() as nat,
            ),
    {
        self.one_one_tab_data.len() == window.one_one_tabs.len() && self.has_many_tab_data.len()
            == window.has_many_tabs.len() && self.has_many_tab_total_rows.len()
            == window.has_many_tabs.len() && self.indirect_tab_data.len()
            == window.indirect_tabs.len() && self.indirect_tab_total_rows.len()
            == window.indirect_tabs.len()
    }
}

} // verus!
