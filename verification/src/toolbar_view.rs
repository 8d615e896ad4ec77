//! The state of the toolbar: the query text, the switch that shows the
//! related tabs, the size it was given and the height it takes.

use vstd::prelude::*;

verus! {

/// What happens inside the toolbar.
#[derive(Debug, PartialEq, Eq)]
pub enum Msg {
    /// The switch that shows or hides the related tabs was flipped.
    ToggleShowRelatedTabs,
    /// The query text was edited.
    SqlQueryChanged(String),
    /// The toolbar now takes this many pixels of height.
    HeightChanged(u32),
}

impl Clone for Msg {
    fn clone(&self) -> (copy: Self)
        ensures
            copy == *self,
    {
        match self {
            Msg::ToggleShowRelatedTabs => Msg::ToggleShowRelatedTabs,
            Msg::SqlQueryChanged(sql_query) => Msg::SqlQueryChanged(sql_query.clone()),
            Msg::HeightChanged(consumed_height) => Msg::HeightChanged(*consumed_height),
        }
    }
}

/// The toolbar as contracts see it.
pub struct ToolbarState {
    pub sql_query: Seq<char>,
    pub show_related_tabs: bool,
    pub allocated_size: (int, int),
    pub consumed_height: u32,
}

impl ToolbarState {
    /// A toolbar that was just made: no query, related tabs switched on,
    /// no size yet, no height taken.
    pub open spec fn initial() -> ToolbarState {
        ToolbarState {
            sql_query: Seq::empty(),
            show_related_tabs: true,
            allocated_size: (0, 0),
            consumed_height: 0,
        }
    }

    pub open spec fn with_sql_query(self, sql_query: Seq<char>) -> ToolbarState {
        ToolbarState { sql_query, ..self }
    }

    pub open spec fn with_allocated_size(self, allocated_size: (int, int)) -> ToolbarState {
        ToolbarState { allocated_size, ..self }
    }

    /// The toolbar after a message from inside it.
    pub open spec fn step(self, msg: Msg) -> ToolbarState {
        match msg {
            Msg::ToggleShowRelatedTabs => ToolbarState {
                show_related_tabs: !self.show_related_tabs,
                ..self
            },
            Msg::SqlQueryChanged(sql_query) => self.with_sql_query(sql_query@),
            Msg::HeightChanged(consumed_height) => ToolbarState { consumed_height, ..self },
        }
    }
}

/// The toolbar of a window.
#[derive(Debug)]
pub struct ToolbarView {
    pub sql_query: String,
    pub show_related_tabs: bool,
    pub allocated_width: i32,
    pub allocated_height: i32,
    pub consumed_height: u32,
}

impl View for ToolbarView {
    type V = ToolbarState;

    open spec fn view(&self) -> ToolbarState {
        ToolbarState {
            sql_query: self.sql_query@,
            show_related_tabs: self.show_related_tabs,
            allocated_size: (self.allocated_width as int, self.allocated_height as int),
            consumed_height: self.consumed_height,
        }
    }
}

impl ToolbarView {
    pub fn new() -> (toolbar_view: ToolbarView)
        ensures
            toolbar_view@ == ToolbarState::initial(),
    {
        ToolbarView {
            sql_query: String::new(),
            show_related_tabs: true,
            allocated_width: 0,
            allocated_height: 0,
            consumed_height: 0,
        }
    }

    pub fn set_sql_query(&mut self, sql_query: &String)
        ensures
            final(self)@ == old(self)@.with_sql_query(sql_query@),
    {
        self.sql_query = sql_query.clone();
    }

    pub fn set_allocated_size(&mut self, size: (i32, i32))
        ensures
            final(self)@ == old(self)@.with_allocated_size((size.0 as int, size.1 as int)),
    {
        self.allocated_width = size.0;
        self.allocated_height = size.1;
    }

    pub fn get_consumed_height(&self) -> (height: u32)
        ensures
            height == self@.consumed_height,
    {
        self.consumed_height
    }

    pub fn update(&mut self, msg: Msg)
        ensures
            final(self)@ == old(self)@.step(msg),
    {
        match msg {
            Msg::ToggleShowRelatedTabs => {
                self.show_related_tabs = !self.show_related_tabs;
            },
            Msg::SqlQueryChanged(sql_query) => {
                self.sql_query = sql_query;
            },
            Msg::HeightChanged(consumed_height) => {
                self.consumed_height = consumed_height;
            },
        }
    }
}

} // verus!
