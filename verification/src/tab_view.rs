//! The state of one tab: the rows of one table, whether a single record of
//! it is zoomed, whether the tab is shown, and the size it was given.

use vstd::prelude::*;
use crate::cmd::Cmd;
use crate::data::{DataRow, Tab};

verus! {

/// What happens inside a tab.
#[derive(Debug, Clone, Copy, PartialEq, Eq, Structural)]
pub enum Msg {
    /// The row at (page, row) was opened: its detail has to be fetched.
    RowOpened(usize, usize),
    /// The zoomed record was closed from inside the tab.
    CloseDetailView,
}

/// A tab as contracts see it.
pub struct TabState {
    pub name: Seq<char>,
    pub is_visible: bool,
    pub is_one_one: bool,
    /// The page and row of the zoomed record, while one is zoomed.
    pub detail: Option<(usize, usize)>,
    pub size: (int, int),
    pub pages: Seq<Seq<Seq<Seq<char>>>>,
    pub current_page: usize,
    pub total_rows: usize,
    pub frozen_data: Seq<Seq<Seq<char>>>,
}

impl TabState {
    /// A tab that was just made: shown, without rows, with no size yet.
    pub open spec fn initial(name: Seq<char>) -> TabState {
        TabState {
            name,
            is_visible: true,
            is_one_one: false,
            detail: None,
            size: (0, 0),
            pages: Seq::empty(),
            current_page: 0,
            total_rows: 0,
            frozen_data: Seq::empty(),
        }
    }

    pub open spec fn in_detail_view(self) -> bool {
        self.detail is Some
    }

    pub open spec fn with_visible(self, is_visible: bool) -> TabState {
        TabState { is_visible, ..self }
    }

    pub open spec fn with_size(self, size: (int, int)) -> TabState {
        TabState { size, ..self }
    }

    /// New rows replace the old ones, and the frozen data that belonged to
    /// the old rows goes with them.
    pub open spec fn with_pages(
        self,
        pages: Seq<Seq<Seq<Seq<char>>>>,
        current_page: usize,
        total_rows: usize,
    ) -> TabState {
        TabState { pages, current_page, total_rows, frozen_data: Seq::empty(), ..self }
    }

    pub open spec fn with_frozen_data(self, frozen_data: Seq<Seq<Seq<char>>>) -> TabState {
        TabState { frozen_data, ..self }
    }

    /// The record, where there is one, becomes the only row of the tab.
    pub open spec fn with_one_one_record(self, record: Option<Seq<Seq<char>>>) -> TabState {
        match record {
            Some(row) => self.with_pages(seq![seq![row]], 0, 1),
            None => self.with_pages(Seq::empty(), 0, 0),
        }
    }

    /// The tab after a message from inside it.
    pub open spec fn step(self, msg: Msg) -> TabState {
        match msg {
            Msg::RowOpened(_, _) => self,
            Msg::CloseDetailView => TabState { detail: None, ..self },
        }
    }

    /// What a message from inside the tab asks of the host.
    pub open spec fn command(self, msg: Msg) -> Cmd {
        match msg {
            Msg::RowOpened(page_index, row_index) => Cmd::FetchRecordDetail {
                page_index,
                row_index,
            },
            Msg::CloseDetailView => Cmd::Nothing,
        }
    }
}

/// One tab of a window.
#[derive(Debug)]
pub struct TabView {
    pub name: String,
    pub is_visible: bool,
    pub is_one_one: bool,
    pub detail: Option<(usize, usize)>,
    pub width: i32,
    pub height: i32,
    pub pages: Vec<Vec<DataRow>>,
    pub current_page: usize,
    pub total_rows: usize,
    pub frozen_data: Vec<DataRow>,
}

impl View for TabView {
    type V = TabState;

    open spec fn view(&self) -> TabState {
        TabState {
            name: self.name@,
            is_visible: self.is_visible,
            is_one_one: self.is_one_one,
            detail: self.detail,
            size: (self.width as int, self.height as int),
            pages: self.pages.deep_view(),
            current_page: self.current_page,
            total_rows: self.total_rows,
            frozen_data: self.frozen_data.deep_view(),
        }
    }
}

impl TabView {
    pub fn new(tab: Tab) -> (tab_view: TabView)
        ensures
            tab_view@ == TabState::initial(tab.name@),
    {
        let tab_view = TabView {
            name: tab.name,
            is_visible: true,
            is_one_one: false,
            detail: None,
            width: 0,
            height: 0,
            pages: Vec::new(),
            current_page: 0,
            total_rows: 0,
            frozen_data: Vec::new(),
        };
        assert(tab_view.pages.deep_view() =~= Seq::empty());
        assert(tab_view.frozen_data.deep_view() =~= Seq::empty());
        tab_view
    }

    pub fn set_is_one_one(&mut self, is_one_one: bool)
        ensures
            final(self)@ == (TabState { is_one_one, ..old(self)@ }),
    {
        self.is_one_one = is_one_one;
    }

    pub fn set_pages(&mut self, pages: &Vec<Vec<DataRow>>, current_page: usize, total_rows: usize)
        ensures
            final(self)@ == old(self)@.with_pages(pages.deep_view(), current_page, total_rows),
    {
        self.pages = pages.clone();
        self.current_page = current_page;
        self.total_rows = total_rows;
        self.frozen_data = Vec::new();
        assert(self.frozen_data.deep_view() =~= Seq::empty());
    }

    pub fn set_frozen_data(&mut self, frozen_data: &Vec<DataRow>)
        ensures
            final(self)@ == old(self)@.with_frozen_data(frozen_data.deep_view()),
    {
        self.frozen_data = frozen_data.clone();
    }

    pub fn set_one_one_record(&mut self, record: &Option<DataRow>)
        ensures
            final(self)@ == old(self)@.with_one_one_record(record.deep_view()),
    {
        match record {
            Some(row) => {
                let copy = row.clone();
                assert(copy.deep_view() == row.deep_view());
                let mut page: Vec<DataRow> = Vec::new();
                page.push(copy);
                assert(page.deep_view() =~= seq![row.deep_view()]);
                let mut pages: Vec<Vec<DataRow>> = Vec::new();
                pages.push(page);
                assert(pages.deep_view() =~= seq![seq![row.deep_view()]]);
                self.set_pages(&pages, 0, 1);
            },
            None => {
                let pages: Vec<Vec<DataRow>> = Vec::new();
                assert(pages.deep_view() =~= Seq::empty());
                self.set_pages(&pages, 0, 0);
            },
        }
    }

    pub fn set_table_size(&mut self, size: (i32, i32))
        ensures
            final(self)@ == old(self)@.with_size((size.0 as int, size.1 as int)),
    {
        self.width = size.0;
        self.height = size.1;
    }

    pub fn show(&mut self)
        ensures
            final(self)@ == old(self)@.with_visible(true),
    {
        self.is_visible = true;
    }

    pub fn hide_tab(&mut self)
        ensures
            final(self)@ == old(self)@.with_visible(false),
    {
        self.is_visible = false;
    }

    pub fn in_detail_view(&self) -> (zoomed: bool)
        ensures
            zoomed == self@.in_detail_view(),
    {
        self.detail.is_some()
    }

    pub fn show_detail_view(&mut self, page_index: usize, row_index: usize)
        ensures
            final(self)@ == (TabState { detail: Some((page_index, row_index)), ..old(self)@ }),
    {
        self.detail = Some((page_index, row_index));
    }

    pub fn close_detail_view(&mut self)
        ensures
            final(self)@ == (TabState { detail: None, ..old(self)@ }),
    {
        self.detail = None;
    }

    pub fn update(&mut self, msg: Msg) -> (cmd: Cmd)
        ensures
            final(self)@ == old(self)@.step(msg),
            cmd == old(self)@.command(msg),
    {
        match msg {
            Msg::RowOpened(page_index, row_index) => Cmd::FetchRecordDetail {
                page_index,
                row_index,
            },
            Msg::CloseDetailView => {
                self.close_detail_view();
                Cmd::none()
            },
        }
    }
}

} // verus!
