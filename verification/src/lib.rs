//! Presentation state of one window of a database browser: a main record
//! table, its one-to-one sub-tables and two families of dependent tables
//! (has-many and indirect), together with the layout arithmetic that derives
//! every panel size from the browser viewport.

pub mod cmd;
pub mod data;
pub mod geometry;
pub mod laws;
pub mod render;
pub mod state;
pub mod tab_view;
pub mod text;
pub mod toolbar_view;
pub mod window_view;
