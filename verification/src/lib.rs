//! Core of a terminal client for a remote issue tracker: the navigation
//! state machine, list-selection and scroll bookkeeping, and the widget
//! composition that turns loaded teams, issues and issue detail into
//! render plans. All I/O (HTTP fetches, key polling, terminal painting)
//! lives outside this crate; the functions here work on plain values.

pub mod app;

pub mod events;

pub mod issue_detail;

pub mod issues_list;

pub mod layout;

pub mod models;

pub mod scroll;

pub mod scrollable_text;

pub mod selection;

pub mod style;

pub mod styled_list;

pub mod teams_list;

pub mod text;
