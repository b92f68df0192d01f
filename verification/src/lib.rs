//! Core logic of a time-tracking client for Toggl Track and Kimai:
//! the data model, the text the user interface shows, the request plans
//! sent to each service, the interpretation of their answers, the state
//! machines of the panel applet, its pages and the stand-alone stopwatch,
//! and the decisions of the line-based backend for shell panels.
pub mod text;
pub mod models;
pub mod clock;
pub mod error;
pub mod request;
pub mod toggl;
pub mod kimai;
pub mod credentials;
pub mod applet;
pub mod state;
pub mod timer_page;
pub mod settings_page;
pub mod backend;
pub mod locale;
pub mod time_entries_page;
pub mod panel;
