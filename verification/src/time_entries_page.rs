use vstd::prelude::*;
use vstd::string::StringExecFns;

use crate::models::TimeEntry;

verus! {

/// The log page: the time entries it lists.
#[derive(Debug)]
pub struct TimeEntriesPage {
    pub time_entries: Vec<TimeEntry>,
}

/// What the log page is told. No message is handled yet: a page that
/// receives one has nothing it can do with it.
#[derive(Debug)]
pub enum Message {
    Test,
}

impl TimeEntriesPage {
    /// An empty log.
    pub fn new() -> (p: TimeEntriesPage)
        ensures
            p.time_entries@.len() == 0,
    {
        TimeEntriesPage { time_entries: Vec::new() }
    }

    /// The text the page shows.
    pub fn display(&self) -> (s: String)
        ensures
            s@ == "Hello"@,
    {
        String::from_str("Hello")
    }
}

} // verus!
