//! The normalized records a run produces.

use vstd::prelude::*;

use crate::cells::UtcTime;
use crate::time::chrono_local_now_seconds;

verus! {

/// One day of a summary series: the day's date and its count.
#[derive(Clone, Copy, Debug, PartialEq, Eq, Structural)]
pub struct SummaryContent {
    pub date: UtcTime,
    pub sum: u32,
}

/// A dated series with the instant the data was last updated.
#[derive(Debug)]
pub struct Summary {
    pub data: Vec<SummaryContent>,
    pub last_update: i64,
}

/// The tag of a node in the status tree.
#[derive(Clone, Copy, Debug, PartialEq, Eq, Structural)]
pub enum Attributes {
    Inspections,
    Patients,
    Hospitalizations,
    SeverelyPatients,
    Other,
    Accommodations,
    Home,
    Dead,
    Leave,
    Coordinating,
}

/// A node of the case-status tree.
pub struct Status {
    pub attr: Attributes,
    pub value: u32,
    pub children: Option<Vec<Status>>,
    pub last_update: Option<i64>,
}

/// One news entry: its date (days since 1970-01-01), text and link.
#[derive(Debug)]
pub struct NewsItem {
    pub date: i64,
    pub text: String,
    pub url: String,
}

/// The news entries in worksheet row order.
#[derive(Debug)]
pub struct NewsItems {
    pub news_items: Vec<NewsItem>,
}

/// The instant of the newest ingested data, persisted between runs and
/// compared by the freshness gate.
#[derive(Clone, Copy, Debug, PartialEq, Eq, Structural)]
pub struct LastUpdate {
    pub datetime: i64,
}

impl LastUpdate {
    /// The current local wall-clock instant, for a run that reads a local
    /// spreadsheet and so bypasses the freshness gate. Nothing is promised
    /// of the clock's value.
    pub fn now() -> LastUpdate {
        LastUpdate { datetime: chrono_local_now_seconds() }
    }
}

} // verus!
