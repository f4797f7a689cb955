//! The persistence boundary: the record types history queries and metric
//! summaries travel in, and the one piece of query logic that is decided
//! here rather than in storage.  The storage engine itself lives outside
//! this core; the driver hands these values across.

use vstd::prelude::*;
use crate::textops::str_eq;

verus! {

/// One stored translation.
#[derive(Debug, Clone)]
pub struct TranslationRecord {
    /// Row identifier.
    pub id: i64,
    /// The captured text.
    pub original_text: String,
    /// The injected translation.
    pub translated_text: String,
    /// Detected source language, when known.
    pub source_lang: Option<String>,
    /// The target language of the run.
    pub target_lang: String,
    /// Which capture the run performed, as its record label.
    pub mode: String,
    /// Seconds since the epoch.
    pub timestamp: i64,
}

/// One page of history together with the total count.
#[derive(Debug, Clone)]
pub struct HistoryResult {
    /// The records of the requested page, newest first.
    pub records: Vec<TranslationRecord>,
    /// How many records match in all.
    pub total: i64,
}

/// How often one error category occurred.
#[derive(Debug, Clone)]
pub struct ErrorDistribution {
    /// The category label.
    pub error_type: String,
    /// Occurrences within the queried period.
    pub count: i64,
}

/// How far back a statistics period reaches, in seconds: an hour, a day, a
/// week, and a day for anything unrecognized.
pub open spec fn spec_period_seconds(period: Seq<char>) -> u64 {
    if period == "hour"@ {
        3600
    } else if period == "day"@ {
        86400
    } else if period == "week"@ {
        604800
    } else {
        86400
    }
}

/// The length of a statistics period in seconds.
pub fn period_seconds(period: &str) -> (r: u64)
    ensures
        r == spec_period_seconds(period@),
{
    if str_eq(period, "hour") {
        3600
    } else if str_eq(period, "day") {
        86400
    } else if str_eq(period, "week") {
        604800
    } else {
        86400
    }
}

} // verus!
